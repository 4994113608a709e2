# roblox_rs

A compiler from a subset of Rust to Luau for Roblox, with the Luau runtime
library compiled code links against, written in Verus: each function of the
library carries a contract that Verus proves.

- `src/` is the library. `compiler` compiles Rust source (parsed by `syn`
  and read into plain values by `syntax`, which parses one piece of text
  at a time and is verified against what each parse gives) to Luau
  through `transformer`, which translates items, and `transform`, which
  translates function bodies: `let`, assignments, `if`/`else`, `return`,
  calls, paths, literals, arrays, tuples and binary operators (a body
  outside that subset becomes a placeholder); `luau` prints the result;
  `transform` also turns whole sources into the node tree of `ast::luau`;
  `runtime` holds the Luau runtime library; `codegen` writes Luau for the
  optimization node tree of `ast::luau` under the hints that
  `analysis::analyzer` finds and `optimize::optimized` applies; `debug`,
  `memory`, `analysis`, `optimize` and `parallel` are the debugger, object
  pools, lifetime analysis and Luau tree passes;
  `dependencies`, `rojo`, `packaging` and `cli` decide what the tools write.
  Public `law_*` proof functions state what holds across operations.
- `tests/` exercises the library on concrete values.
- `app/` is the command-line program and everything that touches the file
  system, processes, JSON, the clock, or the simulated Roblox API.

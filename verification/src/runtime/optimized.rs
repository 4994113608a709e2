//! Luau helpers for operations specialised by value type, and the
//! registry of the optimizers that write them.

use vstd::prelude::*;
use crate::keyed::{find_key, keyed_map, keys_unique, lemma_key_index, lemma_keyed_map, lemma_put, put, str_eq};
use crate::text::{decimal, join, join_strings, usize_to_string, views};

verus! {

/// The SIMD emulation helpers every runtime starts with.
pub const SIMD_HELPERS_SRC: &'static str = "local SimdHelpers = {\n    -- Vector operation helpers\n    add4 = function(a, b, c, d)\n        return {a + b, b + c, c + d, d + a}\n    end,\n\n    mul4 = function(a, b, c, d)\n        return {a * b, b * c, c * d, d * a}\n    end,\n\n    -- Parallel array operations\n    mapChunks = function(arr, chunkSize, fn)\n        local result = table.create(#arr)\n        for i = 1, #arr, chunkSize do\n            local chunk = table.create(chunkSize)\n            for j = 0, chunkSize - 1 do\n                if i + j <= #arr then\n                    chunk[j + 1] = arr[i + j]\n                end\n            end\n            local processed = fn(chunk)\n            for j = 1, #processed do\n                if i + j - 1 <= #arr then\n                    result[i + j - 1] = processed[j]\n                end\n            end\n        end\n        return result\n    end,\n}\n\n";

/// The array helpers.
pub const ARRAY_HELPERS_SRC: &'static str = "\nlocal ArrayOptimizer = {\n    -- Optimized array operations\n    fastMap = function(arr, fn)\n        return SimdHelpers.mapChunks(arr, 4, fn)\n    end,\n\n    fastFilter = function(arr, predicate)\n        local result = {}\n        local index = 1\n        -- Process in chunks for better cache utilization\n        for i = 1, #arr, 4 do\n            local chunk = {arr[i], arr[i+1], arr[i+2], arr[i+3]}\n            for _, v in ipairs(chunk) do\n                if v and predicate(v) then\n                    result[index] = v\n                    index = index + 1\n                end\n            end\n        end\n        return result\n    end,\n\n    fastReduce = function(arr, fn, initial)\n        local result = initial or arr[1]\n        local start = initial and 1 or 2\n        -- Process in chunks\n        for i = start, #arr, 4 do\n            local chunk = {arr[i], arr[i+1], arr[i+2], arr[i+3]}\n            for _, v in ipairs(chunk) do\n                if v then\n                    result = fn(result, v)\n                end\n            end\n        end\n        return result\n    end,\n}\n";

/// The number helpers.
pub const NUMBER_HELPERS_SRC: &'static str = "\nlocal NumberOptimizer = {\n    -- Fast math operations\n    fastPow = function(base, exp)\n        if exp == 0 then return 1 end\n        if exp == 1 then return base end\n        if exp % 2 == 0 then\n            local half = NumberOptimizer.fastPow(base, exp/2)\n            return half * half\n        else\n            return base * NumberOptimizer.fastPow(base, exp-1)\n        end\n    end,\n\n    fastAbs = function(x)\n        return x < 0 and -x or x\n    end,\n\n    fastRound = function(x)\n        return x + 0.5 - (x + 0.5) % 1\n    end,\n}\n";

/// The string helpers.
pub const STRING_HELPERS_SRC: &'static str = "\nlocal StringOptimizer = {\n    -- Fast string operations\n    fastSplit = function(str, sep)\n        local result = {}\n        local index = 1\n        local pattern = sep and sep ~= \"\" and sep or \".\"\n        \n        -- Use a buffer for better performance\n        local buffer = table.create(128)\n        local bufferSize = 0\n        \n        for c in string.gmatch(str, pattern) do\n            bufferSize = bufferSize + 1\n            buffer[bufferSize] = c\n            \n            -- Flush buffer when full\n            if bufferSize == 128 then\n                result[index] = table.concat(buffer)\n                index = index + 1\n                bufferSize = 0\n            end\n        end\n        \n        -- Flush remaining buffer\n        if bufferSize > 0 then\n            result[index] = table.concat(buffer, \"\", 1, bufferSize)\n        end\n        \n        return result\n    end,\n\n    fastConcat = function(strings, sep)\n        local buffer = table.create(#strings * 2 - 1)\n        local index = 1\n        \n        for i, str in ipairs(strings) do\n            buffer[index] = str\n            index = index + 1\n            if i < #strings and sep then\n                buffer[index] = sep\n                index = index + 1\n            end\n        end\n        \n        return table.concat(buffer)\n    end,\n}\n";

/// What optimizes the allocations and operations of one value type.
pub trait TypeOptimizer {
    /// Whether `optimize_operation` has, among `arg_count` arguments, those
    /// it reads for `op`.
    spec fn takes(&self, op: Seq<char>, arg_count: nat) -> bool;

    /// The Luau expression that allocates a value of `size`.
    fn optimize_allocation(&self, size: usize) -> String;

    /// The Luau code for the operation `op` on `args`.
    fn optimize_operation(&self, op: &str, args: &[String]) -> String
        requires
            self.takes(op@, args@.len()),
    ;

    /// The Luau helpers the optimized code calls.
    fn generate_helpers(&self) -> String;
}

/// Array-specific optimizations.
#[derive(Debug, Clone, Copy)]
pub struct ArrayOptimizer {
    pub chunk_size: usize,
}

/// Number-specific optimizations.
#[derive(Debug, Clone, Copy)]
pub struct NumberOptimizer;

/// String-specific optimizations.
#[derive(Debug, Clone, Copy)]
pub struct StringOptimizer;

/// The text of a comment for an operation that has no optimization.
pub open spec fn no_optimization_text(op: Seq<char>) -> Seq<char> {
    "-- No optimization for operation: "@ + op
}

/// The comment for an operation that has no optimization.
fn no_optimization(op: &str) -> (r: String)
    ensures
        r@ == no_optimization_text(op@),
{
    let mut s = String::from_str("-- No optimization for operation: ");
    s.append(op);
    s
}

/// `table.create(<size>)`.
pub open spec fn table_create_text(size: usize) -> Seq<char> {
    "table.create("@ + decimal(size as nat) + ")"@
}

/// `table.create(<size>)`.
fn table_create(size: usize) -> (r: String)
    ensures
        r@ == table_create_text(size),
{
    let mut s = String::from_str("table.create(");
    s.append(usize_to_string(size).as_str());
    s.append(")");
    s
}

/// The code the array optimizer writes for `op` on `args`.
pub open spec fn array_operation_text(chunk_size: usize, op: Seq<char>, args: Seq<Seq<char>>) -> Seq<char> {
    if op == "map"@ {
        "SimdHelpers.mapChunks("@ + args[0] + ", "@ + decimal(chunk_size as nat)
            + ", function(chunk) return "@ + args[1] + " end)"@
    } else if op == "reduce"@ {
        "local result = 0\n for _, v in ipairs("@ + args[0]
            + ") do result = result + v end\n return result"@
    } else {
        no_optimization_text(op)
    }
}

/// The code the number optimizer writes for `op` on `args`.
pub open spec fn number_operation_text(op: Seq<char>, args: Seq<Seq<char>>) -> Seq<char> {
    if op == "add"@ {
        "("@ + args[0] + " + "@ + args[1] + ")"@
    } else if op == "mul"@ {
        "("@ + args[0] + " * "@ + args[1] + ")"@
    } else if op == "pow"@ {
        "NumberOptimizer.fastPow("@ + args[0] + ", "@ + args[1] + ")"@
    } else {
        no_optimization_text(op)
    }
}

/// The code the string optimizer writes for `op` on `args`; a split
/// without a separator splits on `''`.
pub open spec fn string_operation_text(op: Seq<char>, args: Seq<Seq<char>>) -> Seq<char> {
    if op == "concat"@ {
        "StringOptimizer.fastConcat({"@ + join(args, ", "@) + "})"@
    } else if op == "split"@ {
        "StringOptimizer.fastSplit("@ + args[0] + ", "@ + (if args.len() > 1 {
            args[1]
        } else {
            "''"@
        }) + ")"@
    } else {
        no_optimization_text(op)
    }
}

impl ArrayOptimizer {
    /// An array optimizer that works in chunks of four.
    pub fn new() -> (r: Self)
        ensures
            r.chunk_size == 4,
    {
        ArrayOptimizer { chunk_size: 4 }
    }
}

impl TypeOptimizer for ArrayOptimizer {
    open spec fn takes(&self, op: Seq<char>, arg_count: nat) -> bool {
        &&& op == "map"@ ==> arg_count >= 2
        &&& op == "reduce"@ ==> arg_count >= 1
    }

    fn optimize_allocation(&self, size: usize) -> (r: String)
        ensures
            r@ == table_create_text(size),
    {
        table_create(size)
    }

    fn optimize_operation(&self, op: &str, args: &[String]) -> (r: String)
        ensures
            r@ == array_operation_text(self.chunk_size, op@, views(args@)),
    {
        if str_eq(op, "map") {
            let mut s = String::from_str("SimdHelpers.mapChunks(");
            s.append(args[0].as_str());
            s.append(", ");
            s.append(usize_to_string(self.chunk_size).as_str());
            s.append(", function(chunk) return ");
            s.append(args[1].as_str());
            s.append(" end)");
            s
        } else if str_eq(op, "reduce") {
            let mut s = String::from_str("local result = 0\n for _, v in ipairs(");
            s.append(args[0].as_str());
            s.append(") do result = result + v end\n return result");
            s
        } else {
            no_optimization(op)
        }
    }

    fn generate_helpers(&self) -> (r: String)
        ensures
            r@ == ARRAY_HELPERS_SRC@,
    {
        String::from_str(ARRAY_HELPERS_SRC)
    }
}

impl NumberOptimizer {
    /// A number optimizer.
    pub fn new() -> (r: Self) {
        NumberOptimizer
    }
}

impl TypeOptimizer for NumberOptimizer {
    open spec fn takes(&self, op: Seq<char>, arg_count: nat) -> bool {
        op == "add"@ || op == "mul"@ || op == "pow"@ ==> arg_count >= 2
    }

    fn optimize_allocation(&self, size: usize) -> (r: String)
        ensures
            r@ == "0"@,
    {
        String::from_str("0")
    }

    fn optimize_operation(&self, op: &str, args: &[String]) -> (r: String)
        ensures
            r@ == number_operation_text(op@, views(args@)),
    {
        let add = str_eq(op, "add");
        let mul = str_eq(op, "mul");
        if add || mul {
            let mut s = String::from_str("(");
            s.append(args[0].as_str());
            s.append(if add { " + " } else { " * " });
            s.append(args[1].as_str());
            s.append(")");
            s
        } else if str_eq(op, "pow") {
            let mut s = String::from_str("NumberOptimizer.fastPow(");
            s.append(args[0].as_str());
            s.append(", ");
            s.append(args[1].as_str());
            s.append(")");
            s
        } else {
            no_optimization(op)
        }
    }

    fn generate_helpers(&self) -> (r: String)
        ensures
            r@ == NUMBER_HELPERS_SRC@,
    {
        String::from_str(NUMBER_HELPERS_SRC)
    }
}

impl StringOptimizer {
    /// A string optimizer.
    pub fn new() -> (r: Self) {
        StringOptimizer
    }
}

/// The strings of a slice, copied.
fn strings_of(args: &[String]) -> (r: Vec<String>)
    ensures
        r@ == args@,
{
    let mut out: Vec<String> = Vec::new();
    let mut i: usize = 0;
    while i < args.len()
        invariant
            i <= args@.len(),
            out@ == args@.take(i as int),
        decreases args@.len() - i,
    {
        out.push(args[i].clone());
        proof {
            assert(out@ =~= args@.take(i + 1));
        }
        i = i + 1;
    }
    proof {
        assert(args@.take(args@.len() as int) =~= args@);
    }
    out
}

impl TypeOptimizer for StringOptimizer {
    open spec fn takes(&self, op: Seq<char>, arg_count: nat) -> bool {
        op == "split"@ ==> arg_count >= 1
    }

    fn optimize_allocation(&self, size: usize) -> (r: String)
        ensures
            r@ == table_create_text(size),
    {
        table_create(size)
    }

    fn optimize_operation(&self, op: &str, args: &[String]) -> (r: String)
        ensures
            r@ == string_operation_text(op@, views(args@)),
    {
        if str_eq(op, "concat") {
            let mut s = String::from_str("StringOptimizer.fastConcat({");
            s.append(join_strings(&strings_of(args), ", ").as_str());
            s.append("})");
            s
        } else if str_eq(op, "split") {
            let mut s = String::from_str("StringOptimizer.fastSplit(");
            s.append(args[0].as_str());
            s.append(", ");
            if args.len() > 1 {
                s.append(args[1].as_str());
            } else {
                s.append("''");
            }
            s.append(")");
            s
        } else {
            no_optimization(op)
        }
    }

    fn generate_helpers(&self) -> (r: String)
        ensures
            r@ == STRING_HELPERS_SRC@,
    {
        String::from_str(STRING_HELPERS_SRC)
    }
}

/// One of the optimizers the runtime ships with.
#[derive(Debug, Clone, Copy)]
pub enum BuiltinOptimizer {
    Array(ArrayOptimizer),
    Number(NumberOptimizer),
    Str(StringOptimizer),
}

/// The code `o` writes for the operation `op` on `args`.
pub open spec fn operation_text(o: BuiltinOptimizer, op: Seq<char>, args: Seq<Seq<char>>) -> Seq<char> {
    match o {
        BuiltinOptimizer::Array(a) => array_operation_text(a.chunk_size, op, args),
        BuiltinOptimizer::Number(_) => number_operation_text(op, args),
        BuiltinOptimizer::Str(_) => string_operation_text(op, args),
    }
}

/// The helpers `o` writes.
pub open spec fn helpers_text(o: BuiltinOptimizer) -> Seq<char> {
    match o {
        BuiltinOptimizer::Array(_) => ARRAY_HELPERS_SRC@,
        BuiltinOptimizer::Number(_) => NUMBER_HELPERS_SRC@,
        BuiltinOptimizer::Str(_) => STRING_HELPERS_SRC@,
    }
}

/// The allocation `o` writes for `size`.
pub open spec fn allocation_text(o: BuiltinOptimizer, size: usize) -> Seq<char> {
    match o {
        BuiltinOptimizer::Number(_) => "0"@,
        _ => table_create_text(size),
    }
}

impl TypeOptimizer for BuiltinOptimizer {
    open spec fn takes(&self, op: Seq<char>, arg_count: nat) -> bool {
        match *self {
            BuiltinOptimizer::Array(a) => a.takes(op, arg_count),
            BuiltinOptimizer::Number(n) => n.takes(op, arg_count),
            BuiltinOptimizer::Str(t) => t.takes(op, arg_count),
        }
    }

    fn optimize_allocation(&self, size: usize) -> (r: String)
        ensures
            r@ == allocation_text(*self, size),
    {
        match self {
            BuiltinOptimizer::Array(a) => a.optimize_allocation(size),
            BuiltinOptimizer::Number(n) => n.optimize_allocation(size),
            BuiltinOptimizer::Str(t) => t.optimize_allocation(size),
        }
    }

    fn optimize_operation(&self, op: &str, args: &[String]) -> (r: String)
        ensures
            r@ == operation_text(*self, op@, views(args@)),
    {
        match self {
            BuiltinOptimizer::Array(a) => a.optimize_operation(op, args),
            BuiltinOptimizer::Number(n) => n.optimize_operation(op, args),
            BuiltinOptimizer::Str(t) => t.optimize_operation(op, args),
        }
    }

    fn generate_helpers(&self) -> (r: String)
        ensures
            r@ == helpers_text(*self),
    {
        match self {
            BuiltinOptimizer::Array(a) => a.generate_helpers(),
            BuiltinOptimizer::Number(n) => n.generate_helpers(),
            BuiltinOptimizer::Str(t) => t.generate_helpers(),
        }
    }
}

/// The helpers of each registered optimizer, in order, each under a comment
/// naming its type.
pub open spec fn sections_text(entries: Seq<(String, BuiltinOptimizer)>) -> Seq<char>
    decreases entries.len(),
{
    if entries.len() == 0 {
        Seq::empty()
    } else {
        sections_text(entries.drop_last()) + "-- Optimizations for "@ + entries.last().0@ + "\n"@
            + helpers_text(entries.last().1) + "\n"@
    }
}

/// The names of the registered types, in order.
pub open spec fn type_labels(entries: Seq<(String, BuiltinOptimizer)>) -> Seq<Seq<char>> {
    entries.map_values(|e: (String, BuiltinOptimizer)| e.0@)
}

/// Runtime helpers for optimized operations, with an optimizer per value
/// type.
#[derive(Debug)]
pub struct RuntimeOptimizer {
    type_optimizers: Vec<(String, BuiltinOptimizer)>,
}

impl RuntimeOptimizer {
    /// No type is registered twice.
    pub closed spec fn wf(&self) -> bool {
        keys_unique(self.type_optimizers@)
    }

    /// The registered optimizers, in the order their types were first
    /// registered.
    pub closed spec fn registered(&self) -> Seq<(String, BuiltinOptimizer)> {
        self.type_optimizers@
    }

    /// The optimizer of each registered type.
    pub open spec fn optimizers(&self) -> Map<Seq<char>, BuiltinOptimizer> {
        keyed_map(self.registered())
    }

    /// A runtime optimizer with the array, number and string optimizers
    /// registered.
    pub fn new() -> (r: Self)
        ensures
            r.wf(),
            type_labels(r.registered()) == seq!["array"@, "number"@, "string"@],
            r.optimizers() == map![
                "array"@ => BuiltinOptimizer::Array(ArrayOptimizer { chunk_size: 4 }),
                "number"@ => BuiltinOptimizer::Number(NumberOptimizer),
                "string"@ => BuiltinOptimizer::Str(StringOptimizer),
            ],
    {
        let mut optimizer = RuntimeOptimizer { type_optimizers: Vec::new() };
        proof {
            assert(optimizer.optimizers() =~= Map::<Seq<char>, BuiltinOptimizer>::empty());
            assert(type_labels(optimizer.registered()) =~= Seq::<Seq<char>>::empty());
        }
        proof {
            reveal_strlit("array");
            reveal_strlit("number");
            reveal_strlit("string");
            assert("number"@.len() != "array"@.len());
            assert("string"@ != "array"@ && "string"@ != "number"@) by {
                assert("string"@[0] != "array"@[0] && "string"@[0] != "number"@[0]);
            }
        }
        optimizer.register_type_optimizer("array", BuiltinOptimizer::Array(ArrayOptimizer::new()));
        assert(type_labels(optimizer.registered()) =~= seq!["array"@]);
        assert(!optimizer.optimizers().contains_key("number"@));
        optimizer.register_type_optimizer("number", BuiltinOptimizer::Number(NumberOptimizer::new()));
        assert(type_labels(optimizer.registered()) =~= seq!["array"@, "number"@]);
        assert(!optimizer.optimizers().contains_key("string"@));
        optimizer.register_type_optimizer("string", BuiltinOptimizer::Str(StringOptimizer::new()));
        proof {
            assert(type_labels(optimizer.registered()) =~= seq!["array"@, "number"@, "string"@]);
            assert(optimizer.optimizers() =~= map![
                "array"@ => BuiltinOptimizer::Array(ArrayOptimizer { chunk_size: 4 }),
                "number"@ => BuiltinOptimizer::Number(NumberOptimizer),
                "string"@ => BuiltinOptimizer::Str(StringOptimizer),
            ]);
        }
        optimizer
    }

    /// The Luau runtime helpers for optimized operations: the SIMD helpers,
    /// then the helpers of each registered optimizer.
    pub fn generate_runtime_code(&self) -> (r: String)
        ensures
            r@ == SIMD_HELPERS_SRC@ + sections_text(self.registered()),
    {
        let mut code = String::from_str(SIMD_HELPERS_SRC);
        let mut i: usize = 0;
        while i < self.type_optimizers.len()
            invariant
                i <= self.type_optimizers@.len(),
                code@ == SIMD_HELPERS_SRC@ + sections_text(self.type_optimizers@.take(i as int)),
            decreases self.type_optimizers@.len() - i,
        {
            proof {
                assert(self.type_optimizers@.take(i + 1).drop_last() =~= self.type_optimizers@.take(i as int));
            }
            code.append("-- Optimizations for ");
            code.append(self.type_optimizers[i].0.as_str());
            code.append("\n");
            code.append(self.type_optimizers[i].1.generate_helpers().as_str());
            code.append("\n");
            i = i + 1;
        }
        proof {
            assert(self.type_optimizers@.take(self.type_optimizers@.len() as int) =~= self.type_optimizers@);
        }
        code
    }

    /// Register the optimizer of a type; one registered before for it is
    /// replaced in its place.
    pub fn register_type_optimizer(&mut self, type_label: &str, optimizer: BuiltinOptimizer)
        requires
            old(self).wf(),
        ensures
            final(self).wf(),
            final(self).optimizers() == old(self).optimizers().insert(type_label@, optimizer),
            type_labels(final(self).registered()) == (if old(self).optimizers().contains_key(type_label@) {
                type_labels(old(self).registered())
            } else {
                type_labels(old(self).registered()).push(type_label@)
            }),
    {
        let key = String::from_str(type_label);
        proof {
            lemma_put(self.type_optimizers@, key, optimizer);
            lemma_keyed_map(self.type_optimizers@, type_label@);
            lemma_key_index(self.type_optimizers@, type_label@);
        }
        put(&mut self.type_optimizers, key, optimizer);
        proof {
            let before = old(self).type_optimizers@;
            let after = self.type_optimizers@;
            if old(self).optimizers().contains_key(type_label@) {
                assert(type_labels(after) =~= type_labels(before));
            } else {
                assert(type_labels(after) =~= type_labels(before).push(type_label@));
            }
        }
    }

    /// The code the optimizer of `type_label` writes for `operation` on
    /// `args`; `None` where no optimizer is registered for the type.
    pub fn get_type_optimization(&self, type_label: &str, operation: &str, args: &[String]) -> (r: Option<String>)
        requires
            self.wf(),
            self.optimizers().contains_key(type_label@) ==> self.optimizers()[type_label@].takes(
                operation@,
                args@.len(),
            ),
        ensures
            r is Some == self.optimizers().contains_key(type_label@),
            r matches Some(s) ==> s@ == operation_text(self.optimizers()[type_label@], operation@, views(args@)),
    {
        proof {
            lemma_keyed_map(self.type_optimizers@, type_label@);
            lemma_key_index(self.type_optimizers@, type_label@);
        }
        match find_key(&self.type_optimizers, type_label) {
            Some(i) => Some(self.type_optimizers[i].1.optimize_operation(operation, args)),
            None => None,
        }
    }
}

} // verus!

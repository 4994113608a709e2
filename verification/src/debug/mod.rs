//! The debugger: source maps, breakpoints, watches, type information,
//! error records, recovery points and heap tracking, and the debug tracing
//! it puts into compiled functions.

use vstd::prelude::*;
use crate::ast::luau::{Function, LuauNode, Parameter, Table, annotation_text};
use crate::keyed::{
    find_key,
    keyed_map,
    keys_unique,
    lemma_key_index,
    lemma_keyed_map,
    lemma_put,
    put,
};
use crate::runtime::diagnostics::pair_views;
use crate::runtime::tracing::DebugInfo;
use crate::text::{decimal, usize_to_string};
use self::trace::{entry_text, entry_trace, exit_text, exit_trace, push_type_line, type_line};

pub mod breakpoint;
pub mod trace;

verus! {

/// A recorded error.
#[derive(Debug)]
pub struct DebugError {
    pub error_type: ErrorType,
    pub message: String,
    pub location: Option<SourceLocation>,
    pub stack_trace: Vec<StackFrame>,
}

/// The kinds of errors the debugger records.
#[derive(Debug, Clone, Copy)]
pub enum ErrorType {
    TypeError,
    ReferenceError,
    RuntimeError,
    MemoryError,
    ParallelizationError,
}

/// A place in a source file.
#[derive(Debug, Clone)]
pub struct SourceLocation {
    pub file: String,
    pub line: usize,
    pub column: usize,
}

/// A frame of a stack trace: the function, where it stands, and its local
/// variables by name.
#[derive(Debug)]
pub struct StackFrame {
    pub function: String,
    pub location: SourceLocation,
    pub locals: Vec<(String, String)>,
}

/// A point execution can be restored to: where it was made, the program
/// state, and the heap as it was.
#[derive(Debug)]
pub struct RecoveryPoint {
    pub location: SourceLocation,
    pub state: Vec<(String, String)>,
    pub heap_snapshot: Vec<HeapAllocation>,
}

/// A tracked heap allocation.
#[derive(Debug, Clone)]
pub struct HeapAllocation {
    pub address: usize,
    pub size: usize,
    pub allocated_type: String,
    pub allocation_site: SourceLocation,
    pub is_freed: bool,
}

/// Advanced debugger for compiled Rust-to-Luau code
pub struct RobloxRsDebugger {
    source_maps: Vec<(String, String)>,
    breakpoints: Vec<usize>,
    watches: Vec<(String, String)>,
    type_info: Vec<(String, String)>,
    error_stack: Vec<DebugError>,
    recovery_points: Vec<(String, RecoveryPoint)>,
    heap_allocations: Vec<HeapAllocation>,
}

/// The views of a map's string values.
pub open spec fn text_map(entries: Seq<(String, String)>) -> Map<Seq<char>, Seq<char>> {
    keyed_map(entries).map_values(|s: String| s@)
}

/// The source-map entry of each breakpoint line, in order: `line_<n>` to
/// `luau_line_<n>`.
pub open spec fn breakpoint_entries(lines: Seq<usize>) -> Seq<(Seq<char>, Seq<char>)> {
    lines.map_values(|n: usize| ("line_"@ + decimal(n as nat), "luau_line_"@ + decimal(n as nat)))
}

/// The allocations not yet freed, in order.
pub open spec fn unfreed(heap: Seq<HeapAllocation>) -> Seq<HeapAllocation>
    decreases heap.len(),
{
    if heap.len() == 0 {
        Seq::empty()
    } else if heap.last().is_freed {
        unfreed(heap.drop_last())
    } else {
        unfreed(heap.drop_last()).push(heap.last())
    }
}

/// The lines of `lines` other than `line`, in order.
pub open spec fn without_line(lines: Seq<usize>, line: usize) -> Seq<usize>
    decreases lines.len(),
{
    if lines.len() == 0 {
        Seq::empty()
    } else if lines.last() == line {
        without_line(lines.drop_last(), line)
    } else {
        without_line(lines.drop_last(), line).push(lines.last())
    }
}

/// The lines that record the types of the typed parameters of function
/// `name`, in order.
pub open spec fn param_types_text(name: Seq<char>, params: Seq<Parameter>) -> Seq<char>
    decreases params.len(),
{
    if params.len() == 0 {
        Seq::empty()
    } else {
        param_types_text(name, params.drop_last()) + match params.last().type_annotation {
            Some(t) => type_line(name, params.last().name@, annotation_text(t)),
            None => Seq::empty(),
        }
    }
}

/// The text the debugger puts first into function `f`: the debug header,
/// the entry trace, and the types of its typed parameters.
pub open spec fn function_debug_text(f: Function) -> Seq<char> {
    entry_text(f.name@) + param_types_text(f.name@, f.params@)
}

/// The statements of a function's body: those of a block, or the body
/// itself.
pub open spec fn body_nodes(body: LuauNode) -> Seq<LuauNode> {
    match body {
        LuauNode::Block(ns) => ns@,
        other => seq![other],
    }
}

/// Whether `g` is the function `f` with debug tracing: a block of the debug
/// text, the statements of its body, and the exit trace.
pub open spec fn traced_function(f: Function, g: Function) -> bool {
    &&& g.name == f.name
    &&& g.params == f.params
    &&& g.return_type == f.return_type
    &&& *g.body matches LuauNode::Block(ms) && {
        let m = ms@;
        let inner = body_nodes(*f.body);
        &&& m.len() == inner.len() + 2
        &&& m[0] matches LuauNode::String(s) && s@ == function_debug_text(f)
        &&& m.subrange(1, m.len() - 1) == inner
        &&& m.last() matches LuauNode::String(e) && e@ == exit_text(f.name@)
    }
}

/// Whether `after` is `before` with each function traced, looking into
/// blocks, binary operations, conditionals, calls and table fields (but not
/// into a function's body).
pub open spec fn instrumented(before: LuauNode, after: LuauNode) -> bool
    decreases before,
{
    match before {
        LuauNode::Function(f) => after matches LuauNode::Function(g) && traced_function(*f, *g),
        LuauNode::Block(ns) => after matches LuauNode::Block(ms) && instrumented_all(ns@, ms@),
        LuauNode::Binary { left, op, right } => after matches LuauNode::Binary {
            left: l,
            op: o,
            right: r,
        } && o == op && instrumented(*left, *l) && instrumented(*right, *r),
        LuauNode::If { condition, then_branch, else_branch } => after matches LuauNode::If {
            condition: c,
            then_branch: t,
            else_branch: e,
        } && instrumented(*condition, *c) && instrumented(*then_branch, *t) && match else_branch {
            Some(b) => e matches Some(b2) && instrumented(*b, *b2),
            None => e is None,
        },
        LuauNode::Call { func, args } => after matches LuauNode::Call { func: g, args: a }
            && instrumented(*func, *g) && instrumented_all(args@, a@),
        LuauNode::Table(t) => after matches LuauNode::Table(u) && u.optimization_hints
            == t.optimization_hints && instrumented_fields(t.fields@, u.fields@),
        _ => after == before,
    }
}

/// `instrumented` for each pair of nodes of two sequences of the same
/// length.
pub open spec fn instrumented_all(before: Seq<LuauNode>, after: Seq<LuauNode>) -> bool
    decreases before,
{
    &&& before.len() == after.len()
    &&& before.len() > 0 ==> {
        &&& instrumented_all(before.drop_last(), after.drop_last())
        &&& instrumented(before.last(), after.last())
    }
}

/// `instrumented` for the values of two sequences of table fields, whose
/// keys are the same.
pub open spec fn instrumented_fields(before: Seq<(String, LuauNode)>, after: Seq<(String, LuauNode)>) -> bool
    decreases before,
{
    &&& before.len() == after.len()
    &&& before.len() > 0 ==> {
        &&& instrumented_fields(before.drop_last(), after.drop_last())
        &&& after.last().0 == before.last().0
        &&& instrumented(before.last().1, after.last().1)
    }
}

/// A copy of a source location.
fn clone_location(l: &SourceLocation) -> (r: SourceLocation)
    ensures
        r == *l,
{
    SourceLocation { file: l.file.clone(), line: l.line, column: l.column }
}

/// A copy of a list of allocations.
fn clone_heap(v: &Vec<HeapAllocation>) -> (r: Vec<HeapAllocation>)
    ensures
        r@ == v@,
{
    let mut out: Vec<HeapAllocation> = Vec::new();
    let mut i: usize = 0;
    while i < v.len()
        invariant
            i <= v@.len(),
            out@ == v@.take(i as int),
        decreases v@.len() - i,
    {
        let a = &v[i];
        out.push(
            HeapAllocation {
                address: a.address,
                size: a.size,
                allocated_type: a.allocated_type.clone(),
                allocation_site: clone_location(&a.allocation_site),
                is_freed: a.is_freed,
            },
        );
        proof {
            assert(out@ =~= v@.take(i + 1));
        }
        i = i + 1;
    }
    proof {
        assert(v@.take(v@.len() as int) =~= v@);
    }
    out
}

/// Copies of a list of string pairs.
fn clone_entries(v: &Vec<(String, String)>) -> (r: Vec<(String, String)>)
    ensures
        r@ == v@,
{
    let mut out: Vec<(String, String)> = Vec::new();
    let mut i: usize = 0;
    while i < v.len()
        invariant
            i <= v@.len(),
            out@ == v@.take(i as int),
        decreases v@.len() - i,
    {
        out.push((v[i].0.clone(), v[i].1.clone()));
        proof {
            assert(out@ =~= v@.take(i + 1));
        }
        i = i + 1;
    }
    proof {
        assert(v@.take(v@.len() as int) =~= v@);
    }
    out
}


/// `put` on a list of string pairs reads as an insertion of the views.
proof fn lemma_put_text(entries: Seq<(String, String)>, key: String, value: String)
    requires
        keys_unique(entries),
    ensures
        keys_unique(crate::keyed::put_spec(entries, key, value)),
        text_map(crate::keyed::put_spec(entries, key, value)) == text_map(entries).insert(
            key@,
            value@,
        ),
{
    lemma_put(entries, key, value);
    assert(text_map(crate::keyed::put_spec(entries, key, value)) =~= text_map(entries).insert(
        key@,
        value@,
    ));
}

/// The index of the first entry whose key is `key`, if any.
pub open spec fn entry_index(entries: Seq<(Seq<char>, Seq<char>)>, key: Seq<char>) -> Option<int>
    decreases entries.len(),
{
    if entries.len() == 0 {
        None
    } else {
        match entry_index(entries.drop_last(), key) {
            Some(i) => Some(i),
            None => if entries.last().0 == key {
                Some(entries.len() - 1)
            } else {
                None
            },
        }
    }
}

/// The entries after setting `key` to `value`: an entry with that key
/// takes the value in its place, else the new entry goes last.
pub open spec fn set_entry(
    entries: Seq<(Seq<char>, Seq<char>)>,
    key: Seq<char>,
    value: Seq<char>,
) -> Seq<(Seq<char>, Seq<char>)> {
    match entry_index(entries, key) {
        Some(i) => entries.update(i, (key, value)),
        None => entries.push((key, value)),
    }
}

/// A key is found at the same place among the entries and their views.
proof fn lemma_entry_index(entries: Seq<(String, String)>, key: Seq<char>)
    ensures
        entry_index(pair_views(entries), key) == crate::keyed::key_index(entries, key),
    decreases entries.len(),
{
    if entries.len() > 0 {
        assert(pair_views(entries).drop_last() =~= pair_views(entries.drop_last()));
        lemma_entry_index(entries.drop_last(), key);
    }
}

/// Setting an entry, seen through the entries' views.
proof fn lemma_put_entries(entries: Seq<(String, String)>, key: String, value: String)
    ensures
        pair_views(crate::keyed::put_spec(entries, key, value)) == set_entry(
            pair_views(entries),
            key@,
            value@,
        ),
{
    lemma_entry_index(entries, key@);
    crate::keyed::lemma_key_index(entries, key@);
    let out = crate::keyed::put_spec(entries, key, value);
    let want = set_entry(pair_views(entries), key@, value@);
    assert(pair_views(out).len() == want.len());
    assert forall|k: int| 0 <= k < want.len() implies #[trigger] pair_views(out)[k] == want[k] by {
        match crate::keyed::key_index(entries, key@) {
            Some(i) => {
                if k != i {
                    assert(out[k] == entries[k]);
                }
            },
            None => {
                if k < entries.len() {
                    assert(out[k] == entries[k]);
                }
            },
        }
    }
    assert(pair_views(out) =~= want);
}

/// Whether `after` is `before` with the recovery point `name` made (or
/// replaced) at `location`, holding `before`'s heap and an empty state.
pub open spec fn point_made(
    before: RobloxRsDebugger,
    after: RobloxRsDebugger,
    name: Seq<char>,
    location: SourceLocation,
) -> bool {
    &&& after.recovery_map() == before.recovery_map().insert(name, after.recovery_map()[name])
    &&& after.recovery_map()[name].location == location
    &&& after.recovery_map()[name].state@.len() == 0
    &&& after.recovery_map()[name].heap_snapshot@ == before.heap()
}

/// Whether `after` and `r` are what restoring the recovery point `name` of
/// `before` gives: its heap where the point exists, else an error naming it
/// and the heap unchanged.
pub open spec fn point_restored(
    before: RobloxRsDebugger,
    after: RobloxRsDebugger,
    name: Seq<char>,
    r: Result<(), String>,
) -> bool {
    match r {
        Ok(_) => before.recovery_map().contains_key(name) && after.heap()
            == before.recovery_map()[name].heap_snapshot@,
        Err(m) => !before.recovery_map().contains_key(name) && m@ == "Recovery point '"@ + name
            + "' not found"@ && after.heap() == before.heap(),
    }
}

/// Restoring a recovery point gives back the heap it was made with, whatever
/// was tracked or freed in between, as long as the recovery points were
/// left as they were.
pub proof fn law_restore_gives_snapshot(
    a: RobloxRsDebugger,
    b: RobloxRsDebugger,
    c: RobloxRsDebugger,
    d: RobloxRsDebugger,
    name: Seq<char>,
    location: SourceLocation,
    r: Result<(), String>,
)
    requires
        point_made(a, b, name, location),
        c.recovery_map() == b.recovery_map(),
        point_restored(c, d, name, r),
    ensures
        r is Ok,
        d.heap() == a.heap(),
{
    assert(b.recovery_map().contains_key(name));
}

/// Removing the breakpoints of a line that had none, right after adding
/// one there, leaves the breakpoints as they were.
pub proof fn law_remove_undoes_add(lines: Seq<usize>, line: usize)
    requires
        !lines.contains(line),
    ensures
        without_line(lines.push(line), line) == lines,
{
    assert(lines.push(line).drop_last() =~= lines);
    lemma_without_absent(lines, line);
}

/// Without a line that is not there, the lines stay as they are.
proof fn lemma_without_absent(lines: Seq<usize>, line: usize)
    requires
        !lines.contains(line),
    ensures
        without_line(lines, line) == lines,
    decreases lines.len(),
{
    if lines.len() > 0 {
        assert(!lines.drop_last().contains(line)) by {
            if lines.drop_last().contains(line) {
                let k = choose|k: int| 0 <= k < lines.drop_last().len() && lines.drop_last()[k] == line;
                assert(lines[k] == line);
            }
        }
        lemma_without_absent(lines.drop_last(), line);
        assert(lines.drop_last().push(lines.last()) =~= lines);
    }
}

/// Freeing the allocation just tracked leaves the leaks as they were
/// before it was tracked.
pub proof fn law_free_undoes_track(heap: Seq<HeapAllocation>, a: HeapAllocation)
    requires
        !a.is_freed,
    ensures
        unfreed(heap.push(a).update(heap.len() as int, HeapAllocation { is_freed: true, ..a }))
            == unfreed(heap),
{
    let h = heap.push(a).update(heap.len() as int, HeapAllocation { is_freed: true, ..a });
    assert(h.drop_last() =~= heap);
}

impl RobloxRsDebugger {
    /// No name occurs twice in the source map, the watches, the type
    /// information or the recovery points.
    pub closed spec fn wf(&self) -> bool {
        &&& keys_unique(self.source_maps@)
        &&& keys_unique(self.watches@)
        &&& keys_unique(self.type_info@)
        &&& keys_unique(self.recovery_points@)
    }

    /// The source map: Rust lines to Luau lines.
    pub closed spec fn sources(&self) -> Map<Seq<char>, Seq<char>> {
        text_map(self.source_maps@)
    }

    /// The source map's entries, in the order they were first added.
    pub closed spec fn source_entries(&self) -> Seq<(Seq<char>, Seq<char>)> {
        pair_views(self.source_maps@)
    }

    /// The type information's entries, in the order they were first added.
    pub closed spec fn type_entries(&self) -> Seq<(Seq<char>, Seq<char>)> {
        pair_views(self.type_info@)
    }

    /// The breakpoint lines, in the order they were added.
    pub closed spec fn breakpoint_lines(&self) -> Seq<usize> {
        self.breakpoints@
    }

    /// The watched variables with their expressions.
    pub closed spec fn watch_map(&self) -> Map<Seq<char>, Seq<char>> {
        text_map(self.watches@)
    }

    /// The types of variables.
    pub closed spec fn types(&self) -> Map<Seq<char>, Seq<char>> {
        text_map(self.type_info@)
    }

    /// The recorded errors, oldest first.
    pub closed spec fn errors(&self) -> Seq<DebugError> {
        self.error_stack@
    }

    /// The recovery points by name.
    pub closed spec fn recovery_map(&self) -> Map<Seq<char>, RecoveryPoint> {
        keyed_map(self.recovery_points@)
    }

    /// The tracked allocations; an allocation's address is its position.
    pub closed spec fn heap(&self) -> Seq<HeapAllocation> {
        self.heap_allocations@
    }

    /// A debugger with nothing recorded.
    pub fn new() -> (r: Self)
        ensures
            r.wf(),
            r.sources() == Map::<Seq<char>, Seq<char>>::empty(),
            r.source_entries() == Seq::<(Seq<char>, Seq<char>)>::empty(),
            r.type_entries() == Seq::<(Seq<char>, Seq<char>)>::empty(),
            r.breakpoint_lines().len() == 0,
            r.watch_map() == Map::<Seq<char>, Seq<char>>::empty(),
            r.types() == Map::<Seq<char>, Seq<char>>::empty(),
            r.errors().len() == 0,
            r.recovery_map() == Map::<Seq<char>, RecoveryPoint>::empty(),
            r.heap().len() == 0,
    {
        let r = RobloxRsDebugger {
            source_maps: Vec::new(),
            breakpoints: Vec::new(),
            watches: Vec::new(),
            type_info: Vec::new(),
            error_stack: Vec::new(),
            recovery_points: Vec::new(),
            heap_allocations: Vec::new(),
        };
        proof {
            assert(r.sources() =~= Map::<Seq<char>, Seq<char>>::empty());
            assert(r.watch_map() =~= Map::<Seq<char>, Seq<char>>::empty());
            assert(r.types() =~= Map::<Seq<char>, Seq<char>>::empty());
            assert(r.source_entries() =~= Seq::<(Seq<char>, Seq<char>)>::empty());
            assert(r.type_entries() =~= Seq::<(Seq<char>, Seq<char>)>::empty());
        }
        r
    }

    /// Record an error with an empty stack trace.
    pub fn record_error(&mut self, error_type: ErrorType, message: &str, location: Option<SourceLocation>)
        requires
            old(self).wf(),
        ensures
            final(self).wf(),
            final(self).errors().len() == old(self).errors().len() + 1,
            final(self).errors().drop_last() == old(self).errors(),
            final(self).errors().last().error_type == error_type,
            final(self).errors().last().message@ == message@,
            final(self).errors().last().location == location,
            final(self).errors().last().stack_trace@.len() == 0,
            final(self).heap() == old(self).heap(),
            final(self).recovery_map() == old(self).recovery_map(),
    {
        let stack_trace: Vec<StackFrame> = Vec::new();
        let error = DebugError {
            error_type,
            message: String::from_str(message),
            location,
            stack_trace,
        };
        self.error_stack.push(error);
        proof {
            assert(self.error_stack@.drop_last() =~= old(self).error_stack@);
        }
    }

    /// Make (or replace) the recovery point `name`, holding the current heap
    /// and an empty program state.
    pub fn create_recovery_point(&mut self, name: &str, location: SourceLocation)
        requires
            old(self).wf(),
        ensures
            final(self).wf(),
            point_made(*old(self), *final(self), name@, location),
            final(self).heap() == old(self).heap(),
            final(self).errors() == old(self).errors(),
    {
        let state: Vec<(String, String)> = Vec::new();
        let heap_snapshot = clone_heap(&self.heap_allocations);
        let point = RecoveryPoint { location, state, heap_snapshot };
        let key = String::from_str(name);
        proof {
            lemma_put(self.recovery_points@, key, point);
        }
        put(&mut self.recovery_points, key, point);
    }

    /// Restore the heap of the recovery point `name`; fails where there is
    /// no such point.
    pub fn restore_recovery_point(&mut self, name: &str) -> (r: Result<(), String>)
        requires
            old(self).wf(),
        ensures
            final(self).wf(),
            final(self).recovery_map() == old(self).recovery_map(),
            final(self).errors() == old(self).errors(),
            point_restored(*old(self), *final(self), name@, r),
    {
        proof {
            lemma_keyed_map(self.recovery_points@, name@);
            lemma_key_index(self.recovery_points@, name@);
        }
        match find_key(&self.recovery_points, name) {
            Some(i) => {
                let snapshot = clone_heap(&self.recovery_points[i].1.heap_snapshot);
                self.heap_allocations = snapshot;
                Ok(())
            },
            None => {
                let mut m = String::from_str("Recovery point '");
                m.append(name);
                m.append("' not found");
                Err(m)
            },
        }
    }

    /// Track a new allocation; returns its address, the number of
    /// allocations tracked before it.
    pub fn track_allocation(&mut self, size: usize, allocated_type: &str, location: SourceLocation) -> (r:
        usize)
        requires
            old(self).wf(),
        ensures
            final(self).wf(),
            r == old(self).heap().len(),
            final(self).heap().len() == old(self).heap().len() + 1,
            final(self).heap().drop_last() == old(self).heap(),
            final(self).heap().last().address == r,
            final(self).heap().last().size == size,
            final(self).heap().last().allocated_type@ == allocated_type@,
            final(self).heap().last().allocation_site == location,
            !final(self).heap().last().is_freed,
            final(self).recovery_map() == old(self).recovery_map(),
            final(self).errors() == old(self).errors(),
    {
        let address = self.heap_allocations.len();
        let allocation = HeapAllocation {
            address,
            size,
            allocated_type: String::from_str(allocated_type),
            allocation_site: location,
            is_freed: false,
        };
        self.heap_allocations.push(allocation);
        proof {
            assert(self.heap_allocations@.drop_last() =~= old(self).heap_allocations@);
        }
        address
    }

    /// Mark the allocation at `address` freed; fails for an address that
    /// was never given out.
    pub fn mark_freed(&mut self, address: usize) -> (r: Result<(), String>)
        requires
            old(self).wf(),
        ensures
            final(self).wf(),
            final(self).recovery_map() == old(self).recovery_map(),
            final(self).errors() == old(self).errors(),
            match r {
                Ok(_) => address < old(self).heap().len() && final(self).heap() == old(
                    self,
                ).heap().update(
                    address as int,
                    HeapAllocation { is_freed: true, ..old(self).heap()[address as int] },
                ),
                Err(m) => address >= old(self).heap().len() && m@ == "Invalid heap address: "@
                    + decimal(address as nat) && final(self).heap() == old(self).heap(),
            },
    {
        if address < self.heap_allocations.len() {
            let mut a = self.heap_allocations.remove(address);
            a.is_freed = true;
            self.heap_allocations.insert(address, a);
            proof {
                assert(self.heap_allocations@ =~= old(self).heap_allocations@.update(
                    address as int,
                    a,
                ));
            }
            Ok(())
        } else {
            let mut m = String::from_str("Invalid heap address: ");
            m.append(usize_to_string(address).as_str());
            Err(m)
        }
    }

    /// The allocations not yet freed, in order.
    pub fn get_memory_leaks(&self) -> (r: Vec<&HeapAllocation>)
        ensures
            r@.map_values(|a: &HeapAllocation| *a) == unfreed(self.heap()),
    {
        let mut out: Vec<&HeapAllocation> = Vec::new();
        let mut i: usize = 0;
        while i < self.heap_allocations.len()
            invariant
                i <= self.heap_allocations@.len(),
                out@.map_values(|a: &HeapAllocation| *a) == unfreed(
                    self.heap_allocations@.take(i as int),
                ),
            decreases self.heap_allocations@.len() - i,
        {
            proof {
                assert(self.heap_allocations@.take(i + 1).drop_last() =~= self.heap_allocations@.take(
                    i as int,
                ));
            }
            let a = &self.heap_allocations[i];
            if !a.is_freed {
                let ghost prev = out@;
                out.push(a);
                proof {
                    assert(out@.map_values(|a: &HeapAllocation| *a) =~= prev.map_values(
                        |a: &HeapAllocation| *a,
                    ).push(*a));
                }
            }
            i = i + 1;
        }
        proof {
            assert(self.heap_allocations@.take(self.heap_allocations@.len() as int)
                =~= self.heap_allocations@);
        }
        out
    }

    /// Add a breakpoint at a specific Rust source line
    pub fn add_breakpoint(&mut self, line: usize)
        requires
            old(self).wf(),
        ensures
            final(self).wf(),
            final(self).breakpoint_lines() == old(self).breakpoint_lines().push(line),
            final(self).sources() == old(self).sources(),
            final(self).types() == old(self).types(),
            final(self).source_entries() == old(self).source_entries(),
            final(self).type_entries() == old(self).type_entries(),
            final(self).watch_map() == old(self).watch_map(),
    {
        self.breakpoints.push(line);
    }

    /// Remove every breakpoint on `line`.
    pub fn remove_breakpoint(&mut self, line: usize)
        requires
            old(self).wf(),
        ensures
            final(self).wf(),
            final(self).breakpoint_lines() == without_line(old(self).breakpoint_lines(), line),
            final(self).sources() == old(self).sources(),
            final(self).types() == old(self).types(),
            final(self).source_entries() == old(self).source_entries(),
            final(self).type_entries() == old(self).type_entries(),
            final(self).watch_map() == old(self).watch_map(),
    {
        let mut kept: Vec<usize> = Vec::new();
        let mut i: usize = 0;
        while i < self.breakpoints.len()
            invariant
                i <= self.breakpoints@.len(),
                self.breakpoints@ == old(self).breakpoints@,
                kept@ == without_line(self.breakpoints@.take(i as int), line),
            decreases self.breakpoints@.len() - i,
        {
            proof {
                assert(self.breakpoints@.take(i + 1).drop_last() =~= self.breakpoints@.take(i as int));
            }
            if self.breakpoints[i] != line {
                kept.push(self.breakpoints[i]);
            }
            i = i + 1;
        }
        proof {
            assert(self.breakpoints@.take(self.breakpoints@.len() as int) =~= self.breakpoints@);
        }
        self.breakpoints = kept;
    }

    /// Watch a variable with an expression; a watch of the same variable is
    /// replaced.
    pub fn add_watch(&mut self, variable_name: &str, watch_expression: &str)
        requires
            old(self).wf(),
        ensures
            final(self).wf(),
            final(self).watch_map() == old(self).watch_map().insert(
                variable_name@,
                watch_expression@,
            ),
            final(self).sources() == old(self).sources(),
            final(self).types() == old(self).types(),
            final(self).source_entries() == old(self).source_entries(),
            final(self).type_entries() == old(self).type_entries(),
            final(self).breakpoint_lines() == old(self).breakpoint_lines(),
    {
        let key = String::from_str(variable_name);
        let value = String::from_str(watch_expression);
        proof {
            lemma_put_text(self.watches@, key, value);
        }
        put(&mut self.watches, key, value);
    }

    /// Add source mapping between Rust and Luau
    pub fn add_source_mapping(&mut self, rust_line: &str, luau_line: &str)
        requires
            old(self).wf(),
        ensures
            final(self).wf(),
            final(self).sources() == old(self).sources().insert(rust_line@, luau_line@),
            final(self).source_entries() == set_entry(old(self).source_entries(), rust_line@, luau_line@),
            final(self).types() == old(self).types(),
            final(self).type_entries() == old(self).type_entries(),
            final(self).watch_map() == old(self).watch_map(),
            final(self).breakpoint_lines() == old(self).breakpoint_lines(),
    {
        let key = String::from_str(rust_line);
        let value = String::from_str(luau_line);
        proof {
            lemma_put_text(self.source_maps@, key, value);
            lemma_put_entries(self.source_maps@, key, value);
        }
        put(&mut self.source_maps, key, value);
    }

    /// Add type information for a variable
    pub fn add_type_info(&mut self, variable_name: &str, type_label: &str)
        requires
            old(self).wf(),
        ensures
            final(self).wf(),
            final(self).types() == old(self).types().insert(variable_name@, type_label@),
            final(self).type_entries() == set_entry(old(self).type_entries(), variable_name@, type_label@),
            final(self).sources() == old(self).sources(),
            final(self).source_entries() == old(self).source_entries(),
            final(self).watch_map() == old(self).watch_map(),
            final(self).breakpoint_lines() == old(self).breakpoint_lines(),
    {
        let key = String::from_str(variable_name);
        let value = String::from_str(type_label);
        proof {
            lemma_put_text(self.type_info@, key, value);
            lemma_put_entries(self.type_info@, key, value);
        }
        put(&mut self.type_info, key, value);
    }

    /// The debug information for compilation: the source map's entries,
    /// then an entry `line_<n>` to `luau_line_<n>` for each breakpoint, in
    /// order; and the type information.
    pub fn generate_debug_info(&self) -> (r: DebugInfo)
        ensures
            pair_views(r.source_map@) == self.source_entries() + breakpoint_entries(self.breakpoint_lines()),
            pair_views(r.variable_types@) == self.type_entries(),
    {
        let mut source_map = clone_entries(&self.source_maps);
        let mut i: usize = 0;
        while i < self.breakpoints.len()
            invariant
                i <= self.breakpoints@.len(),
                pair_views(source_map@) == pair_views(self.source_maps@) + breakpoint_entries(
                    self.breakpoints@.take(i as int),
                ),
            decreases self.breakpoints@.len() - i,
        {
            let n = usize_to_string(self.breakpoints[i]);
            let mut key = String::from_str("line_");
            key.append(n.as_str());
            let mut value = String::from_str("luau_line_");
            value.append(n.as_str());
            let ghost before = source_map@;
            source_map.push((key, value));
            proof {
                assert(breakpoint_entries(self.breakpoints@.take(i + 1)) =~= breakpoint_entries(
                    self.breakpoints@.take(i as int),
                ).push(("line_"@ + decimal(self.breakpoints@[i as int] as nat), "luau_line_"@ + decimal(self.breakpoints@[i as int] as nat))));
                assert(pair_views(source_map@) =~= pair_views(before).push((key@, value@)));
            }
            i = i + 1;
        }
        proof {
            assert(self.breakpoints@.take(self.breakpoints@.len() as int) =~= self.breakpoints@);
        }
        DebugInfo { source_map, variable_types: clone_entries(&self.type_info) }
    }

    /// Instrument the tree with debug traces: each function it reaches
    /// gets the debug header and entry trace first and the exit trace last.
    pub fn instrument_ast(&self, node: &mut LuauNode)
        ensures
            instrumented(*old(node), *final(node)),
    {
        let mut taken = LuauNode::Boolean(false);
        std::mem::swap(&mut taken, node);
        *node = instrument_node(taken);
    }
}

/// The text the debugger puts first into a function.
fn function_debug_block(f: &Function) -> (r: String)
    ensures
        r@ == function_debug_text(*f),
{
    let mut r = entry_trace(f.name.as_str());
    let ghost start = r@;
    let mut i: usize = 0;
    while i < f.params.len()
        invariant
            i <= f.params@.len(),
            r@ == start + param_types_text(f.name@, f.params@.take(i as int)),
            start == entry_text(f.name@),
        decreases f.params@.len() - i,
    {
        proof {
            assert(f.params@.take(i + 1).drop_last() =~= f.params@.take(i as int));
        }
        match &f.params[i].type_annotation {
            Some(t) => {
                let ty = t.to_text();
                push_type_line(&mut r, f.name.as_str(), f.params[i].name.as_str(), ty.as_str());
            },
            None => {},
        }
        proof {
            assert(r@ =~= start + param_types_text(f.name@, f.params@.take(i + 1)));
        }
        i = i + 1;
    }
    proof {
        assert(f.params@.take(f.params@.len() as int) =~= f.params@);
    }
    r
}

/// Trace a function: its body becomes a block of the debug text, the
/// statements of its body, and the exit trace.
fn trace_function(f: Function) -> (r: Function)
    ensures
        traced_function(f, r),
{
    let block = function_debug_block(&f);
    let exit = exit_trace(f.name.as_str());
    let ghost inner = body_nodes(*f.body);
    let Function { name, params, return_type, body } = f;
    let mut nodes: Vec<LuauNode> = Vec::new();
    nodes.push(LuauNode::String(block));
    match *body {
        LuauNode::Block(existing) => {
            let mut existing = existing;
            nodes.append(&mut existing);
        },
        other => {
            nodes.push(other);
        },
    }
    nodes.push(LuauNode::String(exit));
    proof {
        assert(nodes@.subrange(1, nodes@.len() - 1) =~= inner);
    }
    Function { name, params, return_type, body: Box::new(LuauNode::Block(nodes)) }
}

/// Instrument one node.
fn instrument_node(node: LuauNode) -> (r: LuauNode)
    ensures
        instrumented(node, r),
    decreases node, 1nat,
{
    match node {
        LuauNode::Function(f) => LuauNode::Function(Box::new(trace_function(*f))),
        LuauNode::Block(ns) => LuauNode::Block(instrument_all(ns)),
        LuauNode::Binary { left, op, right } => {
            let l = instrument_node(*left);
            let r = instrument_node(*right);
            LuauNode::Binary { left: Box::new(l), op, right: Box::new(r) }
        },
        LuauNode::If { condition, then_branch, else_branch } => {
            let c = instrument_node(*condition);
            let t = instrument_node(*then_branch);
            let e = match else_branch {
                Some(b) => Some(Box::new(instrument_node(*b))),
                None => None,
            };
            LuauNode::If { condition: Box::new(c), then_branch: Box::new(t), else_branch: e }
        },
        LuauNode::Call { func, args } => {
            let g = instrument_node(*func);
            let a = instrument_all(args);
            LuauNode::Call { func: Box::new(g), args: a }
        },
        LuauNode::Table(t) => {
            let Table { fields, optimization_hints } = t;
            let fields = instrument_fields(fields);
            LuauNode::Table(Table { fields, optimization_hints })
        },
        other => other,
    }
}

/// Instrument each node of a sequence.
fn instrument_all(nodes: Vec<LuauNode>) -> (r: Vec<LuauNode>)
    ensures
        instrumented_all(nodes@, r@),
    decreases nodes, 0nat,
{
    let ghost all = nodes@;
    let mut rest = nodes;
    let mut out: Vec<LuauNode> = Vec::new();
    while rest.len() > 0
        invariant
            all == nodes@,
            out@.len() + rest@.len() == all.len(),
            rest@ == all.skip(out@.len() as int),
            instrumented_all(all.take(out@.len() as int), out@),
        decreases rest@.len(),
    {
        let ghost k = out@.len() as int;
        let n = rest.remove(0);
        assert(n == all[k]);
        proof {
            assert(decreases_to!(nodes => nodes@));
            assert(decreases_to!(nodes@ => nodes@[k]));
        }
        let m = instrument_node(n);
        let ghost before = out@;
        out.push(m);
        proof {
            assert(all.take(k + 1).drop_last() =~= all.take(k));
            assert(out@.drop_last() =~= before);
            assert(rest@ =~= all.skip(out@.len() as int));
        }
    }
    proof {
        assert(all.take(all.len() as int) =~= all);
    }
    out
}

/// Instrument the value of each table field.
fn instrument_fields(fields: Vec<(String, LuauNode)>) -> (r: Vec<(String, LuauNode)>)
    ensures
        instrumented_fields(fields@, r@),
    decreases fields, 0nat,
{
    let ghost all = fields@;
    let mut rest = fields;
    let mut out: Vec<(String, LuauNode)> = Vec::new();
    while rest.len() > 0
        invariant
            all == fields@,
            out@.len() + rest@.len() == all.len(),
            rest@ == all.skip(out@.len() as int),
            instrumented_fields(all.take(out@.len() as int), out@),
        decreases rest@.len(),
    {
        let ghost k = out@.len() as int;
        let (key, value) = rest.remove(0);
        assert(key == all[k].0 && value == all[k].1);
        proof {
            assert(decreases_to!(fields => fields@));
            assert(decreases_to!(fields@ => fields@[k]));
            assert(decreases_to!(fields@[k] => fields@[k].1));
        }
        let m = instrument_node(value);
        let ghost before = out@;
        out.push((key, m));
        proof {
            assert(all.take(k + 1).drop_last() =~= all.take(k));
            assert(out@.drop_last() =~= before);
            assert(rest@ =~= all.skip(out@.len() as int));
        }
    }
    proof {
        assert(all.take(all.len() as int) =~= all);
    }
    out
}

/// The Luau profiler module: call counts, times and memory by function.
pub const PROFILER_CODE_SRC: &'static str = r#"
-- Roblox-RS Profiler
local Profiler = {}

-- Initialize profiler
Profiler.data = {
    calls = {},
    times = {},
    memory = {}
}

-- Start timing a function
function Profiler.start(funcName)
    local startTime = os.clock()
    local startMemory = gcinfo()
    
    Profiler.data.calls[funcName] = (Profiler.data.calls[funcName] or 0) + 1
    
    return function()
        local endTime = os.clock()
        local endMemory = gcinfo()
        
        Profiler.data.times[funcName] = (Profiler.data.times[funcName] or 0) + (endTime - startTime)
        Profiler.data.memory[funcName] = (Profiler.data.memory[funcName] or 0) + (endMemory - startMemory)
    end
end

-- Get profiling results
function Profiler.getResults()
    local results = {}
    
    for funcName, callCount in pairs(Profiler.data.calls) do
        table.insert(results, {
            name = funcName,
            calls = callCount,
            time = Profiler.data.times[funcName] or 0,
            memory = Profiler.data.memory[funcName] or 0,
            avgTime = (Profiler.data.times[funcName] or 0) / callCount,
            avgMemory = (Profiler.data.memory[funcName] or 0) / callCount
        })
    end
    
    -- Sort by total time
    table.sort(results, function(a, b)
        return a.time > b.time
    end)
    
    return results
end

-- Print profiling results
function Profiler.printResults()
    local results = Profiler.getResults()
    
    print("===== Roblox-RS Profiler Results =====")
    print("Function                 | Calls | Total Time | Avg Time | Memory Usage")
    print("-------------------------|-------|-----------|----------|-------------")
    
    for _, result in ipairs(results) do
        print(string.format("%-24s | %5d | %9.3fms | %8.3fms | %12d",
            result.name,
            result.calls,
            result.time * 1000,
            result.avgTime * 1000,
            result.memory
        ))
    end
    
    print("=====================================")
end

-- Reset profiler data
function Profiler.reset()
    Profiler.data = {
        calls = {},
        times = {},
        memory = {}
    }
end

return Profiler
"#;

/// A Luau script that exercises the runtime's parallel execution, pooling,
/// profiler and debugging.
pub const TEST_CODE_SRC: &'static str = r#"
-- Test the Roblox-RS runtime
local RobloxRS = require(script.Parent.RobloxRSRuntime)

-- Test parallel execution
local function testParallel()
    print("Testing parallel execution...")
    
    local data = {}
    for i = 1, 100 do
        data[i] = i
    end
    
    local results = RobloxRS.Parallel.map(data, function(n)
        return n * 2
    end)
    
    for i = 1, 10 do
        print("Result", i, "=", results[i])
    end
    
    print("Parallel test complete")
end

-- Test object pooling
local function testPooling()
    print("Testing object pooling...")
    
    local partPool = RobloxRS.Pool.new("Part", 10)
    
    local parts = {}
    for i = 1, 20 do
        local part = partPool:get()
        part.Position = Vector3.new(i, 0, 0)
        table.insert(parts, part)
    end
    
    local stats = partPool:stats()
    print("Pool stats:", "Allocated:", stats.allocated, "Available:", stats.available, "Active:", stats.active)
    
    -- Return some parts to the pool
    for i = 1, 10 do
        partPool:release(parts[i])
        parts[i] = nil
    end
    
    stats = partPool:stats()
    print("Pool stats after return:", "Allocated:", stats.allocated, "Available:", stats.available, "Active:", stats.active)
    
    print("Pooling test complete")
end

-- Test profiler
local function testProfiler()
    print("Testing profiler...")
    
    local function expensiveFunction(n)
        local endProfile = RobloxRS.Profiler.start("expensiveFunction")
        
        local result = 0
        for i = 1, n do
            result = result + math.sqrt(i)
        end
        
        endProfile()
        return result
    end
    
    for i = 1, 5 do
        expensiveFunction(10000 * i)
    end
    
    local results = RobloxRS.Profiler.getResults()
    print("Profiler results:")
    for _, result in ipairs(results) do
        print(string.format("%s: %d calls, %.3fms total, %.3fms avg",
            result.name, result.calls, result.totalTime * 1000, result.avgTime * 1000))
    end
    
    print("Profiler test complete")
end

-- Test debugging
local function testDebugging()
    print("Testing debugging...")
    
    local function recursiveFunction(n)
        RobloxRS.Debug.traceCall("recursiveFunction", {n = n})
        
        if n <= 0 then
            return 0
        end
        
        return n + recursiveFunction(n - 1)
    end
    
    recursiveFunction(5)
    
    local callStack = RobloxRS.Debug.getCallStack()
    print("Call stack (last 3 calls):")
    for i = #callStack - 2, #callStack do
        if callStack[i] then
            print(string.format("%s at line %d, args: %s", 
                callStack[i].name, callStack[i].line, tostring(callStack[i].args.n)))
        end
    end
    
    print("Debugging test complete")
end

-- Run all tests
local function runAllTests()
    testParallel()
    print()
    testPooling()
    print()
    testProfiler()
    print()
    testDebugging()
end

runAllTests()
"#;

/// The Luau profiler module.
pub fn generate_profiler_code() -> (r: String)
    ensures
        r@ == PROFILER_CODE_SRC@,
{
    String::from_str(PROFILER_CODE_SRC)
}

/// Generate the test implementation for the debugger and profiler
pub fn generate_test_code() -> (r: String)
    ensures
        r@ == TEST_CODE_SRC@,
{
    String::from_str(TEST_CODE_SRC)
}

} // verus!

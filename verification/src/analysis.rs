//! Variable lifetimes: where variables are created and last used, which
//! scopes hold them, and the memory patterns they form by type.

use vstd::prelude::*;

pub mod analyzer;
use crate::keyed::{
    find_key,
    key_index,
    keyed_map,
    keys_unique,
    lemma_key_index,
    lemma_keyed_map,
    lemma_put,
    put,
    put_spec,
};

verus! {

/// Where and how a variable was created.
#[derive(Debug, Clone)]
pub struct CreationPoint {
    pub line: usize,
    pub scope_depth: usize,
    pub allocation_size: usize,
    pub type_info: String,
}

/// How a variable was last used.
#[derive(Debug, Clone, Copy)]
pub struct Usage {
    pub line: usize,
    pub access_type: AccessType,
    pub frequency: usize,
}

/// A scope: its depth, the variables created in it (each once), and the
/// line it starts at.
#[derive(Debug, Clone)]
pub struct Scope {
    pub depth: usize,
    pub variables: Vec<String>,
    pub start_line: usize,
}

/// How a variable is accessed.
#[derive(Debug, Clone, Copy, PartialEq, Eq, Structural)]
pub enum AccessType {
    Read,
    Write,
    Both,
}

/// A site where memory is allocated.
#[derive(Debug, Clone)]
pub struct AllocationSite {
    pub location: String,
    pub size: usize,
    pub frequency: usize,
    pub allocated_type: String,
}

/// An optimization the analysis suggests.
#[derive(Debug, Clone)]
pub enum OptimizationHint {
    InlineFunction(String),
    CacheValue(String),
    UseObjectPool(String),
    ParallelizeLoop(String),
    VectorizeOperation(String),
}

/// The memory pattern of the variables of one type: how many there are,
/// their total size, their average lifetime in milliseconds (one line
/// counting as one millisecond), and how many pairs of them have
/// overlapping lifetimes; the reuse potential is one less the share of
/// overlapping pairs among the variables.
#[derive(Debug)]
pub struct MemoryPattern {
    pub allocated_type: String,
    pub allocation_count: usize,
    pub total_size: usize,
    pub average_lifetime_ms: u64,
    pub overlapping_pairs: usize,
}

/// Tracks variables' creation and last use through nested scopes.
#[derive(Debug)]
pub struct LifetimeTracker {
    creation_points: Vec<(String, CreationPoint)>,
    last_usage: Vec<(String, Usage)>,
    scope_stack: Vec<Scope>,
    current_depth: usize,
}

/// The access of a variable used as `old` and then as `new`: both where
/// either is both or they differ, else the new one.
pub open spec fn combined_access(old_access: AccessType, new_access: AccessType) -> AccessType {
    if new_access == AccessType::Both || old_access == AccessType::Both || old_access != new_access {
        AccessType::Both
    } else {
        new_access
    }
}

/// The variables of `vars` whose last use is at or before `line`, in order.
pub open spec fn freed_vars(vars: Seq<String>, usage: Map<Seq<char>, Usage>, line: usize) -> Seq<String>
    decreases vars.len(),
{
    if vars.len() == 0 {
        Seq::empty()
    } else {
        let before = freed_vars(vars.drop_last(), usage, line);
        let v = vars.last();
        if usage.dom().contains(v@) && usage[v@].line <= line {
            before.push(v)
        } else {
            before
        }
    }
}

/// Whether two variables' lifetimes overlap: both were created and used,
/// and neither was last used before the other was created.
pub open spec fn lifetimes_overlap(
    creation: Map<Seq<char>, CreationPoint>,
    usage: Map<Seq<char>, Usage>,
    a: Seq<char>,
    b: Seq<char>,
) -> bool {
    &&& creation.dom().contains(a) && usage.dom().contains(a)
    &&& creation.dom().contains(b) && usage.dom().contains(b)
    &&& !(usage[a].line < creation[b].line || usage[b].line < creation[a].line)
}

/// The number of earlier variables of `vars` whose lifetime overlaps that
/// of `v`.
pub open spec fn overlaps_with(
    vars: Seq<Seq<char>>,
    v: Seq<char>,
    creation: Map<Seq<char>, CreationPoint>,
    usage: Map<Seq<char>, Usage>,
) -> nat
    decreases vars.len(),
{
    if vars.len() == 0 {
        0
    } else {
        overlaps_with(vars.drop_last(), v, creation, usage) + if lifetimes_overlap(
            creation,
            usage,
            vars.last(),
            v,
        ) {
            1nat
        } else {
            0nat
        }
    }
}

/// The number of pairs of variables of `vars` whose lifetimes overlap.
pub open spec fn overlapping_pairs(
    vars: Seq<Seq<char>>,
    creation: Map<Seq<char>, CreationPoint>,
    usage: Map<Seq<char>, Usage>,
) -> nat
    decreases vars.len(),
{
    if vars.len() == 0 {
        0
    } else {
        overlapping_pairs(vars.drop_last(), creation, usage) + overlaps_with(
            vars.drop_last(),
            vars.last(),
            creation,
            usage,
        )
    }
}

/// The types of the created variables `points`, each once, in the order
/// they first occur.
pub open spec fn type_order(points: Seq<(String, CreationPoint)>) -> Seq<Seq<char>>
    decreases points.len(),
{
    if points.len() == 0 {
        Seq::empty()
    } else {
        let before = type_order(points.drop_last());
        let t = points.last().1.type_info@;
        if before.contains(t) {
            before
        } else {
            before.push(t)
        }
    }
}

/// The names of the variables of type `t`, in order.
pub open spec fn names_of_type(points: Seq<(String, CreationPoint)>, t: Seq<char>) -> Seq<Seq<char>>
    decreases points.len(),
{
    if points.len() == 0 {
        Seq::empty()
    } else {
        let before = names_of_type(points.drop_last(), t);
        if points.last().1.type_info@ == t {
            before.push(points.last().0@)
        } else {
            before
        }
    }
}

/// The total size of the variables of type `t`.
pub open spec fn size_of_type(points: Seq<(String, CreationPoint)>, t: Seq<char>) -> nat
    decreases points.len(),
{
    if points.len() == 0 {
        0
    } else {
        size_of_type(points.drop_last(), t) + if points.last().1.type_info@ == t {
            points.last().1.allocation_size as nat
        } else {
            0
        }
    }
}

/// The total lifetime of the variables of type `t` that were used: from
/// creation to last use, in lines.
pub open spec fn lifetime_of_type(
    points: Seq<(String, CreationPoint)>,
    t: Seq<char>,
    usage: Map<Seq<char>, Usage>,
) -> int
    decreases points.len(),
{
    if points.len() == 0 {
        0
    } else {
        let p = points.last();
        lifetime_of_type(points.drop_last(), t, usage) + if p.1.type_info@ == t && usage.dom().contains(
            p.0@,
        ) {
            usage[p.0@].line - p.1.line
        } else {
            0
        }
    }
}

/// Whether `after` is `before` with a scope entered at `line`: one deeper,
/// with a new innermost scope that has no variables yet.
pub open spec fn scope_entered(before: LifetimeTracker, after: LifetimeTracker, line: usize) -> bool {
    &&& after.depth() == before.depth() + 1
    &&& after.scopes().len() == before.scopes().len() + 1
    &&& after.scopes().drop_last() == before.scopes()
    &&& after.scopes().last().variables@.len() == 0
    &&& after.scopes().last().start_line == line
    &&& after.creations() == before.creations()
    &&& after.usages() == before.usages()
}

/// Whether `after` is `before` with its innermost scope left at `line`,
/// `freed` being that scope's variables last used at or before the line.
pub open spec fn scope_exited(
    before: LifetimeTracker,
    after: LifetimeTracker,
    line: usize,
    freed: Seq<String>,
) -> bool {
    &&& after.depth() == before.depth() - 1
    &&& after.scopes() == before.scopes().drop_last()
    &&& freed == freed_vars(before.scopes().last().variables@, before.usages(), line)
    &&& after.creations() == before.creations()
    &&& after.usages() == before.usages()
}

/// Leaving a scope right after entering it frees nothing and puts the
/// tracker back as it was.
pub proof fn law_exit_undoes_enter(
    a: LifetimeTracker,
    b: LifetimeTracker,
    c: LifetimeTracker,
    enter_line: usize,
    exit_line: usize,
    freed: Seq<String>,
)
    requires
        scope_entered(a, b, enter_line),
        scope_exited(b, c, exit_line, freed),
    ensures
        freed.len() == 0,
        c.scopes() == a.scopes(),
        c.depth() == a.depth(),
        c.creations() == a.creations(),
        c.usages() == a.usages(),
{
}

impl LifetimeTracker {
    /// The variables created and the variables used are each listed once;
    /// the scopes form a stack from depth 0 with the current depth at its
    /// top; no scope lists a variable twice.
    pub closed spec fn wf(&self) -> bool {
        &&& keys_unique(self.creation_points@)
        &&& keys_unique(self.last_usage@)
        &&& self.scope_stack@.len() == self.current_depth + 1
        &&& forall|i: int|
            0 <= i < self.scope_stack@.len() ==> (#[trigger] self.scope_stack@[i]).depth == i
    }

    /// Where each variable was created.
    pub closed spec fn creations(&self) -> Map<Seq<char>, CreationPoint> {
        keyed_map(self.creation_points@)
    }

    /// How each variable was last used.
    pub closed spec fn usages(&self) -> Map<Seq<char>, Usage> {
        keyed_map(self.last_usage@)
    }

    /// The scopes, outermost first.
    pub closed spec fn scopes(&self) -> Seq<Scope> {
        self.scope_stack@
    }

    /// The current scope depth.
    pub closed spec fn depth(&self) -> usize {
        self.current_depth
    }

    /// The created variables in the order they were first created.
    pub closed spec fn creation_list(&self) -> Seq<(String, CreationPoint)> {
        self.creation_points@
    }

    /// The memory pattern of each type of variable, in the order the types
    /// first occur: the number of variables, their total size, their
    /// average lifetime, and the pairs of them with overlapping lifetimes.
    pub fn analyze_memory_patterns(&self) -> (r: Vec<MemoryPattern>)
        requires
            self.wf(),
            forall|v: Seq<char>|
                self.creations().dom().contains(v) && self.usages().dom().contains(v) ==> #[trigger] self.creations()[v].line
                    <= self.usages()[v].line,
            forall|t: Seq<char>| #[trigger] size_of_type(self.creation_list(), t) <= usize::MAX,
            self.creation_list().len() * self.creation_list().len() <= usize::MAX,
        ensures
            r@.len() == type_order(self.creation_list()).len(),
            forall|k: int|
                0 <= k < r@.len() ==> {
                    let t = type_order(self.creation_list())[k];
                    let names = names_of_type(self.creation_list(), t);
                    &&& (#[trigger] r@[k]).allocated_type@ == t
                    &&& r@[k].allocation_count == names.len()
                    &&& r@[k].total_size == size_of_type(self.creation_list(), t)
                    &&& r@[k].average_lifetime_ms == lifetime_of_type(
                        self.creation_list(),
                        t,
                        self.usages(),
                    ) / (names.len() as int)
                    &&& r@[k].overlapping_pairs == overlapping_pairs(
                        names,
                        self.creations(),
                        self.usages(),
                    )
                },
    {
        let points = &self.creation_points;
        let mut types: Vec<String> = Vec::new();
        let mut i: usize = 0;
        while i < points.len()
            invariant
                i <= points@.len(),
                types@.map_values(|v: String| v@) == type_order(points@.take(i as int)),
            decreases points@.len() - i,
        {
            proof {
                assert(points@.take(i + 1).drop_last() =~= points@.take(i as int));
            }
            let ghost before = types@;
            let t = &points[i].1.type_info;
            if !contains_text(&types, t.as_str()) {
                types.push(t.clone());
                proof {
                    assert(types@.map_values(|v: String| v@) =~= before.map_values(|v: String| v@).push(
                        t@,
                    ));
                }
            }
            i = i + 1;
        }
        proof {
            assert(points@.take(points@.len() as int) =~= points@);
        }
        let mut patterns: Vec<MemoryPattern> = Vec::new();
        let mut k: usize = 0;
        while k < types.len()
            invariant
                k <= types@.len(),
                self.wf(),
                points == &self.creation_points,
                types@.map_values(|v: String| v@) == type_order(points@),
                forall|v: Seq<char>|
                    self.creations().dom().contains(v) && self.usages().dom().contains(v) ==> #[trigger] self.creations()[v].line
                        <= self.usages()[v].line,
                forall|t: Seq<char>| #[trigger] size_of_type(self.creation_list(), t) <= usize::MAX,
                self.creation_list().len() * self.creation_list().len() <= usize::MAX,
                patterns@.len() == k,
                forall|j: int|
                    0 <= j < k ==> {
                        let t = type_order(self.creation_list())[j];
                        let names = names_of_type(self.creation_list(), t);
                        &&& (#[trigger] patterns@[j]).allocated_type@ == t
                        &&& patterns@[j].allocation_count == names.len()
                        &&& patterns@[j].total_size == size_of_type(self.creation_list(), t)
                        &&& patterns@[j].average_lifetime_ms == lifetime_of_type(
                            self.creation_list(),
                            t,
                            self.usages(),
                        ) / (names.len() as int)
                        &&& patterns@[j].overlapping_pairs == overlapping_pairs(
                            names,
                            self.creations(),
                            self.usages(),
                        )
                    },
            decreases types@.len() - k,
        {
            proof {
                assert(types@.map_values(|v: String| v@)[k as int] == types@[k as int]@);
                lemma_type_has_names(points@, types@[k as int]@);
            }
            let pattern = self.pattern_of(types[k].as_str());
            patterns.push(pattern);
            k = k + 1;
        }
        patterns
    }

    /// The memory pattern of the variables of type `t`, of which there is
    /// one at least.
    fn pattern_of(&self, t: &str) -> (r: MemoryPattern)
        requires
            self.wf(),
            names_of_type(self.creation_list(), t@).len() > 0,
            forall|v: Seq<char>|
                self.creations().dom().contains(v) && self.usages().dom().contains(v) ==> #[trigger] self.creations()[v].line
                    <= self.usages()[v].line,
            size_of_type(self.creation_list(), t@) <= usize::MAX,
            self.creation_list().len() * self.creation_list().len() <= usize::MAX,
        ensures
            r.allocated_type@ == t@,
            r.allocation_count == names_of_type(self.creation_list(), t@).len(),
            r.total_size == size_of_type(self.creation_list(), t@),
            r.average_lifetime_ms == lifetime_of_type(self.creation_list(), t@, self.usages()) / (
            names_of_type(self.creation_list(), t@).len() as int),
            r.overlapping_pairs == overlapping_pairs(
                names_of_type(self.creation_list(), t@),
                self.creations(),
                self.usages(),
            ),
    {
        let points = &self.creation_points;
        let mut names: Vec<String> = Vec::new();
        let mut total: usize = 0;
        let mut lifetimes: u128 = 0;
        let mut i: usize = 0;
        while i < points.len()
            invariant
                i <= points@.len(),
                self.wf(),
                points == &self.creation_points,
                forall|v: Seq<char>|
                    self.creations().dom().contains(v) && self.usages().dom().contains(v) ==> #[trigger] self.creations()[v].line
                        <= self.usages()[v].line,
                size_of_type(points@, t@) <= usize::MAX,
                names@.map_values(|v: String| v@) == names_of_type(points@.take(i as int), t@),
                names@.len() <= i,
                total == size_of_type(points@.take(i as int), t@),
                lifetimes == lifetime_of_type(points@.take(i as int), t@, self.usages()),
                lifetimes <= names@.len() * 0xffff_ffff_ffff_ffffu128,
            decreases points@.len() - i,
        {
            proof {
                assert(points@.take(i + 1).drop_last() =~= points@.take(i as int));
                lemma_size_prefix(points@, i as int + 1, t@);
                lemma_keyed_map(points@, points@[i as int].0@);
                lemma_key_index(points@, points@[i as int].0@);
            }
            if crate::keyed::str_eq(points[i].1.type_info.as_str(), t) {
                let ghost before = names@;
                names.push(points[i].0.clone());
                proof {
                    assert(names@.map_values(|v: String| v@) =~= before.map_values(|v: String| v@).push(
                        points@[i as int].0@,
                    ));
                }
                total = total + points[i].1.allocation_size;
                match self.get_lifetime(points[i].0.as_str()) {
                    Some(ms) => {
                        assert(lifetimes + ms as u128 <= names@.len() * 0xffff_ffff_ffff_ffffu128) by (nonlinear_arith)
                            requires
                                lifetimes <= (names@.len() - 1) * 0xffff_ffff_ffff_ffffu128,
                                ms <= 0xffff_ffff_ffff_ffffu64,
                                names@.len() >= 1,
                        ;
                        lifetimes = lifetimes + ms as u128;
                    },
                    None => {},
                }
            }
            i = i + 1;
        }
        proof {
            assert(points@.take(points@.len() as int) =~= points@);
        }
        let count = names.len();
        proof {
            assert(names@.map_values(|v: String| v@).len() == names@.len());
            assert(lifetimes / (count as u128) <= 0xffff_ffff_ffff_ffffu128) by (nonlinear_arith)
                requires
                    lifetimes <= count * 0xffff_ffff_ffff_ffffu128,
                    count >= 1,
            ;
            assert(count * count <= points@.len() * points@.len()) by (nonlinear_arith)
                requires
                    count <= points@.len(),
            ;
        }
        let average = (lifetimes / (count as u128)) as u64;
        let overlapping = self.count_overlapping(&names);
        MemoryPattern {
            allocated_type: String::from_str(t),
            allocation_count: count,
            total_size: total,
            average_lifetime_ms: average,
            overlapping_pairs: overlapping,
        }
    }

    /// A tracker in its outermost scope, with nothing tracked.
    pub fn new() -> (r: Self)
        ensures
            r.wf(),
            r.creations() == Map::<Seq<char>, CreationPoint>::empty(),
            r.usages() == Map::<Seq<char>, Usage>::empty(),
            r.depth() == 0,
            r.scopes().len() == 1,
            r.scopes()[0].variables@.len() == 0,
            r.scopes()[0].start_line == 0,
    {
        let mut scope_stack: Vec<Scope> = Vec::new();
        scope_stack.push(Scope { depth: 0, variables: Vec::new(), start_line: 0 });
        LifetimeTracker {
            creation_points: Vec::new(),
            last_usage: Vec::new(),
            scope_stack,
            current_depth: 0,
        }
    }

    /// Enter a scope starting at `line`, one deeper.
    pub fn enter_scope(&mut self, line: usize)
        requires
            old(self).wf(),
            old(self).depth() < usize::MAX,
        ensures
            final(self).wf(),
            scope_entered(*old(self), *final(self), line),
    {
        self.current_depth = self.current_depth + 1;
        self.scope_stack.push(Scope { depth: self.current_depth, variables: Vec::new(), start_line: line });
        proof {
            assert(self.scope_stack@.drop_last() =~= old(self).scope_stack@);
        }
    }

    /// Leave the innermost scope at `line`; returns its variables last used
    /// at or before that line. The outermost scope cannot be left.
    pub fn exit_scope(&mut self, line: usize) -> (r: Vec<String>)
        requires
            old(self).wf(),
            old(self).depth() >= 1,
        ensures
            final(self).wf(),
            scope_exited(*old(self), *final(self), line, r@),
    {
        let scope = self.scope_stack.pop().unwrap();
        self.current_depth = self.current_depth - 1;
        let vars = &scope.variables;
        let mut freed: Vec<String> = Vec::new();
        let mut i: usize = 0;
        while i < vars.len()
            invariant
                i <= vars@.len(),
                keys_unique(self.last_usage@),
                self.last_usage@ == old(self).last_usage@,
                freed@ == freed_vars(vars@.take(i as int), keyed_map(self.last_usage@), line),
            decreases vars@.len() - i,
        {
            proof {
                assert(vars@.take(i + 1).drop_last() =~= vars@.take(i as int));
                lemma_keyed_map(self.last_usage@, vars@[i as int]@);
                lemma_key_index(self.last_usage@, vars@[i as int]@);
            }
            match find_key(&self.last_usage, vars[i].as_str()) {
                Some(k) => {
                    if self.last_usage[k].1.line <= line {
                        freed.push(vars[i].clone());
                    }
                },
                None => {},
            }
            i = i + 1;
        }
        proof {
            assert(vars@.take(vars@.len() as int) =~= vars@);
        }
        freed
    }

    /// Record that `var_name` is created at `line` in the current scope,
    /// with its size and type; a variable created before is recorded anew.
    pub fn track_creation(&mut self, var_name: String, line: usize, size: usize, type_info: String)
        requires
            old(self).wf(),
        ensures
            final(self).wf(),
            final(self).creations() == old(self).creations().insert(
                var_name@,
                CreationPoint {
                    line,
                    scope_depth: old(self).depth(),
                    allocation_size: size,
                    type_info,
                },
            ),
            final(self).usages() == old(self).usages(),
            final(self).depth() == old(self).depth(),
            final(self).scopes().len() == old(self).scopes().len(),
            final(self).scopes().drop_last() == old(self).scopes().drop_last(),
            final(self).scopes().last().variables@ == put_name(
                old(self).scopes().last().variables@,
                var_name,
            ),
            final(self).scopes().last().start_line == old(self).scopes().last().start_line,
    {
        let creation = CreationPoint {
            line,
            scope_depth: self.current_depth,
            allocation_size: size,
            type_info,
        };
        let name = var_name.clone();
        proof {
            lemma_put(self.creation_points@, var_name, creation);
        }
        put(&mut self.creation_points, var_name, creation);
        let last = self.scope_stack.len() - 1;
        let ghost stack = self.scope_stack@;
        let mut scope = self.scope_stack.pop().unwrap();
        add_name(&mut scope.variables, name);
        self.scope_stack.push(scope);
        proof {
            assert(self.scope_stack@.drop_last() =~= stack.drop_last());
            assert(self.scope_stack@[last as int].depth == last);
        }
    }

    /// Record that `var_name` is used at `line` with `access`: its last
    /// line becomes `line`, its use count grows by one, and its access
    /// combines with the earlier one.
    pub fn track_usage(&mut self, var_name: &str, line: usize, access: AccessType)
        requires
            old(self).wf(),
            old(self).usages().dom().contains(var_name@) ==> old(self).usages()[var_name@].frequency
                < usize::MAX,
        ensures
            final(self).wf(),
            final(self).usages() == old(self).usages().insert(
                var_name@,
                if old(self).usages().dom().contains(var_name@) {
                    Usage {
                        line,
                        access_type: combined_access(
                            old(self).usages()[var_name@].access_type,
                            access,
                        ),
                        frequency: (old(self).usages()[var_name@].frequency + 1) as usize,
                    }
                } else {
                    Usage { line, access_type: access, frequency: 1 }
                },
            ),
            final(self).creations() == old(self).creations(),
            final(self).scopes() == old(self).scopes(),
            final(self).depth() == old(self).depth(),
    {
        proof {
            lemma_keyed_map(self.last_usage@, var_name@);
            lemma_key_index(self.last_usage@, var_name@);
        }
        let existing = match find_key(&self.last_usage, var_name) {
            Some(k) => self.last_usage[k].1,
            None => Usage { line, access_type: access, frequency: 0 },
        };
        let combined = match (existing.access_type, access) {
            (_, AccessType::Both) => AccessType::Both,
            (AccessType::Both, _) => AccessType::Both,
            (AccessType::Read, AccessType::Write) => AccessType::Both,
            (AccessType::Write, AccessType::Read) => AccessType::Both,
            _ => access,
        };
        let usage = Usage { line, access_type: combined, frequency: existing.frequency + 1 };
        let key = String::from_str(var_name);
        proof {
            lemma_put(self.last_usage@, key, usage);
        }
        put(&mut self.last_usage, key, usage);
    }

    /// The lifetime of a variable in milliseconds, one line counting as one
    /// millisecond: from its creation to its last use, where it has both.
    pub fn get_lifetime(&self, var_name: &str) -> (r: Option<u64>)
        requires
            self.wf(),
            self.creations().dom().contains(var_name@) && self.usages().dom().contains(var_name@)
                ==> self.creations()[var_name@].line <= self.usages()[var_name@].line,
        ensures
            match r {
                Some(ms) => self.creations().dom().contains(var_name@) && self.usages().dom().contains(
                    var_name@,
                ) && ms == self.usages()[var_name@].line - self.creations()[var_name@].line,
                None => !(self.creations().dom().contains(var_name@) && self.usages().dom().contains(
                    var_name@,
                )),
            },
    {
        proof {
            lemma_keyed_map(self.creation_points@, var_name@);
            lemma_key_index(self.creation_points@, var_name@);
            lemma_keyed_map(self.last_usage@, var_name@);
            lemma_key_index(self.last_usage@, var_name@);
        }
        match (find_key(&self.creation_points, var_name), find_key(&self.last_usage, var_name)) {
            (Some(c), Some(u)) => {
                let created = self.creation_points[c].1.line;
                let used = self.last_usage[u].1.line;
                Some((used - created) as u64)
            },
            _ => None,
        }
    }

    /// Where and how a variable was created, if it was.
    pub fn get_allocation_info(&self, var_name: &str) -> (r: Option<&CreationPoint>)
        requires
            self.wf(),
        ensures
            r is Some == self.creations().dom().contains(var_name@),
            r matches Some(c) ==> *c == self.creations()[var_name@],
    {
        proof {
            lemma_keyed_map(self.creation_points@, var_name@);
            lemma_key_index(self.creation_points@, var_name@);
        }
        match find_key(&self.creation_points, var_name) {
            Some(i) => Some(&self.creation_points[i].1),
            None => None,
        }
    }

    /// How a variable was last used, if it was.
    pub fn get_usage_pattern(&self, var_name: &str) -> (r: Option<&Usage>)
        requires
            self.wf(),
        ensures
            r is Some == self.usages().dom().contains(var_name@),
            r matches Some(u) ==> *u == self.usages()[var_name@],
    {
        proof {
            lemma_keyed_map(self.last_usage@, var_name@);
            lemma_key_index(self.last_usage@, var_name@);
        }
        match find_key(&self.last_usage, var_name) {
            Some(i) => Some(&self.last_usage[i].1),
            None => None,
        }
    }

    /// The variables of the current scope.
    pub fn get_current_scope_vars(&self) -> (r: Vec<String>)
        requires
            self.wf(),
        ensures
            r@ == self.scopes().last().variables@,
    {
        let last = self.scope_stack.len() - 1;
        let vars = &self.scope_stack[last].variables;
        let mut out: Vec<String> = Vec::new();
        let mut i: usize = 0;
        while i < vars.len()
            invariant
                i <= vars@.len(),
                out@ == vars@.take(i as int),
            decreases vars@.len() - i,
        {
            out.push(vars[i].clone());
            proof {
                assert(out@ =~= vars@.take(i + 1));
            }
            i = i + 1;
        }
        proof {
            assert(vars@.take(vars@.len() as int) =~= vars@);
        }
        out
    }

    /// The number of pairs among the variables `vars` whose lifetimes
    /// overlap.
    fn count_overlapping(&self, vars: &Vec<String>) -> (r: usize)
        requires
            self.wf(),
            vars@.len() * vars@.len() <= usize::MAX,
        ensures
            r == overlapping_pairs(vars@.map_values(|v: String| v@), self.creations(), self.usages()),
    {
        let ghost names = vars@.map_values(|v: String| v@);
        let mut total: usize = 0;
        let mut j: usize = 0;
        while j < vars.len()
            invariant
                j <= vars@.len(),
                vars@.len() * vars@.len() <= usize::MAX,
                names == vars@.map_values(|v: String| v@),
                self.wf(),
                total == overlapping_pairs(names.take(j as int), self.creations(), self.usages()),
                total <= j * j,
            decreases vars@.len() - j,
        {
            proof {
                assert(names.take(j + 1).drop_last() =~= names.take(j as int));
                assert(names.take(j + 1).last() == vars@[j as int]@);
            }
            let mut count: usize = 0;
            let mut i: usize = 0;
            while i < j
                invariant
                    i <= j < vars@.len(),
                    names == vars@.map_values(|v: String| v@),
                    self.wf(),
                    count == overlaps_with(names.take(i as int), vars@[j as int]@, self.creations(), self.usages()),
                    count <= i,
                decreases j - i,
            {
                proof {
                    assert(names.take(i + 1).drop_last() =~= names.take(i as int));
                    assert(names.take(i + 1).last() == vars@[i as int]@);
                }
                if self.overlap(vars[i].as_str(), vars[j].as_str()) {
                    count = count + 1;
                }
                i = i + 1;
            }
            proof {
                assert(names.take(j as int).take(j as int) =~= names.take(j as int));
                assert(total + count <= (j + 1) * (j + 1)) by (nonlinear_arith)
                    requires
                        total <= j * j,
                        count <= j,
                ;
                assert((j + 1) * (j + 1) <= vars@.len() * vars@.len()) by (nonlinear_arith)
                    requires
                        j + 1 <= vars@.len(),
                ;
            }
            total = total + count;
            j = j + 1;
        }
        proof {
            assert(names.take(vars@.len() as int) =~= names);
        }
        total
    }

    /// Whether the lifetimes of two variables overlap.
    fn overlap(&self, a: &str, b: &str) -> (r: bool)
        requires
            self.wf(),
        ensures
            r == lifetimes_overlap(self.creations(), self.usages(), a@, b@),
    {
        proof {
            lemma_keyed_map(self.creation_points@, a@);
            lemma_key_index(self.creation_points@, a@);
            lemma_keyed_map(self.last_usage@, a@);
            lemma_key_index(self.last_usage@, a@);
            lemma_keyed_map(self.creation_points@, b@);
            lemma_key_index(self.creation_points@, b@);
            lemma_keyed_map(self.last_usage@, b@);
            lemma_key_index(self.last_usage@, b@);
        }
        let ca = find_key(&self.creation_points, a);
        let ua = find_key(&self.last_usage, a);
        let cb = find_key(&self.creation_points, b);
        let ub = find_key(&self.last_usage, b);
        match (ca, ua, cb, ub) {
            (Some(ca), Some(ua), Some(cb), Some(ub)) => {
                let c1 = self.creation_points[ca].1.line;
                let u1 = self.last_usage[ua].1.line;
                let c2 = self.creation_points[cb].1.line;
                let u2 = self.last_usage[ub].1.line;
                !(u1 < c2 || u2 < c1)
            },
            _ => false,
        }
    }
}

/// `names` with `name` added where it is not there yet.
pub open spec fn put_name(names: Seq<String>, name: String) -> Seq<String> {
    if names.map_values(|v: String| v@).contains(name@) {
        names
    } else {
        names.push(name)
    }
}

/// Add `name` to a list of names where it is not there yet.
fn add_name(names: &mut Vec<String>, name: String)
    ensures
        final(names)@ == put_name(old(names)@, name),
{
    let ghost views = names@.map_values(|v: String| v@);
    let mut i: usize = 0;
    while i < names.len()
        invariant
            i <= names@.len(),
            names@ == old(names)@,
            views == names@.map_values(|v: String| v@),
            forall|k: int| 0 <= k < i ==> names@[k]@ != name@,
        decreases names@.len() - i,
    {
        if crate::keyed::str_eq(names[i].as_str(), name.as_str()) {
            proof {
                assert(views[i as int] == name@);
            }
            return;
        }
        i = i + 1;
    }
    proof {
        assert forall|k: int| 0 <= k < views.len() implies views[k] != name@ by {
            assert(views[k] == names@[k]@);
        }
    }
    names.push(name);
}

/// Whether one of `texts` reads `t`.
fn contains_text(texts: &Vec<String>, t: &str) -> (r: bool)
    ensures
        r == texts@.map_values(|v: String| v@).contains(t@),
{
    let ghost views = texts@.map_values(|v: String| v@);
    let mut i: usize = 0;
    while i < texts.len()
        invariant
            i <= texts@.len(),
            views == texts@.map_values(|v: String| v@),
            forall|k: int| 0 <= k < i ==> texts@[k]@ != t@,
        decreases texts@.len() - i,
    {
        if crate::keyed::str_eq(texts[i].as_str(), t) {
            proof {
                assert(views[i as int] == t@);
            }
            return true;
        }
        i = i + 1;
    }
    proof {
        assert forall|k: int| 0 <= k < views.len() implies views[k] != t@ by {
            assert(views[k] == texts@[k]@);
        }
    }
    false
}

/// The total size of the variables of a type in a prefix is no more than
/// in the whole.
proof fn lemma_size_prefix(points: Seq<(String, CreationPoint)>, n: int, t: Seq<char>)
    requires
        0 <= n <= points.len(),
    ensures
        size_of_type(points.take(n), t) <= size_of_type(points, t),
    decreases points.len(),
{
    if n < points.len() {
        assert(points.drop_last().take(n) =~= points.take(n));
        lemma_size_prefix(points.drop_last(), n, t);
    } else {
        assert(points.take(n) =~= points);
    }
}

/// Each type in the order of types has a variable.
proof fn lemma_type_has_names(points: Seq<(String, CreationPoint)>, t: Seq<char>)
    requires
        type_order(points).contains(t),
    ensures
        names_of_type(points, t).len() > 0,
    decreases points.len(),
{
    if points.len() > 0 {
        if points.last().1.type_info@ != t {
            lemma_type_has_names(points.drop_last(), t);
        }
    }
}

} // verus!
//! Breakpoints and watched variables of a debugging session.

use vstd::prelude::*;
use std::collections::HashMap;
use crate::keyed::{
    find_key,
    keyed_map,
    keys_unique,
    lemma_key_index,
    lemma_keyed_map,
    lemma_put,
    put,
    put_spec,
};

verus! {

broadcast use vstd::std_specs::hash::group_hash_axioms;

/// A breakpoint on a source line.
#[derive(Debug, Clone)]
pub struct Breakpoint {
    pub line: usize,
    pub condition: Option<String>,
    pub hit_count: usize,
    pub watch_expressions: Vec<String>,
    pub enabled: bool,
}

/// A watched variable: its expression, the value it last had, and the
/// condition under which it is watched.
#[derive(Debug, Clone)]
pub struct WatchInfo {
    pub expression: String,
    pub last_value: Option<String>,
    pub condition: Option<String>,
}

/// Where execution stands: the line, the local variables by name, and the
/// values of the watched variables.
#[derive(Debug)]
pub struct DebugContext {
    pub line: usize,
    pub locals: Vec<(String, String)>,
    pub watches: Vec<(String, Option<String>)>,
}

/// The breakpoints by line, the watched variables by name, and the current
/// line with its local variables.
#[derive(Debug)]
pub struct BreakpointManager {
    breakpoints: HashMap<usize, Breakpoint>,
    watch_variables: Vec<(String, WatchInfo)>,
    current_line: usize,
    current_locals: Vec<(String, String)>,
}

/// The breakpoints with the one on `line`, where there is one, switched on
/// or off.
pub open spec fn toggled(m: Map<usize, Breakpoint>, line: usize) -> Map<usize, Breakpoint> {
    match m.get(line) {
        Some(b) => m.insert(line, Breakpoint { enabled: !b.enabled, ..b }),
        None => m,
    }
}

/// Toggling the same line twice leaves the breakpoints as they were.
pub proof fn law_toggle_twice(m: Map<usize, Breakpoint>, line: usize)
    ensures
        toggled(toggled(m, line), line) == m,
{
    match m.get(line) {
        Some(b) => {
            let b2 = Breakpoint { enabled: !!b.enabled, ..b };
            assert(b2 == b);
            assert(toggled(toggled(m, line), line) =~= m);
        },
        None => {},
    }
}

/// Copies of a list of string pairs.
fn clone_pairs(v: &Vec<(String, String)>) -> (r: Vec<(String, String)>)
    ensures
        r@ == v@,
{
    let mut out: Vec<(String, String)> = Vec::new();
    let mut i: usize = 0;
    while i < v.len()
        invariant
            i <= v@.len(),
            out@ == v@.take(i as int),
        decreases v@.len() - i,
    {
        out.push((v[i].0.clone(), v[i].1.clone()));
        proof {
            assert(out@ =~= v@.take(i + 1));
        }
        i = i + 1;
    }
    proof {
        assert(v@.take(v@.len() as int) =~= v@);
    }
    out
}

/// A copy of an optional string.
fn clone_option(v: &Option<String>) -> (r: Option<String>)
    ensures
        r == *v,
{
    match v {
        Some(s) => Some(s.clone()),
        None => None,
    }
}

/// The value of a local variable, if there is one of that name.
pub open spec fn local_value(locals: Seq<(String, String)>, name: Seq<char>) -> Option<Seq<char>> {
    if keyed_map(locals).dom().contains(name) {
        Some(keyed_map(locals)[name]@)
    } else {
        None
    }
}

/// Whether `after` is the list of watched variables `before` once the
/// breakpoint's expressions are evaluated: each watched variable named by
/// one of `exprs` takes the value of the local of that name, or none.
pub open spec fn watches_updated(
    before: Seq<(String, WatchInfo)>,
    after: Seq<(String, WatchInfo)>,
    exprs: Seq<String>,
    locals: Seq<(String, String)>,
) -> bool {
    &&& after.len() == before.len()
    &&& forall|i: int|
        0 <= i < before.len() ==> {
            &&& (#[trigger] after[i]).0 == before[i].0
            &&& after[i].1.expression == before[i].1.expression
            &&& after[i].1.condition == before[i].1.condition
            &&& if exprs.map_values(|e: String| e@).contains(before[i].0@) {
                match local_value(locals, before[i].0@) {
                    Some(v) => after[i].1.last_value matches Some(s) && s@ == v,
                    None => after[i].1.last_value is None,
                }
            } else {
                after[i].1.last_value == before[i].1.last_value
            }
        }
}

impl BreakpointManager {
    /// Each breakpoint is stored under its own line, and no variable is
    /// watched twice or local twice.
    pub closed spec fn wf(&self) -> bool {
        &&& forall|l: usize| #[trigger]
            self.breakpoints@.contains_key(l) ==> self.breakpoints@[l].line == l
        &&& keys_unique(self.watch_variables@)
        &&& keys_unique(self.current_locals@)
    }

    /// The breakpoints by line.
    pub closed spec fn breakpoint_map(&self) -> Map<usize, Breakpoint> {
        self.breakpoints@
    }

    /// The watched variables in the order they were first added.
    pub closed spec fn watch_list(&self) -> Seq<(String, WatchInfo)> {
        self.watch_variables@
    }

    /// The current line.
    pub closed spec fn line(&self) -> usize {
        self.current_line
    }

    /// The current local variables.
    pub closed spec fn locals(&self) -> Seq<(String, String)> {
        self.current_locals@
    }

    /// No breakpoints, no watches, line 0 and no locals.
    pub fn new() -> (r: Self)
        ensures
            r.wf(),
            r.breakpoint_map() == Map::<usize, Breakpoint>::empty(),
            r.watch_list().len() == 0,
            r.line() == 0,
            r.locals().len() == 0,
    {
        BreakpointManager {
            breakpoints: HashMap::new(),
            watch_variables: Vec::new(),
            current_line: 0,
            current_locals: Vec::new(),
        }
    }

    /// Set an enabled breakpoint on `line`, with no hits and no watches; one
    /// already there is replaced.
    pub fn add_breakpoint(&mut self, line: usize, condition: Option<String>)
        requires
            old(self).wf(),
        ensures
            final(self).wf(),
            final(self).breakpoint_map() == old(self).breakpoint_map().insert(
                line,
                final(self).breakpoint_map()[line],
            ),
            final(self).breakpoint_map()[line].line == line,
            final(self).breakpoint_map()[line].condition == condition,
            final(self).breakpoint_map()[line].hit_count == 0,
            final(self).breakpoint_map()[line].enabled,
            final(self).breakpoint_map()[line].watch_expressions@.len() == 0,
            final(self).watch_list() == old(self).watch_list(),
            final(self).line() == old(self).line(),
            final(self).locals() == old(self).locals(),
    {
        let breakpoint = Breakpoint {
            line,
            condition,
            hit_count: 0,
            watch_expressions: Vec::new(),
            enabled: true,
        };
        self.breakpoints.insert(line, breakpoint);
    }

    /// Watch `variable`, with no value yet; a watch of the same name is
    /// replaced.
    pub fn add_watch(&mut self, variable: String, condition: Option<String>)
        requires
            old(self).wf(),
        ensures
            final(self).wf(),
            final(self).watch_list() == put_spec(
                old(self).watch_list(),
                variable,
                WatchInfo { expression: variable, last_value: None, condition },
            ),
            final(self).breakpoint_map() == old(self).breakpoint_map(),
            final(self).line() == old(self).line(),
            final(self).locals() == old(self).locals(),
    {
        let watch = WatchInfo { expression: variable.clone(), last_value: None, condition };
        proof {
            lemma_put(self.watch_variables@, variable, watch);
        }
        put(&mut self.watch_variables, variable, watch);
    }

    /// The value of the local variable `expression`, if there is one.
    pub fn evaluate_expression(&self, expression: &str) -> (r: Option<String>)
        requires
            self.wf(),
        ensures
            match local_value(self.locals(), expression@) {
                Some(v) => r matches Some(s) && s@ == v,
                None => r is None,
            },
    {
        proof {
            lemma_keyed_map(self.current_locals@, expression@);
            lemma_key_index(self.current_locals@, expression@);
        }
        match find_key(&self.current_locals, expression) {
            Some(i) => Some(self.current_locals[i].1.clone()),
            None => None,
        }
    }

    /// Whether a condition holds. Conditions are not evaluated: every
    /// condition holds.
    pub fn evaluate_condition(&self, condition: &str) -> (r: bool)
        ensures
            r,
    {
        true
    }

    /// Move to `line` with the given locals. Returns whether execution
    /// breaks there: there is an enabled breakpoint on the line. Such a
    /// breakpoint counts a hit, and the watched variables it names take
    /// the values of the locals of their names.
    pub fn update_line(&mut self, line: usize, locals: Vec<(String, String)>) -> (r: bool)
        requires
            old(self).wf(),
            keys_unique(locals@),
            old(self).breakpoint_map().contains_key(line) ==> old(self).breakpoint_map()[line].hit_count
                < usize::MAX,
        ensures
            final(self).wf(),
            final(self).line() == line,
            final(self).locals() == locals@,
            r == (old(self).breakpoint_map().contains_key(line) && old(self).breakpoint_map()[line].enabled),
            r ==> {
                let b = old(self).breakpoint_map()[line];
                &&& final(self).breakpoint_map() == old(self).breakpoint_map().insert(
                    line,
                    Breakpoint { hit_count: (b.hit_count + 1) as usize, ..b },
                )
                &&& watches_updated(
                    old(self).watch_list(),
                    final(self).watch_list(),
                    b.watch_expressions@,
                    locals@,
                )
            },
            !r ==> final(self).breakpoint_map() == old(self).breakpoint_map() && final(self).watch_list() == old(self).watch_list(),
    {
        self.current_line = line;
        self.current_locals = locals;
        let taken = self.breakpoints.remove(&line);
        match taken {
            None => false,
            Some(b) => {
                if !b.enabled {
                    self.breakpoints.insert(line, b);
                    proof {
                        assert(self.breakpoints@ =~= old(self).breakpoints@);
                    }
                    return false;
                }
                let ghost b0 = b;
                let mut b = b;
                b.hit_count = b.hit_count + 1;
                match &b.condition {
                    Some(condition) => {
                        if !self.evaluate_condition(condition.as_str()) {
                            self.breakpoints.insert(line, b);
                            return false;
                        }
                    },
                    None => {},
                }
                self.update_watches(&b.watch_expressions);
                self.breakpoints.insert(line, b);
                proof {
                    assert(self.breakpoints@ =~= old(self).breakpoints@.insert(
                        line,
                        Breakpoint { hit_count: (b0.hit_count + 1) as usize, ..b0 },
                    ));
                }
                true
            },
        }
    }

    /// Each watched variable named by one of `exprs` takes the value of the
    /// local of its name.
    fn update_watches(&mut self, exprs: &Vec<String>)
        requires
            old(self).wf(),
        ensures
            final(self).wf(),
            final(self).breakpoints@ == old(self).breakpoints@,
            final(self).current_line == old(self).current_line,
            final(self).current_locals@ == old(self).current_locals@,
            watches_updated(
                old(self).watch_variables@,
                final(self).watch_variables@,
                exprs@,
                old(self).current_locals@,
            ),
    {
        let ghost names = exprs@.map_values(|e: String| e@);
        let mut i: usize = 0;
        while i < self.watch_variables.len()
            invariant
                i <= self.watch_variables@.len(),
                self.watch_variables@.len() == old(self).watch_variables@.len(),
                self.breakpoints@ == old(self).breakpoints@,
                self.current_line == old(self).current_line,
                self.current_locals@ == old(self).current_locals@,
                self.wf(),
                names == exprs@.map_values(|e: String| e@),
                forall|k: int|
                    0 <= k < self.watch_variables@.len() ==> (#[trigger] self.watch_variables@[k]).0
                        == old(self).watch_variables@[k].0,
                forall|k: int|
                    i <= k < self.watch_variables@.len() ==> #[trigger] self.watch_variables@[k]
                        == old(self).watch_variables@[k],
                forall|k: int|
                    0 <= k < i ==> {
                        &&& (#[trigger] self.watch_variables@[k]).0 == old(self).watch_variables@[k].0
                        &&& self.watch_variables@[k].1.expression == old(self).watch_variables@[k].1.expression
                        &&& self.watch_variables@[k].1.condition == old(self).watch_variables@[k].1.condition
                        &&& if names.contains(old(self).watch_variables@[k].0@) {
                            match local_value(
                                old(self).current_locals@,
                                old(self).watch_variables@[k].0@,
                            ) {
                                Some(v) => self.watch_variables@[k].1.last_value matches Some(
                                    s,
                                ) && s@ == v,
                                None => self.watch_variables@[k].1.last_value is None,
                            }
                        } else {
                            self.watch_variables@[k].1.last_value == old(self).watch_variables@[k].1.last_value
                        }
                    },
            decreases self.watch_variables@.len() - i,
        {
            let named = contains_name(exprs, self.watch_variables[i].0.as_str());
            if named {
                let value = self.evaluate_expression(self.watch_variables[i].0.as_str());
                let ghost prev = self.watch_variables@;
                let (name, info) = self.watch_variables.remove(i);
                let updated = WatchInfo {
                    expression: info.expression,
                    last_value: value,
                    condition: info.condition,
                };
                self.watch_variables.insert(i, (name, updated));
                proof {
                    assert(self.watch_variables@ =~= prev.update(i as int, (name, updated)));
                }
            }
            i = i + 1;
        }
    }

    /// The names of the watched variables with their last values.
    pub fn get_watch_values(&self) -> (r: Vec<(String, Option<String>)>)
        ensures
            r@.len() == self.watch_list().len(),
            forall|i: int|
                0 <= i < r@.len() ==> (#[trigger] r@[i]).0 == self.watch_list()[i].0 && r@[i].1
                    == self.watch_list()[i].1.last_value,
    {
        let mut out: Vec<(String, Option<String>)> = Vec::new();
        let mut i: usize = 0;
        while i < self.watch_variables.len()
            invariant
                i <= self.watch_variables@.len(),
                out@.len() == i,
                forall|k: int|
                    0 <= k < i ==> (#[trigger] out@[k]).0 == self.watch_variables@[k].0 && out@[k].1
                        == self.watch_variables@[k].1.last_value,
            decreases self.watch_variables@.len() - i,
        {
            let entry = (
                self.watch_variables[i].0.clone(),
                clone_option(&self.watch_variables[i].1.last_value),
            );
            out.push(entry);
            i = i + 1;
        }
        out
    }

    /// Switch the breakpoint on `line` on or off; returns whether it is now
    /// enabled (false where there is none).
    pub fn toggle_breakpoint(&mut self, line: usize) -> (r: bool)
        requires
            old(self).wf(),
        ensures
            final(self).wf(),
            final(self).breakpoint_map() == toggled(old(self).breakpoint_map(), line),
            r == (match old(self).breakpoint_map().get(line) {
                Some(b) => !b.enabled,
                None => false,
            }),
            final(self).watch_list() == old(self).watch_list(),
            final(self).line() == old(self).line(),
            final(self).locals() == old(self).locals(),
    {
        match self.breakpoints.remove(&line) {
            Some(b) => {
                let mut b = b;
                b.enabled = !b.enabled;
                let enabled = b.enabled;
                self.breakpoints.insert(line, b);
                proof {
                    assert(self.breakpoints@ =~= old(self).breakpoints@.insert(line, b));
                }
                enabled
            },
            None => {
                proof {
                    assert(self.breakpoints@ =~= old(self).breakpoints@);
                }
                false
            },
        }
    }

    /// Add a watch expression to the breakpoint on `line`; returns whether
    /// there is one.
    pub fn add_watch_to_breakpoint(&mut self, line: usize, expression: String) -> (r: bool)
        requires
            old(self).wf(),
        ensures
            final(self).wf(),
            r == old(self).breakpoint_map().contains_key(line),
            r ==> {
                let b = old(self).breakpoint_map()[line];
                let c = final(self).breakpoint_map()[line];
                &&& final(self).breakpoint_map().dom() == old(self).breakpoint_map().dom()
                &&& forall|l: usize| #[trigger]
                    final(self).breakpoint_map().contains_key(l) && l != line ==> final(self).breakpoint_map()[l] == old(self).breakpoint_map()[l]
                &&& c.line == b.line && c.condition == b.condition && c.hit_count == b.hit_count
                    && c.enabled == b.enabled
                &&& c.watch_expressions@ == b.watch_expressions@.push(expression)
            },
            !r ==> final(self).breakpoint_map() == old(self).breakpoint_map(),
            final(self).watch_list() == old(self).watch_list(),
            final(self).line() == old(self).line(),
            final(self).locals() == old(self).locals(),
    {
        match self.breakpoints.remove(&line) {
            Some(b) => {
                let mut b = b;
                b.watch_expressions.push(expression);
                self.breakpoints.insert(line, b);
                proof {
                    assert(self.breakpoints@.dom() =~= old(self).breakpoints@.dom());
                }
                true
            },
            None => {
                proof {
                    assert(self.breakpoints@ =~= old(self).breakpoints@);
                }
                false
            },
        }
    }

    /// The breakpoint on `line`, if any.
    pub fn get_breakpoint_info(&self, line: usize) -> (r: Option<&Breakpoint>)
        ensures
            match r {
                Some(b) => self.breakpoint_map().contains_key(line) && *b
                    == self.breakpoint_map()[line],
                None => !self.breakpoint_map().contains_key(line),
            },
    {
        self.breakpoints.get(&line)
    }

    /// Remove the breakpoint on `line`; returns whether there was one.
    pub fn clear_breakpoint(&mut self, line: usize) -> (r: bool)
        requires
            old(self).wf(),
        ensures
            final(self).wf(),
            r == old(self).breakpoint_map().contains_key(line),
            final(self).breakpoint_map() == old(self).breakpoint_map().remove(line),
            final(self).watch_list() == old(self).watch_list(),
            final(self).line() == old(self).line(),
            final(self).locals() == old(self).locals(),
    {
        self.breakpoints.remove(&line).is_some()
    }

    /// Remove every breakpoint.
    pub fn clear_all_breakpoints(&mut self)
        requires
            old(self).wf(),
        ensures
            final(self).wf(),
            final(self).breakpoint_map() == Map::<usize, Breakpoint>::empty(),
            final(self).watch_list() == old(self).watch_list(),
            final(self).line() == old(self).line(),
            final(self).locals() == old(self).locals(),
    {
        self.breakpoints.clear();
    }

    /// The current line, locals and watch values.
    pub fn get_current_context(&self) -> (r: DebugContext)
        ensures
            r.line == self.line(),
            r.locals@ == self.locals(),
            r.watches@.len() == self.watch_list().len(),
            forall|i: int|
                0 <= i < r.watches@.len() ==> (#[trigger] r.watches@[i]).0 == self.watch_list()[i].0
                    && r.watches@[i].1 == self.watch_list()[i].1.last_value,
    {
        DebugContext {
            line: self.current_line,
            locals: clone_pairs(&self.current_locals),
            watches: self.get_watch_values(),
        }
    }
}

/// Whether one of `exprs` reads `name`.
fn contains_name(exprs: &Vec<String>, name: &str) -> (r: bool)
    ensures
        r == exprs@.map_values(|e: String| e@).contains(name@),
{
    let ghost names = exprs@.map_values(|e: String| e@);
    let mut i: usize = 0;
    while i < exprs.len()
        invariant
            i <= exprs@.len(),
            names == exprs@.map_values(|e: String| e@),
            forall|k: int| 0 <= k < i ==> exprs@[k]@ != name@,
        decreases exprs@.len() - i,
    {
        if crate::keyed::str_eq(exprs[i].as_str(), name) {
            proof {
                assert(names[i as int] == name@);
            }
            return true;
        }
        i = i + 1;
    }
    proof {
        assert forall|k: int| 0 <= k < names.len() implies names[k] != name@ by {
            assert(names[k] == exprs@[k]@);
        }
    }
    false
}

} // verus!

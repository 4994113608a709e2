//! What the syntax-tree visitors record: the items of a file, the crates
//! and std modules it uses, and what may not translate to Luau. Walking a
//! parsed file is `syn`'s visitor; each visit hands these records a plain
//! value.

use vstd::prelude::*;
use crate::keyed::str_eq;
use crate::text::paths::{has_prefix, starts_with};

verus! {

/// A visitor that collects information about the AST.
#[derive(Debug)]
pub struct AstCollector {
    /// Functions found in the AST
    pub functions: Vec<String>,
    /// Structs found in the AST
    pub structs: Vec<String>,
    /// Enums found in the AST
    pub enums: Vec<String>,
    /// Import paths found in the AST
    pub imports: Vec<String>,
}

/// A dependency analyzer for finding external dependencies.
#[derive(Debug)]
pub struct DependencyAnalyzer {
    /// External crates used in the code
    pub external_crates: Vec<String>,
    /// Standard library modules used
    pub std_modules: Vec<String>,
}

/// A visitor that looks for potential compatibility issues when compiling to Luau.
#[derive(Debug)]
pub struct CompatibilityChecker {
    /// List of compatibility issues found
    pub issues: Vec<String>,
}

/// The texts of a list of strings.
pub open spec fn texts(v: Seq<String>) -> Seq<Seq<char>> {
    v.map_values(|s: String| s@)
}

/// `list` with `name` added where it is not there yet.
pub open spec fn with_name(list: Seq<String>, name: Seq<char>) -> Seq<Seq<char>> {
    if texts(list).contains(name) {
        texts(list)
    } else {
        texts(list).push(name)
    }
}

/// Whether each of `names` could name an outside crate: none is `std` or
/// starts with `self` or `crate`.
pub open spec fn outside_crate_names(names: Seq<Seq<char>>) -> bool {
    forall|i: int|
        0 <= i < names.len() ==> #[trigger] names[i] != "std"@ && !starts_with(names[i], "self"@)
            && !starts_with(names[i], "crate"@)
}

/// Whether no text occurs twice in `list`.
pub open spec fn distinct(list: Seq<String>) -> bool {
    texts(list).no_duplicates()
}

/// Whether one of `list` reads `name`.
fn contains_name(list: &Vec<String>, name: &str) -> (r: bool)
    ensures
        r == texts(list@).contains(name@),
{
    let mut i: usize = 0;
    while i < list.len()
        invariant
            i <= list@.len(),
            forall|k: int| 0 <= k < i ==> list@[k]@ != name@,
        decreases list@.len() - i,
    {
        if str_eq(list[i].as_str(), name) {
            proof {
                assert(texts(list@)[i as int] == name@);
            }
            return true;
        }
        i = i + 1;
    }
    proof {
        assert forall|k: int| 0 <= k < texts(list@).len() implies texts(list@)[k] != name@ by {
            assert(texts(list@)[k] == list@[k]@);
        }
    }
    false
}

/// Add `name` to `list` where it is not there yet.
fn add_once(list: &mut Vec<String>, name: &str)
    requires
        distinct(old(list)@),
    ensures
        distinct(final(list)@),
        texts(final(list)@) == with_name(old(list)@, name@),
{
    if !contains_name(list, name) {
        let ghost before = list@;
        list.push(String::from_str(name));
        proof {
            assert(texts(list@) =~= texts(before).push(name@));
        }
    }
}

impl AstCollector {
    /// Create a new collector
    pub fn new() -> (r: Self)
        ensures
            r.functions@.len() == 0,
            r.structs@.len() == 0,
            r.enums@.len() == 0,
            r.imports@.len() == 0,
    {
        AstCollector {
            functions: Vec::new(),
            structs: Vec::new(),
            enums: Vec::new(),
            imports: Vec::new(),
        }
    }

    /// Record a function found.
    pub fn add_function(&mut self, name: String)
        ensures
            final(self).functions@ == old(self).functions@.push(name),
            final(self).structs == old(self).structs,
            final(self).enums == old(self).enums,
            final(self).imports == old(self).imports,
    {
        self.functions.push(name);
    }

    /// Record a struct found.
    pub fn add_struct(&mut self, name: String)
        ensures
            final(self).structs@ == old(self).structs@.push(name),
            final(self).functions == old(self).functions,
            final(self).enums == old(self).enums,
            final(self).imports == old(self).imports,
    {
        self.structs.push(name);
    }

    /// Record an enum found.
    pub fn add_enum(&mut self, name: String)
        ensures
            final(self).enums@ == old(self).enums@.push(name),
            final(self).functions == old(self).functions,
            final(self).structs == old(self).structs,
            final(self).imports == old(self).imports,
    {
        self.enums.push(name);
    }

    /// Record an import path found.
    pub fn add_import(&mut self, path: String)
        ensures
            final(self).imports@ == old(self).imports@.push(path),
            final(self).functions == old(self).functions,
            final(self).structs == old(self).structs,
            final(self).enums == old(self).enums,
    {
        self.imports.push(path);
    }
}

/// Whether `after` is `before` with the `use` path whose first segment is
/// `name`, followed by `next` where the path goes on, recorded: a path into
/// `std` records its module, any path but one from `self` or `crate` its
/// crate, each name once.
pub open spec fn path_noted(
    before: DependencyAnalyzer,
    name: Seq<char>,
    next: Option<Seq<char>>,
    after: DependencyAnalyzer,
) -> bool {
    if name == "std"@ {
        &&& texts(after.std_modules@) == match next {
            Some(m) => with_name(before.std_modules@, m),
            None => texts(before.std_modules@),
        }
        &&& after.external_crates@ == before.external_crates@
    } else {
        &&& texts(after.external_crates@) == if !starts_with(name, "self"@) && !starts_with(name, "crate"@) {
            with_name(before.external_crates@, name)
        } else {
            texts(before.external_crates@)
        }
        &&& after.std_modules@ == before.std_modules@
    }
}

/// Whether the analyzer's records could come from `use` paths: no name
/// twice in either list, and no crate named `std` or starting with `self`
/// or `crate`.
pub open spec fn records_ok(a: DependencyAnalyzer) -> bool {
    &&& distinct(a.external_crates@)
    &&& distinct(a.std_modules@)
    &&& outside_crate_names(texts(a.external_crates@))
}

/// Adding a name where it is not there keeps a list free of repeats.
proof fn lemma_with_name_distinct(list: Seq<String>, name: Seq<char>)
    requires
        distinct(list),
    ensures
        with_name(list, name).no_duplicates(),
{
    if !texts(list).contains(name) {
        let w = texts(list).push(name);
        assert forall|i: int, j: int| 0 <= i < w.len() && 0 <= j < w.len() && i != j implies w[i] != w[j] by {
            if i < list.len() && j < list.len() {
                assert(w[i] == texts(list)[i]);
                assert(w[j] == texts(list)[j]);
            } else if i == list.len() {
                assert(w[j] == texts(list)[j]);
            } else {
                assert(w[i] == texts(list)[i]);
            }
        }
    }
}

/// Recording a path keeps valid records valid.
proof fn lemma_noted_keeps_records(
    before: DependencyAnalyzer,
    name: Seq<char>,
    next: Option<Seq<char>>,
    after: DependencyAnalyzer,
)
    requires
        records_ok(before),
        path_noted(before, name, next, after),
    ensures
        records_ok(after),
{
    if name == "std"@ {
        match next {
            Some(m) => {
                lemma_with_name_distinct(before.std_modules@, m);
            },
            None => {},
        }
        assert(texts(after.external_crates@) == texts(before.external_crates@));
    } else {
        assert(texts(after.std_modules@) == texts(before.std_modules@));
        if !starts_with(name, "self"@) && !starts_with(name, "crate"@) {
            lemma_with_name_distinct(before.external_crates@, name);
            let b = texts(before.external_crates@);
            let a = texts(after.external_crates@);
            assert forall|i: int| 0 <= i < a.len() implies #[trigger] a[i] != "std"@ && !starts_with(a[i], "self"@)
                && !starts_with(a[i], "crate"@) by {
                if i < b.len() {
                    assert(a[i] == b[i]);
                }
            }
        }
    }
}

/// From a new analyzer, the records stay valid over any sequence of
/// recorded `use` paths: `states[k + 1]` is `states[k]` with `paths[k]`
/// recorded.
pub proof fn law_records_stay_valid(states: Seq<DependencyAnalyzer>, paths: Seq<(Seq<char>, Option<Seq<char>>)>)
    requires
        states.len() == paths.len() + 1,
        states[0].external_crates@.len() == 0,
        states[0].std_modules@.len() == 0,
        forall|k: int| 0 <= k < paths.len() ==> path_noted(states[k], paths[k].0, paths[k].1, #[trigger] states[k + 1]),
    ensures
        forall|k: int| 0 <= k < states.len() ==> records_ok(#[trigger] states[k]),
    decreases paths.len(),
{
    if paths.len() == 0 {
        assert(texts(states[0].external_crates@) =~= Seq::<Seq<char>>::empty());
        assert(texts(states[0].std_modules@) =~= Seq::<Seq<char>>::empty());
    } else {
        let n = paths.len() - 1;
        law_records_stay_valid(states.drop_last(), paths.drop_last());
        assert(records_ok(states.drop_last()[n]));
        assert(path_noted(states[n], paths[n].0, paths[n].1, states[n + 1]));
        lemma_noted_keeps_records(states[n], paths[n].0, paths[n].1, states[n + 1]);
        assert forall|k: int| 0 <= k < states.len() implies records_ok(#[trigger] states[k]) by {
            if k < states.len() - 1 {
                assert(states.drop_last()[k] == states[k]);
            }
        }
    }
}

impl DependencyAnalyzer {
    /// Create a new dependency analyzer
    pub fn new() -> (r: Self)
        ensures
            r.external_crates@.len() == 0,
            r.std_modules@.len() == 0,
            distinct(r.external_crates@),
            distinct(r.std_modules@),
            outside_crate_names(texts(r.external_crates@)),
    {
        let r = DependencyAnalyzer { external_crates: Vec::new(), std_modules: Vec::new() };
        proof {
            assert(texts(r.external_crates@) =~= Seq::<Seq<char>>::empty());
            assert(texts(r.std_modules@) =~= Seq::<Seq<char>>::empty());
        }
        r
    }

    /// Record a `use` path whose first segment is `name`, followed by the
    /// segment `next` where the path goes on: a path into `std` records its
    /// module, any path but one from `self` or `crate` records its crate;
    /// each name is recorded once.
    pub fn note_use_path(&mut self, name: &str, next: Option<&str>)
        requires
            distinct(old(self).external_crates@),
            distinct(old(self).std_modules@),
        ensures
            distinct(final(self).external_crates@),
            distinct(final(self).std_modules@),
            outside_crate_names(texts(old(self).external_crates@)) ==> outside_crate_names(
                texts(final(self).external_crates@),
            ),
            path_noted(
                *old(self),
                name@,
                match next {
                    Some(m) => Some(m@),
                    None => None,
                },
                *final(self),
            ),
    {
        if str_eq(name, "std") {
            match next {
                Some(module) => add_once(&mut self.std_modules, module),
                None => {},
            }
        } else if !has_prefix(name, "self") && !has_prefix(name, "crate") {
            add_once(&mut self.external_crates, name);
        }
    }
}

/// The issue of an async function.
pub open spec fn async_issue(name: Seq<char>) -> Seq<char> {
    "Async function '"@ + name + "' may need special handling for Luau"@
}

/// The issue of an unsafe function.
pub open spec fn unsafe_issue(name: Seq<char>) -> Seq<char> {
    "Unsafe function '"@ + name + "' will need manual safety checks in Luau"@
}

/// The issue of a method call that may not translate.
pub open spec fn method_issue(name: Seq<char>) -> Seq<char> {
    "Method call '"@ + name + "' might not be directly translatable to Luau"@
}

/// Whether a method may not translate to Luau: `thread_local`, `spawn` or
/// `catch_unwind`.
pub open spec fn untranslatable_method(name: Seq<char>) -> bool {
    name == "thread_local"@ || name == "spawn"@ || name == "catch_unwind"@
}

impl CompatibilityChecker {
    /// Create a new compatibility checker
    pub fn new() -> (r: Self)
        ensures
            r.issues@.len() == 0,
    {
        CompatibilityChecker { issues: Vec::new() }
    }

    /// Check a function: an async one and an unsafe one each need special
    /// handling in Luau.
    pub fn check_function(&mut self, name: &str, is_async: bool, is_unsafe: bool)
        ensures
            texts(final(self).issues@) == texts(old(self).issues@) + (if is_async {
                seq![async_issue(name@)]
            } else {
                Seq::empty()
            }) + (if is_unsafe {
                seq![unsafe_issue(name@)]
            } else {
                Seq::empty()
            }),
    {
        let ghost start = self.issues@;
        if is_async {
            let mut m = String::from_str("Async function '");
            m.append(name);
            m.append("' may need special handling for Luau");
            self.issues.push(m);
        }
        let ghost mid = self.issues@;
        if is_unsafe {
            let mut m = String::from_str("Unsafe function '");
            m.append(name);
            m.append("' will need manual safety checks in Luau");
            self.issues.push(m);
        }
        proof {
            assert(texts(self.issues@) =~= texts(start) + (if is_async {
                seq![async_issue(name@)]
            } else {
                Seq::empty()
            }) + (if is_unsafe {
                seq![unsafe_issue(name@)]
            } else {
                Seq::empty()
            }));
        }
    }

    /// Check a method call: one that may not translate is an issue.
    pub fn check_method_call(&mut self, method_name: &str)
        ensures
            texts(final(self).issues@) == if untranslatable_method(method_name@) {
                texts(old(self).issues@).push(method_issue(method_name@))
            } else {
                texts(old(self).issues@)
            },
    {
        if str_eq(method_name, "thread_local") || str_eq(method_name, "spawn") || str_eq(
            method_name,
            "catch_unwind",
        ) {
            let ghost before = self.issues@;
            let mut m = String::from_str("Method call '");
            m.append(method_name);
            m.append("' might not be directly translatable to Luau");
            self.issues.push(m);
            proof {
                assert(texts(self.issues@) =~= texts(before).push(method_issue(method_name@)));
            }
        }
    }
}

} // verus!

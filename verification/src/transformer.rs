//! Translation of Rust items into Luau statements.

use vstd::prelude::*;
use crate::luau::{LuauAst, LuauExpr, LuauFunction, LuauStmt, LuauTable, field_index};
use crate::compiler::kind_message;
use crate::keyed::keys_unique;
use crate::error::Error;
use crate::syntax::{
    FieldsKind, FnParam, ImplSelf, ImplSelfView, ItemView, RustFn, RustItem, RustStmt, fn_reads, impl_fn_view,
    impl_self_view, item_reads, item_view, items_reads, methods_reads, opt_views, param_reads, param_view,
    stmts_reads, variant_views,
};
use crate::text::{lowercase, to_lowercase, views, usize_to_string};
use crate::transform::{block_error, block_ok, lemma_read_block_alike, translate_block};
use crate::luau::generator::{block_text, expr_text, expr_texts, field_texts, stmt_text};

verus! {

/// Error that can occur during AST transformation.
pub enum TransformError {
    UnsupportedFeature(String),
    Type(String),
    Other(String),
}

/// The kind of a transformation error.
pub enum TransformErrorKind {
    UnsupportedFeature,
    Type,
    Other,
}

impl TransformError {
    /// The kind of the error and the text it carries.
    pub open spec fn kind_and_text(self) -> (TransformErrorKind, Seq<char>) {
        match self {
            TransformError::UnsupportedFeature(s) => (TransformErrorKind::UnsupportedFeature, s@),
            TransformError::Type(s) => (TransformErrorKind::Type, s@),
            TransformError::Other(s) => (TransformErrorKind::Other, s@),
        }
    }

    /// The message of the error: `unsupported feature: ..`, `type error: ..`
    /// or `transformation error: ..`.
    pub open spec fn message_of(self) -> Seq<char> {
        match self {
            TransformError::UnsupportedFeature(s) => "unsupported feature: "@ + s@,
            TransformError::Type(s) => "type error: "@ + s@,
            TransformError::Other(s) => "transformation error: "@ + s@,
        }
    }

    /// The message of the error.
    pub fn message(&self) -> (r: String)
        ensures
            r@ == self.message_of(),
    {
        let (mut r, s) = match self {
            TransformError::UnsupportedFeature(s) => (String::from_str("unsupported feature: "), s),
            TransformError::Type(s) => (String::from_str("type error: "), s),
            TransformError::Other(s) => (String::from_str("transformation error: "), s),
        };
        r.append(s.as_str());
        r
    }
}


/// A value the transformer puts into a table field.
pub enum TableValue {
    /// A reference to the named variable
    Variable(Seq<char>),
    /// A number
    Number(i64),
}

/// Whether the expression `e` is the table value `v`.
pub open spec fn expr_is(e: LuauExpr, v: TableValue) -> bool {
    match v {
        TableValue::Variable(name) => e matches LuauExpr::Variable(x) && x@ == name,
        TableValue::Number(n) => e matches LuauExpr::Number(m) && m == n,
    }
}

/// The index of the first entry with key `key`, if any.
pub open spec fn find_entry(entries: Seq<(Seq<char>, TableValue)>, key: Seq<char>) -> Option<int>
    decreases entries.len(),
{
    if entries.len() == 0 {
        None
    } else {
        match find_entry(entries.drop_last(), key) {
            Some(i) => Some(i),
            None => if entries.last().0 == key {
                Some(entries.len() - 1)
            } else {
                None
            },
        }
    }
}

/// The entries after setting `key` to `value`: an existing key keeps its
/// place and takes the new value, a new key goes last.
pub open spec fn insert_entry(
    entries: Seq<(Seq<char>, TableValue)>,
    key: Seq<char>,
    value: TableValue,
) -> Seq<(Seq<char>, TableValue)> {
    match find_entry(entries, key) {
        Some(i) => entries.update(i, (key, value)),
        None => entries.push((key, value)),
    }
}

/// Whether `t` holds exactly the keyed `entries`, in order, and no
/// positional items.
pub open spec fn table_is(t: LuauTable, entries: Seq<(Seq<char>, TableValue)>) -> bool {
    &&& t.array_items@.len() == 0
    &&& t.fields@.len() == entries.len()
    &&& forall|i: int|
        0 <= i < entries.len() ==> (#[trigger] t.fields@[i]).0@ == entries[i].0 && expr_is(
            t.fields@[i].1,
            entries[i].1,
        )
}

/// The names of the named fields of a struct, in order.
pub open spec fn struct_params(fields: Seq<Option<String>>) -> Seq<Seq<char>>
    decreases fields.len(),
{
    if fields.len() == 0 {
        Seq::empty()
    } else {
        match fields.last() {
            Some(n) => struct_params(fields.drop_last()).push(n@),
            None => struct_params(fields.drop_last()),
        }
    }
}

/// The table a struct's constructor returns: each named field set to the
/// variable of the same name.
pub open spec fn struct_entries(fields: Seq<Option<String>>) -> Seq<(Seq<char>, TableValue)>
    decreases fields.len(),
{
    if fields.len() == 0 {
        Seq::empty()
    } else {
        match fields.last() {
            Some(n) => insert_entry(struct_entries(fields.drop_last()), n@, TableValue::Variable(n@)),
            None => struct_entries(fields.drop_last()),
        }
    }
}

/// The name of the constructor function of a struct or variant named `name`.
pub open spec fn constructor_name(name: Seq<char>) -> Seq<char> {
    "create_"@ + lowercase(name)
}

/// The value an enum's table gives the variant `name` of shape `kind` at
/// position `i`: its position for a unit variant, else its constructor.
pub open spec fn variant_value(name: Seq<char>, kind: FieldsKind, i: int) -> TableValue {
    match kind {
        FieldsKind::Unit => TableValue::Number(i as i64),
        _ => TableValue::Variable(constructor_name(name)),
    }
}

/// The table that stands for an enum.
pub open spec fn enum_entries(variants: Seq<(String, FieldsKind)>) -> Seq<(Seq<char>, TableValue)>
    decreases variants.len(),
{
    if variants.len() == 0 {
        Seq::empty()
    } else {
        insert_entry(
            enum_entries(variants.drop_last()),
            variants.last().0@,
            variant_value(variants.last().0@, variants.last().1, variants.len() - 1),
        )
    }
}

/// The parameter names of a free function: its named parameters.
pub open spec fn fn_params(params: Seq<FnParam>) -> Seq<Seq<char>>
    decreases params.len(),
{
    if params.len() == 0 {
        Seq::empty()
    } else {
        match params.last() {
            FnParam::Named(n) => fn_params(params.drop_last()).push(n@),
            _ => fn_params(params.drop_last()),
        }
    }
}

/// The parameter names of a method: `self` for the receiver, then its named
/// parameters.
pub open spec fn method_params(params: Seq<FnParam>) -> Seq<Seq<char>>
    decreases params.len(),
{
    if params.len() == 0 {
        Seq::empty()
    } else {
        match params.last() {
            FnParam::Receiver => method_params(params.drop_last()).push("self"@),
            FnParam::Named(n) => method_params(params.drop_last()).push(n@),
            FnParam::Pattern => method_params(params.drop_last()),
        }
    }
}

/// Whether a parameter list has a receiver.
pub open spec fn has_receiver(params: Seq<FnParam>) -> bool {
    exists|i: int| 0 <= i < params.len() && params[i] is Receiver
}

/// Whether `b` is a placeholder body: the comment `comment` and
/// `return nil`.
pub open spec fn stub_body_ok(b: Seq<LuauStmt>, comment: Seq<char>) -> bool {
    &&& b.len() == 2
    &&& b[0] matches LuauStmt::Comment(c) && c@ == comment
    &&& b[1] == LuauStmt::Return(Some(LuauExpr::Nil))
}

/// Whether `s` declares the function `name` with parameters `params` whose
/// body is the Luau translation of the statements `body`, the last of
/// which gives the returned value; where the body has no translation, the
/// placeholder with the comment `comment`.
pub open spec fn is_translated_function(
    s: LuauStmt,
    name: Seq<char>,
    params: Seq<Seq<char>>,
    body: Seq<RustStmt>,
    comment: Seq<char>,
) -> bool {
    match s {
        LuauStmt::FunctionDecl(f) => {
            &&& f.name matches Some(n) && n@ == name
            &&& views(f.params@) == params
            &&& !f.is_variadic
            &&& if block_error(body, true) is None {
                block_ok(body, true, f.body@)
            } else {
                stub_body_ok(f.body@, comment)
            }
        },
        _ => false,
    }
}

/// Whether `s` declares the constructor of the struct `name` with `fields`.
pub open spec fn is_struct_constructor(s: LuauStmt, name: Seq<char>, fields: Seq<Option<String>>) -> bool {
    match s {
        LuauStmt::FunctionDecl(f) => {
            &&& f.name matches Some(n) && n@ == constructor_name(name)
            &&& views(f.params@) == struct_params(fields)
            &&& !f.is_variadic
            &&& f.body@.len() == 1
            &&& f.body@[0] matches LuauStmt::Return(Some(LuauExpr::Table(t))) && table_is(
                t,
                struct_entries(fields),
            )
        },
        _ => false,
    }
}

/// Whether `s` declares the local table that stands for the enum `name`.
pub open spec fn is_enum_table(s: LuauStmt, name: Seq<char>, variants: Seq<(String, FieldsKind)>) -> bool {
    match s {
        LuauStmt::LocalAssign(names, exprs) => {
            &&& views(names@) == seq![name]
            &&& exprs@.len() == 1
            &&& exprs@[0] matches LuauExpr::Table(t) && table_is(t, enum_entries(variants))
        },
        _ => false,
    }
}

/// Whether every field of a struct is named, no name twice.
pub open spec fn named_distinct(fields: Seq<Option<String>>) -> bool {
    &&& forall|i: int| 0 <= i < fields.len() ==> (#[trigger] fields[i]) is Some
    &&& forall|a: int, b: int|
        0 <= a < b < fields.len() ==> #[trigger] fields[a]->Some_0@ != #[trigger] fields[b]->Some_0@
}

/// With named, distinct fields, the constructor takes one parameter and
/// fills one table entry per field, in order.
proof fn lemma_struct_in_order(fields: Seq<Option<String>>)
    requires
        named_distinct(fields),
    ensures
        struct_params(fields).len() == fields.len(),
        struct_entries(fields).len() == fields.len(),
        forall|i: int| 0 <= i < fields.len() ==> #[trigger] struct_params(fields)[i] == fields[i]->Some_0@,
        forall|i: int|
            0 <= i < fields.len() ==> #[trigger] struct_entries(fields)[i] == (
                fields[i]->Some_0@,
                TableValue::Variable(fields[i]->Some_0@),
            ),
    decreases fields.len(),
{
    if fields.len() > 0 {
        let n = fields.len() - 1;
        let prev = fields.drop_last();
        assert(named_distinct(prev)) by {
            assert forall|i: int| 0 <= i < prev.len() implies (#[trigger] prev[i]) is Some by {
                assert(prev[i] == fields[i]);
            }
            assert forall|a: int, b: int| 0 <= a < b < prev.len() implies #[trigger] prev[a]->Some_0@
                != #[trigger] prev[b]->Some_0@ by {
                assert(prev[a] == fields[a]);
                assert(prev[b] == fields[b]);
            }
        }
        lemma_struct_in_order(prev);
        assert(fields[n] is Some);
        let e = struct_entries(prev);
        let key = fields[n]->Some_0@;
        lemma_find_entry_range(e, key);
        if find_entry(e, key) is Some {
            let i = find_entry(e, key)->Some_0;
            assert(prev[i] == fields[i]);
            assert(fields[i]->Some_0@ != fields[n]->Some_0@);
        }
        assert(fields.last() == fields[n]);
        assert forall|i: int| 0 <= i < fields.len() implies #[trigger] struct_params(fields)[i] == fields[i]->Some_0@ by {
            if i < n {
                assert(prev[i] == fields[i]);
            }
        }
        assert forall|i: int| 0 <= i < fields.len() implies #[trigger] struct_entries(fields)[i] == (
            fields[i]->Some_0@,
            TableValue::Variable(fields[i]->Some_0@),
        ) by {
            if i < n {
                assert(prev[i] == fields[i]);
            }
        }
    }
}

/// The constructor of a struct whose fields are named, no name twice, is
/// `create_<lowercased name>`; its parameters are the fields' names in
/// order, and it returns a table whose entry `i` sets field `i` to the
/// parameter of the same name.
pub proof fn law_struct_constructor_layout(s: LuauStmt, name: Seq<char>, fields: Seq<Option<String>>)
    requires
        is_struct_constructor(s, name, fields),
        named_distinct(fields),
    ensures
        s matches LuauStmt::FunctionDecl(f) && (f.name matches Some(n) && n@ == "create_"@ + lowercase(name))
            && f.params@.len() == fields.len() && (forall|i: int|
            0 <= i < fields.len() ==> (#[trigger] f.params@[i])@ == fields[i]->Some_0@) && (f.body@[0] matches LuauStmt::Return(
            Some(LuauExpr::Table(t)),
        ) && t.fields@.len() == fields.len() && forall|i: int|
            0 <= i < fields.len() ==> (#[trigger] t.fields@[i]).0@ == fields[i]->Some_0@ && (t.fields@[i].1 matches LuauExpr::Variable(
                x,
            ) && x@ == fields[i]->Some_0@)),
{
    lemma_struct_in_order(fields);
    let f = s->FunctionDecl_0;
    assert forall|i: int| 0 <= i < fields.len() implies (#[trigger] f.params@[i])@ == fields[i]->Some_0@ by {
        assert(views(f.params@)[i] == f.params@[i]@);
        assert(struct_params(fields)[i] == fields[i]->Some_0@);
    }
    let t = f.body@[0]->Return_0->Some_0->Table_0;
    assert forall|i: int| 0 <= i < fields.len() implies (#[trigger] t.fields@[i]).0@ == fields[i]->Some_0@ && (t.fields@[i].1 matches LuauExpr::Variable(
        x,
    ) && x@ == fields[i]->Some_0@) by {
        assert(struct_entries(fields)[i] == (fields[i]->Some_0@, TableValue::Variable(fields[i]->Some_0@)));
        assert(expr_is(t.fields@[i].1, struct_entries(fields)[i].1));
    }
}

/// With distinct variant names, the enum's table has one entry per variant,
/// in order, each under the variant's name.
proof fn lemma_enum_entries_in_order(variants: Seq<(String, FieldsKind)>)
    requires
        keys_unique(variants),
    ensures
        enum_entries(variants).len() == variants.len(),
        forall|i: int|
            0 <= i < variants.len() ==> #[trigger] enum_entries(variants)[i] == (
                variants[i].0@,
                variant_value(variants[i].0@, variants[i].1, i),
            ),
    decreases variants.len(),
{
    if variants.len() > 0 {
        let n = variants.len() - 1;
        let prev = variants.drop_last();
        assert(keys_unique(prev)) by {
            assert forall|a: int, b: int| 0 <= a < b < prev.len() implies #[trigger] prev[a].0@ != #[trigger] prev[b].0@ by {
                assert(prev[a] == variants[a]);
                assert(prev[b] == variants[b]);
            }
        }
        lemma_enum_entries_in_order(prev);
        let e = enum_entries(prev);
        let key = variants.last().0@;
        lemma_find_entry_range(e, key);
        if find_entry(e, key) is Some {
            let i = find_entry(e, key)->Some_0;
            assert(e[i] == (prev[i].0@, variant_value(prev[i].0@, prev[i].1, i)));
            assert(prev[i] == variants[i]);
            assert(variants[i].0@ != variants[n].0@);
        }
        assert forall|i: int| 0 <= i < variants.len() implies #[trigger] enum_entries(variants)[i] == (
            variants[i].0@,
            variant_value(variants[i].0@, variants[i].1, i),
        ) by {
            if i < n {
                assert(prev[i] == variants[i]);
            }
        }
    }
}

/// In the table that stands for an enum whose variants have distinct names,
/// there is one field per variant, in order, under the variant's name: the
/// unit variant at position `i` is the number `i` (so no two unit variants
/// compare equal), any other variant names its constructor
/// `create_<lowercased name>`.
pub proof fn law_enum_table_layout(s: LuauStmt, name: Seq<char>, variants: Seq<(String, FieldsKind)>)
    requires
        is_enum_table(s, name, variants),
        keys_unique(variants),
    ensures
        s matches LuauStmt::LocalAssign(names, exprs) && views(names@) == seq![name] && (exprs@[0] matches LuauExpr::Table(
            t,
        ) && t.array_items@.len() == 0 && t.fields@.len() == variants.len() && forall|i: int|
            0 <= i < variants.len() ==> (#[trigger] t.fields@[i]).0@ == variants[i].0@ && if variants[i].1 is Unit {
                t.fields@[i].1 == LuauExpr::Number(i as i64)
            } else {
                (t.fields@[i].1 matches LuauExpr::Variable(x) && x@ == "create_"@ + lowercase(variants[i].0@))
            }),
{
    lemma_enum_entries_in_order(variants);
    let t = s->LocalAssign_1@[0]->Table_0;
    assert forall|i: int| 0 <= i < variants.len() implies (#[trigger] t.fields@[i]).0@ == variants[i].0@ && if variants[i].1 is Unit {
        t.fields@[i].1 == LuauExpr::Number(i as i64)
    } else {
        (t.fields@[i].1 matches LuauExpr::Variable(x) && x@ == "create_"@ + lowercase(variants[i].0@))
    } by {
        assert(enum_entries(variants)[i] == (variants[i].0@, variant_value(variants[i].0@, variants[i].1, i)));
        assert(expr_is(t.fields@[i].1, enum_entries(variants)[i].1));
    }
}

/// The comment in the placeholder body of the method `m` of the type
/// `owner`.
pub open spec fn method_comment(owner: Seq<char>, m: RustFn) -> Seq<char> {
    if has_receiver(m.params@) {
        "-- Body of method "@ + owner + "."@ + m.name@
    } else {
        "-- Body of static method "@ + owner + "."@ + m.name@
    }
}

/// The name of the function that stands for the method `m` of `owner`.
pub open spec fn method_name(owner: Seq<char>, m: RustFn) -> Seq<char> {
    lowercase(owner) + "_"@ + m.name@
}

/// The error the translation of `item` fails with, if it fails.
pub open spec fn item_error(item: RustItem) -> Option<(TransformErrorKind, Seq<char>)> {
    match item {
        RustItem::Fn(f) => if has_receiver(f.params@) {
            Some((TransformErrorKind::UnsupportedFeature, "Self parameter not supported yet"@))
        } else {
            None
        },
        RustItem::Impl { self_type, methods } => match self_type {
            ImplSelf::Named(_) => None,
            ImplSelf::EmptyPath => Some((TransformErrorKind::Other, "Empty type path"@)),
            ImplSelf::Complex => Some(
                (TransformErrorKind::UnsupportedFeature, "Complex impl self type not supported yet"@),
            ),
        },
        _ => None,
    }
}

/// The number of statements the translation of `item` gives.
pub open spec fn item_stmt_count(item: RustItem) -> nat {
    match item {
        RustItem::Impl { methods, .. } => methods@.len(),
        RustItem::Use => 0,
        RustItem::Mod => 0,
        _ => 1,
    }
}

/// Whether `out` is the translation of `item`:
/// - a function becomes a function of the same name and parameters whose
///   body is its body's translation;
/// - a struct becomes `create_<name>`, which takes its named fields and
///   returns them in a table;
/// - an enum becomes a local table from each variant to its position (unit
///   variants) or its constructor's name (other variants);
/// - an `impl` block becomes a function `<type>_<method>` per method, with
///   `self` for the receiver and the method's body translated;
/// - `use` and `mod` items become nothing;
/// - any other item becomes a comment that names it.
pub open spec fn item_output_ok(item: RustItem, out: Seq<LuauStmt>) -> bool {
    match item {
        RustItem::Fn(f) => out.len() == 1 && is_translated_function(
            out[0],
            f.name@,
            fn_params(f.params@),
            f.body@,
            "-- Body of function "@ + f.name@,
        ),
        RustItem::Struct { name, fields } => out.len() == 1 && is_struct_constructor(
            out[0],
            name@,
            fields@,
        ),
        RustItem::Enum { name, variants } => out.len() == 1 && is_enum_table(
            out[0],
            name@,
            variants@,
        ),
        RustItem::Impl { self_type, methods } => match self_type {
            ImplSelf::Named(t) => out.len() == methods@.len() && forall|i: int|
                0 <= i < out.len() ==> is_translated_function(
                    #[trigger] out[i],
                    method_name(t@, methods@[i]),
                    method_params(methods@[i].params@),
                    methods@[i].body@,
                    method_comment(t@, methods@[i]),
                ),
            _ => false,
        },
        RustItem::Use => out.len() == 0,
        RustItem::Mod => out.len() == 0,
        RustItem::Other(d) => out.len() == 1 && (out[0] matches LuauStmt::Comment(c) && c@
            == "-- Unsupported Rust item: "@ + d@),
    }
}

/// The error the translation of `items` fails with: that of the first item
/// that fails, if any.
pub open spec fn items_error(items: Seq<RustItem>) -> Option<(TransformErrorKind, Seq<char>)>
    decreases items.len(),
{
    if items.len() == 0 {
        None
    } else {
        match items_error(items.drop_last()) {
            Some(e) => Some(e),
            None => item_error(items.last()),
        }
    }
}

/// Whether `out` is the translation of `items`: the translations of the
/// items, one after the other.
pub open spec fn items_output_ok(items: Seq<RustItem>, out: Seq<LuauStmt>) -> bool
    decreases items.len(),
{
    if items.len() == 0 {
        out.len() == 0
    } else {
        let k = item_stmt_count(items.last());
        &&& k <= out.len()
        &&& items_output_ok(items.drop_last(), out.take(out.len() - k))
        &&& item_output_ok(items.last(), out.skip(out.len() - k))
    }
}


/// The table fields agree with the entries key by key, so a key is found
/// at the same place in both.
proof fn lemma_index_agrees(
    fields: Seq<(String, LuauExpr)>,
    entries: Seq<(Seq<char>, TableValue)>,
    key: Seq<char>,
)
    requires
        fields.len() == entries.len(),
        forall|i: int| 0 <= i < fields.len() ==> (#[trigger] fields[i]).0@ == entries[i].0,
    ensures
        field_index(fields, key) == find_entry(entries, key),
    decreases fields.len(),
{
    if fields.len() > 0 {
        lemma_index_agrees(fields.drop_last(), entries.drop_last(), key);
    }
}

/// Setting a field of a table that holds `entries` gives a table that holds
/// the entries with that key set.
fn set_field(table: &mut LuauTable, key: String, value: LuauExpr, Ghost(entries): Ghost<
    Seq<(Seq<char>, TableValue)>,
>, Ghost(v): Ghost<TableValue>)
    requires
        table_is(*old(table), entries),
        expr_is(value, v),
    ensures
        table_is(*final(table), insert_entry(entries, key@, v)),
{
    proof {
        lemma_index_agrees(table.fields@, entries, key@);
    }
    let ghost k = key@;
    table.add_field(key, value);
    proof {
        lemma_find_entry_range(entries, k);
        let e2 = insert_entry(entries, k, v);
        assert(table.fields@.len() == e2.len());
        assert forall|i: int| 0 <= i < e2.len() implies (#[trigger] table.fields@[i]).0@ == e2[i].0
            && expr_is(table.fields@[i].1, e2[i].1) by {
            match find_entry(entries, k) {
                Some(j) => {
                    if i != j {
                        assert(table.fields@[i] == old(table).fields@[i]);
                    }
                },
                None => {
                    if i < entries.len() {
                        assert(table.fields@[i] == old(table).fields@[i]);
                    }
                },
            }
        }
    }
}

proof fn lemma_find_entry_range(entries: Seq<(Seq<char>, TableValue)>, key: Seq<char>)
    ensures
        find_entry(entries, key) matches Some(i) ==> 0 <= i < entries.len() && entries[i].0 == key,
    decreases entries.len(),
{
    if entries.len() > 0 {
        lemma_find_entry_range(entries.drop_last(), key);
    }
}

/// The string `create_<lowercased name>`.
fn constructor_of(name: &str) -> (r: String)
    ensures
        r@ == constructor_name(name@),
{
    let mut r = String::from_str("create_");
    let low = to_lowercase(name);
    r.append(low.as_str());
    r
}

/// The constructor function of a struct.
fn transform_struct(name: &String, fields: &Vec<Option<String>>) -> (s: LuauStmt)
    ensures
        is_struct_constructor(s, name@, fields@),
{
    let cname = constructor_of(name.as_str());
    let ghost cn = cname@;
    let mut ctor = LuauFunction::new(cname);
    let mut i: usize = 0;
    while i < fields.len()
        invariant
            i <= fields.len(),
            ctor.name matches Some(n) && n@ == cn,
            !ctor.is_variadic,
            views(ctor.params@) == struct_params(fields@.take(i as int)),
        decreases fields.len() - i,
    {
        proof {
            assert(fields@.take(i + 1).drop_last() =~= fields@.take(i as int));
        }
        match &fields[i] {
            Some(ident) => {
                ctor.add_param(ident.clone());
            },
            None => {},
        }
        i = i + 1;
        proof {
            assert(views(ctor.params@) =~= struct_params(fields@.take(i as int)));
        }
    }
    let mut table = LuauTable::new();
    let mut j: usize = 0;
    while j < fields.len()
        invariant
            j <= fields.len(),
            table_is(table, struct_entries(fields@.take(j as int))),
        decreases fields.len() - j,
    {
        proof {
            assert(fields@.take(j + 1).drop_last() =~= fields@.take(j as int));
        }
        match &fields[j] {
            Some(ident) => {
                set_field(
                    &mut table,
                    ident.clone(),
                    LuauExpr::Variable(ident.clone()),
                    Ghost(struct_entries(fields@.take(j as int))),
                    Ghost(TableValue::Variable(ident@)),
                );
            },
            None => {},
        }
        j = j + 1;
    }
    proof {
        assert(fields@.take(fields.len() as int) =~= fields@);
    }
    let mut body: Vec<LuauStmt> = Vec::new();
    body.push(LuauStmt::Return(Some(LuauExpr::Table(table))));
    ctor.set_body(body);
    LuauStmt::FunctionDecl(ctor)
}

/// The local table that stands for an enum.
fn transform_enum(name: &String, variants: &Vec<(String, FieldsKind)>) -> (s: LuauStmt)
    ensures
        is_enum_table(s, name@, variants@),
{
    let mut table = LuauTable::new();
    let mut i: usize = 0;
    while i < variants.len()
        invariant
            i <= variants.len(),
            table_is(table, enum_entries(variants@.take(i as int))),
        decreases variants.len() - i,
    {
        proof {
            assert(variants@.take(i + 1).drop_last() =~= variants@.take(i as int));
        }
        let vname = &variants[i].0;
        match &variants[i].1 {
            FieldsKind::Unit => {
                set_field(
                    &mut table,
                    vname.clone(),
                    LuauExpr::Number(i as i64),
                    Ghost(enum_entries(variants@.take(i as int))),
                    Ghost(TableValue::Number(i as i64)),
                );
            },
            _ => {
                let cname = constructor_of(vname.as_str());
                let ghost cn = cname@;
                set_field(
                    &mut table,
                    vname.clone(),
                    LuauExpr::Variable(cname),
                    Ghost(enum_entries(variants@.take(i as int))),
                    Ghost(TableValue::Variable(cn)),
                );
            },
        }
        i = i + 1;
    }
    proof {
        assert(variants@.take(variants.len() as int) =~= variants@);
    }
    let mut names: Vec<String> = Vec::new();
    names.push(name.clone());
    let mut exprs: Vec<LuauExpr> = Vec::new();
    exprs.push(LuauExpr::Table(table));
    proof {
        assert(views(names@) =~= seq![name@]);
    }
    LuauStmt::LocalAssign(names, exprs)
}

/// The Luau function for a free function; a receiver is refused, and so is
/// a body whose translation fails.
fn transform_function(f: &RustFn) -> (r: Result<LuauStmt, TransformError>)
    ensures
        match r {
            Ok(s) => item_error(RustItem::Fn(*f)) is None && is_translated_function(
                s,
                f.name@,
                fn_params(f.params@),
                f.body@,
                "-- Body of function "@ + f.name@,
            ),
            Err(e) => item_error(RustItem::Fn(*f)) == Some(e.kind_and_text()),
        },
{
    let mut func = LuauFunction::new(f.name.clone());
    let mut i: usize = 0;
    while i < f.params.len()
        invariant
            i <= f.params.len(),
            func.name matches Some(n) && n@ == f.name@,
            !func.is_variadic,
            !has_receiver(f.params@.take(i as int)),
            views(func.params@) == fn_params(f.params@.take(i as int)),
        decreases f.params.len() - i,
    {
        proof {
            assert(f.params@.take(i + 1).drop_last() =~= f.params@.take(i as int));
        }
        match &f.params[i] {
            FnParam::Named(n) => {
                func.add_param(n.clone());
            },
            FnParam::Receiver => {
                proof {
                    assert(f.params@[i as int] is Receiver);
                }
                return Err(TransformError::UnsupportedFeature(String::from_str("Self parameter not supported yet")));
            },
            FnParam::Pattern => {},
        }
        i = i + 1;
        proof {
            assert(views(func.params@) =~= fn_params(f.params@.take(i as int)));
            assert forall|k: int| 0 <= k < i implies !(f.params@.take(i as int)[k] is Receiver) by {
                if k < i - 1 {
                    assert(f.params@.take(i as int)[k] == f.params@.take(i - 1)[k]);
                }
            }
        }
    }
    proof {
        assert(f.params@.take(f.params.len() as int) =~= f.params@);
    }
    match translate_block(&f.body, true) {
        Ok(body) => {
            func.set_body(body);
        },
        Err(_) => {
            let mut comment = String::from_str("-- Body of function ");
            comment.append(f.name.as_str());
            func.set_body(stub_body(comment));
        },
    }
    Ok(LuauStmt::FunctionDecl(func))
}

/// A placeholder body: the comment `comment` and `return nil`.
fn stub_body(comment: String) -> (r: Vec<LuauStmt>)
    ensures
        stub_body_ok(r@, comment@),
{
    let mut body: Vec<LuauStmt> = Vec::new();
    body.push(LuauStmt::Comment(comment));
    body.push(LuauStmt::Return(Some(LuauExpr::Nil)));
    body
}

/// Whether a parameter list has a receiver.
fn receiver_in(params: &Vec<FnParam>) -> (r: bool)
    ensures
        r == has_receiver(params@),
{
    let mut i: usize = 0;
    while i < params.len()
        invariant
            i <= params.len(),
            forall|k: int| 0 <= k < i ==> !(params@[k] is Receiver),
        decreases params.len() - i,
    {
        match &params[i] {
            FnParam::Receiver => {
                return true;
            },
            _ => {},
        }
        i = i + 1;
    }
    false
}

/// The Luau function for the method `m` of the type `owner`.
fn transform_method(owner: &String, m: &RustFn) -> (s: LuauStmt)
    ensures
        is_translated_function(
            s,
            method_name(owner@, *m),
            method_params(m.params@),
            m.body@,
            method_comment(owner@, *m),
        ),
{
    let mut full = to_lowercase(owner.as_str());
    full.append("_");
    full.append(m.name.as_str());
    let ghost fname = full@;
    let mut func = LuauFunction::new(full);
    let mut i: usize = 0;
    while i < m.params.len()
        invariant
            i <= m.params.len(),
            func.name matches Some(n) && n@ == fname,
            !func.is_variadic,
            views(func.params@) == method_params(m.params@.take(i as int)),
        decreases m.params.len() - i,
    {
        proof {
            assert(m.params@.take(i + 1).drop_last() =~= m.params@.take(i as int));
        }
        match &m.params[i] {
            FnParam::Receiver => {
                func.add_param(String::from_str("self"));
            },
            FnParam::Named(n) => {
                func.add_param(n.clone());
            },
            FnParam::Pattern => {},
        }
        i = i + 1;
        proof {
            assert(views(func.params@) =~= method_params(m.params@.take(i as int)));
        }
    }
    proof {
        assert(m.params@.take(m.params.len() as int) =~= m.params@);
    }
    match translate_block(&m.body, true) {
        Ok(body) => {
            func.set_body(body);
        },
        Err(_) => {
            let mut comment = if receiver_in(&m.params) {
                String::from_str("-- Body of method ")
            } else {
                String::from_str("-- Body of static method ")
            };
            comment.append(owner.as_str());
            comment.append(".");
            comment.append(m.name.as_str());
            func.set_body(stub_body(comment));
        },
    }
    LuauStmt::FunctionDecl(func)
}

/// The Luau functions for the methods of an `impl` block.
fn transform_impl(self_type: &ImplSelf, methods: &Vec<RustFn>) -> (r: Result<Vec<LuauStmt>, TransformError>)
    ensures
        match r {
            Ok(v) => item_error(RustItem::Impl { self_type: *self_type, methods: *methods }) is None
                && item_output_ok(RustItem::Impl { self_type: *self_type, methods: *methods }, v@),
            Err(e) => item_error(RustItem::Impl { self_type: *self_type, methods: *methods }) == Some(
                e.kind_and_text(),
            ),
        },
{
    let owner = match self_type {
        ImplSelf::Named(n) => n,
        ImplSelf::EmptyPath => {
            return Err(TransformError::Other(String::from_str("Empty type path")));
        },
        ImplSelf::Complex => {
            return Err(TransformError::UnsupportedFeature(String::from_str("Complex impl self type not supported yet")));
        },
    };
    let mut out: Vec<LuauStmt> = Vec::new();
    let mut i: usize = 0;
    while i < methods.len()
        invariant
            i <= methods.len(),
            out@.len() == i,
            *self_type == ImplSelf::Named(*owner),
            forall|k: int|
                0 <= k < i ==> is_translated_function(
                    #[trigger] out@[k],
                    method_name(owner@, methods@[k]),
                    method_params(methods@[k].params@),
                    methods@[k].body@,
                    method_comment(owner@, methods@[k]),
                ),
        decreases methods.len() - i,
    {
        let s = transform_method(owner, &methods[i]);
        out.push(s);
        i = i + 1;
    }
    Ok(out)
}

/// The statements a top-level item translates to.
fn transform_item(item: &RustItem) -> (r: Result<Vec<LuauStmt>, TransformError>)
    ensures
        match r {
            Ok(v) => item_error(*item) is None && item_output_ok(*item, v@),
            Err(e) => item_error(*item) == Some(e.kind_and_text()),
        },
{
    let mut out: Vec<LuauStmt> = Vec::new();
    match item {
        RustItem::Fn(f) => {
            let s = match transform_function(f) {
                Ok(s) => s,
                Err(e) => {
                    return Err(e);
                },
            };
            out.push(s);
        },
        RustItem::Struct { name, fields } => {
            out.push(transform_struct(name, fields));
        },
        RustItem::Enum { name, variants } => {
            out.push(transform_enum(name, variants));
        },
        RustItem::Impl { self_type, methods } => {
            return transform_impl(self_type, methods);
        },
        RustItem::Use => {},
        RustItem::Mod => {},
        RustItem::Other(d) => {
            let mut c = String::from_str("-- Unsupported Rust item: ");
            c.append(d.as_str());
            out.push(LuauStmt::Comment(c));
        },
    }
    Ok(out)
}

pub(crate) proof fn lemma_item_output_len(item: RustItem, out: Seq<LuauStmt>)
    requires
        item_output_ok(item, out),
    ensures
        out.len() == item_stmt_count(item),
{
}

proof fn lemma_items_output_push(
    items: Seq<RustItem>,
    item: RustItem,
    a: Seq<LuauStmt>,
    b: Seq<LuauStmt>,
)
    requires
        items_output_ok(items, a),
        item_output_ok(item, b),
    ensures
        items_output_ok(items.push(item), a + b),
{
    lemma_item_output_len(item, b);
    assert(items.push(item).drop_last() =~= items);
    assert((a + b).take(a.len() as int) =~= a);
    assert((a + b).skip(a.len() as int) =~= b);
}

/// Transform a sequence of Rust items into a Luau AST: the items'
/// translations one after the other, or the error of the first item that
/// cannot be translated.
pub fn transform_items(items: &Vec<RustItem>) -> (r: Result<LuauAst, TransformError>)
    ensures
        match r {
            Ok(ast) => items_error(items@) is None && items_output_ok(items@, ast.statements@),
            Err(e) => items_error(items@) == Some(e.kind_and_text()),
        },
{
    let mut ast = LuauAst::new();
    let mut i: usize = 0;
    while i < items.len()
        invariant
            i <= items.len(),
            items_error(items@.take(i as int)) is None,
            items_output_ok(items@.take(i as int), ast.statements@),
        decreases items.len() - i,
    {
        proof {
            assert(items@.take(i + 1).drop_last() =~= items@.take(i as int));
        }
        let r = transform_item(&items[i]);
        match r {
            Ok(mut v) => {
                let ghost a = ast.statements@;
                let ghost b = v@;
                ast.statements.append(&mut v);
                proof {
                    lemma_items_output_push(items@.take(i as int), items@[i as int], a, b);
                    assert(items@.take(i as int).push(items@[i as int]) =~= items@.take(i + 1));
                }
            },
            Err(e) => {
                proof {
                    lemma_items_error_prefix(items@, i as int + 1);
                }
                return Err(e);
            },
        }
        i = i + 1;
    }
    proof {
        assert(items@.take(items.len() as int) =~= items@);
    }
    Ok(ast)
}

/// What transforming the items `items` gives: their translation, or the
/// message of the first item's error as a transformation error.
pub open spec fn transform_outcome(items: Seq<RustItem>, r: Result<LuauAst, Error>) -> bool {
    match r {
        Ok(out) => items_error(items) is None && items_output_ok(items, out.statements@),
        Err(Error::Transform(m)) => match items_error(items) {
            Some(e) => m@ == kind_message(e.0, e.1),
            None => false,
        },
        Err(_) => false,
    }
}

/// Transform the items of a parsed Rust file into a Luau AST; the error of
/// the first item that cannot be translated becomes a transformation error
/// with its message.
pub fn transform_ast(items: &Vec<RustItem>) -> (r: Result<LuauAst, Error>)
    ensures
        transform_outcome(items@, r),
{
    match transform_items(items) {
        Ok(out) => {
            let r = Ok(out);
            assert(transform_outcome(items@, r));
            r
        },
        Err(e) => {
            let m = e.message();
            proof {
                assert(m@ == kind_message(e.kind_and_text().0, e.kind_and_text().1));
            }
            let r = Err(Error::Transform(m));
            assert(transform_outcome(items@, r));
            r
        },
    }
}

/// The name of a function, as text.
pub open spec fn fn_name_view(f: LuauFunction) -> Option<Seq<char>> {
    match f.name {
        Some(n) => Some(n@),
        None => None,
    }
}

/// Whether two statements read alike at every level; two functions also
/// have the same name, parameters and body text, so that what is added
/// around their bodies reads alike too.
pub open spec fn same_decl(a: LuauStmt, b: LuauStmt) -> bool {
    match a {
        LuauStmt::FunctionDecl(f) => match b {
            LuauStmt::FunctionDecl(g) => {
                &&& fn_name_view(f) == fn_name_view(g)
                &&& views(f.params@) == views(g.params@)
                &&& f.is_variadic == g.is_variadic
                &&& forall|l: nat| #[trigger] block_text(f.body@, l) == block_text(g.body@, l)
            },
            _ => false,
        },
        _ => !(b is FunctionDecl) && forall|l: nat| #[trigger] stmt_text(a, l) == stmt_text(b, l),
    }
}

/// Whether two statement sequences are alike statement by statement.
pub open spec fn same_decls(a: Seq<LuauStmt>, b: Seq<LuauStmt>) -> bool {
    a.len() == b.len() && forall|i: int| 0 <= i < a.len() ==> same_decl(#[trigger] a[i], b[i])
}

/// Two tables holding the same entries read alike.
proof fn lemma_table_text_unique(t: LuauTable, u: LuauTable, entries: Seq<(Seq<char>, TableValue)>)
    requires
        table_is(t, entries),
        table_is(u, entries),
    ensures
        expr_text(LuauExpr::Table(t)) == expr_text(LuauExpr::Table(u)),
{
    lemma_field_texts_unique(t.fields@, u.fields@, entries);
    assert(expr_texts(t.array_items@) == Seq::<Seq<char>>::empty());
    assert(expr_texts(u.array_items@) == Seq::<Seq<char>>::empty());
}

proof fn lemma_field_texts_unique(
    fs: Seq<(String, LuauExpr)>,
    gs: Seq<(String, LuauExpr)>,
    entries: Seq<(Seq<char>, TableValue)>,
)
    requires
        fs.len() == entries.len(),
        gs.len() == entries.len(),
        forall|i: int| 0 <= i < entries.len() ==> (#[trigger] fs[i]).0@ == entries[i].0 && expr_is(fs[i].1, entries[i].1),
        forall|i: int| 0 <= i < entries.len() ==> (#[trigger] gs[i]).0@ == entries[i].0 && expr_is(gs[i].1, entries[i].1),
    ensures
        field_texts(fs) == field_texts(gs),
    decreases fs.len(),
{
    if fs.len() > 0 {
        let n = fs.len() - 1;
        assert forall|i: int| 0 <= i < n implies (#[trigger] fs.drop_last()[i]).0@ == entries.drop_last()[i].0
            && expr_is(fs.drop_last()[i].1, entries.drop_last()[i].1) by {
            assert(fs.drop_last()[i] == fs[i]);
        }
        assert forall|i: int| 0 <= i < n implies (#[trigger] gs.drop_last()[i]).0@ == entries.drop_last()[i].0
            && expr_is(gs.drop_last()[i].1, entries.drop_last()[i].1) by {
            assert(gs.drop_last()[i] == gs[i]);
        }
        lemma_field_texts_unique(fs.drop_last(), gs.drop_last(), entries.drop_last());
        assert(fs[n].0@ == entries[n].0 && expr_is(fs[n].1, entries[n].1));
        assert(gs[n].0@ == entries[n].0 && expr_is(gs[n].1, entries[n].1));
        assert(expr_text(fs[n].1) == expr_text(gs[n].1));
    }
}

/// Whether two parameter lists are alike: the same kinds, with the same
/// names.
pub open spec fn params_alike(p1: Seq<FnParam>, p2: Seq<FnParam>) -> bool {
    &&& p1.len() == p2.len()
    &&& forall|i: int|
        0 <= i < p1.len() ==> match (#[trigger] p1[i], p2[i]) {
            (FnParam::Receiver, FnParam::Receiver) => true,
            (FnParam::Pattern, FnParam::Pattern) => true,
            (FnParam::Named(x), FnParam::Named(y)) => x@ == y@,
            _ => false,
        }
}

/// Alike parameter lists give the same names and receivers.
proof fn lemma_params_alike(p1: Seq<FnParam>, p2: Seq<FnParam>)
    requires
        params_alike(p1, p2),
    ensures
        fn_params(p1) == fn_params(p2),
        method_params(p1) == method_params(p2),
        has_receiver(p1) == has_receiver(p2),
    decreases p1.len(),
{
    if p1.len() > 0 {
        let n = p1.len() - 1;
        assert(params_alike(p1.drop_last(), p2.drop_last())) by {
            assert forall|i: int| 0 <= i < n implies match (#[trigger] p1.drop_last()[i], p2.drop_last()[i]) {
                (FnParam::Receiver, FnParam::Receiver) => true,
                (FnParam::Pattern, FnParam::Pattern) => true,
                (FnParam::Named(x), FnParam::Named(y)) => x@ == y@,
                _ => false,
            } by {
                assert(p1.drop_last()[i] == p1[i]);
                assert(p2.drop_last()[i] == p2[i]);
            }
        }
        lemma_params_alike(p1.drop_last(), p2.drop_last());
        assert(p1.last() == p1[n]);
        assert(p2.last() == p2[n]);
    }
    if has_receiver(p1) {
        let k = choose|k: int| 0 <= k < p1.len() && p1[k] is Receiver;
        assert(p2[k] is Receiver);
    }
    if has_receiver(p2) {
        let k = choose|k: int| 0 <= k < p2.len() && p2[k] is Receiver;
        assert(p1[k] is Receiver);
    }
}

/// Whether two functions are alike: the same name, alike parameters, and
/// bodies read from the same texts.
pub open spec fn fns_alike(f1: RustFn, f2: RustFn) -> bool {
    &&& f1.name@ == f2.name@
    &&& params_alike(f1.params@, f2.params@)
    &&& exists|ts: Seq<Seq<char>>, fuel: nat| stmts_reads(ts, fuel, f1.body@) && stmts_reads(ts, fuel, f2.body@)
}

/// Two functions read from the same parts are alike.
proof fn lemma_fn_read_alike(n: Seq<char>, ps: Seq<Seq<char>>, b: Seq<Seq<char>>, fuel: nat, f1: RustFn, f2: RustFn)
    requires
        fn_reads(n, ps, b, fuel, f1),
        fn_reads(n, ps, b, fuel, f2),
    ensures
        fns_alike(f1, f2),
{
    assert forall|i: int| 0 <= i < f1.params@.len() implies match (#[trigger] f1.params@[i], f2.params@[i]) {
        (FnParam::Receiver, FnParam::Receiver) => true,
        (FnParam::Pattern, FnParam::Pattern) => true,
        (FnParam::Named(x), FnParam::Named(y)) => x@ == y@,
        _ => false,
    } by {
        assert(param_reads(ps[i], f1.params@[i]));
        assert(param_reads(ps[i], f2.params@[i]));
    }
    assert(stmts_reads(b, fuel, f1.body@) && stmts_reads(b, fuel, f2.body@));
}

/// Alike functions translate under alike names into alike declarations.
proof fn lemma_translated_alike(
    s: LuauStmt,
    t: LuauStmt,
    name: Seq<char>,
    params: Seq<Seq<char>>,
    f1: RustFn,
    f2: RustFn,
    comment: Seq<char>,
)
    requires
        fns_alike(f1, f2),
        is_translated_function(s, name, params, f1.body@, comment),
        is_translated_function(t, name, params, f2.body@, comment),
    ensures
        same_decl(s, t),
{
    let (ts, fuel) = choose|ts: Seq<Seq<char>>, fuel: nat| stmts_reads(ts, fuel, f1.body@) && stmts_reads(
        ts,
        fuel,
        f2.body@,
    );
    lemma_read_block_alike(ts, fuel, f1.body@, f2.body@, true);
    let f = s->FunctionDecl_0;
    let g = t->FunctionDecl_0;
    assert forall|l: nat| #[trigger] block_text(f.body@, l) == block_text(g.body@, l) by {
        if block_error(f1.body@, true) is None {
            assert(block_ok(f1.body@, true, f.body@));
            assert(block_ok(f2.body@, true, g.body@));
        } else {
            let fb = f.body@;
            let gb = g.body@;
            assert(fb.drop_last().drop_last().len() == 0);
            assert(gb.drop_last().drop_last().len() == 0);
            assert(block_text(fb.drop_last().drop_last(), l) == Seq::<char>::empty());
            assert(block_text(gb.drop_last().drop_last(), l) == Seq::<char>::empty());
            assert(fb.drop_last().last() == fb[0]);
            assert(gb.drop_last().last() == gb[0]);
            assert(stmt_text(fb[0], l) == stmt_text(gb[0], l));
            assert(block_text(fb.drop_last(), l) == block_text(gb.drop_last(), l));
            assert(fb.last() == fb[1]);
            assert(gb.last() == gb[1]);
            assert(fb.last() == gb.last());
            assert(block_text(fb, l) == block_text(fb.drop_last(), l) + stmt_text(fb.last(), l) + seq!['\n']);
            assert(block_text(gb, l) == block_text(gb.drop_last(), l) + stmt_text(gb.last(), l) + seq!['\n']);
        }
    }
}

/// Fields with the same names give the same constructor.
proof fn lemma_struct_alike(f1: Seq<Option<String>>, f2: Seq<Option<String>>)
    requires
        opt_views(f1) == opt_views(f2),
    ensures
        struct_params(f1) == struct_params(f2),
        struct_entries(f1) == struct_entries(f2),
    decreases f1.len(),
{
    assert(opt_views(f1).len() == f1.len());
    assert(opt_views(f2).len() == f2.len());
    if f1.len() > 0 {
        let n = f1.len() - 1;
        assert(opt_views(f1.drop_last()) =~= opt_views(f1).drop_last());
        assert(opt_views(f2.drop_last()) =~= opt_views(f2).drop_last());
        lemma_struct_alike(f1.drop_last(), f2.drop_last());
        assert(opt_views(f1)[n] == opt_views(f2)[n]);
        assert(f1.last() == f1[n]);
        assert(f2.last() == f2[n]);
        match (f1[n], f2[n]) {
            (Some(a), Some(b)) => {
                assert(opt_views(f1)[n] == Some(a@));
                assert(opt_views(f2)[n] == Some(b@));
                assert(a@ == b@);
            },
            (None, None) => {},
            (Some(a), None) => {
                assert(opt_views(f1)[n] == Some(a@));
                assert(opt_views(f2)[n] == None::<Seq<char>>);
            },
            (None, Some(b)) => {
                assert(opt_views(f2)[n] == Some(b@));
                assert(opt_views(f1)[n] == None::<Seq<char>>);
            },
        }
    }
}

/// Variants with the same names and shapes give the same table.
proof fn lemma_enum_alike(v1: Seq<(String, FieldsKind)>, v2: Seq<(String, FieldsKind)>)
    requires
        variant_views(v1) == variant_views(v2),
    ensures
        enum_entries(v1) == enum_entries(v2),
    decreases v1.len(),
{
    assert(variant_views(v1).len() == v1.len());
    assert(variant_views(v2).len() == v2.len());
    if v1.len() > 0 {
        let n = v1.len() - 1;
        assert(variant_views(v1.drop_last()) =~= variant_views(v1).drop_last());
        assert(variant_views(v2.drop_last()) =~= variant_views(v2).drop_last());
        lemma_enum_alike(v1.drop_last(), v2.drop_last());
        assert(variant_views(v1)[n] == variant_views(v2)[n]);
        assert(variant_views(v1)[n] == (v1[n].0@, v1[n].1));
        assert(variant_views(v2)[n] == (v2[n].0@, v2[n].1));
        assert(v1.last() == v1[n]);
        assert(v2.last() == v2[n]);
    }
}

/// Methods read from the same `impl` items are alike one by one.
proof fn lemma_methods_read_alike(its: Seq<Seq<char>>, fuel: nat, ms1: Seq<RustFn>, ms2: Seq<RustFn>)
    requires
        methods_reads(its, fuel, ms1),
        methods_reads(its, fuel, ms2),
    ensures
        ms1.len() == ms2.len(),
        forall|i: int| 0 <= i < ms1.len() ==> fns_alike(#[trigger] ms1[i], ms2[i]),
    decreases its.len(),
{
    if its.len() > 0 {
        match impl_fn_view(its.last()) {
            Some((n, ps, b)) => {
                lemma_methods_read_alike(its.drop_last(), fuel, ms1.drop_last(), ms2.drop_last());
                lemma_fn_read_alike(n, ps, b, fuel, ms1.last(), ms2.last());
                assert forall|i: int| 0 <= i < ms1.len() implies fns_alike(#[trigger] ms1[i], ms2[i]) by {
                    if i < ms1.len() - 1 {
                        assert(ms1.drop_last()[i] == ms1[i]);
                        assert(ms2.drop_last()[i] == ms2[i]);
                    }
                }
            },
            None => {
                lemma_methods_read_alike(its.drop_last(), fuel, ms1, ms2);
            },
        }
    }
}

/// Two items read from one text translate alike: with the same error and
/// into alike statements.
proof fn lemma_read_item_alike(t: Seq<char>, fuel: nat, i1: RustItem, i2: RustItem)
    requires
        item_reads(t, fuel, i1),
        item_reads(t, fuel, i2),
    ensures
        item_error(i1) == item_error(i2),
        item_stmt_count(i1) == item_stmt_count(i2),
        forall|a: Seq<LuauStmt>, b: Seq<LuauStmt>|
            #![trigger item_output_ok(i1, a), item_output_ok(i2, b)]
            item_output_ok(i1, a) && item_output_ok(i2, b) ==> same_decls(a, b),
{
    match item_view(t) {
        ItemView::Fn(n, ps, b) => {
            let f1 = i1->Fn_0;
            let f2 = i2->Fn_0;
            lemma_fn_read_alike(n, ps, b, fuel, f1, f2);
            lemma_params_alike(f1.params@, f2.params@);
            assert forall|a: Seq<LuauStmt>, b: Seq<LuauStmt>|
                #![trigger item_output_ok(i1, a), item_output_ok(i2, b)]
                item_output_ok(i1, a) && item_output_ok(i2, b) implies same_decls(a, b) by {
                lemma_translated_alike(a[0], b[0], f1.name@, fn_params(f1.params@), f1, f2, "-- Body of function "@ + f1.name@);
            }
        },
        ItemView::Struct(n, fs) => {
            match (i1, i2) {
                (RustItem::Struct { name: n1, fields: fs1 }, RustItem::Struct { name: n2, fields: fs2 }) => {
                    lemma_struct_alike(fs1@, fs2@);
                    assert forall|a: Seq<LuauStmt>, b: Seq<LuauStmt>|
                        #![trigger item_output_ok(i1, a), item_output_ok(i2, b)]
                        item_output_ok(i1, a) && item_output_ok(i2, b) implies same_decls(a, b) by {
                        let fa = a[0]->FunctionDecl_0;
                        let fb = b[0]->FunctionDecl_0;
                        let ta = fa.body@[0]->Return_0->Some_0->Table_0;
                        let tb = fb.body@[0]->Return_0->Some_0->Table_0;
                        lemma_table_text_unique(ta, tb, struct_entries(fs1@));
                        assert forall|l: nat| #[trigger] block_text(fa.body@, l) == block_text(fb.body@, l) by {
                            assert(fa.body@.drop_last().len() == 0);
                            assert(fb.body@.drop_last().len() == 0);
                            assert(block_text(fa.body@.drop_last(), l) == Seq::<char>::empty());
                            assert(block_text(fb.body@.drop_last(), l) == Seq::<char>::empty());
                            assert(fa.body@.last() == fa.body@[0]);
                            assert(fb.body@.last() == fb.body@[0]);
                            assert(fa.body@[0] == LuauStmt::Return(Some(LuauExpr::Table(ta))));
                            assert(fb.body@[0] == LuauStmt::Return(Some(LuauExpr::Table(tb))));
                            assert(stmt_text(fa.body@[0], l) == stmt_text(fb.body@[0], l));
                        }
                        assert(same_decl(a[0], b[0]));
                    }
                },
                _ => {},
            }
        },
        ItemView::Enum(n, vs) => {
            match (i1, i2) {
                (RustItem::Enum { name: n1, variants: v1 }, RustItem::Enum { name: n2, variants: v2 }) => {
                    lemma_enum_alike(v1@, v2@);
                    assert forall|a: Seq<LuauStmt>, b: Seq<LuauStmt>|
                        #![trigger item_output_ok(i1, a), item_output_ok(i2, b)]
                        item_output_ok(i1, a) && item_output_ok(i2, b) implies same_decls(a, b) by {
                        match (a[0], b[0]) {
                            (LuauStmt::LocalAssign(na, ea), LuauStmt::LocalAssign(nb, eb)) => {
                                lemma_table_text_unique(ea@[0]->Table_0, eb@[0]->Table_0, enum_entries(v1@));
                                assert(ea@.drop_last().len() == 0);
                                assert(eb@.drop_last().len() == 0);
                                assert(expr_texts(ea@.drop_last()) == Seq::<Seq<char>>::empty());
                                assert(expr_texts(eb@.drop_last()) == Seq::<Seq<char>>::empty());
                                assert(ea@.last() == ea@[0]);
                                assert(eb@.last() == eb@[0]);
                                assert(expr_texts(ea@) == expr_texts(eb@));
                            },
                            _ => {},
                        }
                        assert(same_decl(a[0], b[0]));
                    }
                },
                _ => {},
            }
        },
        ItemView::Impl(st, its) => {
            match (i1, i2) {
                (
                    RustItem::Impl { self_type: s1, methods: m1 },
                    RustItem::Impl { self_type: s2, methods: m2 },
                ) => {
                    lemma_methods_read_alike(its, fuel, m1@, m2@);
                    match (s1, s2) {
                        (ImplSelf::Named(t1), ImplSelf::Named(t2)) => {
                            assert forall|a: Seq<LuauStmt>, b: Seq<LuauStmt>|
                                #![trigger item_output_ok(i1, a), item_output_ok(i2, b)]
                                item_output_ok(i1, a) && item_output_ok(i2, b) implies same_decls(a, b) by {
                                assert forall|i: int| 0 <= i < a.len() implies same_decl(#[trigger] a[i], b[i]) by {
                                    assert(fns_alike(m1@[i], m2@[i]));
                                    lemma_params_alike(m1@[i].params@, m2@[i].params@);
                                    assert(method_name(t1@, m1@[i]) == method_name(t2@, m2@[i]));
                                    assert(method_comment(t1@, m1@[i]) == method_comment(t2@, m2@[i]));
                                    lemma_translated_alike(
                                        a[i],
                                        b[i],
                                        method_name(t1@, m1@[i]),
                                        method_params(m1@[i].params@),
                                        m1@[i],
                                        m2@[i],
                                        method_comment(t1@, m1@[i]),
                                    );
                                }
                            }
                        },
                        _ => {},
                    }
                },
                _ => {},
            }
        },
        _ => {},
    }
}

/// Two item lists read from the same texts translate alike.
pub proof fn lemma_read_items_alike(ts: Seq<Seq<char>>, fuel: nat, items1: Seq<RustItem>, items2: Seq<RustItem>)
    requires
        items_reads(ts, fuel, items1),
        items_reads(ts, fuel, items2),
    ensures
        items_error(items1) == items_error(items2),
        forall|a: Seq<LuauStmt>, b: Seq<LuauStmt>|
            #![trigger items_output_ok(items1, a), items_output_ok(items2, b)]
            items_output_ok(items1, a) && items_output_ok(items2, b) ==> same_decls(a, b),
    decreases ts.len(),
{
    if ts.len() > 0 {
        let n = ts.len() - 1;
        assert(items_reads(ts.drop_last(), fuel, items1.drop_last())) by {
            assert forall|i: int| 0 <= i < n implies item_reads(ts.drop_last()[i], fuel, #[trigger] items1.drop_last()[i]) by {
                assert(item_reads(ts[i], fuel, items1[i]));
            }
        }
        assert(items_reads(ts.drop_last(), fuel, items2.drop_last())) by {
            assert forall|i: int| 0 <= i < n implies item_reads(ts.drop_last()[i], fuel, #[trigger] items2.drop_last()[i]) by {
                assert(item_reads(ts[i], fuel, items2[i]));
            }
        }
        lemma_read_items_alike(ts.drop_last(), fuel, items1.drop_last(), items2.drop_last());
        assert(item_reads(ts[n], fuel, items1[n]));
        assert(item_reads(ts[n], fuel, items2[n]));
        lemma_read_item_alike(ts[n], fuel, items1[n], items2[n]);
        assert(items1.last() == items1[n]);
        assert(items2.last() == items2[n]);
        assert forall|a: Seq<LuauStmt>, b: Seq<LuauStmt>|
            #![trigger items_output_ok(items1, a), items_output_ok(items2, b)]
            items_output_ok(items1, a) && items_output_ok(items2, b) implies same_decls(a, b) by {
            let k = item_stmt_count(items1.last());
            let pa = a.take(a.len() - k);
            let pb = b.take(b.len() - k);
            let qa = a.skip(a.len() - k);
            let qb = b.skip(b.len() - k);
            assert(items_output_ok(items1.drop_last(), pa));
            assert(items_output_ok(items2.drop_last(), pb));
            assert(item_output_ok(items1[n], qa));
            assert(item_output_ok(items2[n], qb));
            assert(same_decls(pa, pb));
            assert(same_decls(qa, qb));
            lemma_item_output_len(items1.last(), qa);
            lemma_item_output_len(items2.last(), qb);
            assert forall|i: int| 0 <= i < a.len() implies same_decl(#[trigger] a[i], b[i]) by {
                if i < pa.len() {
                    assert(pa[i] == a[i]);
                    assert(pb[i] == b[i]);
                } else {
                    assert(qa[i - pa.len()] == a[i]);
                    assert(qb[i - pb.len()] == b[i]);
                }
            }
        }
    }
}

/// An error within a prefix is the error of the whole.
proof fn lemma_items_error_prefix(items: Seq<RustItem>, n: int)
    requires
        0 <= n <= items.len(),
        items_error(items.take(n)) is Some,
    ensures
        items_error(items) == items_error(items.take(n)),
    decreases items.len(),
{
    if n < items.len() {
        assert(items.drop_last().take(n) =~= items.take(n));
        lemma_items_error_prefix(items.drop_last(), n);
    } else {
        assert(items.take(n) =~= items);
    }
}

} // verus!

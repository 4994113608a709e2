//! The parts of a Rust source file that the compiler reads, as plain values,
//! and the calls into `syn` that parse them. Each call parses one piece of
//! source text and hands back the pieces of text inside it; the reading
//! that puts them together is verified against what the calls give.

use vstd::prelude::*;
use quote::ToTokens;
use syn::parse::Parser;
use crate::text::views;

verus! {

/// One parameter of a function signature.
pub enum FnParam {
    /// `self`, `&self` or `&mut self`
    Receiver,
    /// A typed parameter bound to a plain name: `x: i32`
    Named(String),
    /// A typed parameter bound to any other pattern: `(a, b): (i32, i32)`
    Pattern,
}

/// The shape of the fields of a struct or enum variant.
pub enum FieldsKind {
    /// `{ a: T }`
    Named,
    /// `(T)`
    Unnamed,
    /// no fields
    Unit,
}

/// A function or method: its name, its parameters and the statements of
/// its body.
pub struct RustFn {
    pub name: String,
    pub params: Vec<FnParam>,
    pub body: Vec<RustStmt>,
}

/// An expression of a function body, as far as the compiler reads it.
/// Kinds the translators may refuse keep their source text for the message.
pub enum RustExpr {
    /// An integer literal that fits in an `i64`
    Int(i64),
    /// An integer literal that does not, with `syn`'s message
    BadInt(String),
    /// A floating-point literal: its digits, without suffix
    Float(String),
    /// `true` or `false`
    Bool(bool),
    /// A string literal: its value
    Str(String),
    /// Any other literal, with its source text
    OtherLit(String),
    /// A path such as `x` or `Vec::new`: its segments, and its source text
    Path(Vec<String>, String),
    /// `(e)`, and its source text
    Paren(Box<RustExpr>, String),
    /// `l op r`, with the operator's token
    Binary(Box<RustExpr>, String, Box<RustExpr>),
    /// `[a, b, ..]`
    Array(Vec<RustExpr>),
    /// `(a, b, ..)`
    Tuple(Vec<RustExpr>),
    /// `f(a, b, ..)`
    Call(Box<RustExpr>, Vec<RustExpr>),
    /// `r.m(a, ..)`: the receiver, the method's name, the arguments, and
    /// the source text
    MethodCall(Box<RustExpr>, String, Vec<RustExpr>, String),
    /// `if c { .. } else ..`: the condition, the statements of the first
    /// branch, what follows `else`, and the source text
    If(Box<RustExpr>, Vec<RustStmt>, Option<Box<RustExpr>>, String),
    /// `{ .. }`, and its source text
    Block(Vec<RustStmt>, String),
    /// `l = r`, and its source text
    Assign(Box<RustExpr>, Box<RustExpr>, String),
    /// `return` or `return e`, and its source text
    Return(Option<Box<RustExpr>>, String),
    /// Any other expression, with its source text
    Unsupported(String),
}

/// The pattern of a `let` statement.
pub enum LetPattern {
    /// A plain name: `x`
    Name(String),
    /// A plain name with a type: `x: i32`; the name and the source text
    Typed(String, String),
    /// Any other pattern, with its source text
    Other(String),
}

/// A statement of a function body.
pub enum RustStmt {
    /// `let p = e;` or `let p;`
    Let(LetPattern, Option<RustExpr>),
    /// An expression, and whether a semicolon ends it
    Expr(RustExpr, bool),
    /// A macro call in statement position: the macro's name and the source
    /// text
    Macro(String, String),
    /// An item declared inside the body, with its source text
    Item(String),
}

/// The type an `impl` block is for.
pub enum ImplSelf {
    /// A path type; the name is its last segment
    Named(String),
    /// A path type without segments
    EmptyPath,
    /// Any other type
    Complex,
}

/// A top-level item of a Rust source file, as far as the compiler reads it.
pub enum RustItem {
    /// `fn name(params) { .. }`
    Fn(RustFn),
    /// `struct Name { .. }`: the name of each field (`None` for tuple fields)
    Struct { name: String, fields: Vec<Option<String>> },
    /// `enum Name { .. }`: each variant's name and field shape
    Enum { name: String, variants: Vec<(String, FieldsKind)> },
    /// `impl Type { .. }`: the type and the functions among its items
    Impl { self_type: ImplSelf, methods: Vec<RustFn> },
    /// `use ..;`
    Use,
    /// `mod ..`
    Mod,
    /// Any other item, with its debug rendering
    Other(String),
}

/// One level of a parsed item, with the source texts of its parts.
pub enum ItemView {
    /// A function: name, parameter texts, statement texts
    Fn(Seq<char>, Seq<Seq<char>>, Seq<Seq<char>>),
    Struct(Seq<char>, Seq<Option<Seq<char>>>),
    Enum(Seq<char>, Seq<(Seq<char>, FieldsKind)>),
    /// An `impl` block: its type, and the texts of its items
    Impl(ImplSelfView, Seq<Seq<char>>),
    Use,
    Mod,
    /// A `const` or `static` item: its debug rendering and the text of its
    /// value
    Value(Seq<char>, Seq<char>),
    /// Any other item (or text that is no item), with its debug rendering
    Other(Seq<char>),
}

/// The type of an `impl` block, as text.
pub enum ImplSelfView {
    Named(Seq<char>),
    EmptyPath,
    Complex,
}

/// A parsed parameter.
pub enum ParamView {
    Receiver,
    Named(Seq<char>),
    Pattern,
}

/// A parsed `let` pattern.
pub enum PatView {
    Name(Seq<char>),
    Typed(Seq<char>, Seq<char>),
    Other(Seq<char>),
}

/// One level of a parsed statement, with the source texts of its parts.
pub enum StmtView {
    Let(PatView, Option<Seq<char>>),
    Expr(Seq<char>, bool),
    Macro(Seq<char>),
    /// An item, or text that is not a single statement
    Item,
}

/// One level of a parsed expression, with the source texts of its parts.
pub enum ExprView {
    Int(i64),
    BadInt(Seq<char>),
    Float(Seq<char>),
    Bool(bool),
    Str(Seq<char>),
    OtherLit(Seq<char>),
    Path(Seq<Seq<char>>),
    Paren(Seq<char>),
    Binary(Seq<char>, Seq<char>, Seq<char>),
    Array(Seq<Seq<char>>),
    Tuple(Seq<Seq<char>>),
    Call(Seq<char>, Seq<Seq<char>>),
    MethodCall(Seq<char>, Seq<char>, Seq<Seq<char>>),
    If(Seq<char>, Seq<Seq<char>>, Option<Seq<char>>),
    Block(Seq<Seq<char>>),
    Assign(Seq<char>, Seq<char>),
    Return(Option<Seq<char>>),
    /// Any other expression, or text that is no expression
    Other,
}

/// What `syn::parse_file` gives on `src`: the source texts of the file's
/// items, or its message.
pub uninterp spec fn rust_file(src: Seq<char>) -> Result<Seq<Seq<char>>, Seq<char>>;

/// What `syn::parse_str::<syn::Item>` gives on `text`, one level deep.
pub uninterp spec fn item_view(text: Seq<char>) -> ItemView;

/// What `syn::parse_str::<syn::ImplItem>` gives on `text`, one level deep:
/// the name, parameter texts and statement texts of a function, or `None`.
pub uninterp spec fn impl_fn_view(text: Seq<char>) -> Option<(Seq<char>, Seq<Seq<char>>, Seq<Seq<char>>)>;

/// What `syn::parse_str::<syn::FnArg>` gives on `text`.
pub uninterp spec fn param_view(text: Seq<char>) -> ParamView;

/// What `syn::Block::parse_within` gives on `text`, one level deep.
pub uninterp spec fn stmt_view(text: Seq<char>) -> StmtView;

/// What `syn::parse_str::<syn::Expr>` gives on `text`, one level deep.
pub uninterp spec fn expr_view(text: Seq<char>) -> ExprView;

/// The message `syn::parse_file` fails with on the text `src`, or `None`
/// where it parses.
pub open spec fn rust_parse_error(src: Seq<char>) -> Option<Seq<char>> {
    match rust_file(src) {
        Ok(_) => None,
        Err(m) => Some(m),
    }
}

/// The views of optional strings.
pub open spec fn opt_views(v: Seq<Option<String>>) -> Seq<Option<Seq<char>>> {
    Seq::new(v.len(), |i: int| match v[i] {
        Some(s) => Some(s@),
        None => None,
    })
}

/// The views of named field shapes.
pub open spec fn variant_views(v: Seq<(String, FieldsKind)>) -> Seq<(Seq<char>, FieldsKind)> {
    Seq::new(v.len(), |i: int| (v[i].0@, v[i].1))
}

/// The view of an `impl` block's type.
pub open spec fn impl_self_view(s: ImplSelf) -> ImplSelfView {
    match s {
        ImplSelf::Named(n) => ImplSelfView::Named(n@),
        ImplSelf::EmptyPath => ImplSelfView::EmptyPath,
        ImplSelf::Complex => ImplSelfView::Complex,
    }
}

/// The view of a `let` pattern.
pub open spec fn pat_view(p: LetPattern) -> PatView {
    match p {
        LetPattern::Name(n) => PatView::Name(n@),
        LetPattern::Typed(n, s) => PatView::Typed(n@, s@),
        LetPattern::Other(s) => PatView::Other(s@),
    }
}

/// The view of an optional string.
pub open spec fn opt_view(o: Option<String>) -> Option<Seq<char>> {
    match o {
        Some(s) => Some(s@),
        None => None,
    }
}

/// A parsed Rust source file.
#[verifier::external_type_specification]
#[verifier::external_body]
pub struct ExSynFile(syn::File);

/// `syn::parse_file`: parses `src` as a Rust source file. The contract ties
/// success and the error's message to the text by a name; Rust's grammar is
/// not written out here.
#[verifier::external_body]
pub fn parse_rust(src: &str) -> (r: std::result::Result<syn::File, String>)
    ensures
        match r {
            Ok(_) => rust_parse_error(src@) is None,
            Err(e) => rust_parse_error(src@) == Some(e@),
        },
{
    syn::parse_file(src).map_err(|e| e.to_string())
}

/// `syn::parse_file`, giving the source text of each item of the file, or
/// the message of the syntax error.
#[verifier::external_body]
pub(crate) fn file_item_texts(src: &str) -> (r: std::result::Result<Vec<String>, String>)
    ensures
        match r {
            Ok(v) => rust_file(src@) == Ok::<Seq<Seq<char>>, Seq<char>>(views(v@)),
            Err(e) => rust_file(src@) == Err::<Seq<Seq<char>>, Seq<char>>(e@),
        },
{
    syn::parse_file(src).map(|f| f.items.iter().map(|i| i.to_token_stream().to_string()).collect()).map_err(|e| e.to_string())
}

/// The kind of an item.
pub enum ItemTag {
    Fn,
    Struct,
    Enum,
    Impl,
    Use,
    Mod,
    Other(String),
}

/// `syn::parse_str::<syn::Item>`: the kind of the item `text` is, with the
/// debug rendering of other items (or the message where it is no item).
#[verifier::external_body]
fn item_tag(text: &str) -> (r: ItemTag)
    ensures
        match item_view(text@) {
            ItemView::Fn(..) => r is Fn,
            ItemView::Struct(..) => r is Struct,
            ItemView::Enum(..) => r is Enum,
            ItemView::Impl(..) => r is Impl,
            ItemView::Use => r is Use,
            ItemView::Mod => r is Mod,
            ItemView::Value(d, _) => r matches ItemTag::Other(x) && x@ == d,
            ItemView::Other(d) => r matches ItemTag::Other(x) && x@ == d,
        },
{
    match syn::parse_str::<syn::Item>(text) {
        Ok(syn::Item::Fn(_)) => ItemTag::Fn,
        Ok(syn::Item::Struct(_)) => ItemTag::Struct,
        Ok(syn::Item::Enum(_)) => ItemTag::Enum,
        Ok(syn::Item::Impl(_)) => ItemTag::Impl,
        Ok(syn::Item::Use(_)) => ItemTag::Use,
        Ok(syn::Item::Mod(_)) => ItemTag::Mod,
        Ok(other) => ItemTag::Other(format!("{:?}", other)),
        Err(e) => ItemTag::Other(e.to_string()),
    }
}

/// `syn::parse_str::<syn::Item>`: the name, parameter texts and statement
/// texts of the function `text` is, or `None`.
#[verifier::external_body]
fn fn_item_parts(text: &str) -> (r: Option<(String, Vec<String>, Vec<String>)>)
    ensures
        match item_view(text@) {
            ItemView::Fn(n, ps, b) => r matches Some(t) && t.0@ == n && views(t.1@) == ps && views(t.2@) == b,
            _ => r is None,
        },
{
    match syn::parse_str::<syn::Item>(text) {
        Ok(syn::Item::Fn(f)) => Some((
            f.sig.ident.to_string(),
            f.sig.inputs.iter().map(|a| a.to_token_stream().to_string()).collect(),
            f.block.stmts.iter().map(|s| s.to_token_stream().to_string()).collect(),
        )),
        _ => None,
    }
}

/// `syn::parse_str::<syn::Item>`: the name of the struct `text` is and the
/// name of each field, or `None`.
#[verifier::external_body]
fn struct_item_parts(text: &str) -> (r: Option<(String, Vec<Option<String>>)>)
    ensures
        match item_view(text@) {
            ItemView::Struct(n, fs) => r matches Some(t) && t.0@ == n && opt_views(t.1@) == fs,
            _ => r is None,
        },
{
    match syn::parse_str::<syn::Item>(text) {
        Ok(syn::Item::Struct(s)) => Some((s.ident.to_string(), s.fields.iter().map(|f| f.ident.as_ref().map(|i| i.to_string())).collect())),
        _ => None,
    }
}

/// `syn::parse_str::<syn::Item>`: the name of the enum `text` is and each
/// variant's name and field shape, or `None`.
#[verifier::external_body]
fn enum_item_parts(text: &str) -> (r: Option<(String, Vec<(String, FieldsKind)>)>)
    ensures
        match item_view(text@) {
            ItemView::Enum(n, vs) => r matches Some(t) && t.0@ == n && variant_views(t.1@) == vs,
            _ => r is None,
        },
{
    match syn::parse_str::<syn::Item>(text) {
        Ok(syn::Item::Enum(e)) => Some((e.ident.to_string(), e.variants.iter().map(|v| (v.ident.to_string(), match v.fields {
            syn::Fields::Named(_) => FieldsKind::Named,
            syn::Fields::Unnamed(_) => FieldsKind::Unnamed,
            syn::Fields::Unit => FieldsKind::Unit,
        })).collect())),
        _ => None,
    }
}

/// `syn::parse_str::<syn::Item>`: the type of the `impl` block `text` is
/// (the last segment of a path type) and the texts of its items, or `None`.
#[verifier::external_body]
fn impl_item_parts(text: &str) -> (r: Option<(ImplSelf, Vec<String>)>)
    ensures
        match item_view(text@) {
            ItemView::Impl(st, its) => r matches Some(t) && impl_self_view(t.0) == st && views(t.1@) == its,
            _ => r is None,
        },
{
    match syn::parse_str::<syn::Item>(text) {
        Ok(syn::Item::Impl(i)) => Some((match &*i.self_ty {
            syn::Type::Path(tp) => match tp.path.segments.last() {
                Some(seg) => ImplSelf::Named(seg.ident.to_string()),
                None => ImplSelf::EmptyPath,
            },
            _ => ImplSelf::Complex,
        }, i.items.iter().map(|it| it.to_token_stream().to_string()).collect())),
        _ => None,
    }
}

/// `syn::parse_str::<syn::ImplItem>`: the name, parameter texts and
/// statement texts of the function `text` is, or `None`.
#[verifier::external_body]
fn impl_fn_parts(text: &str) -> (r: Option<(String, Vec<String>, Vec<String>)>)
    ensures
        match impl_fn_view(text@) {
            Some((n, ps, b)) => r matches Some(t) && t.0@ == n && views(t.1@) == ps && views(t.2@) == b,
            None => r is None,
        },
{
    match syn::parse_str::<syn::ImplItem>(text) {
        Ok(syn::ImplItem::Fn(m)) => Some((
            m.sig.ident.to_string(),
            m.sig.inputs.iter().map(|a| a.to_token_stream().to_string()).collect(),
            m.block.stmts.iter().map(|s| s.to_token_stream().to_string()).collect(),
        )),
        _ => None,
    }
}

/// `syn::parse_str::<syn::FnArg>`: the parameter `text` is.
#[verifier::external_body]
fn param_of(text: &str) -> (r: FnParam)
    ensures
        match param_view(text@) {
            ParamView::Receiver => r is Receiver,
            ParamView::Named(n) => r matches FnParam::Named(x) && x@ == n,
            ParamView::Pattern => r is Pattern,
        },
{
    match syn::parse_str::<syn::FnArg>(text) {
        Ok(syn::FnArg::Receiver(_)) => FnParam::Receiver,
        Ok(syn::FnArg::Typed(pt)) => match &*pt.pat {
            syn::Pat::Ident(pi) => FnParam::Named(pi.ident.to_string()),
            _ => FnParam::Pattern,
        },
        Err(_) => FnParam::Pattern,
    }
}

/// The kind of a statement, with the parts of an expression statement.
pub enum StmtShape {
    Let,
    Expr(String, bool),
    Macro(String),
    Item,
}

/// `syn::Block::parse_within`: the kind of the statement `text` is, with
/// the source text and the semicolon of an expression statement and the
/// name of a macro.
#[verifier::external_body]
fn stmt_kind(text: &str) -> (r: StmtShape)
    ensures
        match stmt_view(text@) {
            StmtView::Let(..) => r is Let,
            StmtView::Expr(e, semi) => r matches StmtShape::Expr(x, b) && x@ == e && b == semi,
            StmtView::Macro(n) => r matches StmtShape::Macro(x) && x@ == n,
            StmtView::Item => r is Item,
        },
{
    match syn::Block::parse_within.parse_str(text).as_deref() {
        Ok([syn::Stmt::Local(_)]) => StmtShape::Let,
        Ok([syn::Stmt::Expr(e, semi)]) => StmtShape::Expr(e.to_token_stream().to_string(), semi.is_some()),
        Ok([syn::Stmt::Macro(m)]) => StmtShape::Macro(m.mac.path.segments.last().map(|p| p.ident.to_string()).unwrap_or_default()),
        _ => StmtShape::Item,
    }
}

/// `syn::Block::parse_within`: the pattern and the initializer's text of
/// the `let` statement `text` is, or `None`.
#[verifier::external_body]
fn let_parts(text: &str) -> (r: Option<(LetPattern, Option<String>)>)
    ensures
        match stmt_view(text@) {
            StmtView::Let(p, init) => r matches Some(t) && pat_view(t.0) == p && opt_view(t.1) == init,
            _ => r is None,
        },
{
    match syn::Block::parse_within.parse_str(text).as_deref() {
        Ok([syn::Stmt::Local(l)]) => Some((match &l.pat {
            syn::Pat::Ident(p) => LetPattern::Name(p.ident.to_string()),
            syn::Pat::Type(t) => match &*t.pat {
                syn::Pat::Ident(p) => LetPattern::Typed(p.ident.to_string(), l.pat.to_token_stream().to_string()),
                _ => LetPattern::Other(l.pat.to_token_stream().to_string()),
            },
            other => LetPattern::Other(other.to_token_stream().to_string()),
        }, l.init.as_ref().map(|i| i.expr.to_token_stream().to_string()))),
        _ => None,
    }
}

/// `syn::parse_str::<syn::Expr>`: the literal `text` is, as a plain value:
/// an integer that fits in an `i64` (else syn's message), the digits of a
/// float, a boolean, a string's value, or the source text of any other
/// literal. `None` for other expressions.
#[verifier::external_body]
fn expr_literal(text: &str) -> (r: Option<RustExpr>)
    ensures
        match expr_view(text@) {
            ExprView::Int(n) => r matches Some(RustExpr::Int(m)) && m == n,
            ExprView::BadInt(t) => r matches Some(RustExpr::BadInt(x)) && x@ == t,
            ExprView::Float(t) => r matches Some(RustExpr::Float(x)) && x@ == t,
            ExprView::Bool(b) => r matches Some(RustExpr::Bool(c)) && c == b,
            ExprView::Str(t) => r matches Some(RustExpr::Str(x)) && x@ == t,
            ExprView::OtherLit(t) => r matches Some(RustExpr::OtherLit(x)) && x@ == t,
            _ => r is None,
        },
{
    match syn::parse_str::<syn::Expr>(text) {
        Ok(syn::Expr::Lit(l)) => Some(match &l.lit {
            syn::Lit::Int(i) => match i.base10_parse::<i64>() {
                Ok(n) => RustExpr::Int(n),
                Err(e) => RustExpr::BadInt(e.to_string()),
            },
            syn::Lit::Float(f) => RustExpr::Float(f.base10_digits().to_string()),
            syn::Lit::Bool(b) => RustExpr::Bool(b.value),
            syn::Lit::Str(s) => RustExpr::Str(s.value()),
            other => RustExpr::OtherLit(other.to_token_stream().to_string()),
        }),
        _ => None,
    }
}

/// `syn::parse_str::<syn::Expr>`: the segments of the path `text` is, or
/// `None`.
#[verifier::external_body]
fn expr_path(text: &str) -> (r: Option<Vec<String>>)
    ensures
        match expr_view(text@) {
            ExprView::Path(segs) => r matches Some(v) && views(v@) == segs,
            _ => r is None,
        },
{
    match syn::parse_str::<syn::Expr>(text) {
        Ok(syn::Expr::Path(p)) => Some(p.path.segments.iter().map(|s| s.ident.to_string()).collect()),
        _ => None,
    }
}

/// `syn::parse_str::<syn::Expr>`: the text inside the parentheses `text`
/// is, or `None`.
#[verifier::external_body]
fn expr_paren(text: &str) -> (r: Option<String>)
    ensures
        match expr_view(text@) {
            ExprView::Paren(i) => r matches Some(x) && x@ == i,
            _ => r is None,
        },
{
    match syn::parse_str::<syn::Expr>(text) {
        Ok(syn::Expr::Paren(p)) => Some(p.expr.to_token_stream().to_string()),
        _ => None,
    }
}

/// `syn::parse_str::<syn::Expr>`: the operands' texts and the operator's
/// token of the binary operation `text` is, or `None`.
#[verifier::external_body]
fn expr_binary(text: &str) -> (r: Option<(String, String, String)>)
    ensures
        match expr_view(text@) {
            ExprView::Binary(l, o, rt) => r matches Some(t) && t.0@ == l && t.1@ == o && t.2@ == rt,
            _ => r is None,
        },
{
    match syn::parse_str::<syn::Expr>(text) {
        Ok(syn::Expr::Binary(b)) => Some((b.left.to_token_stream().to_string(), b.op.to_token_stream().to_string(), b.right.to_token_stream().to_string())),
        _ => None,
    }
}

/// `syn::parse_str::<syn::Expr>`: the elements' texts of the array `text`
/// is, or `None`.
#[verifier::external_body]
fn expr_array(text: &str) -> (r: Option<Vec<String>>)
    ensures
        match expr_view(text@) {
            ExprView::Array(ts) => r matches Some(v) && views(v@) == ts,
            _ => r is None,
        },
{
    match syn::parse_str::<syn::Expr>(text) {
        Ok(syn::Expr::Array(a)) => Some(a.elems.iter().map(|e| e.to_token_stream().to_string()).collect()),
        _ => None,
    }
}

/// `syn::parse_str::<syn::Expr>`: the elements' texts of the tuple `text`
/// is, or `None`.
#[verifier::external_body]
fn expr_tuple(text: &str) -> (r: Option<Vec<String>>)
    ensures
        match expr_view(text@) {
            ExprView::Tuple(ts) => r matches Some(v) && views(v@) == ts,
            _ => r is None,
        },
{
    match syn::parse_str::<syn::Expr>(text) {
        Ok(syn::Expr::Tuple(t)) => Some(t.elems.iter().map(|e| e.to_token_stream().to_string()).collect()),
        _ => None,
    }
}

/// `syn::parse_str::<syn::Expr>`: the callee's and the arguments' texts of
/// the call `text` is, or `None`.
#[verifier::external_body]
fn expr_call(text: &str) -> (r: Option<(String, Vec<String>)>)
    ensures
        match expr_view(text@) {
            ExprView::Call(f, ts) => r matches Some(t) && t.0@ == f && views(t.1@) == ts,
            _ => r is None,
        },
{
    match syn::parse_str::<syn::Expr>(text) {
        Ok(syn::Expr::Call(c)) => Some((c.func.to_token_stream().to_string(), c.args.iter().map(|e| e.to_token_stream().to_string()).collect())),
        _ => None,
    }
}

/// `syn::parse_str::<syn::Expr>`: the receiver's text, the method's name
/// and the arguments' texts of the method call `text` is, or `None`.
#[verifier::external_body]
fn expr_method_call(text: &str) -> (r: Option<(String, String, Vec<String>)>)
    ensures
        match expr_view(text@) {
            ExprView::MethodCall(rc, m, ts) => r matches Some(t) && t.0@ == rc && t.1@ == m && views(t.2@) == ts,
            _ => r is None,
        },
{
    match syn::parse_str::<syn::Expr>(text) {
        Ok(syn::Expr::MethodCall(c)) => Some((c.receiver.to_token_stream().to_string(), c.method.to_string(), c.args.iter().map(|e| e.to_token_stream().to_string()).collect())),
        _ => None,
    }
}

/// `syn::parse_str::<syn::Expr>`: the condition's text, the first branch's
/// statement texts and the text after `else` of the `if` that `text` is,
/// or `None`.
#[verifier::external_body]
fn expr_if(text: &str) -> (r: Option<(String, Vec<String>, Option<String>)>)
    ensures
        match expr_view(text@) {
            ExprView::If(c, ss, el) => r matches Some(t) && t.0@ == c && views(t.1@) == ss && opt_view(t.2) == el,
            _ => r is None,
        },
{
    match syn::parse_str::<syn::Expr>(text) {
        Ok(syn::Expr::If(i)) => Some((
            i.cond.to_token_stream().to_string(),
            i.then_branch.stmts.iter().map(|s| s.to_token_stream().to_string()).collect(),
            i.else_branch.as_ref().map(|b| b.1.to_token_stream().to_string()),
        )),
        _ => None,
    }
}

/// `syn::parse_str::<syn::Expr>`: the statement texts of the block `text`
/// is, or `None`.
#[verifier::external_body]
fn expr_block(text: &str) -> (r: Option<Vec<String>>)
    ensures
        match expr_view(text@) {
            ExprView::Block(ss) => r matches Some(v) && views(v@) == ss,
            _ => r is None,
        },
{
    match syn::parse_str::<syn::Expr>(text) {
        Ok(syn::Expr::Block(b)) => Some(b.block.stmts.iter().map(|s| s.to_token_stream().to_string()).collect()),
        _ => None,
    }
}

/// `syn::parse_str::<syn::Expr>`: the two sides' texts of the assignment
/// `text` is, or `None`.
#[verifier::external_body]
fn expr_assign(text: &str) -> (r: Option<(String, String)>)
    ensures
        match expr_view(text@) {
            ExprView::Assign(l, rt) => r matches Some(t) && t.0@ == l && t.1@ == rt,
            _ => r is None,
        },
{
    match syn::parse_str::<syn::Expr>(text) {
        Ok(syn::Expr::Assign(a)) => Some((a.left.to_token_stream().to_string(), a.right.to_token_stream().to_string())),
        _ => None,
    }
}

/// `syn::parse_str::<syn::Expr>`: the value's text of the `return` that
/// `text` is (`Some(None)` without one), or `None`.
#[verifier::external_body]
fn expr_return(text: &str) -> (r: Option<Option<String>>)
    ensures
        match expr_view(text@) {
            ExprView::Return(v) => r matches Some(o) && opt_view(o) == v,
            _ => r is None,
        },
{
    match syn::parse_str::<syn::Expr>(text) {
        Ok(syn::Expr::Return(rt)) => Some(rt.expr.as_ref().map(|v| v.to_token_stream().to_string())),
        _ => None,
    }
}

/// Whether `e` is what the expression text `text` reads as, `fuel` levels
/// deep: each kind with its parts read from their texts, a kind the model
/// does not hold as `Unsupported` with its text.
pub open spec fn expr_reads(text: Seq<char>, fuel: nat, e: RustExpr) -> bool
    decreases fuel, 0nat,
{
    if fuel == 0 {
        e matches RustExpr::Unsupported(t) && t@ == text
    } else {
        let f = (fuel - 1) as nat;
        match expr_view(text) {
            ExprView::Int(n) => e matches RustExpr::Int(m) && m == n,
            ExprView::BadInt(t) => e matches RustExpr::BadInt(x) && x@ == t,
            ExprView::Float(t) => e matches RustExpr::Float(x) && x@ == t,
            ExprView::Bool(b) => e matches RustExpr::Bool(c) && c == b,
            ExprView::Str(t) => e matches RustExpr::Str(x) && x@ == t,
            ExprView::OtherLit(t) => e matches RustExpr::OtherLit(x) && x@ == t,
            ExprView::Path(segs) => e matches RustExpr::Path(xs, src) && views(xs@) == segs && src@ == text,
            ExprView::Paren(i) => e matches RustExpr::Paren(x, src) && src@ == text && expr_reads(i, f, *x),
            ExprView::Binary(l, o, r) => e matches RustExpr::Binary(x, op, y) && op@ == o && expr_reads(l, f, *x)
                && expr_reads(r, f, *y),
            ExprView::Array(ts) => e matches RustExpr::Array(xs) && exprs_reads(ts, f, xs@),
            ExprView::Tuple(ts) => e matches RustExpr::Tuple(xs) && exprs_reads(ts, f, xs@),
            ExprView::Call(c, ts) => e matches RustExpr::Call(x, xs) && expr_reads(c, f, *x) && exprs_reads(
                ts,
                f,
                xs@,
            ),
            ExprView::MethodCall(rc, m, ts) => e matches RustExpr::MethodCall(x, mm, xs, src) && mm@ == m
                && src@ == text && expr_reads(rc, f, *x) && exprs_reads(ts, f, xs@),
            ExprView::If(c, ss, el) => e matches RustExpr::If(x, st, ee, src) && src@ == text && expr_reads(
                c,
                f,
                *x,
            ) && stmts_reads(ss, f, st@) && match el {
                None => ee is None,
                Some(t) => ee matches Some(y) && expr_reads(t, f, *y),
            },
            ExprView::Block(ss) => e matches RustExpr::Block(st, src) && src@ == text && stmts_reads(ss, f, st@),
            ExprView::Assign(l, r) => e matches RustExpr::Assign(x, y, src) && src@ == text && expr_reads(l, f, *x)
                && expr_reads(r, f, *y),
            ExprView::Return(v) => e matches RustExpr::Return(x, src) && src@ == text && match v {
                None => x is None,
                Some(t) => x matches Some(y) && expr_reads(t, f, *y),
            },
            ExprView::Other => e matches RustExpr::Unsupported(t) && t@ == text,
        }
    }
}

/// Whether `es` are what the texts `ts` read as, one for one.
pub open spec fn exprs_reads(ts: Seq<Seq<char>>, fuel: nat, es: Seq<RustExpr>) -> bool
    decreases fuel, 1nat,
{
    es.len() == ts.len() && forall|i: int| 0 <= i < ts.len() ==> expr_reads(ts[i], fuel, #[trigger] es[i])
}

/// Whether `s` is what the statement text `text` reads as.
pub open spec fn stmt_reads(text: Seq<char>, fuel: nat, s: RustStmt) -> bool
    decreases fuel, 1nat,
{
    match stmt_view(text) {
        StmtView::Let(p, init) => s matches RustStmt::Let(lp, ie) && pat_view(lp) == p && match init {
            None => ie is None,
            Some(t) => ie matches Some(x) && expr_reads(t, fuel, x),
        },
        StmtView::Expr(t, semi) => s matches RustStmt::Expr(x, b) && b == semi && expr_reads(t, fuel, x),
        StmtView::Macro(n) => s matches RustStmt::Macro(x, src) && x@ == n && src@ == text,
        StmtView::Item => s matches RustStmt::Item(src) && src@ == text,
    }
}

/// Whether `ss` are what the texts `ts` read as, one for one.
pub open spec fn stmts_reads(ts: Seq<Seq<char>>, fuel: nat, ss: Seq<RustStmt>) -> bool
    decreases fuel, 2nat,
{
    ss.len() == ts.len() && forall|i: int| 0 <= i < ts.len() ==> stmt_reads(ts[i], fuel, #[trigger] ss[i])
}

/// Whether `p` is what the parameter text `text` reads as.
pub open spec fn param_reads(text: Seq<char>, p: FnParam) -> bool {
    match param_view(text) {
        ParamView::Receiver => p is Receiver,
        ParamView::Named(n) => p matches FnParam::Named(x) && x@ == n,
        ParamView::Pattern => p is Pattern,
    }
}

/// Whether `f` is the function of the given name, parameter texts and
/// statement texts.
pub open spec fn fn_reads(name: Seq<char>, ps: Seq<Seq<char>>, body: Seq<Seq<char>>, fuel: nat, f: RustFn) -> bool {
    &&& f.name@ == name
    &&& f.params@.len() == ps.len()
    &&& forall|i: int| 0 <= i < ps.len() ==> param_reads(ps[i], #[trigger] f.params@[i])
    &&& stmts_reads(body, fuel, f.body@)
}

/// Whether `ms` are the functions among the `impl` item texts `its`, in
/// order.
pub open spec fn methods_reads(its: Seq<Seq<char>>, fuel: nat, ms: Seq<RustFn>) -> bool
    decreases its.len(),
{
    if its.len() == 0 {
        ms.len() == 0
    } else {
        match impl_fn_view(its.last()) {
            Some((n, ps, b)) => ms.len() > 0 && methods_reads(its.drop_last(), fuel, ms.drop_last()) && fn_reads(
                n,
                ps,
                b,
                fuel,
                ms.last(),
            ),
            None => methods_reads(its.drop_last(), fuel, ms),
        }
    }
}

/// Whether `it` is what the item text `text` reads as.
pub open spec fn item_reads(text: Seq<char>, fuel: nat, it: RustItem) -> bool {
    match item_view(text) {
        ItemView::Fn(n, ps, b) => it matches RustItem::Fn(f) && fn_reads(n, ps, b, fuel, f),
        ItemView::Struct(n, fs) => it matches RustItem::Struct { name, fields } && name@ == n && opt_views(fields@)
            == fs,
        ItemView::Enum(n, vs) => it matches RustItem::Enum { name, variants } && name@ == n && variant_views(
            variants@,
        ) == vs,
        ItemView::Impl(st, its) => it matches RustItem::Impl { self_type, methods } && impl_self_view(self_type)
            == st && methods_reads(its, fuel, methods@),
        ItemView::Use => it is Use,
        ItemView::Mod => it is Mod,
        ItemView::Value(d, _) => it matches RustItem::Other(x) && x@ == d,
        ItemView::Other(d) => it matches RustItem::Other(x) && x@ == d,
    }
}

/// Whether `items` are what the item texts `ts` read as, one for one.
pub open spec fn items_reads(ts: Seq<Seq<char>>, fuel: nat, items: Seq<RustItem>) -> bool {
    items.len() == ts.len() && forall|i: int| 0 <= i < ts.len() ==> item_reads(ts[i], fuel, #[trigger] items[i])
}

/// How deep the reading of a source goes: as deep as the parsed source
/// does, as no source nests that deeply; the bound lets the reading be
/// shown to end.
pub open spec fn read_depth() -> nat {
    usize::MAX as nat
}

/// Whether `items` are what the source `src` reads as: `syn` parses it, and
/// each item is read from its text.
pub open spec fn source_items(src: Seq<char>, items: Seq<RustItem>) -> bool {
    rust_file(src) is Ok && items_reads(rust_file(src)->Ok_0, read_depth(), items)
}

/// Reads the expression text `text` as a plain value, `fuel` levels deep.
fn read_expr(text: &str, fuel: usize) -> (e: RustExpr)
    ensures
        expr_reads(text@, fuel as nat, e),
    decreases fuel, 0usize,
{
    if fuel == 0 {
        return RustExpr::Unsupported(String::from_str(text));
    }
    let f = fuel - 1;
    if let Some(lit) = expr_literal(text) {
        return lit;
    }
    if let Some(segs) = expr_path(text) {
        return RustExpr::Path(segs, String::from_str(text));
    }
    if let Some(inner) = expr_paren(text) {
        return RustExpr::Paren(Box::new(read_expr(inner.as_str(), f)), String::from_str(text));
    }
    if let Some((l, op, r)) = expr_binary(text) {
        let left = read_expr(l.as_str(), f);
        let right = read_expr(r.as_str(), f);
        return RustExpr::Binary(Box::new(left), op, Box::new(right));
    }
    if let Some(ts) = expr_array(text) {
        return RustExpr::Array(read_exprs(&ts, f));
    }
    if let Some(ts) = expr_tuple(text) {
        return RustExpr::Tuple(read_exprs(&ts, f));
    }
    if let Some((c, ts)) = expr_call(text) {
        let callee = read_expr(c.as_str(), f);
        return RustExpr::Call(Box::new(callee), read_exprs(&ts, f));
    }
    if let Some((rc, m, ts)) = expr_method_call(text) {
        let receiver = read_expr(rc.as_str(), f);
        return RustExpr::MethodCall(Box::new(receiver), m, read_exprs(&ts, f), String::from_str(text));
    }
    if let Some((c, ss, el)) = expr_if(text) {
        let cond = read_expr(c.as_str(), f);
        let then_stmts = read_stmts(&ss, f);
        let else_part = match el {
            Some(t) => Some(Box::new(read_expr(t.as_str(), f))),
            None => None,
        };
        return RustExpr::If(Box::new(cond), then_stmts, else_part, String::from_str(text));
    }
    if let Some(ss) = expr_block(text) {
        return RustExpr::Block(read_stmts(&ss, f), String::from_str(text));
    }
    if let Some((l, r)) = expr_assign(text) {
        let left = read_expr(l.as_str(), f);
        let right = read_expr(r.as_str(), f);
        return RustExpr::Assign(Box::new(left), Box::new(right), String::from_str(text));
    }
    if let Some(v) = expr_return(text) {
        let value = match v {
            Some(t) => Some(Box::new(read_expr(t.as_str(), f))),
            None => None,
        };
        return RustExpr::Return(value, String::from_str(text));
    }
    RustExpr::Unsupported(String::from_str(text))
}

/// Reads expression texts, one for one.
fn read_exprs(ts: &Vec<String>, fuel: usize) -> (r: Vec<RustExpr>)
    ensures
        exprs_reads(views(ts@), fuel as nat, r@),
    decreases fuel, 1usize,
{
    let mut out: Vec<RustExpr> = Vec::new();
    let mut i: usize = 0;
    while i < ts.len()
        invariant
            i <= ts.len(),
            out@.len() == i,
            forall|k: int| 0 <= k < i ==> expr_reads(views(ts@)[k], fuel as nat, #[trigger] out@[k]),
        decreases ts.len() - i,
    {
        let e = read_expr(ts[i].as_str(), fuel);
        out.push(e);
        i = i + 1;
    }
    out
}

/// Reads the statement text `text`.
fn read_stmt(text: &str, fuel: usize) -> (s: RustStmt)
    ensures
        stmt_reads(text@, fuel as nat, s),
    decreases fuel, 1usize,
{
    match stmt_kind(text) {
        StmtShape::Let => match let_parts(text) {
            Some((p, init)) => {
                let value = match init {
                    Some(t) => Some(read_expr(t.as_str(), fuel)),
                    None => None,
                };
                RustStmt::Let(p, value)
            },
            None => RustStmt::Item(String::from_str(text)),
        },
        StmtShape::Expr(t, semi) => RustStmt::Expr(read_expr(t.as_str(), fuel), semi),
        StmtShape::Macro(n) => RustStmt::Macro(n, String::from_str(text)),
        StmtShape::Item => RustStmt::Item(String::from_str(text)),
    }
}

/// Reads statement texts, one for one.
fn read_stmts(ts: &Vec<String>, fuel: usize) -> (r: Vec<RustStmt>)
    ensures
        stmts_reads(views(ts@), fuel as nat, r@),
    decreases fuel, 2usize,
{
    let mut out: Vec<RustStmt> = Vec::new();
    let mut i: usize = 0;
    while i < ts.len()
        invariant
            i <= ts.len(),
            out@.len() == i,
            forall|k: int| 0 <= k < i ==> stmt_reads(views(ts@)[k], fuel as nat, #[trigger] out@[k]),
        decreases ts.len() - i,
    {
        let st = read_stmt(ts[i].as_str(), fuel);
        out.push(st);
        i = i + 1;
    }
    out
}

/// Reads a function from its name, parameter texts and statement texts.
fn read_fn(name: String, ps: &Vec<String>, body: &Vec<String>, fuel: usize) -> (f: RustFn)
    ensures
        fn_reads(name@, views(ps@), views(body@), fuel as nat, f),
{
    let mut params: Vec<FnParam> = Vec::new();
    let mut i: usize = 0;
    while i < ps.len()
        invariant
            i <= ps.len(),
            params@.len() == i,
            forall|k: int| 0 <= k < i ==> param_reads(views(ps@)[k], #[trigger] params@[k]),
        decreases ps.len() - i,
    {
        params.push(param_of(ps[i].as_str()));
        i = i + 1;
    }
    RustFn { name, params, body: read_stmts(body, fuel) }
}

/// Reads the functions among the items of an `impl` block.
fn read_methods(its: &Vec<String>, fuel: usize) -> (r: Vec<RustFn>)
    ensures
        methods_reads(views(its@), fuel as nat, r@),
{
    let mut out: Vec<RustFn> = Vec::new();
    let mut i: usize = 0;
    while i < its.len()
        invariant
            i <= its.len(),
            methods_reads(views(its@).take(i as int), fuel as nat, out@),
        decreases its.len() - i,
    {
        proof {
            assert(views(its@).take(i + 1).drop_last() =~= views(its@).take(i as int));
            assert(views(its@).take(i + 1).last() == its@[i as int]@);
        }
        match impl_fn_parts(its[i].as_str()) {
            Some((n, ps, b)) => {
                let f = read_fn(n, &ps, &b, fuel);
                let ghost before = out@;
                out.push(f);
                proof {
                    assert(out@.drop_last() =~= before);
                }
            },
            None => {},
        }
        i = i + 1;
    }
    proof {
        assert(views(its@).take(its@.len() as int) =~= views(its@));
    }
    out
}

/// Reads the item text `text`.
fn read_item(text: &str, fuel: usize) -> (it: RustItem)
    ensures
        item_reads(text@, fuel as nat, it),
{
    match item_tag(text) {
        ItemTag::Fn => match fn_item_parts(text) {
            Some((n, ps, b)) => RustItem::Fn(read_fn(n, &ps, &b, fuel)),
            None => RustItem::Use,
        },
        ItemTag::Struct => match struct_item_parts(text) {
            Some((name, fields)) => RustItem::Struct { name, fields },
            None => RustItem::Use,
        },
        ItemTag::Enum => match enum_item_parts(text) {
            Some((name, variants)) => RustItem::Enum { name, variants },
            None => RustItem::Use,
        },
        ItemTag::Impl => match impl_item_parts(text) {
            Some((self_type, its)) => RustItem::Impl { self_type, methods: read_methods(&its, fuel) },
            None => RustItem::Use,
        },
        ItemTag::Use => RustItem::Use,
        ItemTag::Mod => RustItem::Mod,
        ItemTag::Other(d) => RustItem::Other(d),
    }
}

/// Parses the Rust source `src` and reads its items as plain values, or
/// gives the message of the syntax error.
pub fn read_source(src: &str) -> (r: Result<Vec<RustItem>, String>)
    ensures
        match r {
            Ok(v) => source_items(src@, v@),
            Err(m) => rust_file(src@) == Err::<Seq<Seq<char>>, Seq<char>>(m@),
        },
{
    let texts = match file_item_texts(src) {
        Ok(ts) => ts,
        Err(m) => {
            return Err(m);
        },
    };
    let mut out: Vec<RustItem> = Vec::new();
    let mut i: usize = 0;
    while i < texts.len()
        invariant
            i <= texts.len(),
            out@.len() == i,
            forall|k: int| 0 <= k < i ==> item_reads(views(texts@)[k], read_depth(), #[trigger] out@[k]),
        decreases texts.len() - i,
    {
        out.push(read_item(texts[i].as_str(), usize::MAX));
        i = i + 1;
    }
    Ok(out)
}

/// `syn::parse_str::<syn::Item>`: the text of the value of the `const` or
/// `static` item `text` is, or `None`.
#[verifier::external_body]
fn value_item_expr(text: &str) -> (r: Option<String>)
    ensures
        match item_view(text@) {
            ItemView::Value(_, e) => r matches Some(x) && x@ == e,
            _ => r is None,
        },
{
    match syn::parse_str::<syn::Item>(text) {
        Ok(syn::Item::Const(c)) => Some(c.expr.to_token_stream().to_string()),
        Ok(syn::Item::Static(st)) => Some(st.expr.to_token_stream().to_string()),
        _ => None,
    }
}

/// A member of an `impl` block: a function, or any other item with its
/// source text.
pub enum ImplMember {
    Method(RustFn),
    Other(String),
}

/// Whether `ms` are the members the `impl` item texts `its` read as, one
/// for one.
pub open spec fn members_reads(its: Seq<Seq<char>>, fuel: nat, ms: Seq<ImplMember>) -> bool {
    &&& ms.len() == its.len()
    &&& forall|i: int|
        0 <= i < its.len() ==> match impl_fn_view(its[i]) {
            Some((n, ps, b)) => #[trigger] ms[i] matches ImplMember::Method(f) && fn_reads(n, ps, b, fuel, f),
            None => ms[i] matches ImplMember::Other(t) && t@ == its[i],
        }
}

/// What the item text `text` is, for turning into nodes.
pub enum ItemParts {
    Fn(RustFn),
    Struct(String, Vec<Option<String>>),
    Impl(Vec<ImplMember>),
    Value(RustExpr),
    Other(String),
}

/// Whether `p` is what the item text `text` reads as, for turning into
/// nodes: functions, structs, `impl` blocks by member, `const` and `static`
/// values; other items by their source text.
pub open spec fn parts_reads(text: Seq<char>, fuel: nat, p: ItemParts) -> bool {
    match item_view(text) {
        ItemView::Fn(n, ps, b) => p matches ItemParts::Fn(f) && fn_reads(n, ps, b, fuel, f),
        ItemView::Struct(n, fs) => p matches ItemParts::Struct(name, fields) && name@ == n && opt_views(fields@) == fs,
        ItemView::Impl(_, its) => p matches ItemParts::Impl(ms) && members_reads(its, fuel, ms@),
        ItemView::Value(_, e) => p matches ItemParts::Value(x) && expr_reads(e, fuel, x),
        _ => p matches ItemParts::Other(t) && t@ == text,
    }
}

/// Reads the members of an `impl` block.
fn read_members(its: &Vec<String>, fuel: usize) -> (r: Vec<ImplMember>)
    ensures
        members_reads(views(its@), fuel as nat, r@),
{
    let mut out: Vec<ImplMember> = Vec::new();
    let mut i: usize = 0;
    while i < its.len()
        invariant
            i <= its.len(),
            out@.len() == i,
            forall|k: int|
                0 <= k < i ==> match impl_fn_view(views(its@)[k]) {
                    Some((n, ps, b)) => #[trigger] out@[k] matches ImplMember::Method(f) && fn_reads(n, ps, b, fuel as nat, f),
                    None => out@[k] matches ImplMember::Other(t) && t@ == views(its@)[k],
                },
        decreases its.len() - i,
    {
        let m = match impl_fn_parts(its[i].as_str()) {
            Some((n, ps, b)) => ImplMember::Method(read_fn(n, &ps, &b, fuel)),
            None => ImplMember::Other(its[i].clone()),
        };
        out.push(m);
        i = i + 1;
    }
    out
}

/// Reads the item text `text` for turning into nodes.
pub(crate) fn read_parts(text: &str) -> (r: ItemParts)
    ensures
        parts_reads(text@, read_depth(), r),
{
    if let Some((n, ps, b)) = fn_item_parts(text) {
        return ItemParts::Fn(read_fn(n, &ps, &b, usize::MAX));
    }
    if let Some((name, fields)) = struct_item_parts(text) {
        return ItemParts::Struct(name, fields);
    }
    if let Some((_, its)) = impl_item_parts(text) {
        return ItemParts::Impl(read_members(&its, usize::MAX));
    }
    if let Some(e) = value_item_expr(text) {
        return ItemParts::Value(read_expr(e.as_str(), usize::MAX));
    }
    ItemParts::Other(String::from_str(text))
}

} // verus!

//! The Luau syntax tree the compiler produces, and its printer.

use vstd::prelude::*;

pub mod generator;
pub mod optimizer;
pub mod validate;

verus! {

/// A Luau program: its top-level statements.
pub struct LuauAst {
    /// Top-level statements in the AST
    pub statements: Vec<LuauStmt>,
}

/// A Luau statement.
pub enum LuauStmt {
    /// A local variable declaration: `local x = y`
    LocalAssign(Vec<String>, Vec<LuauExpr>),
    /// A global variable assignment: `x = y`
    GlobalAssign(Vec<String>, Vec<LuauExpr>),
    /// A function declaration: `function name(params) body end`
    FunctionDecl(LuauFunction),
    /// A return statement: `return expr`
    Return(Option<LuauExpr>),
    /// An if statement: `if cond then body else else_body end`
    If { condition: LuauExpr, then_block: Vec<LuauStmt>, else_block: Option<Vec<LuauStmt>> },
    /// A while loop: `while cond do body end`
    While { condition: LuauExpr, body: Vec<LuauStmt> },
    /// A numeric for loop: `for var = start, end, step do body end`
    For {
        var: String,
        start: LuauExpr,
        end: LuauExpr,
        step: Option<LuauExpr>,
        body: Vec<LuauStmt>,
    },
    /// A generic for loop: `for k, v in pairs(table) do body end`
    ForIn { vars: Vec<String>, iterators: Vec<LuauExpr>, body: Vec<LuauStmt> },
    /// A comment: `-- comment`
    Comment(String),
    /// A statement written out verbatim
    Raw(String),
}

/// A Luau expression.
pub enum LuauExpr {
    /// A string literal: `"hello"`
    String(String),
    /// An integer literal: `42`
    Number(i64),
    /// `true` or `false`
    Boolean(bool),
    /// `nil`
    Nil,
    /// A variable reference: `foo`
    Variable(String),
    /// A table constructor: `{ foo = bar, [1] = baz }`
    Table(LuauTable),
    /// A call: `foo(arg1, arg2)`
    Call { func: Box<LuauExpr>, args: Vec<LuauExpr> },
    /// A binary operation: `a + b`
    BinaryOp { left: Box<LuauExpr>, op: String, right: Box<LuauExpr> },
    /// A unary operation: `-a` or `not a`
    UnaryOp { op: String, expr: Box<LuauExpr> },
    /// An index: `tbl[expr]` or `tbl.key`
    Index { table: Box<LuauExpr>, key: Box<LuauExpr> },
    /// An anonymous function: `function(params) body end`
    Function(LuauFunction),
    /// A parenthesized expression: `(expr)`
    Paren(Box<LuauExpr>),
    /// An expression written out verbatim
    Raw(String),
}

/// A Luau function definition.
pub struct LuauFunction {
    /// Function name, if any
    pub name: Option<String>,
    /// Function parameters
    pub params: Vec<String>,
    /// Function body
    pub body: Vec<LuauStmt>,
    /// Whether the function is variadic
    pub is_variadic: bool,
}

/// A Luau table constructor: positional items, then keyed fields in the
/// order their keys were first added.
pub struct LuauTable {
    /// Fields with string keys
    pub fields: Vec<(String, LuauExpr)>,
    /// Positional items
    pub array_items: Vec<LuauExpr>,
}

/// The index of the first field of `fields` whose key reads `key`, if any.
pub open spec fn field_index(fields: Seq<(String, LuauExpr)>, key: Seq<char>) -> Option<int>
    decreases fields.len(),
{
    if fields.len() == 0 {
        None
    } else {
        match field_index(fields.drop_last(), key) {
            Some(i) => Some(i),
            None => if fields.last().0@ == key {
                Some(fields.len() - 1)
            } else {
                None
            },
        }
    }
}

impl LuauAst {
    /// Create a new empty AST
    pub fn new() -> (r: Self)
        ensures
            r.statements@.len() == 0,
    {
        LuauAst { statements: Vec::new() }
    }

    /// Add a statement to the AST
    pub fn add_stmt(&mut self, stmt: LuauStmt)
        ensures
            final(self).statements@ == old(self).statements@.push(stmt),
    {
        self.statements.push(stmt);
    }
}

impl LuauFunction {
    /// Create a new named function
    pub fn new(name: String) -> (r: Self)
        ensures
            r.name == Some(name),
            r.params@.len() == 0,
            r.body@.len() == 0,
            !r.is_variadic,
    {
        LuauFunction { name: Some(name), params: Vec::new(), body: Vec::new(), is_variadic: false }
    }

    /// Create a new anonymous function
    pub fn anonymous() -> (r: Self)
        ensures
            r.name is None,
            r.params@.len() == 0,
            r.body@.len() == 0,
            !r.is_variadic,
    {
        LuauFunction { name: None, params: Vec::new(), body: Vec::new(), is_variadic: false }
    }

    /// Add a parameter to the function
    pub fn add_param(&mut self, param: String)
        ensures
            final(self).params@ == old(self).params@.push(param),
            final(self).name == old(self).name,
            final(self).body == old(self).body,
            final(self).is_variadic == old(self).is_variadic,
    {
        self.params.push(param);
    }

    /// Set the function body
    pub fn set_body(&mut self, body: Vec<LuauStmt>)
        ensures
            final(self).body == body,
            final(self).name == old(self).name,
            final(self).params == old(self).params,
            final(self).is_variadic == old(self).is_variadic,
    {
        self.body = body;
    }

    /// Make the function variadic
    pub fn make_variadic(&mut self)
        ensures
            final(self).is_variadic,
            final(self).name == old(self).name,
            final(self).params == old(self).params,
            final(self).body == old(self).body,
    {
        self.is_variadic = true;
    }
}

impl LuauTable {
    /// Create a new empty table
    pub fn new() -> (r: Self)
        ensures
            r.fields@.len() == 0,
            r.array_items@.len() == 0,
    {
        LuauTable { fields: Vec::new(), array_items: Vec::new() }
    }

    /// Set the field `key` to `value`: a key already present keeps its place
    /// and takes the new value, a new key goes last.
    pub fn add_field(&mut self, key: String, value: LuauExpr)
        ensures
            final(self).array_items == old(self).array_items,
            match field_index(old(self).fields@, key@) {
                Some(i) => final(self).fields@ == old(self).fields@.update(i, (key, value)),
                None => final(self).fields@ == old(self).fields@.push((key, value)),
            },
    {
        let mut i: usize = 0;
        while i < self.fields.len()
            invariant
                i <= self.fields@.len(),
                *self == *old(self),
                field_index(self.fields@.take(i as int), key@) is None,
            decreases self.fields@.len() - i,
        {
            proof {
                assert(self.fields@.take(i + 1).drop_last() =~= self.fields@.take(i as int));
            }
            if self.fields[i].0 == key {
                proof {
                    assert(field_index(self.fields@.take(i + 1), key@) == Some(i as int));
                    lemma_field_index_prefix(self.fields@, i as int + 1, key@);
                }
                self.fields.set(i, (key, value));
                return;
            }
            i = i + 1;
        }
        proof {
            assert(self.fields@.take(self.fields@.len() as int) =~= self.fields@);
        }
        self.fields.push((key, value));
    }

    /// Add a positional item
    pub fn add_array_item(&mut self, value: LuauExpr)
        ensures
            final(self).fields == old(self).fields,
            final(self).array_items@ == old(self).array_items@.push(value),
    {
        self.array_items.push(value);
    }
}

/// A key found within a prefix is found at the same place in the whole.
proof fn lemma_field_index_prefix(fields: Seq<(String, LuauExpr)>, n: int, key: Seq<char>)
    requires
        0 <= n <= fields.len(),
        field_index(fields.take(n), key) is Some,
    ensures
        field_index(fields, key) == field_index(fields.take(n), key),
    decreases fields.len(),
{
    if n < fields.len() {
        assert(fields.drop_last().take(n) =~= fields.take(n));
        lemma_field_index_prefix(fields.drop_last(), n, key);
    } else {
        assert(fields.take(n) =~= fields);
    }
}

} // verus!

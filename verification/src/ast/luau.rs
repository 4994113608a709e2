//! The Luau node tree with the type annotations and optimization hints the
//! optimization passes and the debugger read and write.

use vstd::prelude::*;

verus! {

/// Represents a Luau AST node
#[derive(Debug)]
pub enum LuauNode {
    Program(Program),
    Function(Box<Function>),
    Table(Table),
    Buffer(Buffer),
    Binary { left: Box<LuauNode>, op: String, right: Box<LuauNode> },
    Identifier(String),
    Block(Vec<LuauNode>),
    Return(Box<LuauNode>),
    Local { name: String, value: Box<LuauNode> },
    If { condition: Box<LuauNode>, then_branch: Box<LuauNode>, else_branch: Option<Box<LuauNode>> },
    /// A number literal (integers only here)
    Number(i64),
    String(String),
    Boolean(bool),
    Var(String),
    Call { func: Box<LuauNode>, args: Vec<LuauNode> },
    Literal(LuauValue),
    BinaryExpr { left: Box<LuauNode>, op: BinaryOp, right: Box<LuauNode> },
}

/// A Luau value.
#[derive(Debug, Clone)]
pub enum LuauValue {
    /// A nil value.
    Nil,
    /// A boolean value.
    Bool(bool),
    /// A number value (integers only here).
    Number(i64),
    /// A string value.
    String(String),
}

/// A binary operator.
#[derive(Debug, Clone, Copy, PartialEq, Eq, Structural)]
pub enum BinaryOp {
    /// Addition.
    Add,
    /// Subtraction.
    Sub,
    /// Multiplication.
    Mul,
    /// Division.
    Div,
    /// Modulo.
    Mod,
    /// Equality.
    Eq,
    /// Inequality.
    Ne,
    /// Less than.
    Lt,
    /// Less than or equal.
    Le,
    /// Greater than.
    Gt,
    /// Greater than or equal.
    Ge,
    /// Logical and.
    And,
    /// Logical or.
    Or,
}

/// Top-level program node
#[derive(Debug)]
pub struct Program {
    pub body: Vec<LuauNode>,
    /// Type annotations by name, each name once
    pub type_annotations: Vec<(String, TypeAnnotation)>,
}

/// Function declaration
#[derive(Debug)]
pub struct Function {
    pub name: String,
    pub params: Vec<Parameter>,
    pub return_type: Option<TypeAnnotation>,
    pub body: Box<LuauNode>,
}

/// Table declaration with optimization hints
#[derive(Debug)]
pub struct Table {
    pub fields: Vec<(String, LuauNode)>,
    pub optimization_hints: TableOptimizationHints,
}

/// Buffer-specific node with optimization settings
#[derive(Debug)]
pub struct Buffer {
    pub initial_size: usize,
    pub element_type: TypeAnnotation,
    pub optimization_level: BufferOptimizationLevel,
}

/// Parameter in function declaration
#[derive(Debug)]
pub struct Parameter {
    pub name: String,
    pub type_annotation: Option<TypeAnnotation>,
}

/// Type annotation with Luau-specific features
#[derive(Debug)]
pub enum TypeAnnotation {
    Number,
    String,
    Boolean,
    Any,
    Custom(String),
    Primitive(PrimitiveType),
    Table(Box<TableType>),
    Buffer(Box<BufferType>),
    Function(Box<FunctionType>),
}

/// Table optimization hints
#[derive(Debug, Clone)]
pub struct TableOptimizationHints {
    pub pre_allocate: Option<usize>,
    pub array_like: bool,
    pub stable_keys: bool,
    /// For conversion to Roblox types like Vector3, CFrame, Color3, etc.
    pub native_buffer_type: Option<String>,
    /// Whether this table should be reused (for loop optimization)
    pub table_reuse: bool,
}

/// Buffer optimization levels
#[derive(Debug, Clone, Copy)]
pub enum BufferOptimizationLevel {
    Default,
    Speed,
    Size,
}

/// Primitive Luau types.
#[derive(Debug, Clone)]
pub enum PrimitiveType {
    Number,
    String,
    Boolean,
    Nil,
}

/// The type of a table: its fields' types by name, each name once.
#[derive(Debug)]
pub struct TableType {
    pub fields: Vec<(String, TypeAnnotation)>,
    pub is_array: bool,
}

/// The type of a buffer.
#[derive(Debug)]
pub struct BufferType {
    pub element_type: Box<TypeAnnotation>,
    pub fixed_size: Option<usize>,
}

/// The type of a function.
#[derive(Debug)]
pub struct FunctionType {
    pub params: Vec<TypeAnnotation>,
    pub return_type: Box<TypeAnnotation>,
}

/// Metadata about the AST.
#[derive(Debug, Clone)]
pub struct AstMetadata {
    /// The source file the AST was parsed from.
    pub source_file: Option<String>,
    /// Whether the AST has been optimized.
    pub optimized: bool,
}

/// The name of a primitive type as written in its debug form.
pub open spec fn primitive_name(p: PrimitiveType) -> Seq<char> {
    match p {
        PrimitiveType::Number => "Number"@,
        PrimitiveType::String => "String"@,
        PrimitiveType::Boolean => "Boolean"@,
        PrimitiveType::Nil => "Nil"@,
    }
}

/// How a type annotation is written.
pub open spec fn annotation_text(t: TypeAnnotation) -> Seq<char> {
    match t {
        TypeAnnotation::Number => "number"@,
        TypeAnnotation::String => "string"@,
        TypeAnnotation::Boolean => "boolean"@,
        TypeAnnotation::Any => "any"@,
        TypeAnnotation::Custom(name) => name@,
        TypeAnnotation::Primitive(p) => primitive_name(p),
        TypeAnnotation::Table(_) => "table"@,
        TypeAnnotation::Buffer(_) => "buffer"@,
        TypeAnnotation::Function(_) => "function"@,
    }
}

/// How a parameter is written: its name, then `: ` and its type where it
/// has one.
pub open spec fn parameter_text(p: Parameter) -> Seq<char> {
    match p.type_annotation {
        Some(t) => p.name@ + ": "@ + annotation_text(t),
        None => p.name@,
    }
}

impl TypeAnnotation {
    /// How the annotation is written.
    pub fn to_text(&self) -> (r: String)
        ensures
            r@ == annotation_text(*self),
    {
        match self {
            TypeAnnotation::Number => String::from_str("number"),
            TypeAnnotation::String => String::from_str("string"),
            TypeAnnotation::Boolean => String::from_str("boolean"),
            TypeAnnotation::Any => String::from_str("any"),
            TypeAnnotation::Custom(name) => name.clone(),
            TypeAnnotation::Primitive(p) => match p {
                PrimitiveType::Number => String::from_str("Number"),
                PrimitiveType::String => String::from_str("String"),
                PrimitiveType::Boolean => String::from_str("Boolean"),
                PrimitiveType::Nil => String::from_str("Nil"),
            },
            TypeAnnotation::Table(_) => String::from_str("table"),
            TypeAnnotation::Buffer(_) => String::from_str("buffer"),
            TypeAnnotation::Function(_) => String::from_str("function"),
        }
    }
}

impl Parameter {
    /// How the parameter is written.
    pub fn to_text(&self) -> (r: String)
        ensures
            r@ == parameter_text(*self),
    {
        let mut r = self.name.clone();
        match &self.type_annotation {
            Some(t) => {
                r.append(": ");
                r.append(t.to_text().as_str());
            },
            None => {},
        }
        r
    }
}

impl Default for TypeAnnotation {
    fn default() -> (r: Self)
        ensures
            r == TypeAnnotation::Primitive(PrimitiveType::Nil),
    {
        TypeAnnotation::Primitive(PrimitiveType::default())
    }
}

impl Default for TableOptimizationHints {
    fn default() -> (r: Self)
        ensures
            r.pre_allocate is None,
            !r.array_like,
            !r.stable_keys,
            r.native_buffer_type is None,
            !r.table_reuse,
    {
        TableOptimizationHints {
            pre_allocate: None,
            array_like: false,
            stable_keys: false,
            native_buffer_type: None,
            table_reuse: false,
        }
    }
}

impl Default for BufferOptimizationLevel {
    fn default() -> (r: Self)
        ensures
            r == BufferOptimizationLevel::Default,
    {
        BufferOptimizationLevel::Default
    }
}

impl Default for PrimitiveType {
    fn default() -> (r: Self)
        ensures
            r == PrimitiveType::Nil,
    {
        PrimitiveType::Nil
    }
}

} // verus!

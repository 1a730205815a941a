//! The abstract syntax tree: the data model every other component reads.
//!
//! The AST is produced by a parser (an external collaborator) and is read-only
//! during lowering.  Numeric literals are stored as the IEEE-754 bit pattern
//! of the 64-bit value so that the tree itself carries only plain integers;
//! the boundary that builds the tree converts from the written literal.

use vstd::prelude::*;

verus! {

/// A source-level primitive type.  `Integer` and `Float` carry their bit
/// width; only widths 32 and 64 are implemented, and every consumer of a
/// width must reject any other value rather than round it silently.
#[derive(Debug, Clone, Copy, PartialEq, Eq, Structural)]
pub enum Type {
    Integer(i32),
    Float(i32),
    String,
    Boolean,
}

/// A binary operator.  Each is a pure two-operand operator; which instruction
/// family it lowers to (integer, float, boolean) is decided by the operand
/// type at lowering time, not by the operator itself.
#[derive(Debug, Clone, Copy, PartialEq, Eq, Structural)]
pub enum Opcode {
    Mul,
    Div,
    Add,
    Sub,
    Rem,
    Eq,
    NotEq,
    LessThan,
    GreaterThan,
    LessEqual,
    GreaterEqual,
    Or,
    And,
}

/// An expression tree.  `Number` holds the IEEE-754 bit pattern of a 64-bit
/// float literal (numeric literals always lower to 64-bit float constants).
#[derive(Debug)]
pub enum Expr {
    Number(u64),
    Identifier(String),
    Boolean(bool),
    String(String),
    Op(Box<Expr>, Opcode, Box<Expr>),
    FunctionCall(String, Vec<Box<Expr>>),
}

/// An ordered sequence of owned statements: a function or `if` body.
pub type Block = Vec<Box<Statement>>;

/// A statement.  `Let` carries the optional source spelling of the declared
/// type (resolved during lowering), the binding name, and the initializer.
/// `Function` carries the name, the optional parameter list of (type, name)
/// pairs, the optional return type, and the body.
#[derive(Debug)]
pub enum Statement {
    Let(Option<String>, String, Box<Expr>),
    Function(String, Option<Vec<(Type, String)>>, Option<Type>, Block),
    Return(Option<Box<Expr>>),
    Expression(Box<Expr>),
    If(Box<Expr>, Block),
}

/// The type denoted by a source annotation, or `None` when the spelling is
/// not one of the recognized annotations.
pub open spec fn resolve_spec(s: Seq<char>) -> Option<Type> {
    if s == "int"@ || s == "int32"@ {
        Option::Some(Type::Integer(32))
    } else if s == "int64"@ {
        Option::Some(Type::Integer(64))
    } else if s == "float"@ || s == "float32"@ {
        Option::Some(Type::Float(32))
    } else if s == "float64"@ {
        Option::Some(Type::Float(64))
    } else if s == "string"@ {
        Option::Some(Type::String)
    } else if s == "bool"@ {
        Option::Some(Type::Boolean)
    } else {
        Option::None
    }
}

impl Type {
    /// Maps a source type annotation to its primitive type: `int`/`int32`,
    /// `int64`, `float`/`float32`, `float64`, `string` and `bool` are
    /// recognized; every other spelling yields `None`, which callers must
    /// treat as a fatal unresolved-type error.
    pub fn from_string(typ: String) -> (r: Option<Type>)
        ensures
            r == resolve_spec(typ@),
    {
        if typ == "int".to_owned() || typ == "int32".to_owned() {
            Option::Some(Type::Integer(32))
        } else if typ == "int64".to_owned() {
            Option::Some(Type::Integer(64))
        } else if typ == "float".to_owned() || typ == "float32".to_owned() {
            Option::Some(Type::Float(32))
        } else if typ == "float64".to_owned() {
            Option::Some(Type::Float(64))
        } else if typ == "string".to_owned() {
            Option::Some(Type::String)
        } else if typ == "bool".to_owned() {
            Option::Some(Type::Boolean)
        } else {
            Option::None
        }
    }
}

} // verus!

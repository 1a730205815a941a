//! Compile-time errors.  Every failure of the lowering pipeline is fatal:
//! lowering aborts on the first violation and reports one of these.

use vstd::prelude::*;

verus! {

/// A fatal lowering error.
///
/// - `UnresolvedType`: a type annotation spelling outside the recognized set.
/// - `UnimplementedWidth`: an integer or float width other than 32 or 64.
/// - `UndefinedReference`: an identifier or callee absent from the relevant
///   table at lowering time.
/// - `NonFunctionTopLevel`: a statement other than a function definition at
///   module scope.
/// - `NestedFunction`: a function definition inside a function body.
/// - `OperandMismatch`: an operator applied to operands it is not defined
///   on (unequal types, a logical operator on non-booleans, an arithmetic or
///   comparison operator on non-numeric operands, or a value-less call result
///   used as a value).
#[derive(Debug, PartialEq)]
pub enum CompileError {
    UnresolvedType(String),
    UnimplementedWidth(i32),
    UndefinedReference(String),
    NonFunctionTopLevel,
    NestedFunction,
    OperandMismatch,
}

/// The mathematical model of a lowering error.
pub enum SpecError {
    UnresolvedType(Seq<char>),
    UnimplementedWidth(i32),
    UndefinedReference(Seq<char>),
    NonFunctionTopLevel,
    NestedFunction,
    OperandMismatch,
}

impl View for CompileError {
    type V = SpecError;

    open spec fn view(&self) -> SpecError {
        match self {
            CompileError::UnresolvedType(s) => SpecError::UnresolvedType(s@),
            CompileError::UnimplementedWidth(w) => SpecError::UnimplementedWidth(*w),
            CompileError::UndefinedReference(s) => SpecError::UndefinedReference(s@),
            CompileError::NonFunctionTopLevel => SpecError::NonFunctionTopLevel,
            CompileError::NestedFunction => SpecError::NestedFunction,
            CompileError::OperandMismatch => SpecError::OperandMismatch,
        }
    }
}

} // verus!

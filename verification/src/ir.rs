//! The intermediate representation the lowering pass emits: typed values,
//! instructions, basic blocks, functions and modules, together with the
//! mathematical model (`SpecInst`, `SpecFunc`) that every contract speaks of.
//!
//! A value produced by an instruction is identified by the instruction's
//! position — block index and index within the block — so the representation
//! needs no hidden counter and lowering the same tree twice yields the same
//! structure.

use vstd::prelude::*;
use crate::ast::{Opcode, Type};
use crate::error::{CompileError, SpecError};

verus! {

/// A primitive IR type: 32/64-bit integers, 32/64-bit floats, a 1-bit
/// boolean, and an opaque pointer-sized string handle.
#[derive(Debug, Clone, Copy, PartialEq, Eq, Structural)]
pub enum IrType {
    I32,
    I64,
    F32,
    F64,
    Bool,
    Str,
}

/// The primitive IR type denoting a source type: integers and floats keep
/// their width when it is 32 or 64 and are unimplemented otherwise, booleans
/// become the 1-bit boolean, strings the opaque string handle.
pub open spec fn ir_type_spec(t: Type) -> Result<IrType, SpecError> {
    match t {
        Type::Integer(w) => if w == 32 {
            Ok(IrType::I32)
        } else if w == 64 {
            Ok(IrType::I64)
        } else {
            Err(SpecError::UnimplementedWidth(w))
        },
        Type::Float(w) => if w == 32 {
            Ok(IrType::F32)
        } else if w == 64 {
            Ok(IrType::F64)
        } else {
            Err(SpecError::UnimplementedWidth(w))
        },
        Type::Boolean => Ok(IrType::Bool),
        Type::String => Ok(IrType::Str),
    }
}

/// The single table-driven mapping from a source type to its backend
/// primitive.  A width other than 32 or 64 is a deliberate scope fence and
/// fails fast with `UnimplementedWidth`.
pub fn ir_type_of(t: &Type) -> (r: Result<IrType, CompileError>)
    ensures
        match r {
            Ok(it) => ir_type_spec(*t) == Ok::<IrType, SpecError>(it),
            Err(e) => ir_type_spec(*t) == Err::<IrType, SpecError>(e@),
        },
{
    match t {
        Type::Integer(w) => if *w == 32 {
            Ok(IrType::I32)
        } else if *w == 64 {
            Ok(IrType::I64)
        } else {
            Err(CompileError::UnimplementedWidth(*w))
        },
        Type::Float(w) => if *w == 32 {
            Ok(IrType::F32)
        } else if *w == 64 {
            Ok(IrType::F64)
        } else {
            Err(CompileError::UnimplementedWidth(*w))
        },
        Type::Boolean => Ok(IrType::Bool),
        Type::String => Ok(IrType::Str),
    }
}

/// Visibility of a generated function: only the designated entry point
/// (`main`) is externally visible; every other function is module-private.
#[derive(Debug, Clone, Copy, PartialEq, Eq, Structural)]
pub enum Linkage {
    Default,
    Private,
}

/// The position of an instruction inside a function: block index and index
/// within that block.  An instruction's position names its result.
#[derive(Debug, Clone, Copy, PartialEq, Eq, Structural)]
pub struct RegId {
    pub block: usize,
    pub inst: usize,
}

/// An IR value: a constant, or the result of the instruction at a position.
/// `FloatConst` holds the IEEE-754 bit pattern of a 64-bit float.
#[derive(Debug, Clone, Copy, PartialEq, Eq, Structural)]
pub enum Value {
    FloatConst(u64),
    BoolConst(bool),
    Reg(RegId),
}

/// One IR instruction.
///
/// - `Alloca` reserves a stack slot of the given type; its position names
///   the slot.
/// - `StoreArg` stores the incoming argument with the given index into a slot.
/// - `Store` stores a value into a slot; `Load` reads a slot.
/// - `StrConst` materializes a string literal; its position names the handle.
/// - `BinOp` applies an operator to two operands of the recorded operand
///   type, which selects the instruction family (integer, float, boolean).
/// - `CondBr` branches to `then_block` when the condition holds, else to
///   `cont_block`; `Br` transfers unconditionally; `Ret` returns, with or
///   without a value.
#[derive(Debug, PartialEq)]
pub enum Inst {
    Alloca { ty: IrType },
    StoreArg { slot: RegId, index: usize },
    Store { slot: RegId, value: Value },
    Load { slot: RegId, ty: IrType },
    StrConst { text: String },
    BinOp { op: Opcode, ty: IrType, lhs: Value, rhs: Value },
    Call { callee: String, args: Vec<Value> },
    CondBr { cond: Value, then_block: usize, cont_block: usize },
    Br { target: usize },
    Ret { value: Option<Value> },
}

/// The mathematical model of one instruction: strings become `Seq<char>`,
/// argument vectors become sequences.
pub enum SpecInst {
    Alloca { ty: IrType },
    StoreArg { slot: RegId, index: usize },
    Store { slot: RegId, value: Value },
    Load { slot: RegId, ty: IrType },
    StrConst { text: Seq<char> },
    BinOp { op: Opcode, ty: IrType, lhs: Value, rhs: Value },
    Call { callee: Seq<char>, args: Seq<Value> },
    CondBr { cond: Value, then_block: usize, cont_block: usize },
    Br { target: usize },
    Ret { value: Option<Value> },
}

impl View for Inst {
    type V = SpecInst;

    open spec fn view(&self) -> SpecInst {
        match self {
            Inst::Alloca { ty } => SpecInst::Alloca { ty: *ty },
            Inst::StoreArg { slot, index } => SpecInst::StoreArg { slot: *slot, index: *index },
            Inst::Store { slot, value } => SpecInst::Store { slot: *slot, value: *value },
            Inst::Load { slot, ty } => SpecInst::Load { slot: *slot, ty: *ty },
            Inst::StrConst { text } => SpecInst::StrConst { text: text@ },
            Inst::BinOp { op, ty, lhs, rhs } => SpecInst::BinOp {
                op: *op,
                ty: *ty,
                lhs: *lhs,
                rhs: *rhs,
            },
            Inst::Call { callee, args } => SpecInst::Call { callee: callee@, args: args@ },
            Inst::CondBr { cond, then_block, cont_block } => SpecInst::CondBr {
                cond: *cond,
                then_block: *then_block,
                cont_block: *cont_block,
            },
            Inst::Br { target } => SpecInst::Br { target: *target },
            Inst::Ret { value } => SpecInst::Ret { value: *value },
        }
    }
}

/// A straight-line sequence of instructions; control enters at the top and
/// leaves through the block's final branch or return.
#[derive(Debug, PartialEq)]
pub struct BasicBlock {
    pub insts: Vec<Inst>,
}

impl View for BasicBlock {
    type V = Seq<SpecInst>;

    open spec fn view(&self) -> Seq<SpecInst> {
        self.insts@.map_values(|i: Inst| i@)
    }
}

/// One fully lowered IR function.
#[derive(Debug, PartialEq)]
pub struct IrFunction {
    pub name: String,
    pub linkage: Linkage,
    pub params: Vec<IrType>,
    pub ret: Option<IrType>,
    pub blocks: Vec<BasicBlock>,
}

/// The mathematical model of a lowered function.
pub struct SpecFunc {
    pub name: Seq<char>,
    pub linkage: Linkage,
    pub params: Seq<IrType>,
    pub ret: Option<IrType>,
    pub blocks: Seq<Seq<SpecInst>>,
}

impl View for IrFunction {
    type V = SpecFunc;

    open spec fn view(&self) -> SpecFunc {
        SpecFunc {
            name: self.name@,
            linkage: self.linkage,
            params: self.params@,
            ret: self.ret,
            blocks: self.blocks@.map_values(|b: BasicBlock| b@),
        }
    }
}

/// A lowered module: the ordered sequence of its functions.
#[derive(Debug, PartialEq)]
pub struct IrModule {
    pub functions: Vec<IrFunction>,
}

impl View for IrModule {
    type V = Seq<SpecFunc>;

    open spec fn view(&self) -> Seq<SpecFunc> {
        self.functions@.map_values(|f: IrFunction| f@)
    }
}

} // verus!

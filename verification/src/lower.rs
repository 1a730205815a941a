//! The lowering pass: expressions, statements, functions, and the module
//! driver, each specified by a mathematical function of the AST and proved
//! equal to it.  Lowering is one deterministic linear pass; the only mutable
//! state is the per-function build context (`FnBuilder`): the blocks built
//! so far, the active insertion point, the variable-storage table, and
//! whether the current straight-line sequence has already returned.

use vstd::prelude::*;
use crate::ast::{resolve_spec, Expr, Opcode, Statement, Type};
use crate::error::{CompileError, SpecError};
use crate::ir::{
    ir_type_of, ir_type_spec, BasicBlock, Inst, IrFunction, IrModule, IrType, Linkage, RegId,
    SpecFunc, SpecInst, Value,
};
use crate::table::{FuncTable, SlotInfo, SpecSig, StorageTable};

verus! {

/// Does `op` compute an arithmetic result (of its operand type)?
pub open spec fn arith_op(op: Opcode) -> bool {
    op == Opcode::Mul || op == Opcode::Div || op == Opcode::Add || op == Opcode::Sub
        || op == Opcode::Rem
}

/// Is `op` a logical connective (boolean operands, boolean result)?
pub open spec fn logic_op(op: Opcode) -> bool {
    op == Opcode::Or || op == Opcode::And
}

/// Is `t` a numeric primitive?
pub open spec fn numeric(t: IrType) -> bool {
    t == IrType::I32 || t == IrType::I64 || t == IrType::F32 || t == IrType::F64
}

/// May `op` be applied to operands of types `lt` and `rt`?  Both operands
/// must carry a value of the same type; arithmetic and comparison need a
/// numeric type, the logical connectives need booleans.  There is no
/// coercion between primitive types.
pub open spec fn op_valid(op: Opcode, lt: Option<IrType>, rt: Option<IrType>) -> bool {
    match (lt, rt) {
        (Option::Some(a), Option::Some(b)) => a == b && (if logic_op(op) {
            a == IrType::Bool
        } else {
            numeric(a)
        }),
        _ => false,
    }
}

/// The result type of `op` on operands of type `t`: arithmetic keeps the
/// operand type, comparisons and connectives yield a boolean.
pub open spec fn op_result(op: Opcode, t: IrType) -> IrType {
    if arith_op(op) {
        t
    } else {
        IrType::Bool
    }
}

/// The abstract build context of one function: the blocks built so far, the
/// block instructions are currently appended to, the storage table, and
/// whether the active straight-line sequence has already emitted its return
/// (everything after it is dead and must not be emitted).
pub struct SpecBuilder {
    pub blocks: Seq<Seq<SpecInst>>,
    pub cur: usize,
    pub table: Map<Seq<char>, SlotInfo>,
    pub term: bool,
}

impl SpecBuilder {
    /// The insertion point denotes an existing block.
    pub open spec fn wf(&self) -> bool {
        self.cur < self.blocks.len()
    }

    /// The position — and thereby the name — of the next instruction emitted
    /// at the insertion point.
    pub open spec fn next_reg(&self) -> RegId {
        RegId { block: self.cur, inst: self.blocks[self.cur as int].len() as usize }
    }

    /// Appends one instruction at the insertion point.
    pub open spec fn emit(&self, i: SpecInst) -> SpecBuilder {
        SpecBuilder {
            blocks: self.blocks.update(self.cur as int, self.blocks[self.cur as int].push(i)),
            cur: self.cur,
            table: self.table,
            term: self.term,
        }
    }
}

/// The executable build context of one function; its abstract value is a
/// `SpecBuilder`.
pub struct FnBuilder {
    pub blocks: Vec<BasicBlock>,
    pub cur: usize,
    pub table: StorageTable,
    pub term: bool,
}

impl View for FnBuilder {
    type V = SpecBuilder;

    open spec fn view(&self) -> SpecBuilder {
        SpecBuilder {
            blocks: self.blocks@.map_values(|bb: BasicBlock| bb@),
            cur: self.cur,
            table: self.table@,
            term: self.term,
        }
    }
}

impl FnBuilder {
    pub open spec fn wf(&self) -> bool {
        self@.wf()
    }

    /// A fresh context: one empty entry block, emission positioned there,
    /// an empty storage table.
    pub fn new_function() -> (r: FnBuilder)
        ensures
            r@ == entry_builder_spec(),
            r.wf(),
    {
        let mut blocks: Vec<BasicBlock> = Vec::new();
        blocks.push(BasicBlock { insts: Vec::new() });
        let r = FnBuilder { blocks, cur: 0, table: StorageTable::new(), term: false };
        proof {
            assert(r@.blocks =~~= entry_builder_spec().blocks);
            assert(r@.table =~= entry_builder_spec().table);
        }
        r
    }

    /// The position of the next instruction emitted at the insertion point.
    fn next_reg(&self) -> (r: RegId)
        requires
            self.wf(),
        ensures
            r == self@.next_reg(),
    {
        RegId { block: self.cur, inst: self.blocks[self.cur].insts.len() }
    }

    /// Appends one instruction to the block emission is positioned at.
    fn emit(&mut self, i: Inst)
        requires
            old(self).wf(),
        ensures
            final(self)@ == old(self)@.emit(i@),
            final(self).wf(),
    {
        let ghost pre = self@;
        let ghost iv = i@;
        let cur: usize = self.cur;
        self.blocks[cur].insts.push(i);
        proof {
            assert(self@.blocks =~~= pre.blocks.update(
                pre.cur as int,
                pre.blocks[pre.cur as int].push(iv),
            ));
        }
    }
}

/// Lowering an expression yields the build context with the emitted
/// instructions appended, the value of the expression, and the type of that
/// value — `None` for the result of a call to a void function.
pub open spec fn lower_expr_spec(e: Expr, b: SpecBuilder, ft: Map<Seq<char>, SpecSig>) -> Result<
    (SpecBuilder, Value, Option<IrType>),
    SpecError,
>
    decreases e, 0int,
{
    match e {
        Expr::Number(bits) => Ok((b, Value::FloatConst(bits), Option::Some(IrType::F64))),
        Expr::Boolean(v) => Ok((b, Value::BoolConst(v), Option::Some(IrType::Bool))),
        Expr::String(s) => {
            let r = b.next_reg();
            Ok((b.emit(SpecInst::StrConst { text: s@ }), Value::Reg(r), Option::Some(IrType::Str)))
        },
        Expr::Identifier(name) => {
            if b.table.contains_key(name@) {
                let slot = b.table[name@];
                let r = b.next_reg();
                Ok(
                    (
                        b.emit(SpecInst::Load { slot: slot.reg, ty: slot.ty }),
                        Value::Reg(r),
                        Option::Some(slot.ty),
                    ),
                )
            } else {
                Err(SpecError::UndefinedReference(name@))
            }
        },
        Expr::Op(l, op, r) => match lower_expr_spec(*l, b, ft) {
            Ok((b1, lv, lt)) => match lower_expr_spec(*r, b1, ft) {
                Ok((b2, rv, rt)) => if op_valid(op, lt, rt) {
                    let t = lt.unwrap();
                    let reg = b2.next_reg();
                    Ok(
                        (
                            b2.emit(SpecInst::BinOp { op, ty: t, lhs: lv, rhs: rv }),
                            Value::Reg(reg),
                            Option::Some(op_result(op, t)),
                        ),
                    )
                } else {
                    Err(SpecError::OperandMismatch)
                },
                Err(er) => Err(er),
            },
            Err(er) => Err(er),
        },
        Expr::FunctionCall(name, args) => {
            if ft.contains_key(name@) {
                match lower_args_spec(args@, 0, b, ft) {
                    Ok((b1, vals)) => {
                        let reg = b1.next_reg();
                        Ok(
                            (
                                b1.emit(SpecInst::Call { callee: name@, args: vals }),
                                Value::Reg(reg),
                                ft[name@].ret,
                            ),
                        )
                    },
                    Err(er) => Err(er),
                }
            } else {
                Err(SpecError::UndefinedReference(name@))
            }
        },
    }
}

/// Lowers the arguments of a call from index `i` on, in left-to-right
/// order, yielding their values in that order.
pub open spec fn lower_args_spec(
    args: Seq<Box<Expr>>,
    i: int,
    b: SpecBuilder,
    ft: Map<Seq<char>, SpecSig>,
) -> Result<(SpecBuilder, Seq<Value>), SpecError>
    decreases args, args.len() - i,
{
    if i < 0 || i >= args.len() {
        Ok((b, Seq::empty()))
    } else {
        match lower_expr_spec(*args[i], b, ft) {
            Ok((b1, v, _t)) => match lower_args_spec(args, i + 1, b1, ft) {
                Ok((b2, rest)) => Ok((b2, seq![v] + rest)),
                Err(er) => Err(er),
            },
            Err(er) => Err(er),
        }
    }
}

fn op_valid_exec(op: &Opcode, lt: &Option<IrType>, rt: &Option<IrType>) -> (r: bool)
    ensures
        r == op_valid(*op, *lt, *rt),
{
    match (lt, rt) {
        (Option::Some(a), Option::Some(bt)) => if *a == *bt {
            let logical = match op {
                Opcode::Or | Opcode::And => true,
                _ => false,
            };
            if logical {
                *a == IrType::Bool
            } else {
                match a {
                    IrType::I32 | IrType::I64 | IrType::F32 | IrType::F64 => true,
                    _ => false,
                }
            }
        } else {
            false
        },
        _ => false,
    }
}

fn op_result_exec(op: &Opcode, t: IrType) -> (r: IrType)
    ensures
        r == op_result(*op, t),
{
    let arith = match op {
        Opcode::Mul | Opcode::Div | Opcode::Add | Opcode::Sub | Opcode::Rem => true,
        _ => false,
    };
    if arith {
        t
    } else {
        IrType::Bool
    }
}

/// Lowers one expression at the insertion point, returning its value and
/// the type of that value (`None` for a call to a void function).  The
/// emitted instructions, the value and the type are exactly those of
/// `lower_expr_spec`; an identifier that is not in the storage table and a
/// callee that is not in the function table fail with undefined-reference,
/// before any instruction that would use them is emitted.
pub fn lower_expr(e: &Expr, b: &mut FnBuilder, ft: &FuncTable) -> (r: Result<
    (Value, Option<IrType>),
    CompileError,
>)
    requires
        old(b).wf(),
    ensures
        final(b).wf(),
        match r {
            Ok((v, t)) => lower_expr_spec(*e, old(b)@, ft@) == Ok::<_, SpecError>(
                (final(b)@, v, t),
            ),
            Err(er) => lower_expr_spec(*e, old(b)@, ft@) == Err::<
                (SpecBuilder, Value, Option<IrType>),
                _,
            >(er@),
        },
    decreases *e, 0int,
{
    match e {
        Expr::Number(bits) => Ok((Value::FloatConst(*bits), Option::Some(IrType::F64))),
        Expr::Boolean(v) => Ok((Value::BoolConst(*v), Option::Some(IrType::Bool))),
        Expr::String(s) => {
            let reg = b.next_reg();
            b.emit(Inst::StrConst { text: s.clone() });
            Ok((Value::Reg(reg), Option::Some(IrType::Str)))
        },
        Expr::Identifier(name) => match b.table.lookup(name) {
            Option::Some(info) => {
                let reg = b.next_reg();
                b.emit(Inst::Load { slot: info.reg, ty: info.ty });
                Ok((Value::Reg(reg), Option::Some(info.ty)))
            },
            Option::None => Err(CompileError::UndefinedReference(name.clone())),
        },
        Expr::Op(l, op, r2) => {
            let (lv, lt) = match lower_expr(l, b, ft) {
                Ok(p) => p,
                Err(er) => {
                    return Err(er);
                },
            };
            let (rv, rt) = match lower_expr(r2, b, ft) {
                Ok(p) => p,
                Err(er) => {
                    return Err(er);
                },
            };
            if op_valid_exec(op, &lt, &rt) {
                let t = lt.unwrap();
                let reg = b.next_reg();
                b.emit(Inst::BinOp { op: *op, ty: t, lhs: lv, rhs: rv });
                Ok((Value::Reg(reg), Option::Some(op_result_exec(op, t))))
            } else {
                Err(CompileError::OperandMismatch)
            }
        },
        Expr::FunctionCall(name, args) => match ft.lookup_ret(name) {
            Option::Some(ret) => {
                let vals = match lower_args(args, 0, b, ft) {
                    Ok(v) => v,
                    Err(er) => {
                        return Err(er);
                    },
                };
                let reg = b.next_reg();
                b.emit(Inst::Call { callee: name.clone(), args: vals });
                Ok((Value::Reg(reg), ret))
            },
            Option::None => Err(CompileError::UndefinedReference(name.clone())),
        },
    }
}

/// Lowers the arguments of a call from index `i` on, left to right,
/// returning their values in argument order.
pub fn lower_args(args: &Vec<Box<Expr>>, i: usize, b: &mut FnBuilder, ft: &FuncTable) -> (r: Result<
    Vec<Value>,
    CompileError,
>)
    requires
        old(b).wf(),
    ensures
        final(b).wf(),
        match r {
            Ok(vals) => lower_args_spec(args@, i as int, old(b)@, ft@) == Ok::<_, SpecError>(
                (final(b)@, vals@),
            ),
            Err(er) => lower_args_spec(args@, i as int, old(b)@, ft@) == Err::<
                (SpecBuilder, Seq<Value>),
                _,
            >(er@),
        },
    decreases args@, args@.len() - i,
{
    if i >= args.len() {
        Ok(Vec::new())
    } else {
        let (v, _t) = match lower_expr(&args[i], b, ft) {
            Ok(p) => p,
            Err(er) => {
                return Err(er);
            },
        };
        let mut rest = match lower_args(args, i + 1, b, ft) {
            Ok(vs) => vs,
            Err(er) => {
                return Err(er);
            },
        };
        let ghost rest_pre = rest@;
        rest.insert(0, v);
        proof {
            assert(rest@ =~= seq![v] + rest_pre);
        }
        Ok(rest)
    }
}

/// The type of the stack slot a `Let` allocates: the declared annotation
/// when one is present (which must resolve, and must have an implemented
/// width), else the inferred type of the initializer (which must then carry
/// a value).
pub open spec fn let_slot_ty_spec(ann: Option<String>, vt: Option<IrType>) -> Result<
    IrType,
    SpecError,
> {
    match ann {
        Option::Some(a) => match resolve_spec(a@) {
            Option::Some(t) => ir_type_spec(t),
            Option::None => Err(SpecError::UnresolvedType(a@)),
        },
        Option::None => match vt {
            Option::Some(t) => Ok(t),
            Option::None => Err(SpecError::OperandMismatch),
        },
    }
}

/// Lowering one statement: how the build context changes.
///
/// In a context that has already returned (`term`), the statement is dead
/// and nothing is emitted.  `Let` lowers the initializer, allocates a slot,
/// stores the value and (re-)binds the name.  `Return` emits a return and
/// marks the context returned.  `Expression` lowers for effect and discards
/// the value.  `If` lowers the condition, opens a `then` and a `continue`
/// block, branches conditionally, lowers the body into `then` (falling
/// through to `continue` unless the body returned), and resumes in
/// `continue`.  A function definition inside a body is a structural error.
pub open spec fn lower_stmt_spec(s: Statement, b: SpecBuilder, ft: Map<Seq<char>, SpecSig>) -> Result<
    SpecBuilder,
    SpecError,
>
    decreases s, 0int,
{
    if b.term {
        Ok(b)
    } else {
        match s {
            Statement::Let(ann, name, init) => match lower_expr_spec(*init, b, ft) {
                Ok((b1, v, vt)) => match let_slot_ty_spec(ann, vt) {
                    Ok(st) => {
                        let slot = b1.next_reg();
                        let b2 = b1.emit(SpecInst::Alloca { ty: st });
                        let b3 = b2.emit(SpecInst::Store { slot, value: v });
                        Ok(
                            SpecBuilder {
                                blocks: b3.blocks,
                                cur: b3.cur,
                                table: b3.table.insert(name@, SlotInfo { reg: slot, ty: st }),
                                term: b3.term,
                            },
                        )
                    },
                    Err(er) => Err(er),
                },
                Err(er) => Err(er),
            },
            Statement::Return(opt) => match opt {
                Option::Some(e) => match lower_expr_spec(*e, b, ft) {
                    Ok((b1, v, _t)) => {
                        let b2 = b1.emit(SpecInst::Ret { value: Option::Some(v) });
                        Ok(SpecBuilder { blocks: b2.blocks, cur: b2.cur, table: b2.table, term: true })
                    },
                    Err(er) => Err(er),
                },
                Option::None => {
                    let b1 = b.emit(SpecInst::Ret { value: Option::None });
                    Ok(SpecBuilder { blocks: b1.blocks, cur: b1.cur, table: b1.table, term: true })
                },
            },
            Statement::Expression(e) => match lower_expr_spec(*e, b, ft) {
                Ok((b1, _v, _t)) => Ok(b1),
                Err(er) => Err(er),
            },
            Statement::If(cond, body) => match lower_expr_spec(*cond, b, ft) {
                Ok((b1, cv, ct)) => if ct is None {
                    Err(SpecError::OperandMismatch)
                } else {
                    let then_i = b1.blocks.len() as usize;
                    let b2 = SpecBuilder {
                        blocks: b1.blocks.push(Seq::empty()),
                        cur: b1.cur,
                        table: b1.table,
                        term: b1.term,
                    };
                    let cont_i = b2.blocks.len() as usize;
                    let b3 = SpecBuilder {
                        blocks: b2.blocks.push(Seq::empty()),
                        cur: b2.cur,
                        table: b2.table,
                        term: b2.term,
                    };
                    let b4 = b3.emit(
                        SpecInst::CondBr { cond: cv, then_block: then_i, cont_block: cont_i },
                    );
                    let b5 = SpecBuilder {
                        blocks: b4.blocks,
                        cur: then_i,
                        table: b4.table,
                        term: b4.term,
                    };
                    match lower_block_spec(body@, 0, b5, ft) {
                        Ok(b6) => {
                            let b7 = if b6.term {
                                b6
                            } else {
                                b6.emit(SpecInst::Br { target: cont_i })
                            };
                            Ok(
                                SpecBuilder {
                                    blocks: b7.blocks,
                                    cur: cont_i,
                                    table: b7.table,
                                    term: false,
                                },
                            )
                        },
                        Err(er) => Err(er),
                    }
                },
                Err(er) => Err(er),
            },
            Statement::Function(_name, _params, _ret, _body) => Err(SpecError::NestedFunction),
        }
    }
}

/// Lowers the statements of a body from index `i` on, in order.
pub open spec fn lower_block_spec(
    stmts: Seq<Box<Statement>>,
    i: int,
    b: SpecBuilder,
    ft: Map<Seq<char>, SpecSig>,
) -> Result<SpecBuilder, SpecError>
    decreases stmts, stmts.len() - i,
{
    if i < 0 || i >= stmts.len() {
        Ok(b)
    } else {
        match lower_stmt_spec(*stmts[i], b, ft) {
            Ok(b1) => lower_block_spec(stmts, i + 1, b1, ft),
            Err(er) => Err(er),
        }
    }
}

/// Lowering an expression never removes a block: it only appends
/// instructions and (through nested calls) blocks.
pub proof fn lemma_expr_blocks_grow(e: Expr, b: SpecBuilder, ft: Map<Seq<char>, SpecSig>)
    requires
        b.wf(),
    ensures
        match lower_expr_spec(e, b, ft) {
            Ok(p) => p.0.wf() && p.0.cur == b.cur && p.0.blocks.len() >= b.blocks.len()
                && p.0.blocks[b.cur as int].len() >= b.blocks[b.cur as int].len(),
            Err(_) => true,
        },
    decreases e, 0int,
{
    match e {
        Expr::Op(l, _op, r) => {
            lemma_expr_blocks_grow(*l, b, ft);
            match lower_expr_spec(*l, b, ft) {
                Ok((b1, _lv, _lt)) => {
                    lemma_expr_blocks_grow(*r, b1, ft);
                },
                Err(_) => {},
            }
        },
        Expr::FunctionCall(name, args) => {
            if ft.contains_key(name@) {
                lemma_args_blocks_grow(args@, 0, b, ft);
            }
        },
        _ => {},
    }
}

/// Lowering an argument list never removes a block.
pub proof fn lemma_args_blocks_grow(
    args: Seq<Box<Expr>>,
    i: int,
    b: SpecBuilder,
    ft: Map<Seq<char>, SpecSig>,
)
    requires
        b.wf(),
    ensures
        match lower_args_spec(args, i, b, ft) {
            Ok(p) => p.0.wf() && p.0.cur == b.cur && p.0.blocks.len() >= b.blocks.len()
                && p.0.blocks[b.cur as int].len() >= b.blocks[b.cur as int].len(),
            Err(_) => true,
        },
    decreases args, args.len() - i,
{
    if 0 <= i < args.len() {
        lemma_expr_blocks_grow(*args[i], b, ft);
        match lower_expr_spec(*args[i], b, ft) {
            Ok((b1, _v, _t)) => {
                lemma_args_blocks_grow(args, i + 1, b1, ft);
            },
            Err(_) => {},
        }
    }
}

/// Lowering a statement never removes a block.
pub proof fn lemma_stmt_blocks_grow(s: Statement, b: SpecBuilder, ft: Map<Seq<char>, SpecSig>)
    requires
        b.wf(),
    ensures
        match lower_stmt_spec(s, b, ft) {
            Ok(b1) => b1.wf() && b1.blocks.len() >= b.blocks.len(),
            Err(_) => true,
        },
    decreases s, 0int,
{
    if !b.term {
        match s {
            Statement::Let(_ann, _name, init) => {
                lemma_expr_blocks_grow(*init, b, ft);
            },
            Statement::Return(opt) => match opt {
                Option::Some(e) => {
                    lemma_expr_blocks_grow(*e, b, ft);
                },
                Option::None => {},
            },
            Statement::Expression(e) => {
                lemma_expr_blocks_grow(*e, b, ft);
            },
            Statement::If(cond, body) => {
                lemma_expr_blocks_grow(*cond, b, ft);
                match lower_expr_spec(*cond, b, ft) {
                    Ok((b1, cv, ct)) => if !(ct is None) {
                        let then_i = b1.blocks.len() as usize;
                        let b2 = SpecBuilder {
                            blocks: b1.blocks.push(Seq::empty()),
                            cur: b1.cur,
                            table: b1.table,
                            term: b1.term,
                        };
                        let cont_i = b2.blocks.len() as usize;
                        let b3 = SpecBuilder {
                            blocks: b2.blocks.push(Seq::empty()),
                            cur: b2.cur,
                            table: b2.table,
                            term: b2.term,
                        };
                        let b4 = b3.emit(
                            SpecInst::CondBr { cond: cv, then_block: then_i, cont_block: cont_i },
                        );
                        let b5 = SpecBuilder {
                            blocks: b4.blocks,
                            cur: then_i,
                            table: b4.table,
                            term: b4.term,
                        };
                        lemma_block_blocks_grow(body@, 0, b5, ft);
                    },
                    Err(_) => {},
                }
            },
            Statement::Function(_n, _p, _r, _b) => {},
        }
    }
}

/// Lowering a statement sequence never removes a block.
pub proof fn lemma_block_blocks_grow(
    stmts: Seq<Box<Statement>>,
    i: int,
    b: SpecBuilder,
    ft: Map<Seq<char>, SpecSig>,
)
    requires
        b.wf(),
    ensures
        match lower_block_spec(stmts, i, b, ft) {
            Ok(b1) => b1.wf() && b1.blocks.len() >= b.blocks.len(),
            Err(_) => true,
        },
    decreases stmts, stmts.len() - i,
{
    if 0 <= i < stmts.len() {
        lemma_stmt_blocks_grow(*stmts[i], b, ft);
        match lower_stmt_spec(*stmts[i], b, ft) {
            Ok(b1) => {
                lemma_block_blocks_grow(stmts, i + 1, b1, ft);
            },
            Err(_) => {},
        }
    }
}

fn let_slot_ty(ann: &Option<String>, vt: &Option<IrType>) -> (r: Result<IrType, CompileError>)
    ensures
        match r {
            Ok(t) => let_slot_ty_spec(*ann, *vt) == Ok::<IrType, SpecError>(t),
            Err(er) => let_slot_ty_spec(*ann, *vt) == Err::<IrType, SpecError>(er@),
        },
{
    match ann {
        Option::Some(a) => match Type::from_string(a.clone()) {
            Option::Some(t) => ir_type_of(&t),
            Option::None => Err(CompileError::UnresolvedType(a.clone())),
        },
        Option::None => match vt {
            Option::Some(t) => Ok(*t),
            Option::None => Err(CompileError::OperandMismatch),
        },
    }
}

/// Lowers one statement at the insertion point, exactly as
/// `lower_stmt_spec` describes: nothing is emitted for dead code behind a
/// return, `Let` allocates and binds a slot (overwriting an earlier binding
/// of the same name), `Return` terminates the sequence, and `If` builds a
/// `then` and a `continue` block and resumes in the latter.
pub fn lower_stmt(s: &Statement, b: &mut FnBuilder, ft: &FuncTable) -> (r: Result<(), CompileError>)
    requires
        old(b).wf(),
    ensures
        final(b).wf(),
        match r {
            Ok(_) => lower_stmt_spec(*s, old(b)@, ft@) == Ok::<SpecBuilder, SpecError>(final(b)@),
            Err(er) => lower_stmt_spec(*s, old(b)@, ft@) == Err::<SpecBuilder, SpecError>(er@),
        },
    decreases *s, 0int,
{
    if b.term {
        return Ok(());
    }
    match s {
        Statement::Let(ann, name, init) => {
            let (v, vt) = match lower_expr(init, b, ft) {
                Ok(p) => p,
                Err(er) => {
                    return Err(er);
                },
            };
            let st = match let_slot_ty(ann, &vt) {
                Ok(t) => t,
                Err(er) => {
                    return Err(er);
                },
            };
            let slot = b.next_reg();
            b.emit(Inst::Alloca { ty: st });
            b.emit(Inst::Store { slot, value: v });
            b.table.insert(name.clone(), SlotInfo { reg: slot, ty: st });
            Ok(())
        },
        Statement::Return(opt) => match opt {
            Option::Some(e) => {
                let (v, _t) = match lower_expr(e, b, ft) {
                    Ok(p) => p,
                    Err(er) => {
                        return Err(er);
                    },
                };
                b.emit(Inst::Ret { value: Option::Some(v) });
                b.term = true;
                Ok(())
            },
            Option::None => {
                b.emit(Inst::Ret { value: Option::None });
                b.term = true;
                Ok(())
            },
        },
        Statement::Expression(e) => match lower_expr(e, b, ft) {
            Ok(_) => Ok(()),
            Err(er) => Err(er),
        },
        Statement::If(cond, body) => {
            let (cv, ct) = match lower_expr(cond, b, ft) {
                Ok(p) => p,
                Err(er) => {
                    return Err(er);
                },
            };
            match ct {
                Option::Some(_) => {},
                Option::None => {
                    return Err(CompileError::OperandMismatch);
                },
            };
            let ghost g1 = b@;
            let then_i: usize = b.blocks.len();
            b.blocks.push(BasicBlock { insts: Vec::new() });
            proof {
                assert(b@.blocks =~~= g1.blocks.push(Seq::empty()));
            }
            let ghost g2 = b@;
            let cont_i: usize = b.blocks.len();
            b.blocks.push(BasicBlock { insts: Vec::new() });
            proof {
                assert(b@.blocks =~~= g2.blocks.push(Seq::empty()));
            }
            b.emit(Inst::CondBr { cond: cv, then_block: then_i, cont_block: cont_i });
            b.cur = then_i;
            let ghost mid = b@;
            match lower_block(body, 0, b, ft) {
                Ok(_) => {},
                Err(er) => {
                    return Err(er);
                },
            };
            proof {
                lemma_block_blocks_grow(body@, 0, mid, ft@);
            }
            if !b.term {
                b.emit(Inst::Br { target: cont_i });
            }
            b.cur = cont_i;
            b.term = false;
            Ok(())
        },
        Statement::Function(_name, _params, _ret, _body) => Err(CompileError::NestedFunction),
    }
}

/// Lowers the statements of a body from index `i` on, in order; statements
/// behind an already-emitted return are dead and left alone.
pub fn lower_block(stmts: &Vec<Box<Statement>>, i: usize, b: &mut FnBuilder, ft: &FuncTable) -> (r:
    Result<(), CompileError>)
    requires
        old(b).wf(),
    ensures
        final(b).wf(),
        match r {
            Ok(_) => lower_block_spec(stmts@, i as int, old(b)@, ft@) == Ok::<
                SpecBuilder,
                SpecError,
            >(final(b)@),
            Err(er) => lower_block_spec(stmts@, i as int, old(b)@, ft@) == Err::<
                SpecBuilder,
                SpecError,
            >(er@),
        },
    decreases stmts@, stmts@.len() - i,
{
    if i >= stmts.len() {
        Ok(())
    } else {
        match lower_stmt(&stmts[i], b, ft) {
            Ok(_) => {},
            Err(er) => {
                return Err(er);
            },
        };
        lower_block(stmts, i + 1, b, ft)
    }
}

/// The primitive types of a parameter list from index `i` on.
pub open spec fn param_tys_spec(ps: Seq<(Type, String)>, i: int) -> Result<Seq<IrType>, SpecError>
    decreases ps.len() - i,
{
    if i < 0 || i >= ps.len() {
        Ok(Seq::empty())
    } else {
        match ir_type_spec(ps[i].0) {
            Ok(t) => match param_tys_spec(ps, i + 1) {
                Ok(rest) => Ok(seq![t] + rest),
                Err(er) => Err(er),
            },
            Err(er) => Err(er),
        }
    }
}

/// Materializes the parameters from index `i` on: for each, in declaration
/// order, a stack slot of the parameter's type, a store of the incoming
/// argument, and a binding of the parameter's name to the slot.
pub open spec fn materialize_spec(
    ps: Seq<(Type, String)>,
    tys: Seq<IrType>,
    i: int,
    b: SpecBuilder,
) -> SpecBuilder
    decreases ps.len() - i,
{
    if i < 0 || i >= ps.len() || i >= tys.len() {
        b
    } else {
        let slot = b.next_reg();
        let b1 = b.emit(SpecInst::Alloca { ty: tys[i] });
        let b2 = b1.emit(SpecInst::StoreArg { slot, index: i as usize });
        let b3 = SpecBuilder {
            blocks: b2.blocks,
            cur: b2.cur,
            table: b2.table.insert(ps[i].1@, SlotInfo { reg: slot, ty: tys[i] }),
            term: b2.term,
        };
        materialize_spec(ps, tys, i + 1, b3)
    }
}

/// Does the body end in an explicit `Return`?  Only the last statement of
/// the original body is inspected; an empty body does not.
pub open spec fn has_trailing_return_spec(body: Seq<Box<Statement>>) -> bool {
    body.len() > 0 && match *body[body.len() - 1] {
        Statement::Return(_) => true,
        _ => false,
    }
}

/// The return type of a signature: `None` (void) when no annotation is
/// present, else the annotation's primitive type.
pub open spec fn ret_ty_spec(ret: Option<Type>) -> Result<Option<IrType>, SpecError> {
    match ret {
        Option::None => Ok(Option::None),
        Option::Some(t) => match ir_type_spec(t) {
            Ok(it) => Ok(Option::Some(it)),
            Err(er) => Err(er),
        },
    }
}

/// The parameter types of an optional parameter list; absence means none.
pub open spec fn opt_param_tys_spec(params: Option<Vec<(Type, String)>>) -> Result<
    Seq<IrType>,
    SpecError,
> {
    match params {
        Option::Some(ps) => param_tys_spec(ps@, 0),
        Option::None => Ok(Seq::empty()),
    }
}

/// The fresh build context every function starts from: one empty entry
/// block, an empty storage table.
pub open spec fn entry_builder_spec() -> SpecBuilder {
    SpecBuilder {
        blocks: seq![Seq::<SpecInst>::empty()],
        cur: 0,
        table: Map::empty(),
        term: false,
    }
}

/// Lowering one source function into one IR function.
///
/// The signature is translated first; `main` receives default (externally
/// visible) linkage, every other function is module-private.  Parameters
/// are materialized into stack slots in the entry block, the body is
/// lowered in sequence, and a void return is appended unless the last
/// statement of the original body is an explicit `Return`.
pub open spec fn lower_function_spec(
    name: Seq<char>,
    params: Option<Vec<(Type, String)>>,
    ret: Option<Type>,
    body: Seq<Box<Statement>>,
    ft: Map<Seq<char>, SpecSig>,
) -> Result<SpecFunc, SpecError> {
    match opt_param_tys_spec(params) {
        Ok(tys) => match ret_ty_spec(ret) {
            Ok(rt) => {
                let linkage = if name == "main"@ {
                    Linkage::Default
                } else {
                    Linkage::Private
                };
                let b0 = entry_builder_spec();
                let b1 = match params {
                    Option::Some(ps) => materialize_spec(ps@, tys, 0, b0),
                    Option::None => b0,
                };
                match lower_block_spec(body, 0, b1, ft) {
                    Ok(b2) => {
                        let b3 = if has_trailing_return_spec(body) {
                            b2
                        } else {
                            b2.emit(SpecInst::Ret { value: Option::None })
                        };
                        Ok(
                            SpecFunc {
                                name: name,
                                linkage: linkage,
                                params: tys,
                                ret: rt,
                                blocks: b3.blocks,
                            },
                        )
                    },
                    Err(er) => Err(er),
                }
            },
            Err(er) => Err(er),
        },
        Err(er) => Err(er),
    }
}

/// The signature a declaration registers in the function table.
pub open spec fn func_sig_spec(params: Option<Vec<(Type, String)>>, ret: Option<Type>) -> Result<
    SpecSig,
    SpecError,
> {
    match opt_param_tys_spec(params) {
        Ok(tys) => match ret_ty_spec(ret) {
            Ok(rt) => Ok(SpecSig { params: tys, ret: rt }),
            Err(er) => Err(er),
        },
        Err(er) => Err(er),
    }
}

/// The registration pass from index `i` on: every top-level statement must
/// be a function definition, and each signature is recorded under its name
/// (a later definition of a name overwrites an earlier one).
pub open spec fn register_spec(
    prog: Seq<Box<Statement>>,
    i: int,
    ft: Map<Seq<char>, SpecSig>,
) -> Result<Map<Seq<char>, SpecSig>, SpecError>
    decreases prog.len() - i,
{
    if i < 0 || i >= prog.len() {
        Ok(ft)
    } else {
        match *prog[i] {
            Statement::Function(name, params, ret, _body) => match func_sig_spec(params, ret) {
                Ok(sig) => register_spec(prog, i + 1, ft.insert(name@, sig)),
                Err(er) => Err(er),
            },
            _ => Err(SpecError::NonFunctionTopLevel),
        }
    }
}

/// The built-in, runtime-provided output primitives, visible to user code
/// by name: `print` takes a string, `print_num` a 64-bit float; both are
/// void.
pub open spec fn builtins_spec() -> Map<Seq<char>, SpecSig> {
    Map::empty().insert(
        "print"@,
        SpecSig { params: seq![IrType::Str], ret: Option::None },
    ).insert("print_num"@, SpecSig { params: seq![IrType::F64], ret: Option::None })
}

/// The lowering pass from index `i` on, every declaration against the one
/// module-wide function table.
pub open spec fn lower_funcs_spec(
    prog: Seq<Box<Statement>>,
    i: int,
    ft: Map<Seq<char>, SpecSig>,
) -> Result<Seq<SpecFunc>, SpecError>
    decreases prog.len() - i,
{
    if i < 0 || i >= prog.len() {
        Ok(Seq::empty())
    } else {
        match *prog[i] {
            Statement::Function(name, params, ret, body) => match lower_function_spec(
                name@,
                params,
                ret,
                body@,
                ft,
            ) {
                Ok(f) => match lower_funcs_spec(prog, i + 1, ft) {
                    Ok(rest) => Ok(seq![f] + rest),
                    Err(er) => Err(er),
                },
                Err(er) => Err(er),
            },
            _ => Err(SpecError::NonFunctionTopLevel),
        }
    }
}

/// A successfully translated parameter list has one primitive type per
/// parameter.
pub proof fn lemma_param_tys_len(ps: Seq<(Type, String)>, i: int)
    ensures
        match param_tys_spec(ps, i) {
            Ok(tys) => tys.len() == if 0 <= i <= ps.len() {
                ps.len() - i
            } else {
                0
            },
            Err(_) => true,
        },
    decreases ps.len() - i,
{
    if 0 <= i < ps.len() {
        lemma_param_tys_len(ps, i + 1);
    }
}

fn param_tys(ps: &Vec<(Type, String)>, i: usize) -> (r: Result<Vec<IrType>, CompileError>)
    ensures
        match r {
            Ok(tys) => param_tys_spec(ps@, i as int) == Ok::<Seq<IrType>, SpecError>(tys@),
            Err(er) => param_tys_spec(ps@, i as int) == Err::<Seq<IrType>, SpecError>(er@),
        },
    decreases ps@.len() - i,
{
    if i >= ps.len() {
        Ok(Vec::new())
    } else {
        let t = match ir_type_of(&ps[i].0) {
            Ok(t) => t,
            Err(er) => {
                return Err(er);
            },
        };
        let mut rest = match param_tys(ps, i + 1) {
            Ok(v) => v,
            Err(er) => {
                return Err(er);
            },
        };
        let ghost rp = rest@;
        rest.insert(0, t);
        proof {
            assert(rest@ =~= seq![t] + rp);
        }
        Ok(rest)
    }
}

fn materialize(ps: &Vec<(Type, String)>, tys: &Vec<IrType>, i: usize, b: &mut FnBuilder)
    requires
        old(b).wf(),
        tys@.len() == ps@.len(),
    ensures
        final(b).wf(),
        final(b)@ == materialize_spec(ps@, tys@, i as int, old(b)@),
    decreases ps@.len() - i,
{
    if i < ps.len() {
        let slot = b.next_reg();
        b.emit(Inst::Alloca { ty: tys[i] });
        b.emit(Inst::StoreArg { slot, index: i });
        b.table.insert(ps[i].1.clone(), SlotInfo { reg: slot, ty: tys[i] });
        materialize(ps, tys, i + 1, b);
    }
}

/// Lowers one source function into one IR function, exactly as
/// `lower_function_spec` describes: signature translation, `main`-only
/// default linkage, parameter materialization in declaration order, the
/// body in sequence, and an implicit void return unless the body's last
/// statement is an explicit `Return`.
pub fn lower_function(
    name: &String,
    params: &Option<Vec<(Type, String)>>,
    ret: &Option<Type>,
    body: &Vec<Box<Statement>>,
    ft: &FuncTable,
) -> (r: Result<IrFunction, CompileError>)
    ensures
        match r {
            Ok(f) => lower_function_spec(name@, *params, *ret, body@, ft@) == Ok::<
                SpecFunc,
                SpecError,
            >(f@),
            Err(er) => lower_function_spec(name@, *params, *ret, body@, ft@) == Err::<
                SpecFunc,
                SpecError,
            >(er@),
        },
{
    let tys = match params {
        Option::Some(ps) => match param_tys(ps, 0) {
            Ok(v) => v,
            Err(er) => {
                return Err(er);
            },
        },
        Option::None => Vec::new(),
    };
    let rt = match ret {
        Option::None => Option::None,
        Option::Some(t) => match ir_type_of(t) {
            Ok(it) => Option::Some(it),
            Err(er) => {
                return Err(er);
            },
        },
    };
    let linkage = if *name == "main".to_owned() {
        Linkage::Default
    } else {
        Linkage::Private
    };
    let mut b = FnBuilder::new_function();
    match params {
        Option::Some(ps) => {
            proof {
                lemma_param_tys_len(ps@, 0);
            }
            materialize(ps, &tys, 0, &mut b);
        },
        Option::None => {},
    };
    match lower_block(body, 0, &mut b, ft) {
        Ok(_) => {},
        Err(er) => {
            return Err(er);
        },
    };
    let needs_ret = if body.len() == 0 {
        true
    } else {
        let last: &Statement = &body[body.len() - 1];
        match last {
            Statement::Return(_) => false,
            _ => true,
        }
    };
    if needs_ret {
        b.emit(Inst::Ret { value: Option::None });
    }
    Ok(
        IrFunction {
            name: name.clone(),
            linkage,
            params: tys,
            ret: rt,
            blocks: b.blocks,
        },
    )
}

/// The registration pass: records the signature of every top-level function
/// definition, failing on any other top-level statement.
pub fn register_functions(prog: &Vec<Box<Statement>>, i: usize, ft: &mut FuncTable) -> (r: Result<
    (),
    CompileError,
>)
    ensures
        match r {
            Ok(_) => register_spec(prog@, i as int, old(ft)@) == Ok::<
                Map<Seq<char>, SpecSig>,
                SpecError,
            >(final(ft)@),
            Err(er) => register_spec(prog@, i as int, old(ft)@) == Err::<
                Map<Seq<char>, SpecSig>,
                SpecError,
            >(er@),
        },
    decreases prog@.len() - i,
{
    if i >= prog.len() {
        Ok(())
    } else {
        let st: &Statement = &prog[i];
        match st {
            Statement::Function(name, params, ret, _body) => {
                let tys = match params {
                    Option::Some(ps) => match param_tys(ps, 0) {
                        Ok(v) => v,
                        Err(er) => {
                            return Err(er);
                        },
                    },
                    Option::None => Vec::new(),
                };
                let rt = match ret {
                    Option::None => Option::None,
                    Option::Some(t) => match ir_type_of(t) {
                        Ok(it) => Option::Some(it),
                        Err(er) => {
                            return Err(er);
                        },
                    },
                };
                ft.insert(name.clone(), tys, rt);
                register_functions(prog, i + 1, ft)
            },
            _ => Err(CompileError::NonFunctionTopLevel),
        }
    }
}

/// The lowering pass: lowers every declaration, in order, against the one
/// module-wide function table.
pub fn lower_functions(prog: &Vec<Box<Statement>>, i: usize, ft: &FuncTable) -> (r: Result<
    Vec<IrFunction>,
    CompileError,
>)
    ensures
        match r {
            Ok(fs) => lower_funcs_spec(prog@, i as int, ft@) == Ok::<Seq<SpecFunc>, SpecError>(
                fs@.map_values(|f: IrFunction| f@),
            ),
            Err(er) => lower_funcs_spec(prog@, i as int, ft@) == Err::<Seq<SpecFunc>, SpecError>(
                er@,
            ),
        },
    decreases prog@.len() - i,
{
    if i >= prog.len() {
        let r: Vec<IrFunction> = Vec::new();
        proof {
            assert(r@.map_values(|f: IrFunction| f@) =~= Seq::<SpecFunc>::empty());
        }
        Ok(r)
    } else {
        let st: &Statement = &prog[i];
        match st {
            Statement::Function(name, params, ret, body) => {
                let f = match lower_function(name, params, ret, body, ft) {
                    Ok(f) => f,
                    Err(er) => {
                        return Err(er);
                    },
                };
                let ghost fv = f@;
                let mut rest = match lower_functions(prog, i + 1, ft) {
                    Ok(v) => v,
                    Err(er) => {
                        return Err(er);
                    },
                };
                let ghost rp = rest@;
                rest.insert(0, f);
                proof {
                    assert(rest@.map_values(|f2: IrFunction| f2@) =~= seq![fv] + rp.map_values(
                        |f2: IrFunction| f2@,
                    ));
                }
                Ok(rest)
            },
            _ => Err(CompileError::NonFunctionTopLevel),
        }
    }
}

/// Lowers a whole module: registers the built-in output primitives, then
/// every declared signature (so calls resolve by name regardless of
/// declaration order), then lowers each function in order against that one
/// table.  The result — success and IR alike — is `lower_module_spec` of
/// the AST, a function of the tree alone: lowering the same tree twice
/// yields structurally identical IR.
pub fn lower_module(prog: &Vec<Box<Statement>>) -> (r: Result<IrModule, CompileError>)
    ensures
        match r {
            Ok(m) => lower_module_spec(prog@) == Ok::<Seq<SpecFunc>, SpecError>(m@),
            Err(er) => lower_module_spec(prog@) == Err::<Seq<SpecFunc>, SpecError>(er@),
        },
{
    let mut ft = FuncTable::new();
    let mut print_params: Vec<IrType> = Vec::new();
    print_params.push(IrType::Str);
    ft.insert("print".to_owned(), print_params, Option::None);
    let mut print_num_params: Vec<IrType> = Vec::new();
    print_num_params.push(IrType::F64);
    ft.insert("print_num".to_owned(), print_num_params, Option::None);
    proof {
        assert(ft@ =~= builtins_spec());
    }
    match register_functions(prog, 0, &mut ft) {
        Ok(_) => {},
        Err(er) => {
            return Err(er);
        },
    };
    let fs = match lower_functions(prog, 0, &ft) {
        Ok(v) => v,
        Err(er) => {
            return Err(er);
        },
    };
    Ok(IrModule { functions: fs })
}

/// Lowering a whole module: built-ins are registered first, then every
/// declared signature, so that calls resolve by name regardless of
/// declaration order; then each function is lowered in order.  The result
/// is a function of the AST alone: lowering the same tree twice yields
/// structurally identical IR.
pub open spec fn lower_module_spec(prog: Seq<Box<Statement>>) -> Result<Seq<SpecFunc>, SpecError> {
    match register_spec(prog, 0, builtins_spec()) {
        Ok(ft) => lower_funcs_spec(prog, 0, ft),
        Err(er) => Err(er),
    }
}

} // verus!

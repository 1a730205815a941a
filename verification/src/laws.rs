//! The laws the lowering pass obeys, stated over the specification functions
//! and proved once and for all: what the resolver recognizes, how many
//! return instructions a generated function holds and where, that a
//! re-declared name resolves to its newest slot, when an identifier
//! reference fails, and that lowering is deterministic.

use vstd::prelude::*;
use crate::ast::{resolve_spec, Expr, Statement, Type};
use crate::error::SpecError;
use crate::ir::{IrType, SpecFunc, SpecInst, Value};
use crate::lower::{
    entry_builder_spec, has_trailing_return_spec, lemma_expr_blocks_grow, lower_block_spec,
    lower_expr_spec, lower_function_spec, lower_module_spec, lower_stmt_spec, materialize_spec,
    opt_param_tys_spec, SpecBuilder,
};
use crate::table::SpecSig;

verus! {

broadcast use vstd::string::group_string_axioms;

/// Every recognized type-annotation spelling resolves to its documented
/// primitive.
pub proof fn lemma_resolve_recognized()
    ensures
        resolve_spec("int"@) == Option::Some(Type::Integer(32)),
        resolve_spec("int32"@) == Option::Some(Type::Integer(32)),
        resolve_spec("int64"@) == Option::Some(Type::Integer(64)),
        resolve_spec("float"@) == Option::Some(Type::Float(32)),
        resolve_spec("float32"@) == Option::Some(Type::Float(32)),
        resolve_spec("float64"@) == Option::Some(Type::Float(64)),
        resolve_spec("string"@) == Option::Some(Type::String),
        resolve_spec("bool"@) == Option::Some(Type::Boolean),
{
    reveal_strlit("int");
    reveal_strlit("int32");
    reveal_strlit("int64");
    reveal_strlit("float");
    reveal_strlit("float32");
    reveal_strlit("float64");
    reveal_strlit("string");
    reveal_strlit("bool");
    assert("int"@.len() == 3);
    assert("int32"@.len() == 5);
    assert("int64"@.len() == 5);
    assert("float"@.len() == 5);
    assert("float32"@.len() == 7);
    assert("float64"@.len() == 7);
    assert("string"@.len() == 6);
    assert("bool"@.len() == 4);
    assert("int64"@[3] == '6' && "int32"@[3] == '3');
    assert("float64"@[5] == '6' && "float32"@[5] == '3');
    assert("float"@[0] == 'f' && "int32"@[0] == 'i' && "int64"@[0] == 'i');
}

/// Every spelling outside the recognized set resolves to nothing.
pub proof fn lemma_resolve_unrecognized(s: Seq<char>)
    requires
        s != "int"@,
        s != "int32"@,
        s != "int64"@,
        s != "float"@,
        s != "float32"@,
        s != "float64"@,
        s != "string"@,
        s != "bool"@,
    ensures
        resolve_spec(s) is None,
{
}

/// Is the instruction a return (void or value-carrying)?
pub open spec fn is_ret(i: SpecInst) -> bool {
    match i {
        SpecInst::Ret { .. } => true,
        _ => false,
    }
}

/// The number of return instructions in one block.
pub open spec fn ret_count_insts(blk: Seq<SpecInst>) -> nat
    decreases blk.len(),
{
    if blk.len() == 0 {
        0
    } else {
        ret_count_insts(blk.drop_last()) + if is_ret(blk.last()) {
            1nat
        } else {
            0nat
        }
    }
}

/// The number of return instructions in a whole function body.
pub open spec fn ret_count(blocks: Seq<Seq<SpecInst>>) -> nat
    decreases blocks.len(),
{
    if blocks.len() == 0 {
        0
    } else {
        ret_count(blocks.drop_last()) + ret_count_insts(blocks.last())
    }
}

proof fn lemma_rci_push(blk: Seq<SpecInst>, i: SpecInst)
    ensures
        ret_count_insts(blk.push(i)) == ret_count_insts(blk) + if is_ret(i) {
            1nat
        } else {
            0nat
        },
{
    assert(blk.push(i).drop_last() =~= blk);
    assert(blk.push(i).last() == i);
}

proof fn lemma_rc_push(blocks: Seq<Seq<SpecInst>>, blk: Seq<SpecInst>)
    ensures
        ret_count(blocks.push(blk)) == ret_count(blocks) + ret_count_insts(blk),
{
    assert(blocks.push(blk).drop_last() =~= blocks);
    assert(blocks.push(blk).last() == blk);
}

proof fn lemma_rc_update(blocks: Seq<Seq<SpecInst>>, k: int, blk: Seq<SpecInst>)
    requires
        0 <= k < blocks.len(),
    ensures
        ret_count(blocks.update(k, blk)) + ret_count_insts(blocks[k]) == ret_count(blocks)
            + ret_count_insts(blk),
    decreases blocks.len(),
{
    if k == blocks.len() - 1 {
        assert(blocks.update(k, blk).drop_last() =~= blocks.drop_last());
        assert(blocks.update(k, blk).last() == blk);
    } else {
        assert(blocks.update(k, blk).drop_last() =~= blocks.drop_last().update(k, blk));
        assert(blocks.update(k, blk).last() == blocks.last());
        assert(blocks.drop_last()[k] == blocks[k]);
        lemma_rc_update(blocks.drop_last(), k, blk);
    }
}

/// Appending one instruction raises the return count by one exactly when
/// the instruction is a return.
proof fn lemma_rc_emit(b: SpecBuilder, i: SpecInst)
    requires
        b.wf(),
    ensures
        ret_count(b.emit(i).blocks) == ret_count(b.blocks) + if is_ret(i) {
            1nat
        } else {
            0nat
        },
{
    lemma_rci_push(b.blocks[b.cur as int], i);
    lemma_rc_update(b.blocks, b.cur as int, b.blocks[b.cur as int].push(i));
}

proof fn lemma_rci_zero_no_rets(blk: Seq<SpecInst>)
    requires
        ret_count_insts(blk) == 0,
    ensures
        forall|j: int| 0 <= j < blk.len() ==> !is_ret(blk[j]),
    decreases blk.len(),
{
    if blk.len() > 0 {
        lemma_rci_zero_no_rets(blk.drop_last());
        assert forall|j: int| 0 <= j < blk.len() implies !is_ret(blk[j]) by {
            if j < blk.len() - 1 {
                assert(blk.drop_last()[j] == blk[j]);
            } else {
                assert(blk[j] == blk.last());
            }
        }
    }
}

proof fn lemma_rc_zero_no_rets(blocks: Seq<Seq<SpecInst>>)
    requires
        ret_count(blocks) == 0,
    ensures
        forall|k: int, j: int|
            0 <= k < blocks.len() && 0 <= j < blocks[k].len() ==> !is_ret(blocks[k][j]),
    decreases blocks.len(),
{
    if blocks.len() > 0 {
        lemma_rc_zero_no_rets(blocks.drop_last());
        lemma_rci_zero_no_rets(blocks.last());
        assert forall|k: int, j: int|
            0 <= k < blocks.len() && 0 <= j < blocks[k].len() implies !is_ret(blocks[k][j]) by {
            if k < blocks.len() - 1 {
                assert(blocks.drop_last()[k] == blocks[k]);
            } else {
                assert(blocks[k] == blocks.last());
            }
        }
    }
}

/// Does the statement contain no `Return`, anywhere (including inside the
/// bodies of its `If`s)?  A nested function definition is disregarded: the
/// statement lowerer rejects it outright.
pub open spec fn stmt_no_ret(s: Statement) -> bool
    decreases s, 0int,
{
    match s {
        Statement::Return(_) => false,
        Statement::If(_c, body) => block_no_ret(body@, 0),
        _ => true,
    }
}

/// Does the statement sequence, from index `i` on, contain no `Return`?
pub open spec fn block_no_ret(stmts: Seq<Box<Statement>>, i: int) -> bool
    decreases stmts, stmts.len() - i,
{
    i < 0 || i >= stmts.len() || (stmt_no_ret(*stmts[i]) && block_no_ret(stmts, i + 1))
}

proof fn lemma_block_no_ret_all(stmts: Seq<Box<Statement>>, i: int, k: int)
    requires
        block_no_ret(stmts, i),
        0 <= i <= k < stmts.len(),
    ensures
        stmt_no_ret(*stmts[k]),
    decreases k - i,
{
    if i < k {
        lemma_block_no_ret_all(stmts, i + 1, k);
    }
}

/// Lowering an expression emits no return instruction.
proof fn lemma_expr_rc(e: Expr, b: SpecBuilder, ft: Map<Seq<char>, SpecSig>)
    requires
        b.wf(),
    ensures
        match lower_expr_spec(e, b, ft) {
            Ok(p) => p.0.wf() && p.0.cur == b.cur && p.0.term == b.term && ret_count(p.0.blocks)
                == ret_count(b.blocks),
            Err(_) => true,
        },
    decreases e, 0int,
{
    match e {
        Expr::String(_s) => {
            lemma_rc_emit(b, SpecInst::StrConst { text: _s@ });
        },
        Expr::Identifier(name) => {
            if b.table.contains_key(name@) {
                lemma_rc_emit(
                    b,
                    SpecInst::Load { slot: b.table[name@].reg, ty: b.table[name@].ty },
                );
            }
        },
        Expr::Op(l, op, r) => {
            lemma_expr_rc(*l, b, ft);
            match lower_expr_spec(*l, b, ft) {
                Ok((b1, lv, lt)) => {
                    lemma_expr_rc(*r, b1, ft);
                    match lower_expr_spec(*r, b1, ft) {
                        Ok((b2, rv, rt)) => {
                            if crate::lower::op_valid(op, lt, rt) {
                                lemma_rc_emit(
                                    b2,
                                    SpecInst::BinOp { op, ty: lt.unwrap(), lhs: lv, rhs: rv },
                                );
                            }
                        },
                        Err(_) => {},
                    }
                },
                Err(_) => {},
            }
        },
        Expr::FunctionCall(name, args) => {
            if ft.contains_key(name@) {
                lemma_args_rc(args@, 0, b, ft);
                match crate::lower::lower_args_spec(args@, 0, b, ft) {
                    Ok((b1, vals)) => {
                        lemma_rc_emit(b1, SpecInst::Call { callee: name@, args: vals });
                    },
                    Err(_) => {},
                }
            }
        },
        _ => {},
    }
}

/// Lowering an argument list emits no return instruction.
proof fn lemma_args_rc(args: Seq<Box<Expr>>, i: int, b: SpecBuilder, ft: Map<Seq<char>, SpecSig>)
    requires
        b.wf(),
    ensures
        match crate::lower::lower_args_spec(args, i, b, ft) {
            Ok(p) => p.0.wf() && p.0.cur == b.cur && p.0.term == b.term && ret_count(p.0.blocks)
                == ret_count(b.blocks),
            Err(_) => true,
        },
    decreases args, args.len() - i,
{
    if 0 <= i < args.len() {
        lemma_expr_rc(*args[i], b, ft);
        match lower_expr_spec(*args[i], b, ft) {
            Ok((b1, _v, _t)) => {
                lemma_args_rc(args, i + 1, b1, ft);
            },
            Err(_) => {},
        }
    }
}

/// Lowering a return-free statement emits no return instruction and leaves
/// the termination flag as it was.
proof fn lemma_stmt_rc(s: Statement, b: SpecBuilder, ft: Map<Seq<char>, SpecSig>)
    requires
        b.wf(),
        stmt_no_ret(s),
    ensures
        match lower_stmt_spec(s, b, ft) {
            Ok(b1) => b1.wf() && b1.term == b.term && ret_count(b1.blocks) == ret_count(b.blocks),
            Err(_) => true,
        },
    decreases s, 0int,
{
    if !b.term {
        match s {
            Statement::Let(ann, name, init) => {
                lemma_expr_rc(*init, b, ft);
                match lower_expr_spec(*init, b, ft) {
                    Ok((b1, v, vt)) => match crate::lower::let_slot_ty_spec(ann, vt) {
                        Ok(st) => {
                            lemma_rc_emit(b1, SpecInst::Alloca { ty: st });
                            lemma_rc_emit(
                                b1.emit(SpecInst::Alloca { ty: st }),
                                SpecInst::Store { slot: b1.next_reg(), value: v },
                            );
                        },
                        Err(_) => {},
                    },
                    Err(_) => {},
                }
            },
            Statement::Expression(e) => {
                lemma_expr_rc(*e, b, ft);
            },
            Statement::If(cond, body) => {
                lemma_expr_rc(*cond, b, ft);
                match lower_expr_spec(*cond, b, ft) {
                    Ok((b1, cv, ct)) => if !(ct is None) {
                        let then_i = b1.blocks.len() as usize;
                        let b2 = SpecBuilder {
                            blocks: b1.blocks.push(Seq::empty()),
                            cur: b1.cur,
                            table: b1.table,
                            term: b1.term,
                        };
                        let cont_i = b2.blocks.len() as usize;
                        let b3 = SpecBuilder {
                            blocks: b2.blocks.push(Seq::empty()),
                            cur: b2.cur,
                            table: b2.table,
                            term: b2.term,
                        };
                        lemma_rc_push(b1.blocks, Seq::empty());
                        lemma_rc_push(b2.blocks, Seq::empty());
                        let b4 = b3.emit(
                            SpecInst::CondBr { cond: cv, then_block: then_i, cont_block: cont_i },
                        );
                        lemma_rc_emit(
                            b3,
                            SpecInst::CondBr { cond: cv, then_block: then_i, cont_block: cont_i },
                        );
                        let b5 = SpecBuilder {
                            blocks: b4.blocks,
                            cur: then_i,
                            table: b4.table,
                            term: b4.term,
                        };
                        lemma_block_rc(body@, 0, b5, ft);
                        crate::lower::lemma_block_blocks_grow(body@, 0, b5, ft);
                        match lower_block_spec(body@, 0, b5, ft) {
                            Ok(b6) => {
                                if !b6.term {
                                    lemma_rc_emit(b6, SpecInst::Br { target: cont_i });
                                }
                            },
                            Err(_) => {},
                        }
                    },
                    Err(_) => {},
                }
            },
            _ => {},
        }
    }
}

/// Lowering a return-free statement sequence emits no return instruction
/// and leaves the termination flag as it was.
proof fn lemma_block_rc(
    stmts: Seq<Box<Statement>>,
    i: int,
    b: SpecBuilder,
    ft: Map<Seq<char>, SpecSig>,
)
    requires
        b.wf(),
        block_no_ret(stmts, i),
    ensures
        match lower_block_spec(stmts, i, b, ft) {
            Ok(b1) => b1.wf() && b1.term == b.term && ret_count(b1.blocks) == ret_count(b.blocks),
            Err(_) => true,
        },
    decreases stmts, stmts.len() - i,
{
    if 0 <= i < stmts.len() {
        lemma_stmt_rc(*stmts[i], b, ft);
        match lower_stmt_spec(*stmts[i], b, ft) {
            Ok(b1) => {
                lemma_block_rc(stmts, i + 1, b1, ft);
            },
            Err(_) => {},
        }
    }
}

/// Materializing parameters emits no return instruction.
proof fn lemma_materialize_rc(ps: Seq<(Type, String)>, tys: Seq<IrType>, i: int, b: SpecBuilder)
    requires
        b.wf(),
    ensures
        materialize_spec(ps, tys, i, b).wf(),
        materialize_spec(ps, tys, i, b).term == b.term,
        ret_count(materialize_spec(ps, tys, i, b).blocks) == ret_count(b.blocks),
    decreases ps.len() - i,
{
    if 0 <= i < ps.len() && i < tys.len() {
        let slot = b.next_reg();
        let b1 = b.emit(SpecInst::Alloca { ty: tys[i] });
        lemma_rc_emit(b, SpecInst::Alloca { ty: tys[i] });
        lemma_rc_emit(b1, SpecInst::StoreArg { slot, index: i as usize });
        let b2 = b1.emit(SpecInst::StoreArg { slot, index: i as usize });
        let b3 = SpecBuilder {
            blocks: b2.blocks,
            cur: b2.cur,
            table: b2.table.insert(ps[i].1@, crate::table::SlotInfo { reg: slot, ty: tys[i] }),
            term: b2.term,
        };
        lemma_materialize_rc(ps, tys, i + 1, b3);
    }
}

/// The fresh entry context holds no return instruction.
proof fn lemma_entry_rc()
    ensures
        ret_count(entry_builder_spec().blocks) == 0,
        entry_builder_spec().wf(),
        !entry_builder_spec().term,
{
    let blocks = entry_builder_spec().blocks;
    assert(ret_count(Seq::<Seq<SpecInst>>::empty()) == 0);
    assert(ret_count_insts(Seq::<SpecInst>::empty()) == 0);
    assert(blocks.drop_last() =~= Seq::<Seq<SpecInst>>::empty());
    assert(blocks.last() =~= Seq::<SpecInst>::empty());
}

/// The build context a function body starts from, after its parameters
/// have been materialized (meaningful when the signature translates).
pub open spec fn body_entry_spec(params: Option<Vec<(Type, String)>>) -> SpecBuilder {
    match opt_param_tys_spec(params) {
        Ok(tys) => match params {
            Option::Some(ps) => materialize_spec(ps@, tys, 0, entry_builder_spec()),
            Option::None => entry_builder_spec(),
        },
        Err(_) => entry_builder_spec(),
    }
}

/// A function whose body contains no `Return` at all — in particular one
/// with an empty body — is terminated by exactly one return instruction: a
/// void return, standing last in the block it ends in.  (This documents the
/// current behavior also for non-void signatures: such a function silently
/// receives a void return rather than a missing-return error.)
pub proof fn lemma_implicit_void_return(
    name: Seq<char>,
    params: Option<Vec<(Type, String)>>,
    ret: Option<Type>,
    body: Seq<Box<Statement>>,
    ft: Map<Seq<char>, SpecSig>,
)
    requires
        block_no_ret(body, 0),
    ensures
        match lower_function_spec(name, params, ret, body, ft) {
            Ok(f) => ret_count(f.blocks) == 1 && (forall|k: int, j: int|
                0 <= k < f.blocks.len() && 0 <= j < f.blocks[k].len() && is_ret(f.blocks[k][j])
                    ==> f.blocks[k][j] == (SpecInst::Ret { value: Option::None }) && j
                    == f.blocks[k].len() - 1),
            Err(_) => true,
        },
{
    match opt_param_tys_spec(params) {
        Ok(tys) => match crate::lower::ret_ty_spec(ret) {
            Ok(_rt) => {
                lemma_entry_rc();
                let b0 = entry_builder_spec();
                let b1 = body_entry_spec(params);
                match params {
                    Option::Some(ps) => {
                        lemma_materialize_rc(ps@, tys, 0, b0);
                    },
                    Option::None => {},
                }
                lemma_block_rc(body, 0, b1, ft);
                match lower_block_spec(body, 0, b1, ft) {
                    Ok(b2) => {
                        if body.len() > 0 {
                            lemma_block_no_ret_all(body, 0, body.len() - 1);
                        }
                        assert(!has_trailing_return_spec(body));
                        lemma_rc_emit(b2, SpecInst::Ret { value: Option::None });
                        lemma_rc_zero_no_rets(b2.blocks);
                        let bf = b2.emit(SpecInst::Ret { value: Option::None });
                        assert forall|k: int, j: int|
                            0 <= k < bf.blocks.len() && 0 <= j < bf.blocks[k].len() && is_ret(
                                bf.blocks[k][j],
                            ) implies bf.blocks[k][j] == (SpecInst::Ret {
                            value: Option::None,
                        }) && j == bf.blocks[k].len() - 1 by {
                            if k != b2.cur {
                                assert(bf.blocks[k] == b2.blocks[k]);
                            } else {
                                assert(bf.blocks[k] == b2.blocks[b2.cur as int].push(
                                    SpecInst::Ret { value: Option::None },
                                ));
                                if j < bf.blocks[k].len() - 1 {
                                    assert(bf.blocks[k][j] == b2.blocks[b2.cur as int][j]);
                                }
                            }
                        }
                    },
                    Err(_) => {},
                }
            },
            Err(_) => {},
        },
        Err(_) => {},
    }
}

/// Splitting off the last statement: lowering a sequence up to and
/// including `x` is lowering the sequence and then `x`.
proof fn lemma_block_split_last(
    stmts: Seq<Box<Statement>>,
    x: Box<Statement>,
    i: int,
    b: SpecBuilder,
    ft: Map<Seq<char>, SpecSig>,
)
    requires
        0 <= i <= stmts.len(),
    ensures
        lower_block_spec(stmts.push(x), i, b, ft) == (match lower_block_spec(stmts, i, b, ft) {
            Ok(b1) => lower_stmt_spec(*x, b1, ft),
            Err(er) => Err(er),
        }),
    decreases stmts.len() - i,
{
    if i < stmts.len() {
        assert(stmts.push(x)[i] == stmts[i]);
        match lower_stmt_spec(*stmts[i], b, ft) {
            Ok(b1) => {
                lemma_block_split_last(stmts, x, i + 1, b1, ft);
            },
            Err(_) => {},
        }
    } else {
        assert(stmts.push(x)[i] == x);
        match lower_stmt_spec(*x, b, ft) {
            Ok(b1) => {
                assert(lower_block_spec(stmts.push(x), i + 1, b1, ft) == Ok::<
                    SpecBuilder,
                    SpecError,
                >(b1));
            },
            Err(_) => {},
        }
    }
}

/// A function whose last statement is an explicit `Return` with a value,
/// and whose other statements contain no `Return`, is terminated by exactly
/// one return instruction: the one carrying the lowered value of that
/// expression — and no trailing void return is appended (the generated
/// blocks are precisely those standing after that return was emitted).
pub proof fn lemma_trailing_value_return(
    name: Seq<char>,
    params: Option<Vec<(Type, String)>>,
    ret: Option<Type>,
    body: Seq<Box<Statement>>,
    e: Box<Expr>,
    ft: Map<Seq<char>, SpecSig>,
)
    requires
        body.len() > 0,
        *body[body.len() - 1] == Statement::Return(Option::Some(e)),
        block_no_ret(body.take(body.len() - 1), 0),
    ensures
        ({
            let pre = body.take(body.len() - 1);
            match lower_function_spec(name, params, ret, body, ft) {
                Ok(f) => match lower_block_spec(pre, 0, body_entry_spec(params), ft) {
                    Ok(bp) => match lower_expr_spec(*e, bp, ft) {
                        Ok((bv, v, _t)) => ret_count(f.blocks) == 1 && f.blocks == bv.emit(
                            SpecInst::Ret { value: Option::Some(v) },
                        ).blocks,
                        Err(_) => false,
                    },
                    Err(_) => false,
                },
                Err(_) => true,
            }
        }),
{
    let pre = body.take(body.len() - 1);
    assert(body =~= pre.push(body[body.len() - 1]));
    match opt_param_tys_spec(params) {
        Ok(tys) => match crate::lower::ret_ty_spec(ret) {
            Ok(_rt) => {
                lemma_entry_rc();
                let b0 = entry_builder_spec();
                let b1 = body_entry_spec(params);
                match params {
                    Option::Some(ps) => {
                        lemma_materialize_rc(ps@, tys, 0, b0);
                    },
                    Option::None => {},
                }
                lemma_block_split_last(pre, body[body.len() - 1], 0, b1, ft);
                lemma_block_rc(pre, 0, b1, ft);
                match lower_block_spec(pre, 0, b1, ft) {
                    Ok(bp) => {
                        lemma_expr_rc(*e, bp, ft);
                        match lower_expr_spec(*e, bp, ft) {
                            Ok((bv, v, _t)) => {
                                lemma_rc_emit(bv, SpecInst::Ret { value: Option::Some(v) });
                                assert(has_trailing_return_spec(body));
                            },
                            Err(_) => {},
                        }
                    },
                    Err(_) => {},
                }
            },
            Err(_) => {},
        },
        Err(_) => {},
    }
}

/// A second `Let` of the same name within one function overwrites the
/// earlier binding: afterwards the name is bound to the slot the second
/// `Let` allocated — a different slot than the first — and a reference to
/// the name loads that second slot, never the first.
pub proof fn lemma_let_overwrites(
    t1: Option<String>,
    t2: Option<String>,
    n: String,
    e1: Box<Expr>,
    e2: Box<Expr>,
    b: SpecBuilder,
    ft: Map<Seq<char>, SpecSig>,
)
    requires
        b.wf(),
        !b.term,
        // machine limit: the block being built stays addressable
        ({
            match lower_stmt_spec(Statement::Let(t1, n, e1), b, ft) {
                Ok(b1) => match lower_expr_spec(*e2, b1, ft) {
                    Ok((bx, _v, _t)) => bx.blocks[bx.cur as int].len() <= usize::MAX,
                    Err(_) => true,
                },
                Err(_) => true,
            }
        }),
    ensures
        match lower_stmt_spec(Statement::Let(t1, n, e1), b, ft) {
            Ok(b1) => match lower_stmt_spec(Statement::Let(t2, n, e2), b1, ft) {
                Ok(b2) => match lower_expr_spec(*e2, b1, ft) {
                    Ok((bx, _v2, _vt2)) => {
                        let slot2 = bx.next_reg();
                        &&& b2.table.contains_key(n@)
                        &&& b2.table[n@].reg == slot2
                        &&& match lower_expr_spec(*e1, b, ft) {
                            Ok((by, _v1, _vt1)) => by.next_reg() != slot2,
                            Err(_) => false,
                        }
                        &&& match lower_expr_spec(Expr::Identifier(n), b2, ft) {
                            Ok((b3, v, t)) => b3 == b2.emit(
                                SpecInst::Load { slot: slot2, ty: b2.table[n@].ty },
                            ) && v == Value::Reg(b2.next_reg()) && t == Option::Some(
                                b2.table[n@].ty,
                            ),
                            Err(_) => false,
                        }
                    },
                    Err(_) => false,
                },
                Err(_) => true,
            },
            Err(_) => true,
        },
{
    lemma_expr_blocks_grow(*e1, b, ft);
    lemma_expr_rc(*e1, b, ft);
    match lower_expr_spec(*e1, b, ft) {
        Ok((by, v1, vt1)) => match crate::lower::let_slot_ty_spec(t1, vt1) {
            Ok(st1) => {
                let slot1 = by.next_reg();
                let c1 = by.emit(SpecInst::Alloca { ty: st1 });
                let c2 = c1.emit(SpecInst::Store { slot: slot1, value: v1 });
                let b1 = SpecBuilder {
                    blocks: c2.blocks,
                    cur: c2.cur,
                    table: c2.table.insert(n@, crate::table::SlotInfo { reg: slot1, ty: st1 }),
                    term: c2.term,
                };
                assert(b1.blocks[b1.cur as int].len() >= slot1.inst + 2);
                lemma_expr_blocks_grow(*e2, b1, ft);
                lemma_expr_rc(*e2, b1, ft);
                match lower_expr_spec(*e2, b1, ft) {
                    Ok((bx, _v2, _vt2)) => {
                        assert(bx.next_reg().inst > slot1.inst);
                    },
                    Err(_) => {},
                }
            },
            Err(_) => {},
        },
        Err(_) => {},
    }
}

/// A reference to an identifier fails with undefined-reference exactly when
/// the name has no binding in the current function; when it is bound, the
/// reference lowers to a load of the bound slot (the failing case returns
/// the error without any instruction referencing the name).
pub proof fn lemma_undefined_reference(n: String, b: SpecBuilder, ft: Map<Seq<char>, SpecSig>)
    ensures
        (!b.table.contains_key(n@)) <==> lower_expr_spec(Expr::Identifier(n), b, ft) == Err::<
            (SpecBuilder, Value, Option<IrType>),
            SpecError,
        >(SpecError::UndefinedReference(n@)),
        b.table.contains_key(n@) ==> lower_expr_spec(Expr::Identifier(n), b, ft) == Ok::<
            (SpecBuilder, Value, Option<IrType>),
            SpecError,
        >(
            (
                b.emit(SpecInst::Load { slot: b.table[n@].reg, ty: b.table[n@].ty }),
                Value::Reg(b.next_reg()),
                Option::Some(b.table[n@].ty),
            ),
        ),
{
}

/// Lowering is deterministic: the outcome — success and the whole IR, or
/// the error — is a function of the AST alone, so lowering the same tree
/// twice (into a fresh module each time) yields structurally identical IR.
pub proof fn lemma_lowering_deterministic(
    prog: Seq<Box<Statement>>,
    r1: Result<Seq<SpecFunc>, SpecError>,
    r2: Result<Seq<SpecFunc>, SpecError>,
)
    requires
        r1 == lower_module_spec(prog),
        r2 == lower_module_spec(prog),
    ensures
        r1 == r2,
{
}

} // verus!

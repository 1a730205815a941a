use azlc::ast::{Expr, Opcode, Statement, Type};
use azlc::error::CompileError;
use azlc::ir::{Inst, IrType, Linkage, RegId, Value};
use azlc::lower::lower_module;

fn ident(name: &str) -> Box<Expr> {
    Box::new(Expr::Identifier(name.to_string()))
}

fn num(x: f64) -> Box<Expr> {
    Box::new(Expr::Number(x.to_bits()))
}

fn func(
    name: &str,
    params: Option<Vec<(Type, String)>>,
    ret: Option<Type>,
    body: Vec<Box<Statement>>,
) -> Box<Statement> {
    Box::new(Statement::Function(name.to_string(), params, ret, body))
}

fn add_program() -> Vec<Box<Statement>> {
    vec![func(
        "add",
        Some(vec![
            (Type::Integer(32), "x".to_string()),
            (Type::Integer(32), "y".to_string()),
        ]),
        Some(Type::Integer(32)),
        vec![Box::new(Statement::Return(Some(Box::new(Expr::Op(
            ident("x"),
            Opcode::Add,
            ident("y"),
        )))))],
    )]
}

#[test]
fn add_function_scenario() {
    let m = lower_module(&add_program()).unwrap();
    assert_eq!(m.functions.len(), 1);
    let f = &m.functions[0];
    assert_eq!(f.name, "add");
    assert_eq!(f.linkage, Linkage::Private);
    assert_eq!(f.params, vec![IrType::I32, IrType::I32]);
    assert_eq!(f.ret, Some(IrType::I32));
    assert_eq!(f.blocks.len(), 1);
    let insts = &f.blocks[0].insts;
    assert_eq!(insts.len(), 8);
    assert_eq!(insts[0], Inst::Alloca { ty: IrType::I32 });
    assert_eq!(
        insts[1],
        Inst::StoreArg { slot: RegId { block: 0, inst: 0 }, index: 0 }
    );
    assert_eq!(insts[2], Inst::Alloca { ty: IrType::I32 });
    assert_eq!(
        insts[3],
        Inst::StoreArg { slot: RegId { block: 0, inst: 2 }, index: 1 }
    );
    assert_eq!(
        insts[4],
        Inst::Load { slot: RegId { block: 0, inst: 0 }, ty: IrType::I32 }
    );
    assert_eq!(
        insts[5],
        Inst::Load { slot: RegId { block: 0, inst: 2 }, ty: IrType::I32 }
    );
    assert_eq!(
        insts[6],
        Inst::BinOp {
            op: Opcode::Add,
            ty: IrType::I32,
            lhs: Value::Reg(RegId { block: 0, inst: 4 }),
            rhs: Value::Reg(RegId { block: 0, inst: 5 }),
        }
    );
    // exactly one return, carrying the sum; no trailing void return
    assert_eq!(
        insts[7],
        Inst::Ret { value: Some(Value::Reg(RegId { block: 0, inst: 6 })) }
    );
}

fn main_if_program() -> Vec<Box<Statement>> {
    vec![func(
        "main",
        None,
        Some(Type::Integer(32)),
        vec![
            Box::new(Statement::Let(
                Some("int32".to_string()),
                "z".to_string(),
                num(5.0),
            )),
            Box::new(Statement::If(
                ident("z"),
                vec![Box::new(Statement::Return(Some(ident("z"))))],
            )),
            Box::new(Statement::Return(Some(num(0.0)))),
        ],
    )]
}

#[test]
fn main_if_scenario() {
    let m = lower_module(&main_if_program()).unwrap();
    assert_eq!(m.functions.len(), 1);
    let f = &m.functions[0];
    assert_eq!(f.name, "main");
    assert_eq!(f.linkage, Linkage::Default);
    // two basic blocks beyond the entry block: then-block and continue-block
    assert_eq!(f.blocks.len(), 3);
    let entry = &f.blocks[0].insts;
    assert_eq!(entry[0], Inst::Alloca { ty: IrType::I32 });
    assert_eq!(
        entry[1],
        Inst::Store {
            slot: RegId { block: 0, inst: 0 },
            value: Value::FloatConst(5.0f64.to_bits()),
        }
    );
    assert_eq!(
        entry[2],
        Inst::Load { slot: RegId { block: 0, inst: 0 }, ty: IrType::I32 }
    );
    assert_eq!(
        entry[3],
        Inst::CondBr {
            cond: Value::Reg(RegId { block: 0, inst: 2 }),
            then_block: 1,
            cont_block: 2,
        }
    );
    // each reachable return lowers independently
    let then_blk = &f.blocks[1].insts;
    assert_eq!(
        then_blk[0],
        Inst::Load { slot: RegId { block: 0, inst: 0 }, ty: IrType::I32 }
    );
    assert_eq!(
        then_blk[1],
        Inst::Ret { value: Some(Value::Reg(RegId { block: 1, inst: 0 })) }
    );
    assert_eq!(then_blk.len(), 2);
    let cont_blk = &f.blocks[2].insts;
    assert_eq!(
        cont_blk[0],
        Inst::Ret { value: Some(Value::FloatConst(0.0f64.to_bits())) }
    );
    assert_eq!(cont_blk.len(), 1);
}

#[test]
fn let_redeclaration_overwrites() {
    let prog = vec![func(
        "main",
        None,
        None,
        vec![
            Box::new(Statement::Let(None, "a".to_string(), num(5.0))),
            Box::new(Statement::Let(
                Some("bool".to_string()),
                "a".to_string(),
                Box::new(Expr::Boolean(true)),
            )),
            Box::new(Statement::Return(Some(ident("a")))),
        ],
    )];
    let m = lower_module(&prog).unwrap();
    let insts = &m.functions[0].blocks[0].insts;
    // first slot at (0,0) holds the float; second slot at (0,2) holds the bool
    assert_eq!(insts[0], Inst::Alloca { ty: IrType::F64 });
    assert_eq!(insts[2], Inst::Alloca { ty: IrType::Bool });
    // the reference after the second Let loads the second slot, never the first
    assert_eq!(
        insts[4],
        Inst::Load { slot: RegId { block: 0, inst: 2 }, ty: IrType::Bool }
    );
}

#[test]
fn undefined_identifier_fails() {
    let prog = vec![func(
        "main",
        None,
        None,
        vec![Box::new(Statement::Return(Some(ident("x"))))],
    )];
    assert_eq!(
        lower_module(&prog),
        Err(CompileError::UndefinedReference("x".to_string()))
    );
}

#[test]
fn undefined_callee_fails() {
    let prog = vec![func(
        "main",
        None,
        None,
        vec![Box::new(Statement::Expression(Box::new(Expr::FunctionCall(
            "nope".to_string(),
            vec![],
        ))))],
    )];
    assert_eq!(
        lower_module(&prog),
        Err(CompileError::UndefinedReference("nope".to_string()))
    );
}

#[test]
fn lowering_is_idempotent() {
    let m1 = lower_module(&add_program()).unwrap();
    let m2 = lower_module(&add_program()).unwrap();
    assert_eq!(m1, m2);
    let m3 = lower_module(&main_if_program()).unwrap();
    let m4 = lower_module(&main_if_program()).unwrap();
    assert_eq!(m3, m4);
}

#[test]
fn unresolved_annotation_fails() {
    let prog = vec![func(
        "main",
        None,
        None,
        vec![Box::new(Statement::Let(
            Some("quux".to_string()),
            "y".to_string(),
            num(1.0),
        ))],
    )];
    assert_eq!(
        lower_module(&prog),
        Err(CompileError::UnresolvedType("quux".to_string()))
    );
}

#[test]
fn unimplemented_width_fails() {
    let prog = vec![func(
        "f",
        Some(vec![(Type::Integer(16), "x".to_string())]),
        None,
        vec![],
    )];
    assert_eq!(
        lower_module(&prog),
        Err(CompileError::UnimplementedWidth(16))
    );
}

#[test]
fn non_function_at_top_level_fails() {
    let prog: Vec<Box<Statement>> =
        vec![Box::new(Statement::Let(None, "a".to_string(), num(1.0)))];
    assert_eq!(lower_module(&prog), Err(CompileError::NonFunctionTopLevel));
}

#[test]
fn nested_function_fails() {
    let prog = vec![func(
        "outer",
        None,
        None,
        vec![func("inner", None, None, vec![])],
    )];
    assert_eq!(lower_module(&prog), Err(CompileError::NestedFunction));
}

#[test]
fn operand_mismatch_fails() {
    let prog = vec![func(
        "main",
        None,
        None,
        vec![Box::new(Statement::Expression(Box::new(Expr::Op(
            num(1.0),
            Opcode::Add,
            Box::new(Expr::Boolean(true)),
        ))))],
    )];
    assert_eq!(lower_module(&prog), Err(CompileError::OperandMismatch));
}

#[test]
fn empty_body_gets_void_return() {
    let prog = vec![func("f", None, None, vec![])];
    let m = lower_module(&prog).unwrap();
    let f = &m.functions[0];
    assert_eq!(f.blocks.len(), 1);
    assert_eq!(f.blocks[0].insts, vec![Inst::Ret { value: None }]);
}

#[test]
fn trailing_non_return_gets_void_return() {
    let prog = vec![func(
        "f",
        None,
        None,
        vec![Box::new(Statement::Let(None, "x".to_string(), num(1.0)))],
    )];
    let m = lower_module(&prog).unwrap();
    let insts = &m.functions[0].blocks[0].insts;
    // slot, store, then exactly one appended void return
    assert_eq!(insts.len(), 3);
    assert_eq!(insts[2], Inst::Ret { value: None });
}

#[test]
fn dead_code_after_return_not_emitted() {
    let prog = vec![func(
        "f",
        None,
        None,
        vec![
            Box::new(Statement::Return(Some(num(1.0)))),
            Box::new(Statement::Let(None, "x".to_string(), num(2.0))),
            Box::new(Statement::Return(Some(num(3.0)))),
        ],
    )];
    let m = lower_module(&prog).unwrap();
    let insts = &m.functions[0].blocks[0].insts;
    // only the first return is emitted; the trailing statements are dead,
    // and the last statement being a Return means no void return is added
    assert_eq!(
        insts,
        &vec![Inst::Ret { value: Some(Value::FloatConst(1.0f64.to_bits())) }]
    );
}

#[test]
fn builtin_print_call() {
    let prog = vec![func(
        "main",
        None,
        None,
        vec![Box::new(Statement::Expression(Box::new(Expr::FunctionCall(
            "print".to_string(),
            vec![Box::new(Expr::String("hi".to_string()))],
        ))))],
    )];
    let m = lower_module(&prog).unwrap();
    let insts = &m.functions[0].blocks[0].insts;
    assert_eq!(insts[0], Inst::StrConst { text: "hi".to_string() });
    assert_eq!(
        insts[1],
        Inst::Call {
            callee: "print".to_string(),
            args: vec![Value::Reg(RegId { block: 0, inst: 0 })],
        }
    );
    assert_eq!(insts[2], Inst::Ret { value: None });
}

#[test]
fn forward_reference_resolves() {
    // `main` calls `helper`, declared after it: registration precedes lowering
    let prog = vec![
        func(
            "main",
            None,
            Some(Type::Integer(32)),
            vec![Box::new(Statement::Return(Some(Box::new(
                Expr::FunctionCall("helper".to_string(), vec![]),
            ))))],
        ),
        func(
            "helper",
            None,
            Some(Type::Integer(32)),
            vec![Box::new(Statement::Return(Some(num(7.0))))],
        ),
    ];
    let m = lower_module(&prog).unwrap();
    assert_eq!(m.functions.len(), 2);
    let insts = &m.functions[0].blocks[0].insts;
    assert_eq!(
        insts[0],
        Inst::Call { callee: "helper".to_string(), args: vec![] }
    );
}

#[test]
fn comparison_and_logic_ops() {
    // (x < y) and true — comparison on ints yields bool, And needs bools
    let prog = vec![func(
        "f",
        Some(vec![
            (Type::Integer(64), "x".to_string()),
            (Type::Integer(64), "y".to_string()),
        ]),
        Some(Type::Boolean),
        vec![Box::new(Statement::Return(Some(Box::new(Expr::Op(
            Box::new(Expr::Op(ident("x"), Opcode::LessThan, ident("y"))),
            Opcode::And,
            Box::new(Expr::Boolean(true)),
        )))))],
    )];
    let m = lower_module(&prog).unwrap();
    let insts = &m.functions[0].blocks[0].insts;
    assert_eq!(
        insts[6],
        Inst::BinOp {
            op: Opcode::LessThan,
            ty: IrType::I64,
            lhs: Value::Reg(RegId { block: 0, inst: 4 }),
            rhs: Value::Reg(RegId { block: 0, inst: 5 }),
        }
    );
    assert_eq!(
        insts[7],
        Inst::BinOp {
            op: Opcode::And,
            ty: IrType::Bool,
            lhs: Value::Reg(RegId { block: 0, inst: 6 }),
            rhs: Value::BoolConst(true),
        }
    );
}

#[test]
fn if_body_let_leaks_into_function_scope() {
    // one flat storage table per function: a Let inside an If body is
    // visible after the If
    let prog = vec![func(
        "f",
        None,
        None,
        vec![
            Box::new(Statement::If(
                Box::new(Expr::Boolean(true)),
                vec![Box::new(Statement::Let(None, "w".to_string(), num(1.0)))],
            )),
            Box::new(Statement::Expression(ident("w"))),
        ],
    )];
    assert!(lower_module(&prog).is_ok());
}

#[test]
fn void_call_result_cannot_be_bound() {
    // print returns no value; binding its result without an annotation fails
    let prog = vec![func(
        "f",
        None,
        None,
        vec![Box::new(Statement::Let(
            None,
            "x".to_string(),
            Box::new(Expr::FunctionCall(
                "print".to_string(),
                vec![Box::new(Expr::String("s".to_string()))],
            )),
        ))],
    )];
    assert_eq!(lower_module(&prog), Err(CompileError::OperandMismatch));
}

#[test]
fn string_operands_reject_operators() {
    let prog = vec![func(
        "f",
        None,
        None,
        vec![Box::new(Statement::Expression(Box::new(Expr::Op(
            Box::new(Expr::String("a".to_string())),
            Opcode::Eq,
            Box::new(Expr::String("b".to_string())),
        ))))],
    )];
    assert_eq!(lower_module(&prog), Err(CompileError::OperandMismatch));
}

#[test]
fn void_condition_rejected() {
    let prog = vec![func(
        "f",
        None,
        None,
        vec![Box::new(Statement::If(
            Box::new(Expr::FunctionCall(
                "print".to_string(),
                vec![Box::new(Expr::String("s".to_string()))],
            )),
            vec![],
        ))],
    )];
    assert_eq!(lower_module(&prog), Err(CompileError::OperandMismatch));
}

#[test]
fn later_declaration_overwrites_function_table_entry() {
    // two functions of the same name: the later signature wins for calls
    let prog = vec![
        func("g", None, None, vec![]),
        func(
            "g",
            None,
            Some(Type::Integer(32)),
            vec![Box::new(Statement::Return(Some(num(1.0))))],
        ),
        func(
            "main",
            None,
            Some(Type::Integer(32)),
            vec![Box::new(Statement::Return(Some(Box::new(
                Expr::FunctionCall("g".to_string(), vec![]),
            ))))],
        ),
    ];
    let m = lower_module(&prog).unwrap();
    assert_eq!(m.functions.len(), 3);
    assert_eq!(m.functions[2].ret, Some(IrType::I32));
}

//! End-to-end and unit tests for the middle end: widening, return
//! unification, declaration checking, call boxing, lowering order and
//! discard elision, exercised on concrete programs.

use middlec::analysis::{get_fn_type, Analyzer};
use middlec::ast::{Expr, Function};
use middlec::gen::Codegen;
use middlec::ir::{get_op_type, get_ops_type, IROp};
use middlec::typed::{AnalyzedExpr, TypedExpr};
use middlec::types::{unify_rets, widen, Const, ConstType, ErrKind, Ident};

fn ident(name: &str) -> Ident {
    Ident { val: name.to_string(), tag: None }
}

fn int_lit(i: i32) -> Expr {
    Expr::Literal(Const::Int(i))
}

fn float_lit(bits: u32) -> Expr {
    Expr::Literal(Const::Float(bits))
}

fn var(name: &str) -> Expr {
    Expr::Ident(ident(name))
}

fn binary(op: &str, l: Expr, r: Expr) -> Expr {
    Expr::BinaryExpr { op: op.to_string(), left: Box::new(l), right: Box::new(r) }
}

fn declare(name: &str, val: Expr) -> Expr {
    Expr::VarDeclare { name: ident(name), val: Box::new(val) }
}

fn assign(name: &str, val: Expr) -> Expr {
    Expr::VarAssign { name: ident(name), val: Box::new(val) }
}

fn ret(e: Expr) -> Expr {
    Expr::RetExpr(Box::new(e))
}

fn call(name: &str, args: Vec<Expr>) -> Expr {
    Expr::FnCall { name: ident(name), args }
}

#[test]
fn widen_table() {
    assert_eq!(widen(ConstType::Int, ConstType::Float), ConstType::Float);
    assert_eq!(widen(ConstType::Float, ConstType::Int), ConstType::Float);
    assert_eq!(widen(ConstType::Dynamic, ConstType::Str), ConstType::Dynamic);
    assert_eq!(widen(ConstType::Str, ConstType::Dynamic), ConstType::Dynamic);
    assert_eq!(widen(ConstType::Int, ConstType::Int), ConstType::Int);
    assert_eq!(widen(ConstType::Bool, ConstType::Bool), ConstType::Bool);
}

#[test]
fn widen_is_position_and_operator_free() {
    // The binary node's type comes from the operand types alone: the
    // same operands under different operators widen identically.
    for op in ["+", "-", "*", "/"] {
        let mut analyzer = Analyzer::new();
        let typed = analyzer
            .analyz(&binary(op, int_lit(1), float_lit(0x3fc0_0000)))
            .expect("analyze");
        assert_eq!(typed.ty, ConstType::Float);
    }
}

#[test]
fn widening_inserts_conversion_on_the_narrow_side() {
    let mut analyzer = Analyzer::new();
    let typed = analyzer
        .analyz(&binary("+", int_lit(1), float_lit(0x3fc0_0000)))
        .expect("analyze");
    assert_eq!(typed.ty, ConstType::Float);
    match typed.expr {
        AnalyzedExpr::BinaryExpr { left, right, .. } => {
            assert!(matches!(left.expr, AnalyzedExpr::As(_)));
            assert_eq!(left.ty, ConstType::Float);
            assert!(matches!(right.expr, AnalyzedExpr::Literal(Const::Float(_))));
        }
        other => panic!("expected a binary node, got {:?}", other),
    }
}

#[test]
fn unify_rets_table() {
    assert_eq!(unify_rets(ConstType::Int, ConstType::Int), ConstType::Int);
    assert_eq!(unify_rets(ConstType::Int, ConstType::Float), ConstType::Float);
    assert_eq!(unify_rets(ConstType::Float, ConstType::Int), ConstType::Float);
    assert_eq!(unify_rets(ConstType::Int, ConstType::Str), ConstType::Dynamic);
}

#[test]
fn return_unification_all_int_is_int() {
    let f = Function {
        name: ident("f"),
        args: vec![],
        body: vec![ret(int_lit(1)), ret(int_lit(2)), ret(int_lit(3))],
    };
    let typed = Analyzer::analyz_prog(vec![], vec![f]).expect("analyze");
    assert_eq!(typed.len(), 1);
    assert_eq!(typed[0].ty, ConstType::Int);
    // No conversion is owed: correction keeps every return bare.
    let mut analyzer = Analyzer::new();
    let corrected = analyzer.correct_prog(&typed).expect("correct");
    match &corrected[0].expr {
        AnalyzedExpr::Func { ret: rty, body, .. } => {
            assert_eq!(*rty, ConstType::Int);
            for node in body {
                match &node.expr {
                    AnalyzedExpr::RetExpr(inner) => {
                        assert!(matches!(inner.expr, AnalyzedExpr::Literal(_)));
                    }
                    other => panic!("expected a return, got {:?}", other),
                }
            }
        }
        other => panic!("expected a function, got {:?}", other),
    }
}

#[test]
fn return_unification_int_float_is_float_with_one_conversion() {
    let f = Function {
        name: ident("f"),
        args: vec![],
        body: vec![ret(int_lit(1)), ret(float_lit(0x3fc0_0000))],
    };
    let typed = Analyzer::analyz_prog(vec![], vec![f]).expect("analyze");
    assert_eq!(typed[0].ty, ConstType::Float);
    let mut analyzer = Analyzer::new();
    let corrected = analyzer.correct_prog(&typed).expect("correct");
    match &corrected[0].expr {
        AnalyzedExpr::Func { ret: rty, body, .. } => {
            assert_eq!(*rty, ConstType::Float);
            // The Int return is wrapped; the Float return is kept.
            match &body[0].expr {
                AnalyzedExpr::RetExpr(inner) => {
                    assert!(matches!(inner.expr, AnalyzedExpr::As(_)));
                    assert_eq!(inner.ty, ConstType::Float);
                }
                other => panic!("expected a return, got {:?}", other),
            }
            match &body[1].expr {
                AnalyzedExpr::RetExpr(inner) => {
                    assert!(matches!(inner.expr, AnalyzedExpr::Literal(_)));
                }
                other => panic!("expected a return, got {:?}", other),
            }
        }
        other => panic!("expected a function, got {:?}", other),
    }
}

#[test]
fn return_unification_int_str_is_dynamic() {
    // A Str-typed return is built from a declared variable, since a
    // bare string literal is an unsupported construct for this middle
    // end; Int against Str falls back to Dynamic, and correction then
    // wraps both returns.
    assert_eq!(unify_rets(ConstType::Int, ConstType::Str), ConstType::Dynamic);
    let body = vec![
        TypedExpr { expr: AnalyzedExpr::RetExpr(Box::new(TypedExpr {
            expr: AnalyzedExpr::Literal(Const::Int(1)),
            ty: ConstType::Int,
        })), ty: ConstType::Int },
        TypedExpr { expr: AnalyzedExpr::RetExpr(Box::new(TypedExpr {
            expr: AnalyzedExpr::Id("s".to_string(), 1),
            ty: ConstType::Str,
        })), ty: ConstType::Str },
    ];
    assert_eq!(get_fn_type(&body), ConstType::Dynamic);
}

#[test]
fn redeclaration_is_rejected() {
    for second in [int_lit(2), float_lit(0x3fc0_0000)] {
        let prog = vec![declare("x", int_lit(1)), declare("x", second)];
        let r = Analyzer::analyz_prog(prog, vec![]);
        assert!(matches!(r, Err(ErrKind::VarAlreadyDeclared)));
    }
}

#[test]
fn undeclared_reference_is_rejected() {
    let r = Analyzer::analyz_prog(vec![var("nope")], vec![]);
    assert!(matches!(r, Err(ErrKind::UndeclaredVar)));
}

#[test]
fn undeclared_assignment_is_rejected() {
    let r = Analyzer::analyz_prog(vec![assign("nope", int_lit(1))], vec![]);
    assert!(matches!(r, Err(ErrKind::UndeclaredVar)));
}

#[test]
fn undeclared_call_is_rejected() {
    let r = Analyzer::analyz_prog(vec![call("nope", vec![int_lit(1)])], vec![]);
    assert!(matches!(r, Err(ErrKind::UndeclaredVar)));
}

#[test]
fn call_arity_mismatch_is_rejected() {
    // writeln takes one argument.
    let r = Analyzer::analyz_prog(vec![call("writeln", vec![])], vec![]);
    assert!(matches!(r, Err(ErrKind::UndeclaredVar)));
}

#[test]
fn unsupported_literal_is_rejected() {
    let r = Analyzer::analyz_prog(vec![Expr::Literal(Const::Bool(true))], vec![]);
    assert!(matches!(r, Err(ErrKind::UnsupportedConstruct)));
    let r2 = Analyzer::analyz_prog(vec![Expr::WhileExpr {
        condition: Box::new(int_lit(1)),
        body: vec![],
    }], vec![]);
    assert!(matches!(r2, Err(ErrKind::UnsupportedConstruct)));
}

#[test]
fn call_arguments_are_boxed_dynamic() {
    let f = Function { name: ident("f"), args: vec![ident("a"), ident("b"), ident("c")], body: vec![ret(int_lit(1))] };
    let prog = vec![call("f", vec![int_lit(1), int_lit(2), int_lit(3)])];
    let typed = Analyzer::analyz_prog(prog, vec![f]).expect("analyze");
    // Re-register the signature so correction can re-read the call type;
    // the second element of the analyzed program is the top-level call.
    let mut corrector = Analyzer::new();
    corrector.env.push_function(
        ident("f"),
        vec![ident("a"), ident("b"), ident("c")],
        ConstType::Int,
    );
    let corrected_call = corrector.correct(&typed[1]).expect("correct");
    match corrected_call.expr {
        AnalyzedExpr::FnCall { args, .. } => {
            assert_eq!(args.len(), 3);
            for a in &args {
                assert_eq!(a.ty, ConstType::Dynamic);
                assert!(matches!(a.expr, AnalyzedExpr::As(_)));
            }
        }
        other => panic!("expected a call, got {:?}", other),
    }
}

#[test]
fn comparison_canonicalization() {
    // a < b and b > a lower to identical operand order and opcode.
    let prog1 = vec![declare("a", int_lit(1)), declare("b", int_lit(2)), binary("<", var("a"), var("b"))];
    let prog2 = vec![declare("a", int_lit(1)), declare("b", int_lit(2)), binary(">", var("b"), var("a"))];
    let mut ir1 = Vec::new();
    let mut ir2 = Vec::new();
    for (prog, out) in [(prog1, &mut ir1), (prog2, &mut ir2)] {
        let typed = Analyzer::analyz_prog(prog, vec![]).expect("analyze");
        let mut analyzer = Analyzer::new();
        let corrected = analyzer.correct_prog(&typed).expect("correct");
        let mut codegen = Codegen::new();
        *out = codegen.gen_prog(&corrected).expect("lower");
    }
    let tail1 = &ir1[ir1.len() - 3..];
    let tail2 = &ir2[ir2.len() - 3..];
    for (x, y) in tail1.iter().zip(tail2.iter()) {
        assert_eq!(format!("{:?}", x), format!("{:?}", y));
    }
    assert!(matches!(tail1[2], IROp::Comp(ConstType::Bool)));
    match (&tail1[0], &tail1[1]) {
        (IROp::Load(_, first), IROp::Load(_, second)) => {
            assert_eq!(first, "a");
            assert_eq!(second, "b");
        }
        other => panic!("expected two loads, got {:?}", other),
    }
}

#[test]
fn discard_elision() {
    // Discarding a non-Void expression emits one trailing pop.
    let prog = vec![Expr::Discard(Box::new(int_lit(7)))];
    let typed = Analyzer::analyz_prog(prog, vec![]).expect("analyze");
    let mut codegen = Codegen::new();
    let ir = codegen.gen_prog(&typed).expect("lower");
    assert_eq!(ir.len(), 2);
    assert!(matches!(ir[0], IROp::Const(ConstType::Int, Const::Int(7))));
    assert!(matches!(ir[1], IROp::Pop));
    // Discarding a Void expression emits no pop.
    let prog2 = vec![Expr::Discard(Box::new(Expr::PosInfo("m".to_string(), 1, 1)))];
    let typed2 = Analyzer::analyz_prog(prog2, vec![]).expect("analyze");
    let mut codegen2 = Codegen::new();
    let ir2 = codegen2.gen_prog(&typed2).expect("lower");
    assert!(ir2.iter().all(|op| !matches!(op, IROp::Pop)));
}

#[test]
fn reassignment_with_type_change_reallocates() {
    let prog = vec![
        declare("x", int_lit(1)),
        assign("x", float_lit(0x3fc0_0000)),
    ];
    let typed = Analyzer::analyz_prog(prog, vec![]).expect("analyze");
    let mut codegen = Codegen::new();
    let ir = codegen.gen_prog(&typed).expect("lower");
    // Alloc x, Const 1, Store x, Dealloc x (Int), Alloc x (Float), Const, Store.
    assert!(matches!(ir[0], IROp::Alloc(ConstType::Int, _)));
    assert!(matches!(ir[3], IROp::Dealloc(ConstType::Int, _)));
    assert!(matches!(ir[4], IROp::Alloc(ConstType::Float, _)));
    assert!(matches!(ir[6], IROp::Store(ConstType::Float, _)));
}

#[test]
fn end_to_end_scenario() {
    // f with parameter x (annotated Int, so `return x` is the Int
    // return), `return 1.5` inside a conditional, then a top-level
    // call f:5.
    let f = Function {
        name: ident("f"),
        args: vec![Ident { val: "x".to_string(), tag: Some(ConstType::Int) }],
        body: vec![
            ret(var("x")),
            Expr::IfExpr {
                condition: Box::new(binary(">", var("x"), int_lit(0))),
                body: vec![ret(float_lit(0x3fc0_0000))],
                alt: None,
            },
        ],
    };
    let prog = vec![call("f", vec![int_lit(5)])];
    let typed = Analyzer::analyz_prog(prog, vec![f]).expect("analyze");
    // f is registered with the unified return type Float... the
    // function node records it.
    assert_eq!(typed[0].ty, ConstType::Float);

    let mut analyzer = Analyzer::new();
    analyzer.env.push_function(ident("f"), vec![ident("x")], ConstType::Float);
    let corrected = analyzer.correct_prog(&typed).expect("correct");

    // The `return x` node is wrapped in a conversion to Float.
    match &corrected[0].expr {
        AnalyzedExpr::Func { ret: rty, body, .. } => {
            assert_eq!(*rty, ConstType::Float);
            match &body[0].expr {
                AnalyzedExpr::RetExpr(inner) => {
                    assert!(matches!(inner.expr, AnalyzedExpr::As(_)));
                    assert_eq!(inner.ty, ConstType::Float);
                }
                other => panic!("expected a return, got {:?}", other),
            }
        }
        other => panic!("expected a function, got {:?}", other),
    }
    // The call argument 5 is boxed Dynamic.
    match &corrected[1].expr {
        AnalyzedExpr::FnCall { args, .. } => {
            assert_eq!(args.len(), 1);
            assert_eq!(args[0].ty, ConstType::Dynamic);
            assert!(matches!(args[0].expr, AnalyzedExpr::As(_)));
        }
        other => panic!("expected a call, got {:?}", other),
    }

    let mut codegen = Codegen::new();
    let ir = codegen.gen_prog(&corrected).expect("lower");
    // One definition op named f whose nested sequence holds a
    // conditional op, then the top-level call with one argument.
    match &ir[0] {
        IROp::Def(rty, name, _, body_ops) => {
            assert_eq!(*rty, ConstType::Float);
            assert_eq!(name, "f");
            assert!(body_ops.iter().any(|op| matches!(op, IROp::If(..))));
        }
        other => panic!("expected a definition, got {:?}", other),
    }
    let call_op = ir.iter().find(|op| matches!(op, IROp::Call(..))).expect("call op");
    match call_op {
        IROp::Call(_, name, count) => {
            assert_eq!(name, "f");
            assert_eq!(*count, 1usize);
        }
        _ => unreachable!(),
    }
}

#[test]
fn op_type_helpers() {
    let ops = vec![IROp::Const(ConstType::Int, Const::Int(3)), IROp::Ret(ConstType::Float)];
    assert_eq!(get_op_type(&ops[0]), ConstType::Int);
    assert_eq!(get_op_type(&IROp::Pop), ConstType::Void);
    assert_eq!(get_ops_type(&ops), ConstType::Float);
}

#[test]
fn ir_fn_type_retags_disagreeing_returns() {
    let mut ops = vec![
        IROp::Ret(ConstType::Int),
        IROp::Const(ConstType::Int, Const::Int(1)),
        IROp::Ret(ConstType::Float),
    ];
    let ty = middlec::ir::get_fn_type(&mut ops);
    assert_eq!(ty, Some(ConstType::Dynamic));
    assert!(matches!(ops[0], IROp::Ret(ConstType::Dynamic)));
    assert!(matches!(ops[2], IROp::Ret(ConstType::Dynamic)));
    // Agreeing returns are left alone.
    let mut ops2 = vec![IROp::Ret(ConstType::Int), IROp::Ret(ConstType::Int)];
    assert_eq!(middlec::ir::get_fn_type(&mut ops2), Some(ConstType::Int));
    assert!(matches!(ops2[0], IROp::Ret(ConstType::Int)));
}

#[test]
fn to_expr_strips_conversions_and_counters() {
    let typed = TypedExpr {
        expr: AnalyzedExpr::As(Box::new(TypedExpr {
            expr: AnalyzedExpr::Id("x".to_string(), 4),
            ty: ConstType::Int,
        })),
        ty: ConstType::Float,
    };
    let back = typed.to_expr().expect("convert");
    match back {
        Expr::Ident(id) => {
            assert_eq!(id.val, "x");
            assert!(id.tag.is_none());
        }
        other => panic!("expected an identifier, got {:?}", other),
    }
}

#[test]
fn use_counters_grow_on_each_use() {
    let prog = vec![
        declare("x", int_lit(1)),
        Expr::Discard(Box::new(binary("+", var("x"), var("x")))),
    ];
    let typed = Analyzer::analyz_prog(prog, vec![]).expect("analyze");
    match &typed[1].expr {
        AnalyzedExpr::Discard(inner) => match &inner.expr {
            AnalyzedExpr::BinaryExpr { left, right, .. } => {
                match (&left.expr, &right.expr) {
                    (AnalyzedExpr::Id(_, rc1), AnalyzedExpr::Id(_, rc2)) => {
                        assert_eq!(*rc1, 1);
                        assert_eq!(*rc2, 2);
                    }
                    other => panic!("expected two identifier uses, got {:?}", other),
                }
            }
            other => panic!("expected a binary node, got {:?}", other),
        },
        other => panic!("expected a discard, got {:?}", other),
    }
}

#[test]
fn csettings_holds_its_pieces() {
    let s = middlec::compiler::CSettings::new(Some("cc".to_string()), vec!["-O2".to_string()]);
    assert_eq!(s.compiler.as_deref(), Some("cc"));
    assert_eq!(s.flags, vec!["-O2".to_string()]);
}

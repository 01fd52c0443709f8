//! The library's laws: the properties of widening, return unification,
//! declaration checking, call boxing, comparison canonicalization and
//! discard elision, each proved once and for all over the
//! specification functions that the executable passes follow.

use vstd::prelude::*;
use crate::types::{ConstType, ErrKind, Ident, spec_widen, spec_unify_rets};
use crate::ast::ExprS;
use crate::typed::{AnalyzedExprS, TypedExprS};
use crate::env::{EnvS, lookup_var, lookup_fn};
use crate::analysis::{
    AnalyzerS, spec_analyz, spec_binary_join, spec_ty_as, node_ret_ty, spec_fn_ret,
};
use crate::correct::{spec_correct, spec_correct_list, spec_wrap_dynamic};
use crate::gen::{spec_gen, spec_gen_binary, spec_bin_op};
use crate::ir::IROpS;

verus! {

/// Widening determinism: the widening result is a pure function of the
/// pair of operand types — the type a binary node receives depends on
/// its operands' types alone, never on the operator or on anything
/// else — and the function takes `Dynamic` with anything to `Dynamic`,
/// `Int` with `Float` to `Float` either way round, and equal types to
/// themselves.
pub proof fn lemma_widening_determinism(op: String, l: TypedExprS, r: TypedExprS)
    ensures
        spec_binary_join(op, l, r).ty == spec_widen(l.ty, r.ty),
        forall|x: ConstType| spec_widen(ConstType::Dynamic, x) == ConstType::Dynamic,
        forall|x: ConstType| spec_widen(x, ConstType::Dynamic) == ConstType::Dynamic,
        spec_widen(ConstType::Int, ConstType::Float) == ConstType::Float,
        spec_widen(ConstType::Float, ConstType::Int) == ConstType::Float,
        spec_widen(ConstType::Int, ConstType::Int) == ConstType::Int,
{
}

/// Return unification: the join of return types is idempotent, meets
/// `Int` and `Float` at `Float`, and falls back to `Dynamic` on any
/// other disagreement; and a body whose returns all carry one type
/// unifies to that type, so no conversion is owed at any of them.
pub proof fn lemma_return_unification(body: Seq<TypedExprS>, t: ConstType)
    requires
        forall|i: int|
            0 <= i < body.len() ==> (#[trigger] body[i].expr) is RetExpr && body[i].ty == t,
        body.len() > 0,
    ensures
        spec_fn_ret(body) == t,
        forall|x: ConstType| #[trigger] spec_unify_rets(x, x) == x,
        spec_unify_rets(ConstType::Int, ConstType::Float) == ConstType::Float,
        spec_unify_rets(ConstType::Float, ConstType::Int) == ConstType::Float,
        forall|x: ConstType, y: ConstType|
            x != y && !(x == ConstType::Int && y == ConstType::Float) && !(x == ConstType::Float
                && y == ConstType::Int) ==> #[trigger] spec_unify_rets(x, y)
                == ConstType::Dynamic,
    decreases body.len(),
{
    if body.len() == 1 {
        assert(node_ret_ty(body[0]) == Option::Some(t));
    } else {
        lemma_return_unification(body.drop_last(), t);
        assert(node_ret_ty(body.last()) == Option::Some(t));
    }
}

/// A corrected return keeps its operand when the operand's corrected
/// type already meets the expected return type, and otherwise wraps
/// the operand in an explicit conversion to that type and takes it:
/// this is what retroactively adjusts earlier returns once a later
/// return has widened the function's type.
pub proof fn lemma_return_correction(a: AnalyzerS, t: TypedExprS)
    requires
        t.expr is RetExpr,
    ensures
        ({
            let inner = t.expr->RetExpr_0;
            match spec_correct(a, *inner) {
                (Result::Ok(ci), a1) => spec_correct(a, t).0 == Result::<TypedExprS, ErrKind>::Ok(
                    if ci.ty == a1.env.current {
                        TypedExprS { expr: AnalyzedExprS::RetExpr(Box::new(ci)), ty: ci.ty }
                    } else {
                        TypedExprS {
                            expr: AnalyzedExprS::RetExpr(Box::new(spec_ty_as(a1.env.current, ci))),
                            ty: a1.env.current,
                        }
                    },
                ),
                (Result::Err(_), _) => true,
            }
        }),
{
}

/// Redeclaration rejection: declaring a name that is already in scope
/// fails with `VarAlreadyDeclared`, whatever the initializer and
/// whatever its type, as long as the initializer itself analyzes.
pub proof fn lemma_redeclaration_rejected(a: AnalyzerS, name: Ident, val: ExprS)
    requires
        spec_analyz(a, val).0 is Ok,
        lookup_var(spec_analyz(a, val).1.env.vars, name.val@) is Some,
    ensures
        spec_analyz(a, ExprS::VarDeclare { name, val: Box::new(val) }).0 == Result::<
            TypedExprS,
            ErrKind,
        >::Err(ErrKind::VarAlreadyDeclared),
{
}

/// Undeclared-use rejection: referencing, assigning to, or calling a
/// name that is not declared fails with `UndeclaredVar`. No IR can
/// come of it: each pass aborts at its first error and the lowering
/// driver returns nothing partial.
pub proof fn lemma_undeclared_use_rejected(a: AnalyzerS, id: Ident, val: ExprS, args: Seq<ExprS>)
    ensures
        lookup_var(a.env.vars, id.val@) is None ==> spec_analyz(a, ExprS::Ident(id)).0 == Result::<
            TypedExprS,
            ErrKind,
        >::Err(ErrKind::UndeclaredVar),
        (spec_analyz(a, val).0 is Ok && lookup_var(
            spec_analyz(a, val).1.env.vars,
            id.val@,
        ) is None) ==> spec_analyz(a, ExprS::VarAssign { name: id, val: Box::new(val) }).0
            == Result::<TypedExprS, ErrKind>::Err(ErrKind::UndeclaredVar),
        lookup_fn(a.env.funcs, id.val@) is None ==> spec_analyz(
            a,
            ExprS::FnCall { name: id, args },
        ).0 == Result::<TypedExprS, ErrKind>::Err(ErrKind::UndeclaredVar),
{
}

/// Correcting a list of nodes keeps its length.
pub proof fn lemma_correct_list_len(a: AnalyzerS, ts: Seq<TypedExprS>)
    ensures
        ({
            match spec_correct_list(a, ts).0 {
                Result::Ok(cs) => cs.len() == ts.len(),
                Result::Err(_) => true,
            }
        }),
    decreases ts.len(),
{
    if ts.len() > 0 {
        lemma_correct_list_len(a, ts.drop_last());
    }
}

/// Call argument boxing: when a call with N arguments corrects
/// successfully, the corrected call node carries exactly N arguments,
/// every one of type `Dynamic`, and every argument whose corrected
/// type was not already `Dynamic` stands wrapped in an explicit
/// conversion to `Dynamic`.
pub proof fn lemma_call_argument_boxing(a: AnalyzerS, t: TypedExprS)
    requires
        t.expr is FnCall,
    ensures
        ({
            match spec_correct(a, t).0 {
                Result::Ok(c) => match c.expr {
                    AnalyzedExprS::FnCall { name: cn, args: cargs } => {
                        &&& cn == t.expr->FnCall_name
                        &&& cargs.len() == t.expr->FnCall_args.len()
                        &&& forall|i: int|
                            0 <= i < cargs.len() ==> (#[trigger] cargs[i]).ty
                                == ConstType::Dynamic
                    },
                    _ => false,
                },
                Result::Err(_) => true,
            }
        }),
{
    let args = t.expr->FnCall_args;
    lemma_correct_list_len(a, args);
    match spec_correct_list(a, args) {
        (Result::Ok(cs), a1) => {
            let wrapped = cs.map_values(|c: TypedExprS| spec_wrap_dynamic(c));
            assert forall|i: int| 0 <= i < wrapped.len() implies (#[trigger] wrapped[i]).ty
                == ConstType::Dynamic by {
                assert(wrapped[i] == spec_wrap_dynamic(cs[i]));
            }
        },
        _ => {},
    }
}

/// Comparison canonicalization: lowering `a < b` and lowering `b > a`
/// emit the same operand order and the same comparison opcode — the
/// strict one of the greater-than family — whenever the operands'
/// own lowering leaves the lowering state unchanged, which holds of
/// every operand free of declarations and assignments.
pub proof fn lemma_comparison_canonicalization(
    g: EnvS,
    lt: String,
    gt: String,
    a: TypedExprS,
    b: TypedExprS,
    ty: ConstType,
)
    requires
        lt@ == "<"@,
        gt@ == ">"@,
        spec_gen(g, a).0 is Ok,
        spec_gen(g, b).0 is Ok,
        spec_gen(g, a).1 == g,
        spec_gen(g, b).1 == g,
    ensures
        spec_gen_binary(g, ty, lt, a, b) == spec_gen_binary(g, ty, gt, b, a),
        spec_bin_op(lt@, ty) == Option::Some(IROpS::Comp(ConstType::Bool)),
        spec_bin_op(gt@, ty) == Option::Some(IROpS::Comp(ConstType::Bool)),
{
    reveal_strlit("+");
    reveal_strlit("-");
    reveal_strlit("*");
    reveal_strlit("/");
    reveal_strlit(">");
    reveal_strlit("<");
    reveal_strlit(">=");
    reveal_strlit("<=");
    reveal_strlit("==");
    assert("<"@.len() == 1 && ">"@.len() == 1 && "<="@.len() == 2 && ">="@.len() == 2 && "=="@.len()
        == 2 && "+"@.len() == 1 && "-"@.len() == 1 && "*"@.len() == 1 && "/"@.len() == 1);
    assert("<"@[0] == '<' && ">"@[0] == '>' && "+"@[0] == '+' && "-"@[0] == '-' && "*"@[0] == '*'
        && "/"@[0] == '/');
}

/// Discard elision: lowering a discard emits what the discarded
/// expression emits, followed by exactly one pop when the discarded
/// value's type is not `Void`, and by no pop when it is.
pub proof fn lemma_discard_elision(g: EnvS, t: TypedExprS)
    requires
        t.expr is Discard,
    ensures
        ({
            let inner = t.expr->Discard_0;
            match spec_gen(g, *inner) {
                (Result::Ok(ops), g1) => spec_gen(g, t) == if inner.ty != ConstType::Void {
                    (Result::<Seq<IROpS>, ErrKind>::Ok(ops.push(IROpS::Pop)), g1)
                } else {
                    (Result::<Seq<IROpS>, ErrKind>::Ok(ops), g1)
                },
                (Result::Err(_), _) => true,
            }
        }),
{
}

} // verus!

//! The correction pass: a second full traversal of the typed tree that
//! reconciles what the single forward pass could not — operand types
//! that changed under correction, call arguments still unboxed, and
//! returns that must meet the function's unified return type.

use vstd::prelude::*;
use crate::types::{ConstType, ErrKind};
use crate::typed::{
    AnalyzedExpr, AnalyzedExprS, TypedExpr, TypedExprS, clone_typed, spec_to_expr, texprs_view,
    lemma_texprs_view,
};
use crate::env::{EnvS, env_get_ty};
use crate::analysis::{Analyzer, AnalyzerS, spec_analyz_binary, spec_ty_as, tres_view};

verus! {

/// An argument boxed for the calling convention: a node not already
/// `Dynamic` is wrapped in an explicit conversion to `Dynamic`.
pub open spec fn spec_wrap_dynamic(c: TypedExprS) -> TypedExprS {
    if c.ty != ConstType::Dynamic {
        spec_ty_as(ConstType::Dynamic, c)
    } else {
        c
    }
}

/// What one correction step returns and how it leaves the state, for
/// every typed node. Binary nodes whose operands still disagree after
/// correction are re-analyzed through the one widening rule; call
/// arguments are boxed as `Dynamic`; a corrected return that misses the
/// expected return type is wrapped in a conversion to it; all other
/// node kinds pass through unchanged.
pub open spec fn spec_correct(a: AnalyzerS, t: TypedExprS) -> (Result<TypedExprS, ErrKind>, AnalyzerS)
    decreases t,
{
    match t.expr {
        AnalyzedExprS::BinaryExpr { op, left, right } => match spec_correct(a, *left) {
            (Result::Err(k), a1) => (Result::Err(k), a1),
            (Result::Ok(cl), a1) => match spec_correct(a1, *right) {
                (Result::Err(k), a2) => (Result::Err(k), a2),
                (Result::Ok(cr), a2) => {
                    if cl.ty != cr.ty {
                        match (spec_to_expr(cl), spec_to_expr(cr)) {
                            (Result::Ok(le), Result::Ok(re)) => spec_analyz_binary(
                                a2,
                                le,
                                re,
                                op,
                            ),
                            (Result::Err(k), _) => (Result::Err(k), a2),
                            (_, Result::Err(k)) => (Result::Err(k), a2),
                        }
                    } else {
                        (Result::Ok(t), a2)
                    }
                },
            },
        },
        AnalyzedExprS::FnCall { name, args } => match spec_correct_list(a, args) {
            (Result::Err(k), a1) => (Result::Err(k), a1),
            (Result::Ok(cargs), a1) => {
                let wrapped = cargs.map_values(|c: TypedExprS| spec_wrap_dynamic(c));
                match env_get_ty(a1.env, name@) {
                    Option::None => (Result::Err(ErrKind::UndeclaredVar), a1),
                    Option::Some(ty) => (
                        Result::Ok(
                            TypedExprS {
                                expr: AnalyzedExprS::FnCall { name, args: wrapped },
                                ty,
                            },
                        ),
                        a1,
                    ),
                }
            },
        },
        AnalyzedExprS::Func { ret, name, args, body } => {
            let aset = AnalyzerS {
                env: EnvS { vars: a.env.vars, funcs: a.env.funcs, current: ret },
                line: a.line,
                column: a.column,
                errors: a.errors,
            };
            match spec_correct_seq(aset, body) {
                (Result::Err(k), a1) => (
                    Result::Err(k),
                    AnalyzerS {
                        env: EnvS {
                            vars: a1.env.vars,
                            funcs: a1.env.funcs,
                            current: ConstType::Void,
                        },
                        line: a1.line,
                        column: a1.column,
                        errors: a1.errors,
                    },
                ),
                (Result::Ok(cbody), a1) => (
                    Result::Ok(
                        TypedExprS {
                            expr: AnalyzedExprS::Func { ret, name, args, body: cbody },
                            ty: t.ty,
                        },
                    ),
                    AnalyzerS {
                        env: EnvS {
                            vars: a1.env.vars,
                            funcs: a1.env.funcs,
                            current: ConstType::Void,
                        },
                        line: a1.line,
                        column: a1.column,
                        errors: a1.errors,
                    },
                ),
            }
        },
        AnalyzedExprS::If { cond, body, alt } => match spec_correct_seq(a, body) {
            (Result::Err(k), a1) => (Result::Err(k), a1),
            (Result::Ok(cbody), a1) => match alt {
                Option::None => (
                    Result::Ok(
                        TypedExprS {
                            expr: AnalyzedExprS::If { cond, body: cbody, alt: Option::None },
                            ty: t.ty,
                        },
                    ),
                    a1,
                ),
                Option::Some(ab) => match spec_correct(a1, *ab) {
                    (Result::Err(k), a2) => (Result::Err(k), a2),
                    (Result::Ok(ca), a2) => (
                        Result::Ok(
                            TypedExprS {
                                expr: AnalyzedExprS::If {
                                    cond,
                                    body: cbody,
                                    alt: Option::Some(Box::new(ca)),
                                },
                                ty: t.ty,
                            },
                        ),
                        a2,
                    ),
                },
            },
        },
        AnalyzedExprS::As(inner) => match spec_correct(a, *inner) {
            (Result::Err(k), a1) => (Result::Err(k), a1),
            (Result::Ok(ci), a1) => (
                Result::Ok(TypedExprS { expr: AnalyzedExprS::As(Box::new(ci)), ty: t.ty }),
                a1,
            ),
        },
        AnalyzedExprS::RetExpr(inner) => match spec_correct(a, *inner) {
            (Result::Err(k), a1) => (Result::Err(k), a1),
            (Result::Ok(ci), a1) => {
                if ci.ty == a1.env.current {
                    (
                        Result::Ok(
                            TypedExprS { expr: AnalyzedExprS::RetExpr(Box::new(ci)), ty: ci.ty },
                        ),
                        a1,
                    )
                } else {
                    let cur = a1.env.current;
                    (
                        Result::Ok(
                            TypedExprS {
                                expr: AnalyzedExprS::RetExpr(Box::new(spec_ty_as(cur, ci))),
                                ty: cur,
                            },
                        ),
                        a1,
                    )
                }
            },
        },
        _ => (Result::Ok(t), a),
    }
}

/// Correction of a call's arguments in order, stopping at the first
/// error.
pub open spec fn spec_correct_list(a: AnalyzerS, ts: Seq<TypedExprS>) -> (Result<
    Seq<TypedExprS>,
    ErrKind,
>, AnalyzerS)
    decreases ts,
{
    if ts.len() == 0 {
        (Result::Ok(Seq::empty()), a)
    } else {
        match spec_correct_list(a, ts.drop_last()) {
            (Result::Err(k), a1) => (Result::Err(k), a1),
            (Result::Ok(cs), a1) => match spec_correct(a1, ts.last()) {
                (Result::Err(k), a2) => (Result::Err(k), a2),
                (Result::Ok(c), a2) => (Result::Ok(cs.push(c)), a2),
            },
        }
    }
}

/// Correction of a statement sequence in order: import bindings pass
/// through verbatim, every other node is corrected, and the first
/// error stops the walk.
pub open spec fn spec_correct_seq(a: AnalyzerS, ts: Seq<TypedExprS>) -> (Result<
    Seq<TypedExprS>,
    ErrKind,
>, AnalyzerS)
    decreases ts,
{
    if ts.len() == 0 {
        (Result::Ok(Seq::empty()), a)
    } else {
        match spec_correct_seq(a, ts.drop_last()) {
            (Result::Err(k), a1) => (Result::Err(k), a1),
            (Result::Ok(cs), a1) => {
                if ts.last().expr is Import {
                    (Result::Ok(cs.push(ts.last())), a1)
                } else {
                    match spec_correct(a1, ts.last()) {
                        (Result::Err(k), a2) => (Result::Err(k), a2),
                        (Result::Ok(c), a2) => (Result::Ok(cs.push(c)), a2),
                    }
                }
            },
        }
    }
}

/// Once a prefix of a list fails to correct, the whole list fails the
/// same way and leaves the same state.
pub proof fn lemma_correct_list_err(
    a: AnalyzerS,
    ts: Seq<TypedExprS>,
    i: int,
    k: ErrKind,
    a1: AnalyzerS,
)
    requires
        0 <= i <= ts.len(),
        spec_correct_list(a, ts.take(i)) == (Result::<Seq<TypedExprS>, ErrKind>::Err(k), a1),
    ensures
        spec_correct_list(a, ts) == (Result::<Seq<TypedExprS>, ErrKind>::Err(k), a1),
    decreases ts.len() - i,
{
    if i < ts.len() {
        assert(ts.take(i + 1).drop_last() =~= ts.take(i));
        lemma_correct_list_err(a, ts, i + 1, k, a1);
    } else {
        assert(ts.take(i) =~= ts);
    }
}

/// Once a prefix of a statement sequence fails to correct, the whole
/// sequence fails the same way and leaves the same state.
pub proof fn lemma_correct_seq_err(
    a: AnalyzerS,
    ts: Seq<TypedExprS>,
    i: int,
    k: ErrKind,
    a1: AnalyzerS,
)
    requires
        0 <= i <= ts.len(),
        spec_correct_seq(a, ts.take(i)) == (Result::<Seq<TypedExprS>, ErrKind>::Err(k), a1),
    ensures
        spec_correct_seq(a, ts) == (Result::<Seq<TypedExprS>, ErrKind>::Err(k), a1),
    decreases ts.len() - i,
{
    if i < ts.len() {
        assert(ts.take(i + 1).drop_last() =~= ts.take(i));
        lemma_correct_seq_err(a, ts, i + 1, k, a1);
    } else {
        assert(ts.take(i) =~= ts);
    }
}

impl Analyzer {
    /// One correction step over a typed node, following
    /// [`spec_correct`] exactly.
    #[verifier::loop_isolation(false)]
    #[verifier::rlimit(100)]
    pub fn correct(&mut self, expr: &TypedExpr) -> (r: Result<TypedExpr, ErrKind>)
        ensures
            (tres_view(r), final(self)@) == spec_correct(old(self)@, expr@),
        decreases *expr, 3int,
    {
        match &expr.expr {
            AnalyzedExpr::BinaryExpr { op, left, right } => {
                let cl = match self.correct(left) {
                    Result::Ok(cl) => cl,
                    Result::Err(k) => { return Result::Err(k); },
                };
                let cr = match self.correct(right) {
                    Result::Ok(cr) => cr,
                    Result::Err(k) => { return Result::Err(k); },
                };
                if cl.ty != cr.ty {
                    let le = match cl.to_expr() {
                        Result::Ok(le) => le,
                        Result::Err(k) => { return Result::Err(k); },
                    };
                    let re = match cr.to_expr() {
                        Result::Ok(re) => re,
                        Result::Err(k) => { return Result::Err(k); },
                    };
                    self.analyz_binary_expr(&le, &re, op.clone())
                } else {
                    Result::Ok(clone_typed(expr))
                }
            },
            AnalyzedExpr::FnCall { .. } => self.correct_call(expr),
            AnalyzedExpr::Func { .. } => self.correct_func(expr),
            AnalyzedExpr::If { .. } => self.correct_if(expr),
            AnalyzedExpr::As(inner) => {
                let ci = match self.correct(inner) {
                    Result::Ok(ci) => ci,
                    Result::Err(k) => { return Result::Err(k); },
                };
                Result::Ok(TypedExpr { expr: AnalyzedExpr::As(Box::new(ci)), ty: expr.ty })
            },
            AnalyzedExpr::RetExpr(inner) => {
                let ci = match self.correct(inner) {
                    Result::Ok(ci) => ci,
                    Result::Err(k) => { return Result::Err(k); },
                };
                let cur = self.env.current;
                if ci.ty == cur {
                    let ty = ci.ty;
                    Result::Ok(TypedExpr { expr: AnalyzedExpr::RetExpr(Box::new(ci)), ty })
                } else {
                    let ghost civ = ci@;
                    let wrapped = TypedExpr { expr: AnalyzedExpr::As(Box::new(ci)), ty: cur };
                    proof {
                        assert(wrapped@ == spec_ty_as(cur, civ));
                    }
                    Result::Ok(TypedExpr { expr: AnalyzedExpr::RetExpr(Box::new(wrapped)), ty: cur })
                }
            },
            AnalyzedExpr::Literal(_) => Result::Ok(clone_typed(expr)),
            AnalyzedExpr::Id(..) => Result::Ok(clone_typed(expr)),
            AnalyzedExpr::VarDeclare { .. } => Result::Ok(clone_typed(expr)),
            AnalyzedExpr::VarAssign { .. } => Result::Ok(clone_typed(expr)),
            AnalyzedExpr::Discard(_) => Result::Ok(clone_typed(expr)),
            AnalyzedExpr::Debug(..) => Result::Ok(clone_typed(expr)),
            AnalyzedExpr::Import { .. } => Result::Ok(clone_typed(expr)),
            AnalyzedExpr::Block(_) => Result::Ok(clone_typed(expr)),
        }
    }

    /// Corrects a call node: every argument is corrected and any
    /// argument not already `Dynamic` is boxed; the call's type is
    /// re-read from the environment.
    #[verifier::loop_isolation(false)]
    #[verifier::rlimit(100)]
    fn correct_call(&mut self, expr: &TypedExpr) -> (r: Result<TypedExpr, ErrKind>)
        requires
            expr.expr is FnCall,
        ensures
            (tres_view(r), final(self)@) == spec_correct(old(self)@, expr@),
        decreases *expr, 2int,
    {
        let (name, args) = match &expr.expr {
            AnalyzedExpr::FnCall { name, args } => (name, args),
            _ => {
                proof {
                    assert(false);
                }
                return Result::Err(ErrKind::UnsupportedConstruct);
            },
        };
        proof {
            lemma_texprs_view(args@);
        }
        let ghost a0 = self@;
        let ghost vs = texprs_view(args@);
        let ghost wrap = |c: TypedExprS| spec_wrap_dynamic(c);
        let mut cargs: Vec<TypedExpr> = Vec::new();
        let mut i: usize = 0;
        while i < args.len()
            invariant
                0 <= i <= args.len(),
                spec_correct_list(a0, vs.take(i as int)) matches (Result::Ok(cs), anow) && anow
                    == self@ && texprs_view(cargs@) == cs.map_values(wrap),
            decreases args@.len() - i,
        {
            let c = match self.correct(&args[i]) {
                Result::Ok(c) => c,
                Result::Err(k) => {
                    proof {
                        assert(vs.take(i + 1).drop_last() =~= vs.take(i as int));
                        assert(vs.take(i + 1).last() == vs[i as int]);
                        lemma_correct_list_err(a0, vs, i + 1, k, self@);
                    }
                    return Result::Err(k);
                },
            };
            let ghost cview = c@;
            let wrapped = if c.ty != ConstType::Dynamic {
                TypedExpr { expr: AnalyzedExpr::As(Box::new(c)), ty: ConstType::Dynamic }
            } else {
                c
            };
            proof {
                assert(wrapped@ == spec_wrap_dynamic(cview));
            }
            let ghost prev = texprs_view(cargs@);
            let ghost pv = cargs@;
            cargs.push(wrapped);
            proof {
                assert(vs.take(i + 1).drop_last() =~= vs.take(i as int));
                assert(vs.take(i + 1).last() == vs[i as int]);
                assert(cargs@.drop_last() =~= pv);
                assert(texprs_view(cargs@) == prev.push(wrap(cview)));
                let (lres, lnow) = spec_correct_list(a0, vs.take(i as int));
                assert(lres->Ok_0.push(cview).map_values(wrap) =~= lres->Ok_0.map_values(
                    wrap,
                ).push(wrap(cview)));
            }
            i = i + 1;
        }
        proof {
            assert(vs.take(args@.len() as int) =~= vs);
        }
        let ty = match self.env.get_ty(name) {
            Option::Some(t) => t,
            Option::None => { return Result::Err(ErrKind::UndeclaredVar); },
        };
        Result::Ok(TypedExpr { expr: AnalyzedExpr::FnCall { name: name.clone(), args: cargs }, ty })
    }

    /// Corrects a function definition: the expected return type is set
    /// to the function's unified type for the body walk and reset to
    /// `Void` on exit, also when the walk fails.
    #[verifier::loop_isolation(false)]
    #[verifier::rlimit(100)]
    fn correct_func(&mut self, expr: &TypedExpr) -> (r: Result<TypedExpr, ErrKind>)
        requires
            expr.expr is Func,
        ensures
            (tres_view(r), final(self)@) == spec_correct(old(self)@, expr@),
        decreases *expr, 2int,
    {
        let (ret, name, args, body) = match &expr.expr {
            AnalyzedExpr::Func { ret, name, args, body } => (ret, name, args, body),
            _ => {
                proof {
                    assert(false);
                }
                return Result::Err(ErrKind::UnsupportedConstruct);
            },
        };
        self.env.current = *ret;
        let cbody = match self.correct_body(body) {
            Result::Ok(cbody) => cbody,
            Result::Err(k) => {
                self.env.current = ConstType::Void;
                return Result::Err(k);
            },
        };
        self.env.current = ConstType::Void;
        Result::Ok(
            TypedExpr {
                expr: AnalyzedExpr::Func {
                    ret: *ret,
                    name: name.clone(),
                    args: crate::types::clone_idents(args),
                    body: cbody,
                },
                ty: expr.ty,
            },
        )
    }

    /// Corrects a conditional: both branches are walked — the branch
    /// bodies are statement sequences, so import bindings pass through
    /// — while the condition stands as analyzed.
    #[verifier::loop_isolation(false)]
    #[verifier::rlimit(100)]
    fn correct_if(&mut self, expr: &TypedExpr) -> (r: Result<TypedExpr, ErrKind>)
        requires
            expr.expr is If,
        ensures
            (tres_view(r), final(self)@) == spec_correct(old(self)@, expr@),
        decreases *expr, 2int,
    {
        let (cond, body, alt) = match &expr.expr {
            AnalyzedExpr::If { cond, body, alt } => (cond, body, alt),
            _ => {
                proof {
                    assert(false);
                }
                return Result::Err(ErrKind::UnsupportedConstruct);
            },
        };
        let cbody = match self.correct_body(body) {
            Result::Ok(cbody) => cbody,
            Result::Err(k) => { return Result::Err(k); },
        };
        match alt {
            Option::None => Result::Ok(
                TypedExpr {
                    expr: AnalyzedExpr::If {
                        cond: Box::new(clone_typed(cond)),
                        body: cbody,
                        alt: Option::None,
                    },
                    ty: expr.ty,
                },
            ),
            Option::Some(ab) => {
                let ca = match self.correct(ab) {
                    Result::Ok(ca) => ca,
                    Result::Err(k) => { return Result::Err(k); },
                };
                Result::Ok(
                    TypedExpr {
                        expr: AnalyzedExpr::If {
                            cond: Box::new(clone_typed(cond)),
                            body: cbody,
                            alt: Option::Some(Box::new(ca)),
                        },
                        ty: expr.ty,
                    },
                )
            },
        }
    }

    /// Corrects a statement sequence in order, passing import bindings
    /// through verbatim.
    #[verifier::loop_isolation(false)]
    #[verifier::rlimit(100)]
    fn correct_body(&mut self, body: &Vec<TypedExpr>) -> (r: Result<Vec<TypedExpr>, ErrKind>)
        ensures
            match (r, spec_correct_seq(old(self)@, texprs_view(body@))) {
                (Result::Ok(cs), (Result::Ok(ss), anow)) => texprs_view(cs@) == ss && final(self)@
                    == anow,
                (Result::Err(k), (Result::Err(ks), anow)) => k == ks && final(self)@ == anow,
                _ => false,
            },
        decreases *body, 2int,
    {
        proof {
            lemma_texprs_view(body@);
        }
        let ghost a0 = self@;
        let ghost vs = texprs_view(body@);
        let mut out: Vec<TypedExpr> = Vec::new();
        let mut i: usize = 0;
        while i < body.len()
            invariant
                0 <= i <= body.len(),
                spec_correct_seq(a0, vs.take(i as int)) matches (Result::Ok(cs), anow) && anow
                    == self@ && texprs_view(out@) == cs,
            decreases body@.len() - i,
        {
            let is_import = match &body[i].expr {
                AnalyzedExpr::Import { .. } => true,
                _ => false,
            };
            let c = if is_import {
                clone_typed(&body[i])
            } else {
                match self.correct(&body[i]) {
                    Result::Ok(c) => c,
                    Result::Err(k) => {
                        proof {
                            assert(vs.take(i + 1).drop_last() =~= vs.take(i as int));
                            assert(vs.take(i + 1).last() == vs[i as int]);
                            lemma_correct_seq_err(a0, vs, i + 1, k, self@);
                        }
                        return Result::Err(k);
                    },
                }
            };
            let ghost cview = c@;
            let ghost prev = texprs_view(out@);
            let ghost pv = out@;
            out.push(c);
            proof {
                assert(vs.take(i + 1).drop_last() =~= vs.take(i as int));
                assert(vs.take(i + 1).last() == vs[i as int]);
                assert(out@.drop_last() =~= pv);
                assert(texprs_view(out@) == prev.push(cview));
            }
            i = i + 1;
        }
        proof {
            assert(vs.take(body@.len() as int) =~= vs);
        }
        Result::Ok(out)
    }

    /// Corrects every node of an analyzed program in order; import
    /// bindings pass through verbatim and the first failure aborts the
    /// run.
    pub fn correct_prog(&mut self, exprs: &Vec<TypedExpr>) -> (r: Result<Vec<TypedExpr>, ErrKind>)
        ensures
            match (r, spec_correct_seq(old(self)@, texprs_view(exprs@))) {
                (Result::Ok(cs), (Result::Ok(ss), anow)) => texprs_view(cs@) == ss && final(self)@
                    == anow,
                (Result::Err(k), (Result::Err(ks), anow)) => k == ks && final(self)@ == anow,
                _ => false,
            },
    {
        self.correct_body(exprs)
    }
}

} // verus!

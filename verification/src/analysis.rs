//! The inference pass: a single forward walk over the untyped tree that
//! resolves identifiers, infers literal, binary and call types, applies
//! the local widening rule, and detects undeclared-name and
//! redeclaration errors. Its behaviour is stated by a family of
//! specification functions that the executable walker provably follows.

use vstd::prelude::*;
use crate::types::{ATErr, Const, ConstType, ErrKind, Ident, spec_bump, spec_unify_rets, bump, unify_rets, clone_idents};
use crate::ast::{Expr, ExprS, Function, FunctionS, expr_view, exprs_view, lemma_exprs_view};
use crate::typed::{
    AnalyzedExpr, AnalyzedExprS, TypedExpr, TypedExprS, texpr_view, texprs_view, lemma_texprs_view,
};
use crate::env::{
    EnvS, Environment, FuncSigS, VarEntry, lookup_var, lookup_fn, update_var_rc, update_var_ty,
    env_get_ty,
};

verus! {

/// The state of an analysis run: the environment, the position of the
/// most recent debug marker, and the errors reported so far.
#[derive(Debug)]
pub struct Analyzer {
    pub env: Environment,
    pub line: u32,
    pub column: u32,
    pub errors: Vec<ATErr>,
}

/// Mathematical view of the analysis state.
pub struct AnalyzerS {
    pub env: EnvS,
    pub line: u32,
    pub column: u32,
    pub errors: Seq<ATErr>,
}

impl View for Analyzer {
    type V = AnalyzerS;

    open spec fn view(&self) -> AnalyzerS {
        AnalyzerS { env: self.env@, line: self.line, column: self.column, errors: self.errors@ }
    }
}

/// A node wrapped in an explicit conversion to the given type.
pub open spec fn spec_ty_as(ty: ConstType, t: TypedExprS) -> TypedExprS {
    TypedExprS { expr: AnalyzedExprS::As(Box::new(t)), ty }
}

/// The widened binary node built from two analyzed operands: the
/// narrower operand is wrapped in an explicit conversion to the wider
/// type; a mismatch no rule covers is left as it stands, typed after
/// the left operand, for the correction pass to revisit.
pub open spec fn spec_binary_join(op: String, l: TypedExprS, r: TypedExprS) -> TypedExprS {
    if l.ty == r.ty {
        TypedExprS {
            expr: AnalyzedExprS::BinaryExpr { op, left: Box::new(l), right: Box::new(r) },
            ty: l.ty,
        }
    } else if l.ty == ConstType::Float && r.ty == ConstType::Int {
        TypedExprS {
            expr: AnalyzedExprS::BinaryExpr {
                op,
                left: Box::new(l),
                right: Box::new(spec_ty_as(ConstType::Float, r)),
            },
            ty: ConstType::Float,
        }
    } else if l.ty == ConstType::Int && r.ty == ConstType::Float {
        TypedExprS {
            expr: AnalyzedExprS::BinaryExpr {
                op,
                left: Box::new(spec_ty_as(ConstType::Float, l)),
                right: Box::new(r),
            },
            ty: ConstType::Float,
        }
    } else if l.ty == ConstType::Dynamic {
        TypedExprS {
            expr: AnalyzedExprS::BinaryExpr {
                op,
                left: Box::new(l),
                right: Box::new(spec_ty_as(ConstType::Dynamic, r)),
            },
            ty: ConstType::Dynamic,
        }
    } else if r.ty == ConstType::Dynamic {
        TypedExprS {
            expr: AnalyzedExprS::BinaryExpr {
                op,
                left: Box::new(spec_ty_as(ConstType::Dynamic, l)),
                right: Box::new(r),
            },
            ty: ConstType::Dynamic,
        }
    } else {
        TypedExprS {
            expr: AnalyzedExprS::BinaryExpr { op, left: Box::new(l), right: Box::new(r) },
            ty: l.ty,
        }
    }
}

/// The error record the analyzer files for a failed call resolution.
pub open spec fn spec_err(a: AnalyzerS, kind: ErrKind, msg: String) -> AnalyzerS {
    AnalyzerS {
        env: a.env,
        line: a.line,
        column: a.column,
        errors: a.errors.push(ATErr { kind, msg, line: a.line, column: a.column }),
    }
}

/// What one inference step returns and how it leaves the analysis
/// state, for every untyped node.
pub open spec fn spec_analyz(a: AnalyzerS, e: ExprS) -> (Result<TypedExprS, ErrKind>, AnalyzerS)
    decreases e,
{
    match e {
        ExprS::Literal(c) => match c {
            Const::Int(_) => (
                Result::Ok(TypedExprS { expr: AnalyzedExprS::Literal(c), ty: ConstType::Int }),
                a,
            ),
            Const::Float(_) => (
                Result::Ok(TypedExprS { expr: AnalyzedExprS::Literal(c), ty: ConstType::Float }),
                a,
            ),
            _ => (Result::Err(ErrKind::UnsupportedConstruct), a),
        },
        ExprS::Ident(id) => match lookup_var(a.env.vars, id.val@) {
            Option::None => (Result::Err(ErrKind::UndeclaredVar), a),
            Option::Some(en) => {
                let rc = spec_bump(en.rc);
                let a2 = AnalyzerS {
                    env: EnvS {
                        vars: update_var_rc(a.env.vars, id.val@, rc),
                        funcs: a.env.funcs,
                        current: a.env.current,
                    },
                    line: a.line,
                    column: a.column,
                    errors: a.errors,
                };
                (
                    Result::Ok(TypedExprS { expr: AnalyzedExprS::Id(id.val, rc), ty: en.ty }),
                    a2,
                )
            },
        },
        ExprS::BinaryExpr { op, left, right } => match spec_analyz(a, *left) {
            (Result::Err(k), a1) => (Result::Err(k), a1),
            (Result::Ok(l), a1) => match spec_analyz(a1, *right) {
                (Result::Err(k), a2) => (Result::Err(k), a2),
                (Result::Ok(r), a2) => (Result::Ok(spec_binary_join(op, l, r)), a2),
            },
        },
        ExprS::VarDeclare { name, val } => match spec_analyz(a, *val) {
            (Result::Err(k), a1) => (Result::Err(k), a1),
            (Result::Ok(v), a1) => {
                if lookup_var(a1.env.vars, name.val@) is Some {
                    (Result::Err(ErrKind::VarAlreadyDeclared), a1)
                } else {
                    let a2 = AnalyzerS {
                        env: EnvS {
                            vars: a1.env.vars.push(
                                VarEntry { name: name.val, ty: v.ty, rc: 0 },
                            ),
                            funcs: a1.env.funcs,
                            current: a1.env.current,
                        },
                        line: a1.line,
                        column: a1.column,
                        errors: a1.errors,
                    };
                    (
                        Result::Ok(
                            TypedExprS {
                                expr: AnalyzedExprS::VarDeclare {
                                    name: name.val,
                                    val: Box::new(v),
                                },
                                ty: v.ty,
                            },
                        ),
                        a2,
                    )
                }
            },
        },
        ExprS::VarAssign { name, val } => match spec_analyz(a, *val) {
            (Result::Err(k), a1) => (Result::Err(k), a1),
            (Result::Ok(v), a1) => match lookup_var(a1.env.vars, name.val@) {
                Option::None => (Result::Err(ErrKind::UndeclaredVar), a1),
                Option::Some(en) => {
                    let rc = spec_bump(en.rc);
                    let a2 = AnalyzerS {
                        env: EnvS {
                            vars: update_var_rc(
                                update_var_ty(a1.env.vars, name.val@, v.ty),
                                name.val@,
                                rc,
                            ),
                            funcs: a1.env.funcs,
                            current: a1.env.current,
                        },
                        line: a1.line,
                        column: a1.column,
                        errors: a1.errors,
                    };
                    (
                        Result::Ok(
                            TypedExprS {
                                expr: AnalyzedExprS::VarAssign {
                                    name: name.val,
                                    val: Box::new(v),
                                },
                                ty: v.ty,
                            },
                        ),
                        a2,
                    )
                },
            },
        },
        ExprS::FnCall { name, args } => match lookup_fn(a.env.funcs, name.val@) {
            Option::None => (
                Result::Err(ErrKind::UndeclaredVar),
                spec_err(a, ErrKind::UndeclaredVar, name.val),
            ),
            Option::Some(sig) => {
                if sig.args.len() != args.len() {
                    (
                        Result::Err(ErrKind::UndeclaredVar),
                        spec_err(a, ErrKind::UndeclaredVar, name.val),
                    )
                } else {
                    let ty = match env_get_ty(a.env, name.val@) {
                        Option::Some(t) => t,
                        Option::None => ConstType::Void,
                    };
                    match spec_analyz_list(a, args) {
                        (Result::Err(k), a1) => (Result::Err(k), a1),
                        (Result::Ok(ts), a1) => (
                            Result::Ok(
                                TypedExprS {
                                    expr: AnalyzedExprS::FnCall {
                                        name: name.val,
                                        args: ts.map_values(
                                            |t: TypedExprS| spec_ty_as(ConstType::Dynamic, t),
                                        ),
                                    },
                                    ty,
                                },
                            ),
                            a1,
                        ),
                    }
                }
            },
        },
        ExprS::Discard(inner) => match spec_analyz(a, *inner) {
            (Result::Err(k), a1) => (Result::Err(k), a1),
            (Result::Ok(t), a1) => (
                Result::Ok(
                    TypedExprS { expr: AnalyzedExprS::Discard(Box::new(t)), ty: ConstType::Void },
                ),
                a1,
            ),
        },
        ExprS::PosInfo(x, line, column) => (
            Result::Ok(
                TypedExprS { expr: AnalyzedExprS::Debug(x, line, column), ty: ConstType::Void },
            ),
            AnalyzerS { env: a.env, line, column, errors: a.errors },
        ),
        ExprS::RetExpr(inner) => match spec_analyz(a, *inner) {
            (Result::Err(k), a1) => (Result::Err(k), a1),
            (Result::Ok(t), a1) => {
                let ty = t.ty;
                (
                    Result::Ok(TypedExprS { expr: AnalyzedExprS::RetExpr(Box::new(t)), ty }),
                    a1,
                )
            },
        },
        ExprS::IfExpr { condition, body, alt } => match spec_analyz(a, *condition) {
            (Result::Err(k), a1) => (Result::Err(k), a1),
            (Result::Ok(c), a1) => match spec_analyz_list(a1, body) {
                (Result::Err(k), a2) => (Result::Err(k), a2),
                (Result::Ok(ts), a2) => match alt {
                    Option::None => (
                        Result::Ok(
                            TypedExprS {
                                expr: AnalyzedExprS::If {
                                    cond: Box::new(c),
                                    body: ts,
                                    alt: Option::None,
                                },
                                ty: ConstType::Void,
                            },
                        ),
                        a2,
                    ),
                    Option::Some(ae) => match spec_analyz(a2, *ae) {
                        (Result::Err(k), a3) => (Result::Err(k), a3),
                        (Result::Ok(ta), a3) => (
                            Result::Ok(
                                TypedExprS {
                                    expr: AnalyzedExprS::If {
                                        cond: Box::new(c),
                                        body: ts,
                                        alt: Option::Some(Box::new(ta)),
                                    },
                                    ty: ConstType::Void,
                                },
                            ),
                            a3,
                        ),
                    },
                },
            },
        },
        ExprS::WhileExpr { .. } => (Result::Err(ErrKind::UnsupportedConstruct), a),
        ExprS::Block(es) => match spec_analyz_list(a, es) {
            (Result::Err(k), a1) => (Result::Err(k), a1),
            (Result::Ok(ts), a1) => (
                Result::Ok(
                    TypedExprS { expr: AnalyzedExprS::Block(ts), ty: ConstType::Void },
                ),
                a1,
            ),
        },
    }
}

/// Inference over a list of nodes in order, stopping at the first
/// error.
pub open spec fn spec_analyz_list(a: AnalyzerS, es: Seq<ExprS>) -> (Result<
    Seq<TypedExprS>,
    ErrKind,
>, AnalyzerS)
    decreases es,
{
    if es.len() == 0 {
        (Result::Ok(Seq::empty()), a)
    } else {
        match spec_analyz_list(a, es.drop_last()) {
            (Result::Err(k), a1) => (Result::Err(k), a1),
            (Result::Ok(ts), a1) => match spec_analyz(a1, es.last()) {
                (Result::Err(k), a2) => (Result::Err(k), a2),
                (Result::Ok(t), a2) => (Result::Ok(ts.push(t)), a2),
            },
        }
    }
}

/// Analyzing a binary node is analyzing its operands left first and
/// joining them under the widening rule.
pub open spec fn spec_analyz_binary(a: AnalyzerS, left: ExprS, right: ExprS, op: String) -> (
    Result<TypedExprS, ErrKind>,
    AnalyzerS,
) {
    match spec_analyz(a, left) {
        (Result::Err(k), a1) => (Result::Err(k), a1),
        (Result::Ok(l), a1) => match spec_analyz(a1, right) {
            (Result::Err(k), a2) => (Result::Err(k), a2),
            (Result::Ok(r), a2) => (Result::Ok(spec_binary_join(op, l, r)), a2),
        },
    }
}

/// Once a prefix of a list fails to analyze, the whole list fails the
/// same way and leaves the same state.
pub proof fn lemma_analyz_list_err(a: AnalyzerS, es: Seq<ExprS>, i: int, k: ErrKind, a1: AnalyzerS)
    requires
        0 <= i <= es.len(),
        spec_analyz_list(a, es.take(i)) == (Result::<Seq<TypedExprS>, ErrKind>::Err(k), a1),
    ensures
        spec_analyz_list(a, es) == (Result::<Seq<TypedExprS>, ErrKind>::Err(k), a1),
    decreases es.len() - i,
{
    if i < es.len() {
        assert(es.take(i + 1).drop_last() =~= es.take(i));
        lemma_analyz_list_err(a, es, i + 1, k, a1);
    } else {
        assert(es.take(i) =~= es);
    }
}

/// The result view of one inference step: the typed node's view on
/// success, the error kind otherwise.
pub open spec fn tres_view(r: Result<TypedExpr, ErrKind>) -> Result<TypedExprS, ErrKind> {
    match r {
        Result::Ok(t) => Result::Ok(texpr_view(t)),
        Result::Err(k) => Result::Err(k),
    }
}

} // verus!

verus! {

/// The type the caller inferred for a parameter: its annotation, or
/// `Dynamic` when it carries none.
pub open spec fn spec_tag_or_dynamic(tag: Option<ConstType>) -> ConstType {
    match tag {
        Option::Some(t) => t,
        Option::None => ConstType::Dynamic,
    }
}

/// Join of the return types found so far with the ones a node
/// contributes; a side without returns defers to the other.
pub open spec fn merge_ret(x: Option<ConstType>, y: Option<ConstType>) -> Option<ConstType> {
    match (x, y) {
        (Option::None, b) => b,
        (a, Option::None) => a,
        (Option::Some(a), Option::Some(b)) => Option::Some(spec_unify_rets(a, b)),
    }
}

/// The unified type of the return statements a typed node contains,
/// looking through discards, conditionals and blocks but not into
/// nested function definitions.
pub open spec fn node_ret_ty(t: TypedExprS) -> Option<ConstType>
    decreases t,
{
    match t.expr {
        AnalyzedExprS::RetExpr(_) => Option::Some(t.ty),
        AnalyzedExprS::Discard(inner) => node_ret_ty(*inner),
        AnalyzedExprS::If { cond, body, alt } => merge_ret(
            list_ret_ty(body),
            match alt {
                Option::None => Option::None,
                Option::Some(a) => node_ret_ty(*a),
            },
        ),
        AnalyzedExprS::Block(es) => list_ret_ty(es),
        _ => Option::None,
    }
}

/// The unified type of the return statements a list of typed nodes
/// contains, joined in order.
pub open spec fn list_ret_ty(ts: Seq<TypedExprS>) -> Option<ConstType>
    decreases ts,
{
    if ts.len() == 0 {
        Option::None
    } else {
        merge_ret(list_ret_ty(ts.drop_last()), node_ret_ty(ts.last()))
    }
}

/// The return type a function body determines: the unified type of its
/// returns, or `Void` when it has none.
pub open spec fn spec_fn_ret(ts: Seq<TypedExprS>) -> ConstType {
    match list_ret_ty(ts) {
        Option::Some(t) => t,
        Option::None => ConstType::Void,
    }
}

/// The unified type of the return statements of one typed node.
#[verifier::loop_isolation(false)]
pub fn node_ret(t: &TypedExpr) -> (r: Option<ConstType>)
    ensures
        r == node_ret_ty(t@),
    decreases *t,
{
    match &t.expr {
        AnalyzedExpr::RetExpr(_) => Option::Some(t.ty),
        AnalyzedExpr::Discard(inner) => node_ret(inner),
        AnalyzedExpr::If { cond: _, body, alt } => {
            let b = list_ret(body);
            let a = match alt {
                Option::None => Option::None,
                Option::Some(ae) => node_ret(ae),
            };
            match (b, a) {
                (Option::None, x) => x,
                (x, Option::None) => x,
                (Option::Some(x), Option::Some(y)) => Option::Some(unify_rets(x, y)),
            }
        },
        AnalyzedExpr::Block(es) => list_ret(es),
        _ => Option::None,
    }
}

/// The unified type of the return statements of a list of typed nodes.
#[verifier::loop_isolation(false)]
pub fn list_ret(ts: &Vec<TypedExpr>) -> (r: Option<ConstType>)
    ensures
        r == list_ret_ty(texprs_view(ts@)),
    decreases ts@,
{
    proof {
        lemma_texprs_view(ts@);
    }
    let ghost vs = texprs_view(ts@);
    let mut acc: Option<ConstType> = Option::None;
    let mut i: usize = 0;
    while i < ts.len()
        invariant
            0 <= i <= ts.len(),
            acc == list_ret_ty(vs.take(i as int)),
        decreases ts@.len() - i,
    {
        let n = node_ret(&ts[i]);
        acc = match (acc, n) {
            (Option::None, x) => x,
            (x, Option::None) => x,
            (Option::Some(x), Option::Some(y)) => Option::Some(unify_rets(x, y)),
        };
        proof {
            assert(vs.take(i + 1).drop_last() =~= vs.take(i as int));
            assert(vs.take(i + 1).last() == vs[i as int]);
        }
        i = i + 1;
    }
    proof {
        assert(vs.take(ts@.len() as int) =~= vs);
    }
    acc
}

/// The return type a function body determines, scanning its analyzed
/// nodes for return statements and unifying their types.
pub fn get_fn_type(body: &Vec<TypedExpr>) -> (r: ConstType)
    ensures
        r == spec_fn_ret(texprs_view(body@)),
{
    match list_ret(body) {
        Option::Some(t) => t,
        Option::None => ConstType::Void,
    }
}

/// A node wrapped in an explicit conversion to the given type.
fn ty_as(ty: &ConstType, expr: TypedExpr) -> (r: TypedExpr)
    ensures
        r@ == spec_ty_as(*ty, expr@),
{
    TypedExpr { expr: AnalyzedExpr::As(Box::new(expr)), ty: *ty }
}

/// The widened binary node built from two analyzed operands.
fn join_binary(op: String, l: TypedExpr, r: TypedExpr) -> (res: TypedExpr)
    ensures
        res@ == spec_binary_join(op, l@, r@),
{
    let lty = l.ty;
    let rty = r.ty;
    if lty == rty {
        TypedExpr {
            expr: AnalyzedExpr::BinaryExpr { op, left: Box::new(l), right: Box::new(r) },
            ty: lty,
        }
    } else if lty == ConstType::Float && rty == ConstType::Int {
        let r2 = ty_as(&ConstType::Float, r);
        TypedExpr {
            expr: AnalyzedExpr::BinaryExpr { op, left: Box::new(l), right: Box::new(r2) },
            ty: ConstType::Float,
        }
    } else if lty == ConstType::Int && rty == ConstType::Float {
        let l2 = ty_as(&ConstType::Float, l);
        TypedExpr {
            expr: AnalyzedExpr::BinaryExpr { op, left: Box::new(l2), right: Box::new(r) },
            ty: ConstType::Float,
        }
    } else if lty == ConstType::Dynamic {
        let r2 = ty_as(&ConstType::Dynamic, r);
        TypedExpr {
            expr: AnalyzedExpr::BinaryExpr { op, left: Box::new(l), right: Box::new(r2) },
            ty: ConstType::Dynamic,
        }
    } else if rty == ConstType::Dynamic {
        let l2 = ty_as(&ConstType::Dynamic, l);
        TypedExpr {
            expr: AnalyzedExpr::BinaryExpr { op, left: Box::new(l2), right: Box::new(r) },
            ty: ConstType::Dynamic,
        }
    } else {
        TypedExpr {
            expr: AnalyzedExpr::BinaryExpr { op, left: Box::new(l), right: Box::new(r) },
            ty: lty,
        }
    }
}

impl Analyzer {
    /// A fresh analysis state over an empty environment.
    pub fn new() -> (r: Analyzer)
        ensures
            r@.env.vars == Seq::<VarEntry>::empty(),
            r@.env.funcs == Seq::<FuncSigS>::empty(),
            r@.env.current == ConstType::Void,
            r@.line == 0,
            r@.column == 0,
            r@.errors == Seq::<ATErr>::empty(),
    {
        Analyzer { env: Environment::new(), line: 0, column: 0, errors: Vec::new() }
    }

    /// Files an error record carrying the current source position.
    /// What the record holds is the caller's to present; the analysis
    /// state is otherwise untouched.
    pub fn err(&mut self, kind: ErrKind, msg: String)
        ensures
            final(self)@ == spec_err(old(self)@, kind, msg),
    {
        let e = ATErr { kind, msg, line: self.line, column: self.column };
        self.errors.push(e);
    }

    /// Resolves an identifier use: fails on an undeclared name, and
    /// otherwise records one more use of the variable and carries its
    /// current type.
    pub fn analyz_id(&mut self, id: Ident) -> (r: Result<TypedExpr, ErrKind>)
        ensures
            (tres_view(r), final(self)@) == spec_analyz(old(self)@, ExprS::Ident(id)),
    {
        if !self.env.has(&id.val) {
            return Result::Err(ErrKind::UndeclaredVar);
        }
        let rc0 = match self.env.get_rc(&id.val) {
            Option::Some(rc0) => rc0,
            Option::None => {
                proof {
                    assert(false);
                }
                return Result::Err(ErrKind::UndeclaredVar);
            },
        };
        let rc = bump(rc0);
        let ty = match self.env.get_ty(&id.val) {
            Option::Some(t) => t,
            Option::None => {
                proof {
                    assert(false);
                }
                return Result::Err(ErrKind::UndeclaredVar);
            },
        };
        self.env.modify_rc(&id.val, rc);
        Result::Ok(TypedExpr { expr: AnalyzedExpr::Id(id.val, rc), ty })
    }

    /// Analyzes a declaration: the initializer is analyzed first, a
    /// name already in scope is a redeclaration error, and otherwise
    /// the name enters the environment at the initializer's type.
    pub fn analyz_var_declare(&mut self, name: &Ident, val: &Expr) -> (r: Result<
        TypedExpr,
        ErrKind,
    >)
        ensures
            (tres_view(r), final(self)@) == spec_analyz(
                old(self)@,
                ExprS::VarDeclare { name: *name, val: Box::new(expr_view_of(val)) },
            ),
        decreases *val, 4int,
    {
        let v = match self.analyz(val) {
            Result::Ok(v) => v,
            Result::Err(k) => { return Result::Err(k); },
        };
        if self.env.has(&name.val) {
            return Result::Err(ErrKind::VarAlreadyDeclared);
        }
        let ty = v.ty;
        self.env.add(&name.val, ty, 0);
        Result::Ok(
            TypedExpr {
                expr: AnalyzedExpr::VarDeclare { name: name.val.clone(), val: Box::new(v) },
                ty,
            },
        )
    }

    /// Analyzes an assignment: the right-hand side is analyzed first,
    /// an unknown name is an undeclared-variable error, and otherwise
    /// the stored type is rebound (a type change is permitted) and the
    /// use counter grows.
    pub fn analyz_var_assign(&mut self, name: &Ident, val: &Expr) -> (r: Result<
        TypedExpr,
        ErrKind,
    >)
        ensures
            (tres_view(r), final(self)@) == spec_analyz(
                old(self)@,
                ExprS::VarAssign { name: *name, val: Box::new(expr_view_of(val)) },
            ),
        decreases *val, 4int,
    {
        let v = match self.analyz(val) {
            Result::Ok(v) => v,
            Result::Err(k) => { return Result::Err(k); },
        };
        if !self.env.has(&name.val) {
            return Result::Err(ErrKind::UndeclaredVar);
        }
        let ty = v.ty;
        let rc0 = match self.env.get_rc(&name.val) {
            Option::Some(rc0) => rc0,
            Option::None => {
                proof {
                    assert(false);
                }
                return Result::Err(ErrKind::UndeclaredVar);
            },
        };
        let rc = bump(rc0);
        self.env.modify(&name.val, ty);
        self.env.modify_rc(&name.val, rc);
        Result::Ok(
            TypedExpr {
                expr: AnalyzedExpr::VarAssign { name: name.val.clone(), val: Box::new(v) },
                ty,
            },
        )
    }
}

/// The view of an expression behind a reference.
pub open spec fn expr_view_of(e: &Expr) -> ExprS {
    expr_view(*e)
}

} // verus!

verus! {

impl Analyzer {
    /// One inference step over an untyped node, following
    /// [`spec_analyz`] exactly: it yields the typed node the
    /// specification names and leaves the analysis state where the
    /// specification puts it.
    #[verifier::loop_isolation(false)]
    #[verifier::rlimit(100)]
    pub fn analyz(&mut self, expr: &Expr) -> (r: Result<TypedExpr, ErrKind>)
        ensures
            (tres_view(r), final(self)@) == spec_analyz(old(self)@, expr_view_of(expr)),
        decreases *expr, 3int,
    {
        match expr {
            Expr::Literal(c) => {
                match c {
                    Const::Int(_) => Result::Ok(
                        TypedExpr { expr: AnalyzedExpr::Literal(c.clone()), ty: ConstType::Int },
                    ),
                    Const::Float(_) => Result::Ok(
                        TypedExpr { expr: AnalyzedExpr::Literal(c.clone()), ty: ConstType::Float },
                    ),
                    _ => Result::Err(ErrKind::UnsupportedConstruct),
                }
            },
            Expr::Ident(id) => self.analyz_id(id.clone()),
            Expr::BinaryExpr { op, left, right } => {
                let l = match self.analyz(left) {
                    Result::Ok(l) => l,
                    Result::Err(k) => { return Result::Err(k); },
                };
                let r2 = match self.analyz(right) {
                    Result::Ok(r2) => r2,
                    Result::Err(k) => { return Result::Err(k); },
                };
                Result::Ok(join_binary(op.clone(), l, r2))
            },
            Expr::VarDeclare { name, val } => self.analyz_var_declare(name, val),
            Expr::VarAssign { name, val } => self.analyz_var_assign(name, val),
            Expr::Discard(inner) => {
                let t = match self.analyz(inner) {
                    Result::Ok(t) => t,
                    Result::Err(k) => { return Result::Err(k); },
                };
                Result::Ok(
                    TypedExpr { expr: AnalyzedExpr::Discard(Box::new(t)), ty: ConstType::Void },
                )
            },
            Expr::PosInfo(x, line, column) => {
                self.line = *line;
                self.column = *column;
                Result::Ok(
                    TypedExpr {
                        expr: AnalyzedExpr::Debug(x.clone(), *line, *column),
                        ty: ConstType::Void,
                    },
                )
            },
            Expr::RetExpr(inner) => {
                let t = match self.analyz(inner) {
                    Result::Ok(t) => t,
                    Result::Err(k) => { return Result::Err(k); },
                };
                let ty = t.ty;
                Result::Ok(TypedExpr { expr: AnalyzedExpr::RetExpr(Box::new(t)), ty })
            },
            Expr::FnCall { .. } => self.analyz_call(expr),
            Expr::IfExpr { .. } => self.analyz_if(expr),
            Expr::WhileExpr { .. } => Result::Err(ErrKind::UnsupportedConstruct),
            Expr::Block(..) => self.analyz_block(expr),
        }
    }

    /// Analyzes a binary expression: both operands are analyzed, left
    /// first, and joined under the widening rule.
    pub fn analyz_binary_expr(&mut self, left: &Expr, right: &Expr, op: String) -> (r: Result<
        TypedExpr,
        ErrKind,
    >)
        ensures
            (tres_view(r), final(self)@) == spec_analyz_binary(
                old(self)@,
                expr_view_of(left),
                expr_view_of(right),
                op,
            ),
    {
        let l = match self.analyz(left) {
            Result::Ok(l) => l,
            Result::Err(k) => { return Result::Err(k); },
        };
        let r2 = match self.analyz(right) {
            Result::Ok(r2) => r2,
            Result::Err(k) => { return Result::Err(k); },
        };
        Result::Ok(join_binary(op, l, r2))
    }
}

} // verus!

verus! {

impl Analyzer {
    /// Analyzes a call: the callee must be registered with the right
    /// arity, and every argument is analyzed and then boxed as a
    /// `Dynamic`-typed conversion, the language's calling convention.
    #[verifier::loop_isolation(false)]
    #[verifier::rlimit(100)]
    fn analyz_call(&mut self, expr: &Expr) -> (r: Result<TypedExpr, ErrKind>)
        requires
            *expr is FnCall,
        ensures
            (tres_view(r), final(self)@) == spec_analyz(old(self)@, expr_view_of(expr)),
        decreases *expr, 2int,
    {
        let (name, args) = match expr {
            Expr::FnCall { name, args } => (name, args),
            _ => {
                proof {
                    assert(false);
                }
                return Result::Err(ErrKind::UnsupportedConstruct);
            },
        };
        proof {
            lemma_exprs_view(args@);
        }
        let arity: Option<usize> = match self.env.get_function(name) {
            Option::Some(f) => Option::Some(f.args.len()),
            Option::None => Option::None,
        };
        let n = match arity {
            Option::None => {
                self.err(ErrKind::UndeclaredVar, name.val.clone());
                return Result::Err(ErrKind::UndeclaredVar);
            },
            Option::Some(n) => n,
        };
        if n != args.len() {
            self.err(ErrKind::UndeclaredVar, name.val.clone());
            return Result::Err(ErrKind::UndeclaredVar);
        }
        let ty = match self.env.get_ty(&name.val) {
            Option::Some(t) => t,
            Option::None => {
                proof {
                    assert(false);
                }
                return Result::Err(ErrKind::UndeclaredVar);
            },
        };
        proof {
            lemma_exprs_view(args@);
        }
        let ghost a_pre = self@;
        let ghost vs = exprs_view(args@);
        let mut targs: Vec<TypedExpr> = Vec::new();
        let ghost wrap = |t: TypedExprS| spec_ty_as(ConstType::Dynamic, t);
        let mut i: usize = 0;
        while i < args.len()
            invariant
                0 <= i <= args.len(),
                spec_analyz_list(a_pre, vs.take(i as int)) matches (
                    Result::Ok(ts),
                    anow,
                ) && anow == self@ && texprs_view(targs@) == ts.map_values(wrap),
            decreases args@.len() - i,
        {
            let t = match self.analyz(&args[i]) {
                Result::Ok(t) => t,
                Result::Err(k) => {
                    proof {
                        assert(vs.take(i + 1).drop_last() =~= vs.take(i as int));
                        assert(vs.take(i + 1).last() == vs[i as int]);
                        lemma_analyz_list_err(a_pre, vs, i + 1, k, self@);
                    }
                    return Result::Err(k);
                },
            };
            let ghost prev = texprs_view(targs@);
            let ghost pv = targs@;
            let ghost tview = t@;
            targs.push(ty_as(&ConstType::Dynamic, t));
            proof {
                assert(vs.take(i + 1).drop_last() =~= vs.take(i as int));
                assert(vs.take(i + 1).last() == vs[i as int]);
                assert(targs@.drop_last() =~= pv);
                let (lres, lnow) = spec_analyz_list(a_pre, vs.take(i as int));
                let ts = lres->Ok_0;
                assert(texprs_view(targs@) == prev.push(spec_ty_as(ConstType::Dynamic, tview)));
                assert(ts.push(tview).map_values(wrap) =~= ts.map_values(wrap).push(
                    wrap(tview),
                ));
            }
            i = i + 1;
        }
        proof {
            assert(vs.take(args@.len() as int) =~= vs);
        }
        Result::Ok(TypedExpr { expr: AnalyzedExpr::FnCall { name: name.val.clone(), args: targs }, ty })
    }

    /// Analyzes a conditional: condition, branch body, and the
    /// alternate branch if one stands.
    #[verifier::loop_isolation(false)]
    #[verifier::rlimit(100)]
    fn analyz_if(&mut self, expr: &Expr) -> (r: Result<TypedExpr, ErrKind>)
        requires
            *expr is IfExpr,
        ensures
            (tres_view(r), final(self)@) == spec_analyz(old(self)@, expr_view_of(expr)),
        decreases *expr, 2int,
    {
        let (condition, body, alt) = match expr {
            Expr::IfExpr { condition, body, alt } => (condition, body, alt),
            _ => {
                proof {
                    assert(false);
                }
                return Result::Err(ErrKind::UnsupportedConstruct);
            },
        };
        let c = match self.analyz(condition) {
            Result::Ok(c) => c,
            Result::Err(k) => { return Result::Err(k); },
        };
        proof {
            lemma_exprs_view(body@);
        }
        let ghost a1 = self@;
        let ghost vs = exprs_view(body@);
        let mut tbody: Vec<TypedExpr> = Vec::new();
        let mut i: usize = 0;
        while i < body.len()
            invariant
                0 <= i <= body.len(),
                spec_analyz_list(a1, vs.take(i as int)) matches (
                    Result::Ok(ts),
                    anow,
                ) && anow == self@ && texprs_view(tbody@) == ts,
            decreases body@.len() - i,
        {
            let t = match self.analyz(&body[i]) {
                Result::Ok(t) => t,
                Result::Err(k) => {
                    proof {
                        assert(vs.take(i + 1).drop_last() =~= vs.take(i as int));
                        assert(vs.take(i + 1).last() == vs[i as int]);
                        lemma_analyz_list_err(a1, vs, i + 1, k, self@);
                    }
                    return Result::Err(k);
                },
            };
            let ghost prev = texprs_view(tbody@);
            let ghost pv = tbody@;
            let ghost tview = t@;
            tbody.push(t);
            proof {
                assert(vs.take(i + 1).drop_last() =~= vs.take(i as int));
                assert(vs.take(i + 1).last() == vs[i as int]);
                assert(tbody@.drop_last() =~= pv);
                assert(texprs_view(tbody@) == prev.push(tview));
            }
            i = i + 1;
        }
        proof {
            assert(vs.take(body@.len() as int) =~= vs);
        }
        match alt {
            Option::None => Result::Ok(
                TypedExpr {
                    expr: AnalyzedExpr::If {
                        cond: Box::new(c),
                        body: tbody,
                        alt: Option::None,
                    },
                    ty: ConstType::Void,
                },
            ),
            Option::Some(ae) => {
                let ta = match self.analyz(ae) {
                    Result::Ok(ta) => ta,
                    Result::Err(k) => { return Result::Err(k); },
                };
                Result::Ok(
                    TypedExpr {
                        expr: AnalyzedExpr::If {
                            cond: Box::new(c),
                            body: tbody,
                            alt: Option::Some(Box::new(ta)),
                        },
                        ty: ConstType::Void,
                    },
                )
            },
        }
    }

    /// Analyzes a block of statements in order.
    #[verifier::loop_isolation(false)]
    #[verifier::rlimit(100)]
    fn analyz_block(&mut self, expr: &Expr) -> (r: Result<TypedExpr, ErrKind>)
        requires
            *expr is Block,
        ensures
            (tres_view(r), final(self)@) == spec_analyz(old(self)@, expr_view_of(expr)),
        decreases *expr, 2int,
    {
        let es = match expr {
            Expr::Block(es) => es,
            _ => {
                proof {
                    assert(false);
                }
                return Result::Err(ErrKind::UnsupportedConstruct);
            },
        };
        proof {
            lemma_exprs_view(es@);
        }
        let ghost a1 = self@;
        let ghost vs = exprs_view(es@);
        let mut tbody: Vec<TypedExpr> = Vec::new();
        let mut i: usize = 0;
        while i < es.len()
            invariant
                0 <= i <= es.len(),
                spec_analyz_list(a1, vs.take(i as int)) matches (
                    Result::Ok(ts),
                    anow,
                ) && anow == self@ && texprs_view(tbody@) == ts,
            decreases es@.len() - i,
        {
            let t = match self.analyz(&es[i]) {
                Result::Ok(t) => t,
                Result::Err(k) => {
                    proof {
                        assert(vs.take(i + 1).drop_last() =~= vs.take(i as int));
                        assert(vs.take(i + 1).last() == vs[i as int]);
                        lemma_analyz_list_err(a1, vs, i + 1, k, self@);
                    }
                    return Result::Err(k);
                },
            };
            let ghost prev = texprs_view(tbody@);
            let ghost pv = tbody@;
            let ghost tview = t@;
            tbody.push(t);
            proof {
                assert(vs.take(i + 1).drop_last() =~= vs.take(i as int));
                assert(vs.take(i + 1).last() == vs[i as int]);
                assert(tbody@.drop_last() =~= pv);
                assert(texprs_view(tbody@) == prev.push(tview));
            }
            i = i + 1;
        }
        proof {
            assert(vs.take(es@.len() as int) =~= vs);
        }
        Result::Ok(TypedExpr { expr: AnalyzedExpr::Block(tbody), ty: ConstType::Void })
    }
}

} // verus!

verus! {

/// The variable table after the parameters of a function are declared
/// in order, each at its annotation or `Dynamic`, with a fresh use
/// counter.
pub open spec fn push_params(vars: Seq<VarEntry>, args: Seq<Ident>) -> Seq<VarEntry>
    decreases args.len(),
{
    if args.len() == 0 {
        vars
    } else {
        push_params(vars, args.drop_last()).push(
            VarEntry {
                name: args.last().val,
                ty: spec_tag_or_dynamic(args.last().tag),
                rc: 0,
            },
        )
    }
}

/// What analyzing one function declaration yields: parameters are
/// pre-registered, the body is analyzed in order, the return type is
/// unified over the body's return statements, and only then is the
/// function registered, so recursive and forward calls inside the body
/// are errors.
pub open spec fn spec_analyz_func(a: AnalyzerS, f: FunctionS) -> (Result<TypedExprS, ErrKind>, AnalyzerS) {
    let a1 = AnalyzerS {
        env: EnvS {
            vars: push_params(a.env.vars, f.args),
            funcs: a.env.funcs,
            current: a.env.current,
        },
        line: a.line,
        column: a.column,
        errors: a.errors,
    };
    match spec_analyz_list(a1, f.body) {
        (Result::Err(k), a2) => (Result::Err(k), a2),
        (Result::Ok(ts), a2) => {
            let ty = spec_fn_ret(ts);
            let a3 = AnalyzerS {
                env: EnvS {
                    vars: a2.env.vars,
                    funcs: a2.env.funcs.push(FuncSigS { name: f.name, args: f.args, ret: ty }),
                    current: a2.env.current,
                },
                line: a2.line,
                column: a2.column,
                errors: a2.errors,
            };
            (
                Result::Ok(
                    TypedExprS {
                        expr: AnalyzedExprS::Func {
                            ret: ty,
                            name: f.name.val,
                            args: f.args,
                            body: ts,
                        },
                        ty,
                    },
                ),
                a3,
            )
        },
    }
}

/// Analysis of the declared functions in order, stopping at the first
/// error.
pub open spec fn spec_analyz_funcs(a: AnalyzerS, fs: Seq<FunctionS>) -> (Result<
    Seq<TypedExprS>,
    ErrKind,
>, AnalyzerS)
    decreases fs.len(),
{
    if fs.len() == 0 {
        (Result::Ok(Seq::empty()), a)
    } else {
        match spec_analyz_funcs(a, fs.drop_last()) {
            (Result::Err(k), a1) => (Result::Err(k), a1),
            (Result::Ok(ts), a1) => match spec_analyz_func(a1, fs.last()) {
                (Result::Err(k), a2) => (Result::Err(k), a2),
                (Result::Ok(t), a2) => (Result::Ok(ts.push(t)), a2),
            },
        }
    }
}

/// Once a prefix of the declared functions fails to analyze, the whole
/// run fails the same way.
pub proof fn lemma_analyz_funcs_err(
    a: AnalyzerS,
    fs: Seq<FunctionS>,
    i: int,
    k: ErrKind,
    a1: AnalyzerS,
)
    requires
        0 <= i <= fs.len(),
        spec_analyz_funcs(a, fs.take(i)) == (Result::<Seq<TypedExprS>, ErrKind>::Err(k), a1),
    ensures
        spec_analyz_funcs(a, fs) == (Result::<Seq<TypedExprS>, ErrKind>::Err(k), a1),
    decreases fs.len() - i,
{
    if i < fs.len() {
        assert(fs.take(i + 1).drop_last() =~= fs.take(i));
        lemma_analyz_funcs_err(a, fs, i + 1, k, a1);
    } else {
        assert(fs.take(i) =~= fs);
    }
}

/// An analysis state as a fresh run starts it: an empty variable
/// table, exactly the built-in `writeln` (one `Dynamic` parameter,
/// `Void` return) registered, position zero, and no errors filed.
pub open spec fn is_initial_analyzer(a: AnalyzerS) -> bool {
    &&& a.env.vars == Seq::<VarEntry>::empty()
    &&& a.env.funcs.len() == 1
    &&& a.env.funcs[0].name.val@ == "writeln"@
    &&& a.env.funcs[0].name.tag is None
    &&& a.env.funcs[0].args.len() == 1
    &&& a.env.funcs[0].args[0].val@ == "x"@
    &&& a.env.funcs[0].args[0].tag == Option::Some(ConstType::Dynamic)
    &&& a.env.funcs[0].ret == ConstType::Void
    &&& a.env.current == ConstType::Void
    &&& a.line == 0
    &&& a.column == 0
    &&& a.errors == Seq::<ATErr>::empty()
}

/// What a whole analysis run yields from an initial state: every
/// declared function analyzed and registered in order, then every
/// top-level expression, the first failure aborting the run.
pub open spec fn spec_analyz_prog(a0: AnalyzerS, es: Seq<ExprS>, fs: Seq<FunctionS>) -> Result<
    Seq<TypedExprS>,
    ErrKind,
> {
    match spec_analyz_funcs(a0, fs) {
        (Result::Err(k), _) => Result::Err(k),
        (Result::Ok(tfs), a1) => match spec_analyz_list(a1, es) {
            (Result::Err(k), _) => Result::Err(k),
            (Result::Ok(ts), _) => Result::Ok(tfs + ts),
        },
    }
}

/// The views of a list of function declarations.
pub open spec fn functions_view(fs: Seq<Function>) -> Seq<FunctionS> {
    fs.map_values(|f: Function| f@)
}

impl Analyzer {
    /// Analyzes one declared function, following [`spec_analyz_func`].
    #[verifier::loop_isolation(false)]
    #[verifier::rlimit(100)]
    fn analyz_func(&mut self, func: &Function) -> (r: Result<TypedExpr, ErrKind>)
        ensures
            (tres_view(r), final(self)@) == spec_analyz_func(old(self)@, func@),
    {
        let ghost a0 = self@;
        proof {
            lemma_exprs_view(func.body@);
        }
        let mut i: usize = 0;
        while i < func.args.len()
            invariant
                0 <= i <= func.args.len(),
                self@.env.vars == push_params(a0.env.vars, func.args@.take(i as int)),
                self@.env.funcs == a0.env.funcs,
                self@.env.current == a0.env.current,
                self@.line == a0.line,
                self@.column == a0.column,
                self@.errors == a0.errors,
            decreases func.args@.len() - i,
        {
            let arg = &func.args[i];
            let ty = match arg.tag {
                Option::Some(t) => t,
                Option::None => ConstType::Dynamic,
            };
            self.env.add(&arg.val, ty, 0);
            proof {
                assert(func.args@.take(i + 1).drop_last() =~= func.args@.take(i as int));
                assert(func.args@.take(i + 1).last() == func.args@[i as int]);
            }
            i = i + 1;
        }
        proof {
            assert(func.args@.take(func.args@.len() as int) =~= func.args@);
        }
        let ghost a1 = self@;
        let ghost vs = exprs_view(func.body@);
        let mut body: Vec<TypedExpr> = Vec::new();
        let mut j: usize = 0;
        while j < func.body.len()
            invariant
                0 <= j <= func.body.len(),
                spec_analyz_list(a1, vs.take(j as int)) matches (Result::Ok(ts), anow) && anow
                    == self@ && texprs_view(body@) == ts,
            decreases func.body@.len() - j,
        {
            let t = match self.analyz(&func.body[j]) {
                Result::Ok(t) => t,
                Result::Err(k) => {
                    proof {
                        assert(vs.take(j + 1).drop_last() =~= vs.take(j as int));
                        assert(vs.take(j + 1).last() == vs[j as int]);
                        lemma_analyz_list_err(a1, vs, j + 1, k, self@);
                    }
                    return Result::Err(k);
                },
            };
            let ghost prev = texprs_view(body@);
            let ghost pv = body@;
            let ghost tview = t@;
            body.push(t);
            proof {
                assert(vs.take(j + 1).drop_last() =~= vs.take(j as int));
                assert(vs.take(j + 1).last() == vs[j as int]);
                assert(body@.drop_last() =~= pv);
                assert(texprs_view(body@) == prev.push(tview));
            }
            j = j + 1;
        }
        proof {
            assert(vs.take(func.body@.len() as int) =~= vs);
        }
        let ty = get_fn_type(&body);
        self.env.push_function(func.name.clone(), clone_idents(&func.args), ty);
        Result::Ok(
            TypedExpr {
                expr: AnalyzedExpr::Func {
                    ret: ty,
                    name: func.name.val.clone(),
                    args: clone_idents(&func.args),
                    body,
                },
                ty,
            },
        )
    }

    /// Analyzes a whole program from a fresh state with the built-in
    /// `writeln` registered: declared functions first, in order, then
    /// the top-level expressions; the first failure aborts the run and
    /// no partial result is returned.
    #[verifier::loop_isolation(false)]
    #[verifier::rlimit(100)]
    pub fn analyz_prog(exprs: Vec<Expr>, functions: Vec<Function>) -> (r: Result<
        Vec<TypedExpr>,
        ErrKind,
    >)
        ensures
            exists|a0: AnalyzerS|
                #[trigger] is_initial_analyzer(a0) && match (
                    r,
                    spec_analyz_prog(a0, exprs_view(exprs@), functions_view(functions@)),
                ) {
                    (Result::Ok(ts), Result::Ok(ss)) => texprs_view(ts@) == ss,
                    (Result::Err(k), Result::Err(ks)) => k == ks,
                    _ => false,
                },
    {
        let mut analyzer = Analyzer::new();
        let writeln_name = Ident { val: "writeln".to_string(), tag: Option::None };
        let param = Ident { val: "x".to_string(), tag: Option::Some(ConstType::Dynamic) };
        let mut params: Vec<Ident> = Vec::new();
        params.push(param);
        analyzer.env.push_function(writeln_name, params, ConstType::Void);
        let ghost a0 = analyzer@;
        proof {
            assert(is_initial_analyzer(a0));
            lemma_exprs_view(exprs@);
        }
        let ghost fvs = functions_view(functions@);
        let mut out: Vec<TypedExpr> = Vec::new();
        let mut i: usize = 0;
        while i < functions.len()
            invariant
                0 <= i <= functions.len(),
                spec_analyz_funcs(a0, fvs.take(i as int)) matches (Result::Ok(ts), anow) && anow
                    == analyzer@ && texprs_view(out@) == ts,
            decreases functions@.len() - i,
        {
            let t = match analyzer.analyz_func(&functions[i]) {
                Result::Ok(t) => t,
                Result::Err(k) => {
                    proof {
                        assert(fvs.take(i + 1).drop_last() =~= fvs.take(i as int));
                        assert(fvs.take(i + 1).last() == fvs[i as int]);
                        lemma_analyz_funcs_err(a0, fvs, i + 1, k, analyzer@);
                    }
                    return Result::Err(k);
                },
            };
            let ghost prev = texprs_view(out@);
            let ghost pv = out@;
            let ghost tview = t@;
            out.push(t);
            proof {
                assert(fvs.take(i + 1).drop_last() =~= fvs.take(i as int));
                assert(fvs.take(i + 1).last() == fvs[i as int]);
                assert(out@.drop_last() =~= pv);
                assert(texprs_view(out@) == prev.push(tview));
            }
            i = i + 1;
        }
        proof {
            assert(fvs.take(functions@.len() as int) =~= fvs);
        }
        let ghost a1 = analyzer@;
        let ghost tfs = texprs_view(out@);
        let ghost evs = exprs_view(exprs@);
        let mut j: usize = 0;
        while j < exprs.len()
            invariant
                0 <= j <= exprs.len(),
                spec_analyz_list(a1, evs.take(j as int)) matches (Result::Ok(ts), anow) && anow
                    == analyzer@ && texprs_view(out@) == tfs + ts,
            decreases exprs@.len() - j,
        {
            let t = match analyzer.analyz(&exprs[j]) {
                Result::Ok(t) => t,
                Result::Err(k) => {
                    proof {
                        assert(evs.take(j + 1).drop_last() =~= evs.take(j as int));
                        assert(evs.take(j + 1).last() == evs[j as int]);
                        lemma_analyz_list_err(a1, evs, j + 1, k, analyzer@);
                    }
                    return Result::Err(k);
                },
            };
            let ghost prev = texprs_view(out@);
            let ghost pv = out@;
            let ghost tview = t@;
            out.push(t);
            proof {
                assert(evs.take(j + 1).drop_last() =~= evs.take(j as int));
                assert(evs.take(j + 1).last() == evs[j as int]);
                assert(out@.drop_last() =~= pv);
                assert(texprs_view(out@) == prev.push(tview));
                let (lres, lnow) = spec_analyz_list(a1, evs.take(j as int));
                assert(texprs_view(out@) =~= tfs + lres->Ok_0.push(tview));
            }
            j = j + 1;
        }
        proof {
            assert(evs.take(exprs@.len() as int) =~= evs);
        }
        Result::Ok(out)
    }
}

} // verus!

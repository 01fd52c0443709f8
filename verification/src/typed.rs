//! The typed expression tree produced by the inference pass, rebuilt by
//! the correction pass and consumed by the lowering pass, together with
//! its mathematical view and the conversion back to an untyped tree.

use vstd::prelude::*;
use crate::types::{Const, ConstType, ErrKind, Ident};
use crate::ast::{Expr, ExprS, expr_view, exprs_view};

verus! {

/// A semantic expression variant. Each node is paired with its resolved
/// type in [`TypedExpr`]. Beyond the untyped forms it adds an explicit
/// conversion wrapper (`As`, targeting the enclosing node's type), a
/// debug marker, a function definition carrying its unified return
/// type, and an import binding.
#[derive(Debug)]
pub enum AnalyzedExpr {
    Literal(Const),
    Id(String, u64),
    BinaryExpr { op: String, left: Box<TypedExpr>, right: Box<TypedExpr> },
    VarDeclare { name: String, val: Box<TypedExpr> },
    VarAssign { name: String, val: Box<TypedExpr> },
    FnCall { name: String, args: Vec<TypedExpr> },
    Discard(Box<TypedExpr>),
    Debug(String, u32, u32),
    RetExpr(Box<TypedExpr>),
    As(Box<TypedExpr>),
    If { cond: Box<TypedExpr>, body: Vec<TypedExpr>, alt: Option<Box<TypedExpr>> },
    Func { ret: ConstType, name: String, args: Vec<Ident>, body: Vec<TypedExpr> },
    Import { module: String, name: String, args: Vec<Ident> },
    Block(Vec<TypedExpr>),
}

/// A typed expression: a semantic variant with its resolved type.
#[derive(Debug)]
pub struct TypedExpr {
    pub expr: AnalyzedExpr,
    pub ty: ConstType,
}

/// Mathematical view of a semantic expression variant.
pub enum AnalyzedExprS {
    Literal(Const),
    Id(String, u64),
    BinaryExpr { op: String, left: Box<TypedExprS>, right: Box<TypedExprS> },
    VarDeclare { name: String, val: Box<TypedExprS> },
    VarAssign { name: String, val: Box<TypedExprS> },
    FnCall { name: String, args: Seq<TypedExprS> },
    Discard(Box<TypedExprS>),
    Debug(String, u32, u32),
    RetExpr(Box<TypedExprS>),
    As(Box<TypedExprS>),
    If { cond: Box<TypedExprS>, body: Seq<TypedExprS>, alt: Option<Box<TypedExprS>> },
    Func { ret: ConstType, name: String, args: Seq<Ident>, body: Seq<TypedExprS> },
    Import { module: String, name: String, args: Seq<Ident> },
    Block(Seq<TypedExprS>),
}

/// Mathematical view of a typed expression.
pub struct TypedExprS {
    pub expr: AnalyzedExprS,
    pub ty: ConstType,
}

pub open spec fn aexpr_view(e: AnalyzedExpr) -> AnalyzedExprS
    decreases e,
{
    match e {
        AnalyzedExpr::Literal(c) => AnalyzedExprS::Literal(c),
        AnalyzedExpr::Id(name, rc) => AnalyzedExprS::Id(name, rc),
        AnalyzedExpr::BinaryExpr { op, left, right } => AnalyzedExprS::BinaryExpr {
            op,
            left: Box::new(texpr_view(*left)),
            right: Box::new(texpr_view(*right)),
        },
        AnalyzedExpr::VarDeclare { name, val } => AnalyzedExprS::VarDeclare {
            name,
            val: Box::new(texpr_view(*val)),
        },
        AnalyzedExpr::VarAssign { name, val } => AnalyzedExprS::VarAssign {
            name,
            val: Box::new(texpr_view(*val)),
        },
        AnalyzedExpr::FnCall { name, args } => AnalyzedExprS::FnCall {
            name,
            args: texprs_view(args@),
        },
        AnalyzedExpr::Discard(inner) => AnalyzedExprS::Discard(Box::new(texpr_view(*inner))),
        AnalyzedExpr::Debug(s, line, column) => AnalyzedExprS::Debug(s, line, column),
        AnalyzedExpr::RetExpr(inner) => AnalyzedExprS::RetExpr(Box::new(texpr_view(*inner))),
        AnalyzedExpr::As(inner) => AnalyzedExprS::As(Box::new(texpr_view(*inner))),
        AnalyzedExpr::If { cond, body, alt } => AnalyzedExprS::If {
            cond: Box::new(texpr_view(*cond)),
            body: texprs_view(body@),
            alt: match alt {
                Option::None => Option::None,
                Option::Some(a) => Option::Some(Box::new(texpr_view(*a))),
            },
        },
        AnalyzedExpr::Func { ret, name, args, body } => AnalyzedExprS::Func {
            ret,
            name,
            args: args@,
            body: texprs_view(body@),
        },
        AnalyzedExpr::Import { module, name, args } => AnalyzedExprS::Import {
            module,
            name,
            args: args@,
        },
        AnalyzedExpr::Block(body) => AnalyzedExprS::Block(texprs_view(body@)),
    }
}

pub open spec fn texpr_view(t: TypedExpr) -> TypedExprS
    decreases t,
{
    TypedExprS { expr: aexpr_view(t.expr), ty: t.ty }
}

pub open spec fn texprs_view(s: Seq<TypedExpr>) -> Seq<TypedExprS>
    decreases s,
{
    if s.len() == 0 {
        Seq::empty()
    } else {
        texprs_view(s.drop_last()).push(texpr_view(s.last()))
    }
}

impl View for AnalyzedExpr {
    type V = AnalyzedExprS;

    open spec fn view(&self) -> AnalyzedExprS {
        aexpr_view(*self)
    }
}

impl View for TypedExpr {
    type V = TypedExprS;

    open spec fn view(&self) -> TypedExprS {
        texpr_view(*self)
    }
}

/// The view of a sequence of typed expressions indexes pointwise, and
/// commutes with taking a prefix.
pub proof fn lemma_texprs_view(s: Seq<TypedExpr>)
    ensures
        texprs_view(s).len() == s.len(),
        forall|i: int| 0 <= i < s.len() ==> texprs_view(s)[i] == texpr_view(#[trigger] s[i]),
        forall|i: int|
            0 <= i <= s.len() ==> #[trigger] texprs_view(s.take(i)) == texprs_view(s).take(i),
    decreases s.len(),
{
    if s.len() > 0 {
        lemma_texprs_view(s.drop_last());
        assert forall|i: int| 0 <= i <= s.len() implies #[trigger] texprs_view(s.take(i))
            == texprs_view(s).take(i) by {
            if i < s.len() {
                assert(s.take(i) =~= s.drop_last().take(i));
                assert(texprs_view(s).take(i) =~= texprs_view(s.drop_last()).take(i));
            } else {
                assert(s.take(i) =~= s);
                assert(texprs_view(s).take(i) =~= texprs_view(s));
            }
        }
        assert forall|i: int| 0 <= i < s.len() implies texprs_view(s)[i] == texpr_view(
            #[trigger] s[i],
        ) by {
            if i < s.len() - 1 {
                assert(s.drop_last()[i] == s[i]);
            }
        }
    }
}

/// What converting a typed node back to an untyped one yields: the
/// conversion strips `As` wrappers and use counters; function
/// definitions and import bindings have no untyped form and are
/// reported as unsupported.
pub open spec fn spec_to_expr(t: TypedExprS) -> Result<ExprS, ErrKind>
    decreases t,
{
    match t.expr {
        AnalyzedExprS::Literal(c) => Result::Ok(ExprS::Literal(c)),
        AnalyzedExprS::Id(name, rc) => Result::Ok(
            ExprS::Ident(Ident { val: name, tag: Option::None }),
        ),
        AnalyzedExprS::BinaryExpr { op, left, right } => match (
            spec_to_expr(*left),
            spec_to_expr(*right),
        ) {
            (Result::Ok(l), Result::Ok(r)) => Result::Ok(
                ExprS::BinaryExpr { op, left: Box::new(l), right: Box::new(r) },
            ),
            (Result::Err(k), _) => Result::Err(k),
            (_, Result::Err(k)) => Result::Err(k),
        },
        AnalyzedExprS::VarDeclare { name, val } => match spec_to_expr(*val) {
            Result::Ok(v) => Result::Ok(
                ExprS::VarDeclare {
                    name: Ident { val: name, tag: Option::None },
                    val: Box::new(v),
                },
            ),
            Result::Err(k) => Result::Err(k),
        },
        AnalyzedExprS::VarAssign { name, val } => match spec_to_expr(*val) {
            Result::Ok(v) => Result::Ok(
                ExprS::VarAssign { name: Ident { val: name, tag: Option::None }, val: Box::new(v) },
            ),
            Result::Err(k) => Result::Err(k),
        },
        AnalyzedExprS::FnCall { name, args } => match spec_to_exprs(args) {
            Result::Ok(a) => Result::Ok(
                ExprS::FnCall { name: Ident { val: name, tag: Option::None }, args: a },
            ),
            Result::Err(k) => Result::Err(k),
        },
        AnalyzedExprS::Discard(inner) => match spec_to_expr(*inner) {
            Result::Ok(d) => Result::Ok(ExprS::Discard(Box::new(d))),
            Result::Err(k) => Result::Err(k),
        },
        AnalyzedExprS::Debug(name, line, column) => Result::Ok(ExprS::PosInfo(name, line, column)),
        AnalyzedExprS::RetExpr(inner) => match spec_to_expr(*inner) {
            Result::Ok(r) => Result::Ok(ExprS::RetExpr(Box::new(r))),
            Result::Err(k) => Result::Err(k),
        },
        AnalyzedExprS::As(inner) => spec_to_expr(*inner),
        AnalyzedExprS::If { cond, body, alt } => match (spec_to_expr(*cond), spec_to_exprs(body)) {
            (Result::Ok(c), Result::Ok(b)) => match alt {
                Option::None => Result::Ok(
                    ExprS::IfExpr { condition: Box::new(c), body: b, alt: Option::None },
                ),
                Option::Some(a) => match spec_to_expr(*a) {
                    Result::Ok(ae) => Result::Ok(
                        ExprS::IfExpr {
                            condition: Box::new(c),
                            body: b,
                            alt: Option::Some(Box::new(ae)),
                        },
                    ),
                    Result::Err(k) => Result::Err(k),
                },
            },
            (Result::Err(k), _) => Result::Err(k),
            (_, Result::Err(k)) => Result::Err(k),
        },
        AnalyzedExprS::Func { .. } => Result::Err(ErrKind::UnsupportedConstruct),
        AnalyzedExprS::Import { .. } => Result::Err(ErrKind::UnsupportedConstruct),
        AnalyzedExprS::Block(body) => match spec_to_exprs(body) {
            Result::Ok(b) => Result::Ok(ExprS::Block(b)),
            Result::Err(k) => Result::Err(k),
        },
    }
}

pub open spec fn spec_to_exprs(s: Seq<TypedExprS>) -> Result<Seq<ExprS>, ErrKind>
    decreases s,
{
    if s.len() == 0 {
        Result::Ok(Seq::empty())
    } else {
        match spec_to_exprs(s.drop_last()) {
            Result::Ok(rest) => match spec_to_expr(s.last()) {
                Result::Ok(e) => Result::Ok(rest.push(e)),
                Result::Err(k) => Result::Err(k),
            },
            Result::Err(k) => Result::Err(k),
        }
    }
}

impl TypedExpr {
    /// Converts a typed node back into an untyped expression, stripping
    /// explicit conversion wrappers and use counters, so that the
    /// widening rule can be re-applied to corrected operands. Function
    /// definitions and import bindings have no untyped counterpart.
    #[verifier::loop_isolation(false)]
    #[verifier::rlimit(100)]
    pub fn to_expr(&self) -> (r: Result<Expr, ErrKind>)
        ensures
            match (r, spec_to_expr(self@)) {
                (Result::Ok(e), Result::Ok(es)) => e@ == es,
                (Result::Err(k), Result::Err(ks)) => k == ks,
                _ => false,
            },
        decreases *self,
    {
        match &self.expr {
            AnalyzedExpr::Literal(c) => Result::Ok(Expr::Literal(c.clone())),
            AnalyzedExpr::Id(name, _rc) => Result::Ok(
                Expr::Ident(Ident { val: name.clone(), tag: Option::None }),
            ),
            AnalyzedExpr::BinaryExpr { op, left, right } => {
                let l = match left.to_expr() {
                    Result::Ok(l) => l,
                    Result::Err(k) => { return Result::Err(k); },
                };
                let r = match right.to_expr() {
                    Result::Ok(r) => r,
                    Result::Err(k) => { return Result::Err(k); },
                };
                Result::Ok(
                    Expr::BinaryExpr { op: op.clone(), left: Box::new(l), right: Box::new(r) },
                )
            },
            AnalyzedExpr::VarDeclare { name, val } => {
                let v = match val.to_expr() {
                    Result::Ok(v) => v,
                    Result::Err(k) => { return Result::Err(k); },
                };
                Result::Ok(
                    Expr::VarDeclare {
                        name: Ident { val: name.clone(), tag: Option::None },
                        val: Box::new(v),
                    },
                )
            },
            AnalyzedExpr::VarAssign { name, val } => {
                let v = match val.to_expr() {
                    Result::Ok(v) => v,
                    Result::Err(k) => { return Result::Err(k); },
                };
                Result::Ok(
                    Expr::VarAssign {
                        name: Ident { val: name.clone(), tag: Option::None },
                        val: Box::new(v),
                    },
                )
            },
            AnalyzedExpr::FnCall { name, args } => {
                let a = match to_expr_list(args) {
                    Result::Ok(a) => a,
                    Result::Err(k) => { return Result::Err(k); },
                };
                Result::Ok(
                    Expr::FnCall { name: Ident { val: name.clone(), tag: Option::None }, args: a },
                )
            },
            AnalyzedExpr::Discard(inner) => {
                let d = match inner.to_expr() {
                    Result::Ok(d) => d,
                    Result::Err(k) => { return Result::Err(k); },
                };
                Result::Ok(Expr::Discard(Box::new(d)))
            },
            AnalyzedExpr::Debug(name, line, column) => Result::Ok(
                Expr::PosInfo(name.clone(), *line, *column),
            ),
            AnalyzedExpr::RetExpr(inner) => {
                let r = match inner.to_expr() {
                    Result::Ok(r) => r,
                    Result::Err(k) => { return Result::Err(k); },
                };
                Result::Ok(Expr::RetExpr(Box::new(r)))
            },
            AnalyzedExpr::As(inner) => inner.to_expr(),
            AnalyzedExpr::If { cond, body, alt } => {
                let c = match cond.to_expr() {
                    Result::Ok(c) => c,
                    Result::Err(k) => { return Result::Err(k); },
                };
                let b = match to_expr_list(body) {
                    Result::Ok(b) => b,
                    Result::Err(k) => { return Result::Err(k); },
                };
                match alt {
                    Option::None => Result::Ok(
                        Expr::IfExpr { condition: Box::new(c), body: b, alt: Option::None },
                    ),
                    Option::Some(a) => {
                        let ae = match a.to_expr() {
                            Result::Ok(ae) => ae,
                            Result::Err(k) => { return Result::Err(k); },
                        };
                        Result::Ok(
                            Expr::IfExpr {
                                condition: Box::new(c),
                                body: b,
                                alt: Option::Some(Box::new(ae)),
                            },
                        )
                    },
                }
            },
            AnalyzedExpr::Func { .. } => Result::Err(ErrKind::UnsupportedConstruct),
            AnalyzedExpr::Import { .. } => Result::Err(ErrKind::UnsupportedConstruct),
            AnalyzedExpr::Block(body) => {
                let b = match to_expr_list(body) {
                    Result::Ok(b) => b,
                    Result::Err(k) => { return Result::Err(k); },
                };
                Result::Ok(Expr::Block(b))
            },
        }
    }
}

/// Converts each typed node of a list back to an untyped expression,
/// stopping at the first unsupported node.
#[verifier::loop_isolation(false)]
pub fn to_expr_list(args: &Vec<TypedExpr>) -> (r: Result<Vec<Expr>, ErrKind>)
    ensures
        match (r, spec_to_exprs(texprs_view(args@))) {
            (Result::Ok(es), Result::Ok(ss)) => exprs_view(es@) == ss,
            (Result::Err(k), Result::Err(ks)) => k == ks,
            _ => false,
        },
    decreases args@,
{
    proof {
        lemma_texprs_view(args@);
    }
    let mut out: Vec<Expr> = Vec::new();
    let mut i: usize = 0;
    while i < args.len()
        invariant
            0 <= i <= args.len(),
            spec_to_exprs(texprs_view(args@).take(i as int)) matches Result::Ok(ss) && exprs_view(
                out@,
            ) == ss,
        decreases args@.len() - i,
    {
        let e = match args[i].to_expr() {
            Result::Ok(e) => e,
            Result::Err(k) => {
                proof {
                    let vs = texprs_view(args@);
                    assert(vs.take(i + 1).drop_last() =~= vs.take(i as int));
                    assert(vs.take(i + 1).last() == vs[i as int]);
                    assert(spec_to_exprs(vs.take(i + 1)) == Result::<Seq<ExprS>, ErrKind>::Err(k));
                    lemma_to_exprs_err(vs, i + 1, k);
                }
                return Result::Err(k);
            },
        };
        let ghost prev_out = out@;
        out.push(e);
        proof {
            let vs = texprs_view(args@);
            assert(vs.take(i + 1).drop_last() =~= vs.take(i as int));
            assert(vs.take(i + 1).last() == vs[i as int]);
            assert(out@.drop_last() =~= prev_out);
            assert(exprs_view(out@) == exprs_view(prev_out).push(expr_view(e)));
        }
        i = i + 1;
    }
    proof {
        assert(texprs_view(args@).take(args@.len() as int) =~= texprs_view(args@));
    }
    Result::Ok(out)
}

/// Once a prefix of the list fails to convert, the whole list fails
/// with the same error.
pub proof fn lemma_to_exprs_err(s: Seq<TypedExprS>, i: int, k: ErrKind)
    requires
        0 <= i <= s.len(),
        spec_to_exprs(s.take(i)) == Result::<Seq<ExprS>, ErrKind>::Err(k),
    ensures
        spec_to_exprs(s) == Result::<Seq<ExprS>, ErrKind>::Err(k),
    decreases s.len() - i,
{
    if i < s.len() {
        assert(s.take(i + 1).drop_last() =~= s.take(i));
        lemma_to_exprs_err(s, i + 1, k);
    } else {
        assert(s.take(i) =~= s);
    }
}

} // verus!

verus! {

/// A copy of a typed node, equal to the original under the view.
#[verifier::loop_isolation(false)]
#[verifier::rlimit(100)]
pub fn clone_typed(t: &TypedExpr) -> (r: TypedExpr)
    ensures
        r@ == t@,
    decreases *t,
{
    let ty = t.ty;
    match &t.expr {
        AnalyzedExpr::Literal(c) => TypedExpr { expr: AnalyzedExpr::Literal(c.clone()), ty },
        AnalyzedExpr::Id(name, rc) => TypedExpr { expr: AnalyzedExpr::Id(name.clone(), *rc), ty },
        AnalyzedExpr::BinaryExpr { op, left, right } => TypedExpr {
            expr: AnalyzedExpr::BinaryExpr {
                op: op.clone(),
                left: Box::new(clone_typed(left)),
                right: Box::new(clone_typed(right)),
            },
            ty,
        },
        AnalyzedExpr::VarDeclare { name, val } => TypedExpr {
            expr: AnalyzedExpr::VarDeclare { name: name.clone(), val: Box::new(clone_typed(val)) },
            ty,
        },
        AnalyzedExpr::VarAssign { name, val } => TypedExpr {
            expr: AnalyzedExpr::VarAssign { name: name.clone(), val: Box::new(clone_typed(val)) },
            ty,
        },
        AnalyzedExpr::FnCall { name, args } => TypedExpr {
            expr: AnalyzedExpr::FnCall { name: name.clone(), args: clone_typed_list(args) },
            ty,
        },
        AnalyzedExpr::Discard(inner) => TypedExpr {
            expr: AnalyzedExpr::Discard(Box::new(clone_typed(inner))),
            ty,
        },
        AnalyzedExpr::Debug(name, line, column) => TypedExpr {
            expr: AnalyzedExpr::Debug(name.clone(), *line, *column),
            ty,
        },
        AnalyzedExpr::RetExpr(inner) => TypedExpr {
            expr: AnalyzedExpr::RetExpr(Box::new(clone_typed(inner))),
            ty,
        },
        AnalyzedExpr::As(inner) => TypedExpr {
            expr: AnalyzedExpr::As(Box::new(clone_typed(inner))),
            ty,
        },
        AnalyzedExpr::If { cond, body, alt } => TypedExpr {
            expr: AnalyzedExpr::If {
                cond: Box::new(clone_typed(cond)),
                body: clone_typed_list(body),
                alt: match alt {
                    Option::None => Option::None,
                    Option::Some(a) => Option::Some(Box::new(clone_typed(a))),
                },
            },
            ty,
        },
        AnalyzedExpr::Func { ret, name, args, body } => TypedExpr {
            expr: AnalyzedExpr::Func {
                ret: *ret,
                name: name.clone(),
                args: crate::types::clone_idents(args),
                body: clone_typed_list(body),
            },
            ty,
        },
        AnalyzedExpr::Import { module, name, args } => TypedExpr {
            expr: AnalyzedExpr::Import {
                module: module.clone(),
                name: name.clone(),
                args: crate::types::clone_idents(args),
            },
            ty,
        },
        AnalyzedExpr::Block(body) => TypedExpr {
            expr: AnalyzedExpr::Block(clone_typed_list(body)),
            ty,
        },
    }
}

/// A copy of a list of typed nodes, equal under the view.
#[verifier::loop_isolation(false)]
pub fn clone_typed_list(ts: &Vec<TypedExpr>) -> (r: Vec<TypedExpr>)
    ensures
        texprs_view(r@) == texprs_view(ts@),
    decreases ts@,
{
    proof {
        lemma_texprs_view(ts@);
    }
    let mut out: Vec<TypedExpr> = Vec::new();
    let mut i: usize = 0;
    while i < ts.len()
        invariant
            0 <= i <= ts.len(),
            texprs_view(out@) == texprs_view(ts@).take(i as int),
        decreases ts@.len() - i,
    {
        let c = clone_typed(&ts[i]);
        let ghost prev = texprs_view(out@);
        let ghost pv = out@;
        out.push(c);
        proof {
            let vs = texprs_view(ts@);
            assert(vs.take(i + 1).drop_last() =~= vs.take(i as int));
            assert(vs.take(i + 1).last() == vs[i as int]);
            assert(out@.drop_last() =~= pv);
        }
        i = i + 1;
    }
    proof {
        assert(texprs_view(ts@).take(ts@.len() as int) =~= texprs_view(ts@));
    }
    out
}

} // verus!

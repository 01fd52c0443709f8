//! The untyped expression tree handed in by the parser, and its
//! mathematical view used by the specifications of the passes.

use vstd::prelude::*;
use crate::types::{Const, Ident};

verus! {

/// An untyped source expression as the parser produces it.
#[derive(Debug)]
pub enum Expr {
    Literal(Const),
    Ident(Ident),
    BinaryExpr { op: String, left: Box<Expr>, right: Box<Expr> },
    VarDeclare { name: Ident, val: Box<Expr> },
    VarAssign { name: Ident, val: Box<Expr> },
    FnCall { name: Ident, args: Vec<Expr> },
    Discard(Box<Expr>),
    PosInfo(String, u32, u32),
    RetExpr(Box<Expr>),
    IfExpr { condition: Box<Expr>, body: Vec<Expr>, alt: Option<Box<Expr>> },
    WhileExpr { condition: Box<Expr>, body: Vec<Expr> },
    Block(Vec<Expr>),
}

/// A function declaration from the parser: a name, ordered parameters,
/// and a body of untyped expressions.
#[derive(Debug)]
pub struct Function {
    pub name: Ident,
    pub args: Vec<Ident>,
    pub body: Vec<Expr>,
}

/// Mathematical view of an untyped expression: the same shape with
/// sequences in place of vectors.
pub enum ExprS {
    Literal(Const),
    Ident(Ident),
    BinaryExpr { op: String, left: Box<ExprS>, right: Box<ExprS> },
    VarDeclare { name: Ident, val: Box<ExprS> },
    VarAssign { name: Ident, val: Box<ExprS> },
    FnCall { name: Ident, args: Seq<ExprS> },
    Discard(Box<ExprS>),
    PosInfo(String, u32, u32),
    RetExpr(Box<ExprS>),
    IfExpr { condition: Box<ExprS>, body: Seq<ExprS>, alt: Option<Box<ExprS>> },
    WhileExpr { condition: Box<ExprS>, body: Seq<ExprS> },
    Block(Seq<ExprS>),
}

/// Mathematical view of a function declaration.
pub struct FunctionS {
    pub name: Ident,
    pub args: Seq<Ident>,
    pub body: Seq<ExprS>,
}

pub open spec fn expr_view(e: Expr) -> ExprS
    decreases e,
{
    match e {
        Expr::Literal(c) => ExprS::Literal(c),
        Expr::Ident(id) => ExprS::Ident(id),
        Expr::BinaryExpr { op, left, right } => ExprS::BinaryExpr {
            op,
            left: Box::new(expr_view(*left)),
            right: Box::new(expr_view(*right)),
        },
        Expr::VarDeclare { name, val } => ExprS::VarDeclare {
            name,
            val: Box::new(expr_view(*val)),
        },
        Expr::VarAssign { name, val } => ExprS::VarAssign { name, val: Box::new(expr_view(*val)) },
        Expr::FnCall { name, args } => ExprS::FnCall { name, args: exprs_view(args@) },
        Expr::Discard(inner) => ExprS::Discard(Box::new(expr_view(*inner))),
        Expr::PosInfo(s, line, column) => ExprS::PosInfo(s, line, column),
        Expr::RetExpr(inner) => ExprS::RetExpr(Box::new(expr_view(*inner))),
        Expr::IfExpr { condition, body, alt } => ExprS::IfExpr {
            condition: Box::new(expr_view(*condition)),
            body: exprs_view(body@),
            alt: match alt {
                Option::None => Option::None,
                Option::Some(a) => Option::Some(Box::new(expr_view(*a))),
            },
        },
        Expr::WhileExpr { condition, body } => ExprS::WhileExpr {
            condition: Box::new(expr_view(*condition)),
            body: exprs_view(body@),
        },
        Expr::Block(body) => ExprS::Block(exprs_view(body@)),
    }
}

pub open spec fn exprs_view(s: Seq<Expr>) -> Seq<ExprS>
    decreases s,
{
    if s.len() == 0 {
        Seq::empty()
    } else {
        exprs_view(s.drop_last()).push(expr_view(s.last()))
    }
}

impl View for Expr {
    type V = ExprS;

    open spec fn view(&self) -> ExprS {
        expr_view(*self)
    }
}

impl View for Function {
    type V = FunctionS;

    open spec fn view(&self) -> FunctionS {
        FunctionS { name: self.name, args: self.args@, body: exprs_view(self.body@) }
    }
}

/// The view of a sequence of expressions indexes pointwise, and taking a
/// prefix of the underlying sequence takes the same prefix of the view.
pub proof fn lemma_exprs_view(s: Seq<Expr>)
    ensures
        exprs_view(s).len() == s.len(),
        forall|i: int| 0 <= i < s.len() ==> exprs_view(s)[i] == expr_view(#[trigger] s[i]),
        forall|i: int|
            0 <= i <= s.len() ==> #[trigger] exprs_view(s.take(i)) == exprs_view(s).take(i),
    decreases s.len(),
{
    if s.len() > 0 {
        lemma_exprs_view(s.drop_last());
        assert forall|i: int| 0 <= i <= s.len() implies #[trigger] exprs_view(s.take(i))
            == exprs_view(s).take(i) by {
            if i < s.len() {
                assert(s.take(i) =~= s.drop_last().take(i));
                assert(exprs_view(s).take(i) =~= exprs_view(s.drop_last()).take(i));
            } else {
                assert(s.take(i) =~= s);
                assert(exprs_view(s).take(i) =~= exprs_view(s));
            }
        }
        assert forall|i: int| 0 <= i < s.len() implies exprs_view(s)[i] == expr_view(
            #[trigger] s[i],
        ) by {
            if i < s.len() - 1 {
                assert(s.drop_last()[i] == s[i]);
            }
        }
    }
}

} // verus!

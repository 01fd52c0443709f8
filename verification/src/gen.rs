//! The lowering pass: a single walk over the corrected typed tree that
//! emits the stack-oriented IR — loads and stores, arithmetic and
//! comparison operations, explicit conversions, allocation bookkeeping,
//! and nested sequences for function bodies and conditional branches.

use vstd::prelude::*;
use crate::types::{ConstType, ErrKind, Ident};
use crate::typed::{
    AnalyzedExpr, AnalyzedExprS, TypedExpr, TypedExprS, texprs_view, lemma_texprs_view,
};
use crate::env::{EnvS, Environment, VarEntry, lookup_var, env_get_ty, update_var_ty};
use crate::ir::{
    IROp, IROpS, irops_view, lemma_irops_view_concat, lemma_irops_view_empty,
    lemma_irops_view_push,
};

verus! {

/// The lowering state: a lightweight environment mapping names to
/// their currently allocated type, used to decide when a reassignment
/// must reallocate a slot.
#[derive(Debug)]
pub struct Codegen {
    pub env: Environment,
}

impl View for Codegen {
    type V = EnvS;

    open spec fn view(&self) -> EnvS {
        self.env@
    }
}

/// The variable table after a function's parameters are registered for
/// lowering; parameter types are not tracked, every slot is `Dynamic`.
pub open spec fn push_params_dyn(vars: Seq<VarEntry>, args: Seq<Ident>) -> Seq<VarEntry>
    decreases args.len(),
{
    if args.len() == 0 {
        vars
    } else {
        push_params_dyn(vars, args.drop_last()).push(
            VarEntry { name: args.last().val, ty: ConstType::Dynamic, rc: 0 },
        )
    }
}

/// The comparison and arithmetic opcode an operator lowers to, if the
/// middle end knows the operator: the greater-than family and equality
/// are the only comparison primitives the backend must implement.
pub open spec fn spec_bin_op(op: Seq<char>, ty: ConstType) -> Option<IROpS> {
    if op == "+"@ {
        Option::Some(IROpS::Add(ty))
    } else if op == "-"@ {
        Option::Some(IROpS::Sub(ty))
    } else if op == "*"@ {
        Option::Some(IROpS::Mul(ty))
    } else if op == "/"@ {
        Option::Some(IROpS::Div(ty))
    } else if op == ">"@ || op == "<"@ {
        Option::Some(IROpS::Comp(ConstType::Bool))
    } else if op == ">="@ || op == "<="@ {
        Option::Some(IROpS::EComp(ConstType::Bool))
    } else if op == "=="@ {
        Option::Some(IROpS::Eq(ConstType::Bool))
    } else {
        Option::None
    }
}

/// What lowering one typed node emits and how it leaves the lowering
/// state. Operands of a binary node are emitted right then left, so
/// the backend pops left first; for `<` and `<=` the operand order is
/// reversed — left then right — so that only the greater-than family
/// need exist as opcodes. A discard emits a trailing pop only when the
/// discarded value is not `Void`. A reassignment that changes a name's
/// type deallocates the old slot and allocates the new one before the
/// store.
pub open spec fn spec_gen(g: EnvS, t: TypedExprS) -> (Result<Seq<IROpS>, ErrKind>, EnvS)
    decreases t,
{
    match t.expr {
        AnalyzedExprS::Import { module, name, args } => (
            Result::Ok(seq![IROpS::Import(t.ty, module, name, args)]),
            g,
        ),
        AnalyzedExprS::Func { ret, name, args, body } => {
            let g1 = EnvS { vars: push_params_dyn(g.vars, args), funcs: g.funcs, current: g.current };
            match spec_gen_seq(g1, body) {
                (Result::Err(k), g2) => (Result::Err(k), g2),
                (Result::Ok(ops), g2) => (
                    Result::Ok(seq![IROpS::Def(ret, name, args, ops)]),
                    g2,
                ),
            }
        },
        AnalyzedExprS::Literal(c) => (Result::Ok(seq![IROpS::Const(t.ty, c)]), g),
        AnalyzedExprS::BinaryExpr { op, left, right } => match spec_gen(g, *left) {
            (Result::Err(k), g1) => (Result::Err(k), g1),
            (Result::Ok(lops), g1) => match spec_gen(g1, *right) {
                (Result::Err(k), g2) => (Result::Err(k), g2),
                (Result::Ok(rops), g2) => {
                    let base = if op@ == "<"@ || op@ == "<="@ {
                        lops + rops
                    } else {
                        rops + lops
                    };
                    match spec_bin_op(op@, t.ty) {
                        Option::None => (Result::Err(ErrKind::UnsupportedConstruct), g2),
                        Option::Some(o) => (Result::Ok(base.push(o)), g2),
                    }
                },
            },
        },
        AnalyzedExprS::VarDeclare { name, val } => match spec_gen(g, *val) {
            (Result::Err(k), g1) => (Result::Err(k), g1),
            (Result::Ok(vops), g1) => {
                let ty = (*val).ty;
                let g2 = EnvS {
                    vars: g1.vars.push(VarEntry { name, ty, rc: 0 }),
                    funcs: g1.funcs,
                    current: g1.current,
                };
                (
                    Result::Ok(
                        seq![IROpS::Alloc(ty, name)] + vops + seq![IROpS::Store(ty, name)],
                    ),
                    g2,
                )
            },
        },
        AnalyzedExprS::VarAssign { name, val } => {
            if lookup_var(g.vars, name@) is None {
                (Result::Err(ErrKind::UndeclaredVar), g)
            } else {
                match spec_gen(g, *val) {
                    (Result::Err(k), g1) => (Result::Err(k), g1),
                    (Result::Ok(vops), g1) => {
                        let ty = (*val).ty;
                        match env_get_ty(g1, name@) {
                            Option::None => (Result::Err(ErrKind::UndeclaredVar), g1),
                            Option::Some(t0) => {
                                if t0 != ty {
                                    let g2 = EnvS {
                                        vars: update_var_ty(g1.vars, name@, ty),
                                        funcs: g1.funcs,
                                        current: g1.current,
                                    };
                                    (
                                        Result::Ok(
                                            seq![
                                                IROpS::Dealloc(t0, name),
                                                IROpS::Alloc(ty, name),
                                            ] + vops + seq![IROpS::Store(ty, name)],
                                        ),
                                        g2,
                                    )
                                } else {
                                    (
                                        Result::Ok(vops + seq![IROpS::Store(ty, name)]),
                                        g1,
                                    )
                                }
                            },
                        }
                    },
                }
            }
        },
        AnalyzedExprS::Id(name, rc) => (Result::Ok(seq![IROpS::Load(t.ty, name)]), g),
        AnalyzedExprS::FnCall { name, args } => match spec_gen_seq(g, args) {
            (Result::Err(k), g1) => (Result::Err(k), g1),
            (Result::Ok(ops), g1) => (
                Result::Ok(ops.push(IROpS::Call(t.ty, name, args.len() as usize))),
                g1,
            ),
        },
        AnalyzedExprS::RetExpr(inner) => match spec_gen(g, *inner) {
            (Result::Err(k), g1) => (Result::Err(k), g1),
            (Result::Ok(ops), g1) => (Result::Ok(ops.push(IROpS::Ret((*inner).ty))), g1),
        },
        AnalyzedExprS::As(inner) => match spec_gen(g, *inner) {
            (Result::Err(k), g1) => (Result::Err(k), g1),
            (Result::Ok(ops), g1) => (
                Result::Ok(ops.push(IROpS::Conv(t.ty, (*inner).ty))),
                g1,
            ),
        },
        AnalyzedExprS::Debug(_, _, _) => (Result::Ok(Seq::empty()), g),
        AnalyzedExprS::Discard(inner) => match spec_gen(g, *inner) {
            (Result::Err(k), g1) => (Result::Err(k), g1),
            (Result::Ok(ops), g1) => {
                if (*inner).ty != ConstType::Void {
                    (Result::Ok(ops.push(IROpS::Pop)), g1)
                } else {
                    (Result::Ok(ops), g1)
                }
            },
        },
        AnalyzedExprS::If { cond, body, alt } => match spec_gen(g, *cond) {
            (Result::Err(k), g1) => (Result::Err(k), g1),
            (Result::Ok(cops), g1) => match spec_gen_seq(g1, body) {
                (Result::Err(k), g2) => (Result::Err(k), g2),
                (Result::Ok(bops), g2) => match alt {
                    Option::None => (
                        Result::Ok(cops.push(IROpS::If(t.ty, bops, Seq::empty()))),
                        g2,
                    ),
                    Option::Some(ab) => match spec_gen(g2, *ab) {
                        (Result::Err(k), g3) => (Result::Err(k), g3),
                        (Result::Ok(aops), g3) => (
                            Result::Ok(cops.push(IROpS::If(t.ty, bops, aops))),
                            g3,
                        ),
                    },
                },
            },
        },
        AnalyzedExprS::Block(es) => spec_gen_seq(g, es),
    }
}

/// Lowering of a sequence of nodes in order, emitting the
/// concatenation of what each node emits and stopping at the first
/// error.
pub open spec fn spec_gen_seq(g: EnvS, ts: Seq<TypedExprS>) -> (Result<Seq<IROpS>, ErrKind>, EnvS)
    decreases ts,
{
    if ts.len() == 0 {
        (Result::Ok(Seq::empty()), g)
    } else {
        match spec_gen_seq(g, ts.drop_last()) {
            (Result::Err(k), g1) => (Result::Err(k), g1),
            (Result::Ok(ops1), g1) => match spec_gen(g1, ts.last()) {
                (Result::Err(k), g2) => (Result::Err(k), g2),
                (Result::Ok(ops2), g2) => (Result::Ok(ops1 + ops2), g2),
            },
        }
    }
}

/// Once a prefix of a sequence fails to lower, the whole sequence
/// fails the same way and leaves the same state.
pub proof fn lemma_gen_seq_err(g: EnvS, ts: Seq<TypedExprS>, i: int, k: ErrKind, g1: EnvS)
    requires
        0 <= i <= ts.len(),
        spec_gen_seq(g, ts.take(i)) == (Result::<Seq<IROpS>, ErrKind>::Err(k), g1),
    ensures
        spec_gen_seq(g, ts) == (Result::<Seq<IROpS>, ErrKind>::Err(k), g1),
    decreases ts.len() - i,
{
    if i < ts.len() {
        assert(ts.take(i + 1).drop_last() =~= ts.take(i));
        lemma_gen_seq_err(g, ts, i + 1, k, g1);
    } else {
        assert(ts.take(i) =~= ts);
    }
}

/// The result view of one lowering step: the views of the emitted
/// operations on success, the error kind otherwise.
pub open spec fn ores_view(r: Result<Vec<IROp>, ErrKind>) -> Result<Seq<IROpS>, ErrKind> {
    match r {
        Result::Ok(v) => Result::Ok(irops_view(v@)),
        Result::Err(k) => Result::Err(k),
    }
}

/// Whether the operator is written `<` or `<=`: the two whose operand
/// order is canonicalized at lowering.
fn is_reversed_op(op: &String) -> (r: bool)
    ensures
        r == (op@ == "<"@ || op@ == "<="@),
{
    let lt = "<".to_string();
    let le = "<=".to_string();
    *op == lt || *op == le
}

/// The opcode the operator lowers to, if the middle end knows it.
fn bin_op_of(op: &String, ty: ConstType) -> (r: Option<IROp>)
    ensures
        match (r, spec_bin_op(op@, ty)) {
            (Option::Some(o), Option::Some(os)) => o@ == os,
            (Option::None, Option::None) => true,
            _ => false,
        },
{
    if *op == "+".to_string() {
        Option::Some(IROp::Add(ty))
    } else if *op == "-".to_string() {
        Option::Some(IROp::Sub(ty))
    } else if *op == "*".to_string() {
        Option::Some(IROp::Mul(ty))
    } else if *op == "/".to_string() {
        Option::Some(IROp::Div(ty))
    } else if *op == ">".to_string() || *op == "<".to_string() {
        Option::Some(IROp::Comp(ConstType::Bool))
    } else if *op == ">=".to_string() || *op == "<=".to_string() {
        Option::Some(IROp::EComp(ConstType::Bool))
    } else if *op == "==".to_string() {
        Option::Some(IROp::Eq(ConstType::Bool))
    } else {
        Option::None
    }
}

} // verus!

verus! {

/// What lowering a declaration's pieces emits: allocate, initializer,
/// store, registering the slot's type.
pub open spec fn spec_gen_var_declare(g: EnvS, name: String, v: TypedExprS) -> (Result<
    Seq<IROpS>,
    ErrKind,
>, EnvS) {
    match spec_gen(g, v) {
        (Result::Err(k), g1) => (Result::Err(k), g1),
        (Result::Ok(vops), g1) => {
            let ty = v.ty;
            let g2 = EnvS {
                vars: g1.vars.push(VarEntry { name, ty, rc: 0 }),
                funcs: g1.funcs,
                current: g1.current,
            };
            (
                Result::Ok(seq![IROpS::Alloc(ty, name)] + vops + seq![IROpS::Store(ty, name)]),
                g2,
            )
        },
    }
}

/// What lowering an assignment's pieces emits: a defensive
/// undeclared-name check, reallocation when the stored type changes,
/// then the value and the store.
pub open spec fn spec_gen_var_assign(g: EnvS, name: String, v: TypedExprS) -> (Result<
    Seq<IROpS>,
    ErrKind,
>, EnvS) {
    if lookup_var(g.vars, name@) is None {
        (Result::Err(ErrKind::UndeclaredVar), g)
    } else {
        match spec_gen(g, v) {
            (Result::Err(k), g1) => (Result::Err(k), g1),
            (Result::Ok(vops), g1) => {
                let ty = v.ty;
                match env_get_ty(g1, name@) {
                    Option::None => (Result::Err(ErrKind::UndeclaredVar), g1),
                    Option::Some(t0) => {
                        if t0 != ty {
                            let g2 = EnvS {
                                vars: update_var_ty(g1.vars, name@, ty),
                                funcs: g1.funcs,
                                current: g1.current,
                            };
                            (
                                Result::Ok(
                                    seq![IROpS::Dealloc(t0, name), IROpS::Alloc(ty, name)] + vops
                                        + seq![IROpS::Store(ty, name)],
                                ),
                                g2,
                            )
                        } else {
                            (Result::Ok(vops + seq![IROpS::Store(ty, name)]), g1)
                        }
                    },
                }
            },
        }
    }
}

/// What lowering a binary node's pieces emits: operands right then
/// left, in source order for `<` and `<=`, then the opcode.
pub open spec fn spec_gen_binary(g: EnvS, ty: ConstType, op: String, l: TypedExprS, r: TypedExprS) -> (
    Result<Seq<IROpS>, ErrKind>,
    EnvS,
) {
    match spec_gen(g, l) {
        (Result::Err(k), g1) => (Result::Err(k), g1),
        (Result::Ok(lops), g1) => match spec_gen(g1, r) {
            (Result::Err(k), g2) => (Result::Err(k), g2),
            (Result::Ok(rops), g2) => {
                let base = if op@ == "<"@ || op@ == "<="@ {
                    lops + rops
                } else {
                    rops + lops
                };
                match spec_bin_op(op@, ty) {
                    Option::None => (Result::Err(ErrKind::UnsupportedConstruct), g2),
                    Option::Some(o) => (Result::Ok(base.push(o)), g2),
                }
            },
        },
    }
}

/// What lowering a function definition's pieces emits: parameters
/// registered as `Dynamic` slots, the body lowered in order, and one
/// definition operation wrapping the nested sequence.
pub open spec fn spec_gen_func(g: EnvS, name: String, args: Seq<Ident>, ret: ConstType, body: Seq<
    TypedExprS,
>) -> (Result<Seq<IROpS>, ErrKind>, EnvS) {
    let g1 = EnvS { vars: push_params_dyn(g.vars, args), funcs: g.funcs, current: g.current };
    match spec_gen_seq(g1, body) {
        (Result::Err(k), g2) => (Result::Err(k), g2),
        (Result::Ok(ops), g2) => (Result::Ok(seq![IROpS::Def(ret, name, args, ops)]), g2),
    }
}

impl Codegen {
    /// A fresh lowering state over an empty environment.
    pub fn new() -> (r: Codegen)
        ensures
            r@.vars == Seq::<VarEntry>::empty(),
            r@.funcs.len() == 0,
    {
        Codegen { env: Environment::new() }
    }

    /// One lowering step over a typed node, following [`spec_gen`]
    /// exactly.
    #[verifier::loop_isolation(false)]
    #[verifier::rlimit(100)]
    pub fn gen_expr(&mut self, expr: &TypedExpr) -> (r: Result<Vec<IROp>, ErrKind>)
        ensures
            (ores_view(r), final(self)@) == spec_gen(old(self)@, expr@),
        decreases *expr, 3int,
    {
        match &expr.expr {
            AnalyzedExpr::Import { module, name, args } => {
                let mut out: Vec<IROp> = Vec::new();
                out.push(
                    IROp::Import(
                        expr.ty,
                        module.clone(),
                        name.clone(),
                        crate::types::clone_idents(args),
                    ),
                );
                proof {
                    lemma_irops_view_empty();
                    lemma_irops_view_push(Seq::empty(), out@.last());
                    assert(irops_view(out@) =~= seq![
                        IROpS::Import(expr.ty, *module, *name, args@),
                    ]);
                }
                Result::Ok(out)
            },
            AnalyzedExpr::Func { .. } => self.gen_func_node(expr),
            AnalyzedExpr::Literal(c) => {
                let mut out: Vec<IROp> = Vec::new();
                out.push(IROp::Const(expr.ty, c.clone()));
                proof {
                    lemma_irops_view_empty();
                    lemma_irops_view_push(Seq::empty(), out@.last());
                    assert(irops_view(out@) =~= seq![IROpS::Const(expr.ty, *c)]);
                }
                Result::Ok(out)
            },
            AnalyzedExpr::BinaryExpr { op, left, right } => {
                let lops = match self.gen_expr(left) {
                    Result::Ok(lops) => lops,
                    Result::Err(k) => { return Result::Err(k); },
                };
                let mut rops = match self.gen_expr(right) {
                    Result::Ok(rops) => rops,
                    Result::Err(k) => { return Result::Err(k); },
                };
                let ghost lraw = lops@;
                let ghost rraw = rops@;
                let mut res: Vec<IROp>;
                if is_reversed_op(op) {
                    res = lops;
                    res.append(&mut rops);
                    proof {
                        assert(res@ =~= lraw + rraw);
                        lemma_irops_view_concat(lraw, rraw);
                    }
                } else {
                    let mut lops2 = lops;
                    res = rops;
                    res.append(&mut lops2);
                    proof {
                        assert(res@ =~= rraw + lraw);
                        lemma_irops_view_concat(rraw, lraw);
                    }
                }
                let o = match bin_op_of(op, expr.ty) {
                    Option::Some(o) => o,
                    Option::None => { return Result::Err(ErrKind::UnsupportedConstruct); },
                };
                let ghost base = res@;
                res.push(o);
                proof {
                    lemma_irops_view_push(base, res@.last());
                }
                Result::Ok(res)
            },
            AnalyzedExpr::VarDeclare { name, val } => self.gen_var_declare(name.clone(), val),
            AnalyzedExpr::VarAssign { name, val } => self.gen_var_assign(name.clone(), val),
            AnalyzedExpr::Id(name, _rc) => {
                let mut out: Vec<IROp> = Vec::new();
                out.push(IROp::Load(expr.ty, name.clone()));
                proof {
                    lemma_irops_view_empty();
                    lemma_irops_view_push(Seq::empty(), out@.last());
                    assert(irops_view(out@) =~= seq![IROpS::Load(expr.ty, *name)]);
                }
                Result::Ok(out)
            },
            AnalyzedExpr::FnCall { .. } => self.gen_fncall(expr),
            AnalyzedExpr::RetExpr(inner) => {
                let mut ops = match self.gen_expr(inner) {
                    Result::Ok(ops) => ops,
                    Result::Err(k) => { return Result::Err(k); },
                };
                let ghost base = ops@;
                ops.push(IROp::Ret(inner.ty));
                proof {
                    lemma_irops_view_push(base, ops@.last());
                }
                Result::Ok(ops)
            },
            AnalyzedExpr::As(inner) => {
                let mut ops = match self.gen_expr(inner) {
                    Result::Ok(ops) => ops,
                    Result::Err(k) => { return Result::Err(k); },
                };
                let ghost base = ops@;
                ops.push(IROp::Conv(expr.ty, inner.ty));
                proof {
                    lemma_irops_view_push(base, ops@.last());
                }
                Result::Ok(ops)
            },
            AnalyzedExpr::Debug(..) => {
                let out: Vec<IROp> = Vec::new();
                proof {
                    lemma_irops_view_empty();
                    assert(irops_view(out@) =~= Seq::<IROpS>::empty());
                }
                Result::Ok(out)
            },
            AnalyzedExpr::Discard(inner) => {
                let mut ops = match self.gen_expr(inner) {
                    Result::Ok(ops) => ops,
                    Result::Err(k) => { return Result::Err(k); },
                };
                if inner.ty != ConstType::Void {
                    let ghost base = ops@;
                    ops.push(IROp::Pop);
                    proof {
                        lemma_irops_view_push(base, ops@.last());
                    }
                }
                Result::Ok(ops)
            },
            AnalyzedExpr::If { .. } => self.gen_if(expr),
            AnalyzedExpr::Block(..) => self.gen_block(expr),
        }
    }

    /// Lowers a sequence of nodes in order, concatenating what each
    /// emits.
    #[verifier::loop_isolation(false)]
    #[verifier::rlimit(100)]
    fn gen_body(&mut self, body: &Vec<TypedExpr>) -> (r: Result<Vec<IROp>, ErrKind>)
        ensures
            (ores_view(r), final(self)@) == spec_gen_seq(old(self)@, texprs_view(body@)),
        decreases *body, 1int,
    {
        proof {
            lemma_texprs_view(body@);
        }
        let ghost g0 = self@;
        let ghost vs = texprs_view(body@);
        let mut out: Vec<IROp> = Vec::new();
        let mut i: usize = 0;
        while i < body.len()
            invariant
                0 <= i <= body.len(),
                spec_gen_seq(g0, vs.take(i as int)) matches (Result::Ok(ops), gnow) && gnow
                    == self@ && irops_view(out@) == ops,
            decreases body@.len() - i,
        {
            let mut part = match self.gen_expr(&body[i]) {
                Result::Ok(part) => part,
                Result::Err(k) => {
                    proof {
                        assert(vs.take(i + 1).drop_last() =~= vs.take(i as int));
                        assert(vs.take(i + 1).last() == vs[i as int]);
                        lemma_gen_seq_err(g0, vs, i + 1, k, self@);
                    }
                    return Result::Err(k);
                },
            };
            let ghost prev = out@;
            let ghost partv = part@;
            out.append(&mut part);
            proof {
                assert(vs.take(i + 1).drop_last() =~= vs.take(i as int));
                assert(vs.take(i + 1).last() == vs[i as int]);
                assert(out@ =~= prev + partv);
                lemma_irops_view_concat(prev, partv);
            }
            i = i + 1;
        }
        proof {
            assert(vs.take(body@.len() as int) =~= vs);
        }
        Result::Ok(out)
    }

    /// Lowers a call node: the arguments in order, then the call
    /// operation carrying the callee and the argument count.
    #[verifier::loop_isolation(false)]
    #[verifier::rlimit(100)]
    fn gen_fncall(&mut self, expr: &TypedExpr) -> (r: Result<Vec<IROp>, ErrKind>)
        requires
            expr.expr is FnCall,
        ensures
            (ores_view(r), final(self)@) == spec_gen(old(self)@, expr@),
        decreases *expr, 2int,
    {
        let (name, args) = match &expr.expr {
            AnalyzedExpr::FnCall { name, args } => (name, args),
            _ => {
                proof {
                    assert(false);
                }
                return Result::Err(ErrKind::UnsupportedConstruct);
            },
        };
        proof {
            lemma_texprs_view(args@);
        }
        let mut ops = match self.gen_body(args) {
            Result::Ok(ops) => ops,
            Result::Err(k) => { return Result::Err(k); },
        };
        let ghost base = ops@;
        ops.push(IROp::Call(expr.ty, name.clone(), args.len()));
        proof {
            lemma_irops_view_push(base, ops@.last());
            assert(texprs_view(args@).len() == args@.len());
        }
        Result::Ok(ops)
    }

    /// Lowers a function definition node.
    #[verifier::loop_isolation(false)]
    #[verifier::rlimit(100)]
    fn gen_func_node(&mut self, expr: &TypedExpr) -> (r: Result<Vec<IROp>, ErrKind>)
        requires
            expr.expr is Func,
        ensures
            (ores_view(r), final(self)@) == spec_gen(old(self)@, expr@),
        decreases *expr, 2int,
    {
        let (ret, name, args, body) = match &expr.expr {
            AnalyzedExpr::Func { ret, name, args, body } => (ret, name, args, body),
            _ => {
                proof {
                    assert(false);
                }
                return Result::Err(ErrKind::UnsupportedConstruct);
            },
        };
        self.gen_func(name.clone(), crate::types::clone_idents(args), *ret, body)
    }

    /// Lowers a function definition from its pieces: parameters
    /// registered as `Dynamic` slots, the body in order, one `Def`
    /// operation wrapping the nested sequence.
    #[verifier::loop_isolation(false)]
    #[verifier::rlimit(100)]
    pub fn gen_func(&mut self, name: String, args: Vec<Ident>, ret: ConstType, body: &Vec<
        TypedExpr,
    >) -> (r: Result<Vec<IROp>, ErrKind>)
        ensures
            (ores_view(r), final(self)@) == spec_gen_func(
                old(self)@,
                name,
                args@,
                ret,
                texprs_view(body@),
            ),
        decreases *body, 2int,
    {
        let ghost g0 = self@;
        let mut i: usize = 0;
        while i < args.len()
            invariant
                0 <= i <= args.len(),
                self@.vars == push_params_dyn(g0.vars, args@.take(i as int)),
                self@.funcs == g0.funcs,
                self@.current == g0.current,
            decreases args@.len() - i,
        {
            self.env.add(&args[i].val, ConstType::Dynamic, 0);
            proof {
                assert(args@.take(i + 1).drop_last() =~= args@.take(i as int));
                assert(args@.take(i + 1).last() == args@[i as int]);
            }
            i = i + 1;
        }
        proof {
            assert(args@.take(args@.len() as int) =~= args@);
        }
        let ops = match self.gen_body(body) {
            Result::Ok(ops) => ops,
            Result::Err(k) => { return Result::Err(k); },
        };
        let ghost opsv = irops_view(ops@);
        let ghost argsv = args@;
        let mut out: Vec<IROp> = Vec::new();
        out.push(IROp::Def(ret, name, args, ops));
        proof {
            lemma_irops_view_empty();
            lemma_irops_view_push(Seq::empty(), out@.last());
            assert(irops_view(out@) =~= seq![IROpS::Def(ret, name, argsv, opsv)]);
        }
        Result::Ok(out)
    }

    /// Lowers a conditional node: the condition, then one conditional
    /// operation holding the lowered branch and the lowered alternate
    /// (an empty sequence when there is none).
    #[verifier::loop_isolation(false)]
    #[verifier::rlimit(100)]
    fn gen_if(&mut self, expr: &TypedExpr) -> (r: Result<Vec<IROp>, ErrKind>)
        requires
            expr.expr is If,
        ensures
            (ores_view(r), final(self)@) == spec_gen(old(self)@, expr@),
        decreases *expr, 2int,
    {
        let (cond, body, alt) = match &expr.expr {
            AnalyzedExpr::If { cond, body, alt } => (cond, body, alt),
            _ => {
                proof {
                    assert(false);
                }
                return Result::Err(ErrKind::UnsupportedConstruct);
            },
        };
        let mut cops = match self.gen_expr(cond) {
            Result::Ok(cops) => cops,
            Result::Err(k) => { return Result::Err(k); },
        };
        let bops = match self.gen_body(body) {
            Result::Ok(bops) => bops,
            Result::Err(k) => { return Result::Err(k); },
        };
        let aops = match alt {
            Option::None => {
                let v: Vec<IROp> = Vec::new();
                proof {
                    lemma_irops_view_empty();
                    assert(irops_view(v@) =~= Seq::<IROpS>::empty());
                }
                v
            },
            Option::Some(ab) => {
                match self.gen_expr(ab) {
                    Result::Ok(aops) => aops,
                    Result::Err(k) => { return Result::Err(k); },
                }
            },
        };
        let ghost bv = irops_view(bops@);
        let ghost av = irops_view(aops@);
        let ghost base = cops@;
        cops.push(IROp::If(expr.ty, bops, aops));
        proof {
            lemma_irops_view_push(base, cops@.last());
            assert(irops_view(cops@) =~= irops_view(base).push(IROpS::If(expr.ty, bv, av)));
        }
        Result::Ok(cops)
    }

    /// Lowers a block node: the concatenation of what its statements
    /// emit.
    #[verifier::loop_isolation(false)]
    fn gen_block(&mut self, expr: &TypedExpr) -> (r: Result<Vec<IROp>, ErrKind>)
        requires
            expr.expr is Block,
        ensures
            (ores_view(r), final(self)@) == spec_gen(old(self)@, expr@),
        decreases *expr, 2int,
    {
        let body = match &expr.expr {
            AnalyzedExpr::Block(body) => body,
            _ => {
                proof {
                    assert(false);
                }
                return Result::Err(ErrKind::UnsupportedConstruct);
            },
        };
        self.gen_body(body)
    }

    /// Lowers a declaration from its pieces.
    pub fn gen_var_declare(&mut self, name: String, expr: &TypedExpr) -> (r: Result<
        Vec<IROp>,
        ErrKind,
    >)
        ensures
            (ores_view(r), final(self)@) == spec_gen_var_declare(old(self)@, name, expr@),
        decreases *expr, 4int,
    {
        let vops = match self.gen_expr(expr) {
            Result::Ok(vops) => vops,
            Result::Err(k) => { return Result::Err(k); },
        };
        let ty = expr.ty;
        let mut res: Vec<IROp> = Vec::new();
        res.push(IROp::Alloc(ty, name.clone()));
        self.env.add(&name, ty, 0);
        let ghost head = res@;
        let ghost vopsv = vops@;
        let mut vops2 = vops;
        res.append(&mut vops2);
        proof {
            lemma_irops_view_empty();
            lemma_irops_view_push(Seq::empty(), head.last());
            assert(head =~= Seq::<IROp>::empty().push(head.last()));
            assert(irops_view(head) =~= seq![IROpS::Alloc(ty, name)]);
            assert(res@ =~= head + vopsv);
            lemma_irops_view_concat(head, vopsv);
        }
        let ghost base = res@;
        res.push(IROp::Store(ty, name));
        proof {
            lemma_irops_view_push(base, res@.last());
            assert(seq![IROpS::Alloc(ty, name)] + irops_view(vopsv) + seq![
                IROpS::Store(ty, name),
            ] =~= irops_view(res@));
        }
        Result::Ok(res)
    }

    /// Lowers an assignment from its pieces, reallocating the slot
    /// when the stored type changes.
    #[verifier::rlimit(100)]
    pub fn gen_var_assign(&mut self, name: String, expr: &TypedExpr) -> (r: Result<
        Vec<IROp>,
        ErrKind,
    >)
        ensures
            (ores_view(r), final(self)@) == spec_gen_var_assign(old(self)@, name, expr@),
        decreases *expr, 4int,
    {
        if !self.env.has(&name) {
            return Result::Err(ErrKind::UndeclaredVar);
        }
        let vops = match self.gen_expr(expr) {
            Result::Ok(vops) => vops,
            Result::Err(k) => { return Result::Err(k); },
        };
        let ty = expr.ty;
        let t0 = match self.env.get_ty(&name) {
            Option::Some(t0) => t0,
            Option::None => { return Result::Err(ErrKind::UndeclaredVar); },
        };
        let mut res: Vec<IROp> = Vec::new();
        if t0 != ty {
            res.push(IROp::Dealloc(t0, name.clone()));
            let ghost one = res@;
            res.push(IROp::Alloc(ty, name.clone()));
            self.env.modify(&name, ty);
            proof {
                lemma_irops_view_empty();
                lemma_irops_view_push(Seq::empty(), one.last());
                assert(one =~= Seq::<IROp>::empty().push(one.last()));
                lemma_irops_view_push(one, res@.last());
                assert(irops_view(res@) =~= seq![
                    IROpS::Dealloc(t0, name),
                    IROpS::Alloc(ty, name),
                ]);
            }
        }
        let ghost head = res@;
        let ghost vopsv = vops@;
        let mut vops2 = vops;
        res.append(&mut vops2);
        proof {
            lemma_irops_view_empty();
            assert(res@ =~= head + vopsv);
            lemma_irops_view_concat(head, vopsv);
        }
        let ghost base = res@;
        res.push(IROp::Store(ty, name));
        proof {
            lemma_irops_view_push(base, res@.last());
            assert(irops_view(head) + irops_view(vopsv) + seq![IROpS::Store(ty, name)] =~=
                irops_view(res@));
        }
        Result::Ok(res)
    }

    /// Lowers a binary expression from its pieces: operands right then
    /// left — in source order for `<` and `<=` — then the opcode.
    #[verifier::rlimit(100)]
    pub fn gen_binary_expr(&mut self, ty: ConstType, op: String, left: &TypedExpr, right: &TypedExpr) -> (r: Result<Vec<IROp>, ErrKind>)
        ensures
            (ores_view(r), final(self)@) == spec_gen_binary(old(self)@, ty, op, left@, right@),
    {
        let lops = match self.gen_expr(left) {
            Result::Ok(lops) => lops,
            Result::Err(k) => { return Result::Err(k); },
        };
        let mut rops = match self.gen_expr(right) {
            Result::Ok(rops) => rops,
            Result::Err(k) => { return Result::Err(k); },
        };
        let ghost lraw = lops@;
        let ghost rraw = rops@;
        let mut res: Vec<IROp>;
        if is_reversed_op(&op) {
            res = lops;
            res.append(&mut rops);
            proof {
                assert(res@ =~= lraw + rraw);
                lemma_irops_view_concat(lraw, rraw);
            }
        } else {
            let mut lops2 = lops;
            res = rops;
            res.append(&mut lops2);
            proof {
                assert(res@ =~= rraw + lraw);
                lemma_irops_view_concat(rraw, lraw);
            }
        }
        let o = match bin_op_of(&op, ty) {
            Option::Some(o) => o,
            Option::None => { return Result::Err(ErrKind::UnsupportedConstruct); },
        };
        let ghost base = res@;
        res.push(o);
        proof {
            assert(res@.drop_last() =~= base);
        }
        Result::Ok(res)
    }

    /// Lowers a corrected program in order, concatenating what each
    /// top-level node emits; the first failure aborts the run with no
    /// partial IR returned.
    pub fn gen_prog(&mut self, exprs: &Vec<TypedExpr>) -> (r: Result<Vec<IROp>, ErrKind>)
        ensures
            (ores_view(r), final(self)@) == spec_gen_seq(old(self)@, texprs_view(exprs@)),
    {
        self.gen_body(exprs)
    }
}

} // verus!

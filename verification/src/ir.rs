//! The linear, stack-oriented intermediate representation: one tagged
//! operation per stack effect, with function bodies and conditional
//! branches carried as nested sequences rather than flattened jumps.

use vstd::prelude::*;
use crate::types::{Const, ConstType, Ident};

verus! {

/// One IR operation. Names address slots; `Conv` carries (target,
/// source); `Call` carries the callee and its argument count; `Def` and
/// `If` hold nested operation sequences that the backend flattens.
#[derive(Debug)]
pub enum IROp {
    Import(ConstType, String, String, Vec<Ident>),
    Def(ConstType, String, Vec<Ident>, Vec<IROp>),
    Ret(ConstType),
    Add(ConstType),
    Sub(ConstType),
    Mul(ConstType),
    Div(ConstType),
    Comp(ConstType),
    EComp(ConstType),
    Eq(ConstType),
    Const(ConstType, Const),
    Load(ConstType, String),
    Store(ConstType, String),
    Alloc(ConstType, String),
    Dealloc(ConstType, String),
    Call(ConstType, String, usize),
    Conv(ConstType, ConstType),
    If(ConstType, Vec<IROp>, Vec<IROp>),
    Pop,
}

/// Mathematical view of an IR operation.
pub enum IROpS {
    Import(ConstType, String, String, Seq<Ident>),
    Def(ConstType, String, Seq<Ident>, Seq<IROpS>),
    Ret(ConstType),
    Add(ConstType),
    Sub(ConstType),
    Mul(ConstType),
    Div(ConstType),
    Comp(ConstType),
    EComp(ConstType),
    Eq(ConstType),
    Const(ConstType, Const),
    Load(ConstType, String),
    Store(ConstType, String),
    Alloc(ConstType, String),
    Dealloc(ConstType, String),
    Call(ConstType, String, usize),
    Conv(ConstType, ConstType),
    If(ConstType, Seq<IROpS>, Seq<IROpS>),
    Pop,
}

pub open spec fn irop_view(op: IROp) -> IROpS
    decreases op,
{
    match op {
        IROp::Import(t, module, name, args) => IROpS::Import(t, module, name, args@),
        IROp::Def(t, name, args, body) => IROpS::Def(t, name, args@, irops_view(body@)),
        IROp::Ret(t) => IROpS::Ret(t),
        IROp::Add(t) => IROpS::Add(t),
        IROp::Sub(t) => IROpS::Sub(t),
        IROp::Mul(t) => IROpS::Mul(t),
        IROp::Div(t) => IROpS::Div(t),
        IROp::Comp(t) => IROpS::Comp(t),
        IROp::EComp(t) => IROpS::EComp(t),
        IROp::Eq(t) => IROpS::Eq(t),
        IROp::Const(t, c) => IROpS::Const(t, c),
        IROp::Load(t, name) => IROpS::Load(t, name),
        IROp::Store(t, name) => IROpS::Store(t, name),
        IROp::Alloc(t, name) => IROpS::Alloc(t, name),
        IROp::Dealloc(t, name) => IROpS::Dealloc(t, name),
        IROp::Call(t, name, count) => IROpS::Call(t, name, count),
        IROp::Conv(to, from) => IROpS::Conv(to, from),
        IROp::If(t, body, alt) => IROpS::If(t, irops_view(body@), irops_view(alt@)),
        IROp::Pop => IROpS::Pop,
    }
}

pub open spec fn irops_view(s: Seq<IROp>) -> Seq<IROpS>
    decreases s,
{
    if s.len() == 0 {
        Seq::empty()
    } else {
        irops_view(s.drop_last()).push(irop_view(s.last()))
    }
}

impl View for IROp {
    type V = IROpS;

    open spec fn view(&self) -> IROpS {
        irop_view(*self)
    }
}

/// The view of a sequence of IR operations indexes pointwise, and
/// commutes with taking a prefix.
pub proof fn lemma_irops_view(s: Seq<IROp>)
    ensures
        irops_view(s).len() == s.len(),
        forall|i: int| 0 <= i < s.len() ==> irops_view(s)[i] == irop_view(#[trigger] s[i]),
        forall|i: int|
            0 <= i <= s.len() ==> #[trigger] irops_view(s.take(i)) == irops_view(s).take(i),
    decreases s.len(),
{
    if s.len() > 0 {
        lemma_irops_view(s.drop_last());
        assert forall|i: int| 0 <= i <= s.len() implies #[trigger] irops_view(s.take(i))
            == irops_view(s).take(i) by {
            if i < s.len() {
                assert(s.take(i) =~= s.drop_last().take(i));
                assert(irops_view(s).take(i) =~= irops_view(s.drop_last()).take(i));
            } else {
                assert(s.take(i) =~= s);
                assert(irops_view(s).take(i) =~= irops_view(s));
            }
        }
        assert forall|i: int| 0 <= i < s.len() implies irops_view(s)[i] == irop_view(
            #[trigger] s[i],
        ) by {
            if i < s.len() - 1 {
                assert(s.drop_last()[i] == s[i]);
            }
        }
    }
}

/// The type tag an operation carries; `Pop` carries none and counts as
/// `Void`.
pub open spec fn spec_get_op_type(op: IROpS) -> ConstType {
    match op {
        IROpS::Import(t, _, _, _) => t,
        IROpS::Def(t, _, _, _) => t,
        IROpS::Ret(t) => t,
        IROpS::Add(t) => t,
        IROpS::Sub(t) => t,
        IROpS::Mul(t) => t,
        IROpS::Div(t) => t,
        IROpS::Comp(t) => t,
        IROpS::EComp(t) => t,
        IROpS::Eq(t) => t,
        IROpS::Const(t, _) => t,
        IROpS::Load(t, _) => t,
        IROpS::Store(t, _) => t,
        IROpS::Alloc(t, _) => t,
        IROpS::Dealloc(t, _) => t,
        IROpS::Call(t, _, _) => t,
        IROpS::Conv(t, _) => t,
        IROpS::If(t, _, _) => t,
        IROpS::Pop => ConstType::Void,
    }
}

/// The type tag an operation carries.
pub fn get_op_type(op: &IROp) -> (r: ConstType)
    ensures
        r == spec_get_op_type(op@),
{
    match op {
        IROp::Import(t, _, _, _) => *t,
        IROp::Def(t, _, _, _) => *t,
        IROp::Ret(t) => *t,
        IROp::Add(t) => *t,
        IROp::Sub(t) => *t,
        IROp::Mul(t) => *t,
        IROp::Div(t) => *t,
        IROp::Comp(t) => *t,
        IROp::EComp(t) => *t,
        IROp::Eq(t) => *t,
        IROp::Const(t, _) => *t,
        IROp::Load(t, _) => *t,
        IROp::Store(t, _) => *t,
        IROp::Alloc(t, _) => *t,
        IROp::Dealloc(t, _) => *t,
        IROp::Call(t, _, _) => *t,
        IROp::Conv(t, _) => *t,
        IROp::If(t, _, _) => *t,
        IROp::Pop => ConstType::Void,
    }
}

/// The type tag of the last operation of a non-empty sequence.
pub fn get_ops_type(ops: &Vec<IROp>) -> (r: ConstType)
    requires
        ops@.len() > 0,
    ensures
        r == spec_get_op_type(irops_view(ops@).last()),
{
    proof {
        lemma_irops_view(ops@);
    }
    get_op_type(&ops[ops.len() - 1])
}

/// The scan a return-type pass makes over a body's top-level ops from
/// position `i` with the returns-so-far type `ty`: the first component
/// says whether two returns disagreed, the second is the resulting
/// type.
pub open spec fn scan_rets(ops: Seq<IROpS>, i: int, ty: Option<ConstType>) -> (bool, Option<
    ConstType,
>)
    decreases ops.len() - i when 0 <= i <= ops.len()
{
    if i >= ops.len() {
        (false, ty)
    } else {
        match ops[i] {
            IROpS::Ret(t) => match ty {
                Option::Some(t0) => if t0 != t {
                    (true, Option::Some(ConstType::Dynamic))
                } else {
                    scan_rets(ops, i + 1, Option::Some(t))
                },
                Option::None => scan_rets(ops, i + 1, Option::Some(t)),
            },
            _ => scan_rets(ops, i + 1, ty),
        }
    }
}

/// The sequence with every top-level return retagged `Dynamic`.
pub open spec fn retag_rets(ops: Seq<IROpS>) -> Seq<IROpS> {
    ops.map_values(
        |op: IROpS|
            match op {
                IROpS::Ret(_) => IROpS::Ret(ConstType::Dynamic),
                _ => op,
            },
    )
}

/// The return type a sequence of body ops determines: `None` when no
/// top-level return occurs, the common tag when all returns agree, and
/// `Dynamic` as soon as two disagree — in which case every top-level
/// return in the sequence is retagged `Dynamic` in place.
#[verifier::loop_isolation(false)]
pub fn get_fn_type(ops: &mut Vec<IROp>) -> (r: Option<ConstType>)
    ensures
        ({
            let (dis, t) = scan_rets(irops_view(old(ops)@), 0, Option::None);
            r == t && irops_view(final(ops)@) == if dis {
                retag_rets(irops_view(old(ops)@))
            } else {
                irops_view(old(ops)@)
            }
        }),
{
    let ghost ops0 = irops_view(ops@);
    proof {
        lemma_irops_view(ops@);
    }
    let mut ty: Option<ConstType> = Option::None;
    let mut i: usize = 0;
    while i < ops.len()
        invariant
            0 <= i <= ops.len(),
            ops@ == old(ops)@,
            scan_rets(ops0, 0, Option::None) == scan_rets(ops0, i as int, ty),
        decreases ops@.len() - i,
    {
        let next: Option<ConstType> = match &ops[i] {
            IROp::Ret(t) => {
                match ty {
                    Option::Some(t0) => {
                        if t0 != *t {
                            rewrite_rets(ops);
                            return Option::Some(ConstType::Dynamic);
                        }
                        Option::Some(*t)
                    },
                    Option::None => Option::Some(*t),
                }
            },
            _ => ty,
        };
        ty = next;
        i = i + 1;
    }
    ty
}

/// Retags every top-level return of the sequence as `Dynamic`.
#[verifier::loop_isolation(false)]
fn rewrite_rets(ops: &mut Vec<IROp>)
    ensures
        irops_view(final(ops)@) == retag_rets(irops_view(old(ops)@)),
{
    let ghost ops0 = irops_view(old(ops)@);
    proof {
        lemma_irops_view(old(ops)@);
    }
    let mut i: usize = 0;
    while i < ops.len()
        invariant
            0 <= i <= ops.len(),
            ops@.len() == old(ops)@.len(),
            forall|k: int| i <= k < ops@.len() ==> ops@[k] == old(ops)@[k],
            forall|k: int|
                0 <= k < i ==> irop_view(#[trigger] ops@[k]) == retag_rets(ops0)[k],
        decreases ops@.len() - i,
    {
        let is_ret = match &ops[i] {
            IROp::Ret(_) => true,
            _ => false,
        };
        if is_ret {
            let _ = ops.remove(i);
            ops.insert(i, IROp::Ret(ConstType::Dynamic));
        }
        i = i + 1;
    }
    proof {
        lemma_irops_view(ops@);
        assert forall|k: int| 0 <= k < ops@.len() implies irops_view(ops@)[k] == retag_rets(
            ops0,
        )[k] by {
            assert(irops_view(ops@)[k] == irop_view(ops@[k]));
        }
        assert(irops_view(ops@) =~= retag_rets(ops0));
    }
}

} // verus!

verus! {

/// The view of an empty operation sequence is empty.
pub proof fn lemma_irops_view_empty()
    ensures
        irops_view(Seq::<IROp>::empty()) == Seq::<IROpS>::empty(),
{
}

/// The view of a sequence extended by one operation is the view
/// extended by that operation's view.
pub proof fn lemma_irops_view_push(s: Seq<IROp>, op: IROp)
    ensures
        irops_view(s.push(op)) =~= irops_view(s).push(irop_view(op)),
{
    assert(s.push(op).drop_last() =~= s);
    assert(s.push(op).last() == op);
}

/// The view of a concatenation is the concatenation of the views.
pub proof fn lemma_irops_view_concat(a: Seq<IROp>, b: Seq<IROp>)
    ensures
        irops_view(a + b) == irops_view(a) + irops_view(b),
    decreases b.len(),
{
    if b.len() == 0 {
        assert(a + b =~= a);
        assert(irops_view(a) + irops_view(b) =~= irops_view(a));
    } else {
        lemma_irops_view_concat(a, b.drop_last());
        assert((a + b).drop_last() =~= a + b.drop_last());
        assert((a + b).last() == b.last());
        assert(irops_view(a) + irops_view(b) =~= (irops_view(a) + irops_view(
            b.drop_last(),
        )).push(irop_view(b.last())));
    }
}

} // verus!

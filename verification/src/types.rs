//! Core value and type vocabulary of the middle end: the type tags of
//! the language, literal constants, identifiers, and the error kinds
//! that the passes report.

use vstd::prelude::*;

verus! {

/// Type tag of a value in the language. `Dynamic` is the escape hatch:
/// it absorbs every other type under widening and never narrows back.
#[derive(Clone, Copy, PartialEq, Eq, Structural, Debug)]
pub enum ConstType {
    Int,
    Float,
    Str,
    Bool,
    Void,
    Dynamic,
}

/// A literal constant. The float variant carries the raw bit pattern of
/// the number: the middle end never computes with the value, it only
/// tags it and hands it through to the backend, which materialises it.
#[derive(Debug)]
pub enum Const {
    Int(i32),
    Float(u32),
    Bool(bool),
    Str(String),
}

impl Clone for Const {
    fn clone(&self) -> (r: Self)
        ensures
            r == *self,
    {
        match self {
            Const::Int(i) => Const::Int(*i),
            Const::Float(bits) => Const::Float(*bits),
            Const::Bool(b) => Const::Bool(*b),
            Const::Str(s) => Const::Str(s.clone()),
        }
    }
}

/// A name as written in the source, with an optional type annotation
/// (annotations appear only at declaration sites; `None` means infer).
#[derive(Debug)]
pub struct Ident {
    pub val: String,
    pub tag: Option<ConstType>,
}

impl Clone for Ident {
    fn clone(&self) -> (r: Self)
        ensures
            r == *self,
    {
        Ident { val: self.val.clone(), tag: self.tag }
    }
}

/// The closed set of error kinds the passes report. The parser-boundary
/// kinds are only propagated, never produced here. `UnsupportedConstruct`
/// is returned for source forms the middle end does not handle.
#[derive(Clone, Copy, PartialEq, Eq, Structural, Debug)]
pub enum ErrKind {
    UndeclaredVar,
    VarAlreadyDeclared,
    UnexceptedTokenE,
    UnexceptedArgs,
    UnsupportedConstruct,
}

/// An error record: the kind, a detail string (the offending name), and
/// the source position captured from the most recent position marker.
/// Presentation of the record is the caller's concern.
#[derive(Debug)]
pub struct ATErr {
    pub kind: ErrKind,
    pub msg: String,
    pub line: u32,
    pub column: u32,
}

impl Clone for ATErr {
    fn clone(&self) -> (r: Self)
        ensures
            r == *self,
    {
        ATErr { kind: self.kind, msg: self.msg.clone(), line: self.line, column: self.column }
    }
}

/// The widening rule for a pair of operand types, a pure function of the
/// pair alone: equal types stay, `Dynamic` absorbs everything, `Int`
/// meets `Float` at `Float`, and any other mismatch keeps the left type
/// (it is left for the correction pass or the backend to reject).
pub open spec fn spec_widen(a: ConstType, b: ConstType) -> ConstType {
    if a == b {
        a
    } else if a == ConstType::Dynamic || b == ConstType::Dynamic {
        ConstType::Dynamic
    } else if (a == ConstType::Int && b == ConstType::Float) || (a == ConstType::Float
        && b == ConstType::Int) {
        ConstType::Float
    } else {
        a
    }
}

/// Executable form of the widening rule.
#[verifier::when_used_as_spec(spec_widen)]
pub fn widen(a: ConstType, b: ConstType) -> (r: ConstType)
    ensures
        r == spec_widen(a, b),
{
    if a == b {
        a
    } else if a == ConstType::Dynamic || b == ConstType::Dynamic {
        ConstType::Dynamic
    } else if (a == ConstType::Int && b == ConstType::Float) || (a == ConstType::Float
        && b == ConstType::Int) {
        ConstType::Float
    } else {
        a
    }
}

/// Join of two return-statement types during return unification: equal
/// types stay, `Int` and `Float` meet at `Float`, anything else falls
/// back to `Dynamic`.
pub open spec fn spec_unify_rets(a: ConstType, b: ConstType) -> ConstType {
    if a == b {
        a
    } else if (a == ConstType::Int && b == ConstType::Float) || (a == ConstType::Float
        && b == ConstType::Int) {
        ConstType::Float
    } else {
        ConstType::Dynamic
    }
}

/// Executable form of the return-type join.
#[verifier::when_used_as_spec(spec_unify_rets)]
pub fn unify_rets(a: ConstType, b: ConstType) -> (r: ConstType)
    ensures
        r == spec_unify_rets(a, b),
{
    if a == b {
        a
    } else if (a == ConstType::Int && b == ConstType::Float) || (a == ConstType::Float
        && b == ConstType::Int) {
        ConstType::Float
    } else {
        ConstType::Dynamic
    }
}

/// A use counter saturates at the top of its range instead of wrapping.
pub open spec fn spec_bump(rc: u64) -> u64 {
    if rc == u64::MAX {
        rc
    } else {
        (rc + 1) as u64
    }
}

/// Executable form of the saturating counter increment.
#[verifier::when_used_as_spec(spec_bump)]
pub fn bump(rc: u64) -> (r: u64)
    ensures
        r == spec_bump(rc),
{
    if rc == u64::MAX {
        rc
    } else {
        rc + 1
    }
}

/// A copy of a parameter list, element for element.
#[verifier::loop_isolation(false)]
pub fn clone_idents(v: &Vec<Ident>) -> (r: Vec<Ident>)
    ensures
        r@ == v@,
{
    let mut out: Vec<Ident> = Vec::new();
    let mut i: usize = 0;
    while i < v.len()
        invariant
            0 <= i <= v.len(),
            out@ == v@.take(i as int),
        decreases v@.len() - i,
    {
        out.push(v[i].clone());
        proof {
            assert(out@ =~= v@.take(i + 1));
        }
        i = i + 1;
    }
    proof {
        assert(v@.take(v@.len() as int) =~= v@);
    }
    out
}

} // verus!

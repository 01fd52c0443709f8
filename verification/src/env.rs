//! The symbol environment of the middle end: a flat table of variables
//! (type and use counter), a table of registered function signatures,
//! and the single "current expected return type" slot the correction
//! pass threads through function bodies.

use vstd::prelude::*;
use crate::types::{ConstType, Ident};

verus! {

/// A variable entry: its name, current type, and use counter. The
/// counter grows on every read or write of the name and saturates at
/// the top of its range.
#[derive(Debug)]
pub struct VarEntry {
    pub name: String,
    pub ty: ConstType,
    pub rc: u64,
}

/// A registered function: its name, ordered parameters, and unified
/// return type.
#[derive(Debug)]
pub struct FuncSig {
    pub name: Ident,
    pub args: Vec<Ident>,
    pub ret: ConstType,
}

/// Mathematical view of a function signature.
pub struct FuncSigS {
    pub name: Ident,
    pub args: Seq<Ident>,
    pub ret: ConstType,
}

impl View for FuncSig {
    type V = FuncSigS;

    open spec fn view(&self) -> FuncSigS {
        FuncSigS { name: self.name, args: self.args@, ret: self.ret }
    }
}

/// Mathematical view of the environment.
pub struct EnvS {
    pub vars: Seq<VarEntry>,
    pub funcs: Seq<FuncSigS>,
    pub current: ConstType,
}

/// The scoped symbol table. Lookups resolve to the earliest entry with
/// the name; declarations append. There is one flat scope.
#[derive(Debug)]
pub struct Environment {
    pub vars: Vec<VarEntry>,
    pub funcs: Vec<FuncSig>,
    pub current: ConstType,
}

pub open spec fn funcs_view(s: Seq<FuncSig>) -> Seq<FuncSigS> {
    s.map_values(|f: FuncSig| f@)
}

impl View for Environment {
    type V = EnvS;

    open spec fn view(&self) -> EnvS {
        EnvS { vars: self.vars@, funcs: funcs_view(self.funcs@), current: self.current }
    }
}

/// The variable entry a name resolves to: the earliest entry whose name
/// matches, if any.
pub open spec fn lookup_var(vars: Seq<VarEntry>, name: Seq<char>) -> Option<VarEntry>
    decreases vars.len(),
{
    if vars.len() == 0 {
        Option::None
    } else if vars[0].name@ == name {
        Option::Some(vars[0])
    } else {
        lookup_var(vars.drop_first(), name)
    }
}

/// The variable table after changing the resolved entry's type; a name
/// that resolves to nothing leaves the table unchanged.
pub open spec fn update_var_ty(vars: Seq<VarEntry>, name: Seq<char>, ty: ConstType) -> Seq<
    VarEntry,
>
    decreases vars.len(),
{
    if vars.len() == 0 {
        vars
    } else if vars[0].name@ == name {
        seq![VarEntry { name: vars[0].name, ty, rc: vars[0].rc }] + vars.drop_first()
    } else {
        seq![vars[0]] + update_var_ty(vars.drop_first(), name, ty)
    }
}

/// The variable table after changing the resolved entry's use counter.
pub open spec fn update_var_rc(vars: Seq<VarEntry>, name: Seq<char>, rc: u64) -> Seq<VarEntry>
    decreases vars.len(),
{
    if vars.len() == 0 {
        vars
    } else if vars[0].name@ == name {
        seq![VarEntry { name: vars[0].name, ty: vars[0].ty, rc }] + vars.drop_first()
    } else {
        seq![vars[0]] + update_var_rc(vars.drop_first(), name, rc)
    }
}

/// The function signature a name resolves to.
pub open spec fn lookup_fn(funcs: Seq<FuncSigS>, name: Seq<char>) -> Option<FuncSigS>
    decreases funcs.len(),
{
    if funcs.len() == 0 {
        Option::None
    } else if funcs[0].name.val@ == name {
        Option::Some(funcs[0])
    } else {
        lookup_fn(funcs.drop_first(), name)
    }
}

/// The type a bare name denotes: the variable's current type if the
/// name is a variable, otherwise the return type of the function it
/// names, otherwise nothing.
pub open spec fn env_get_ty(env: EnvS, name: Seq<char>) -> Option<ConstType> {
    match lookup_var(env.vars, name) {
        Option::Some(e) => Option::Some(e.ty),
        Option::None => match lookup_fn(env.funcs, name) {
            Option::Some(f) => Option::Some(f.ret),
            Option::None => Option::None,
        },
    }
}

impl Environment {
    /// A fresh environment: no variables, no functions, and `Void` as
    /// the expected return type.
    pub fn new() -> (r: Environment)
        ensures
            r@.vars == Seq::<VarEntry>::empty(),
            r@.funcs == Seq::<FuncSigS>::empty(),
            r@.current == ConstType::Void,
    {
        let r = Environment { vars: Vec::new(), funcs: Vec::new(), current: ConstType::Void };
        proof {
            assert(r@.funcs =~= Seq::<FuncSigS>::empty());
        }
        r
    }

    /// Whether the name is a declared variable.
    #[verifier::loop_isolation(false)]
    pub fn has(&self, name: &String) -> (r: bool)
        ensures
            r == lookup_var(self@.vars, name@).is_some(),
    {
        proof {
            assert(self@.vars.skip(0) =~= self@.vars);
        }
        let mut i: usize = 0;
        while i < self.vars.len()
            invariant
                0 <= i <= self.vars.len(),
                lookup_var(self@.vars, name@) == lookup_var(self@.vars.skip(i as int), name@),
                forall|k: int| 0 <= k < i ==> self.vars@[k].name@ != name@,
            decreases self.vars@.len() - i,
        {
            if self.vars[i].name == *name {
                return true;
            }
            proof {
                assert(self@.vars.skip(i as int).drop_first() =~= self@.vars.skip(i + 1));
            }
            i = i + 1;
        }
        false
    }

    /// Appends a variable entry for the name. Redeclaration checks are
    /// the caller's: the earliest entry keeps resolving the name.
    pub fn add(&mut self, name: &String, ty: ConstType, rc: u64)
        ensures
            final(self)@.vars == old(self)@.vars.push(VarEntry { name: *name, ty, rc }),
            final(self)@.funcs == old(self)@.funcs,
            final(self)@.current == old(self)@.current,
    {
        self.vars.push(VarEntry { name: name.clone(), ty, rc });
    }

    /// The type the name denotes: its variable type, else the return
    /// type of the function it names.
    #[verifier::loop_isolation(false)]
    pub fn get_ty(&self, name: &String) -> (r: Option<ConstType>)
        ensures
            r == env_get_ty(self@, name@),
    {
        proof {
            assert(self@.vars.skip(0) =~= self@.vars);
        }
        let mut i: usize = 0;
        while i < self.vars.len()
            invariant
                0 <= i <= self.vars.len(),
                lookup_var(self@.vars, name@) == lookup_var(self@.vars.skip(i as int), name@),
            decreases self.vars@.len() - i,
        {
            if self.vars[i].name == *name {
                return Option::Some(self.vars[i].ty);
            }
            proof {
                assert(self@.vars.skip(i as int).drop_first() =~= self@.vars.skip(i + 1));
            }
            i = i + 1;
        }
        proof {
            assert(self@.funcs.skip(0) =~= self@.funcs);
        }
        let mut j: usize = 0;
        while j < self.funcs.len()
            invariant
                0 <= j <= self.funcs.len(),
                lookup_fn(self@.funcs, name@) == lookup_fn(self@.funcs.skip(j as int), name@),
            decreases self.funcs@.len() - j,
        {
            if self.funcs[j].name.val == *name {
                proof {
                    assert(self@.funcs[j as int] == self.funcs@[j as int]@);
                }
                return Option::Some(self.funcs[j].ret);
            }
            proof {
                assert(self@.funcs[j as int] == self.funcs@[j as int]@);
                assert(self@.funcs.skip(j as int).drop_first() =~= self@.funcs.skip(j + 1));
            }
            j = j + 1;
        }
        Option::None
    }

    /// The use counter recorded for the name.
    #[verifier::loop_isolation(false)]
    pub fn get_rc(&self, name: &String) -> (r: Option<u64>)
        ensures
            r == match lookup_var(self@.vars, name@) {
                Option::Some(e) => Option::Some(e.rc),
                Option::None => Option::<u64>::None,
            },
    {
        proof {
            assert(self@.vars.skip(0) =~= self@.vars);
        }
        let mut i: usize = 0;
        while i < self.vars.len()
            invariant
                0 <= i <= self.vars.len(),
                lookup_var(self@.vars, name@) == lookup_var(self@.vars.skip(i as int), name@),
            decreases self.vars@.len() - i,
        {
            if self.vars[i].name == *name {
                return Option::Some(self.vars[i].rc);
            }
            proof {
                assert(self@.vars.skip(i as int).drop_first() =~= self@.vars.skip(i + 1));
            }
            i = i + 1;
        }
        Option::None
    }

    /// Rebinds the name to a new type, keeping its use counter; a name
    /// that resolves to nothing leaves the table unchanged.
    #[verifier::loop_isolation(false)]
    pub fn modify(&mut self, name: &String, ty: ConstType)
        ensures
            final(self)@.vars == update_var_ty(old(self)@.vars, name@, ty),
            final(self)@.funcs == old(self)@.funcs,
            final(self)@.current == old(self)@.current,
    {
        let ghost vars0 = self@.vars;
        proof {
            assert(vars0.skip(0) =~= vars0);
            assert(vars0.take(0int) + update_var_ty(vars0, name@, ty) =~= update_var_ty(
                vars0,
                name@,
                ty,
            ));
        }
        let mut i: usize = 0;
        while i < self.vars.len()
            invariant
                0 <= i <= self.vars.len(),
                self@.vars == vars0,
                self@.funcs == old(self)@.funcs,
                self@.current == old(self)@.current,
                update_var_ty(vars0, name@, ty) =~= vars0.take(i as int) + update_var_ty(
                    vars0.skip(i as int),
                    name@,
                    ty,
                ),
            decreases self.vars@.len() - i,
        {
            if self.vars[i].name == *name {
                let e = self.vars.remove(i);
                self.vars.insert(i, VarEntry { name: e.name, ty, rc: e.rc });
                proof {
                    assert(vars0.skip(i as int)[0] == vars0[i as int]);
                    assert(update_var_ty(vars0.skip(i as int), name@, ty) =~= seq![
                        VarEntry { name: vars0[i as int].name, ty, rc: vars0[i as int].rc },
                    ] + vars0.skip(i + 1));
                    assert(self@.vars =~= vars0.take(i as int) + seq![
                        VarEntry { name: vars0[i as int].name, ty, rc: vars0[i as int].rc },
                    ] + vars0.skip(i + 1));
                    assert(final(self)@.vars =~= update_var_ty(vars0, name@, ty));
                }
                return ;
            }
            proof {
                assert(vars0.skip(i as int)[0] == vars0[i as int]);
                assert(vars0.skip(i as int).drop_first() =~= vars0.skip(i + 1));
                assert(update_var_ty(vars0, name@, ty) =~= vars0.take(i + 1) + update_var_ty(
                    vars0.skip(i + 1),
                    name@,
                    ty,
                ));
            }
            i = i + 1;
        }
        proof {
            assert(update_var_ty(vars0, name@, ty) =~= vars0);
        }
    }

    /// Rebinds the name's use counter, keeping its type; a name that
    /// resolves to nothing leaves the table unchanged.
    #[verifier::loop_isolation(false)]
    pub fn modify_rc(&mut self, name: &String, rc: u64)
        ensures
            final(self)@.vars == update_var_rc(old(self)@.vars, name@, rc),
            final(self)@.funcs == old(self)@.funcs,
            final(self)@.current == old(self)@.current,
    {
        let ghost vars0 = self@.vars;
        proof {
            assert(vars0.skip(0) =~= vars0);
            assert(vars0.take(0int) + update_var_rc(vars0, name@, rc) =~= update_var_rc(
                vars0,
                name@,
                rc,
            ));
        }
        let mut i: usize = 0;
        while i < self.vars.len()
            invariant
                0 <= i <= self.vars.len(),
                self@.vars == vars0,
                self@.funcs == old(self)@.funcs,
                self@.current == old(self)@.current,
                update_var_rc(vars0, name@, rc) =~= vars0.take(i as int) + update_var_rc(
                    vars0.skip(i as int),
                    name@,
                    rc,
                ),
            decreases self.vars@.len() - i,
        {
            if self.vars[i].name == *name {
                let e = self.vars.remove(i);
                self.vars.insert(i, VarEntry { name: e.name, ty: e.ty, rc });
                proof {
                    assert(vars0.skip(i as int)[0] == vars0[i as int]);
                    assert(update_var_rc(vars0.skip(i as int), name@, rc) =~= seq![
                        VarEntry { name: vars0[i as int].name, ty: vars0[i as int].ty, rc },
                    ] + vars0.skip(i + 1));
                    assert(self@.vars =~= vars0.take(i as int) + seq![
                        VarEntry { name: vars0[i as int].name, ty: vars0[i as int].ty, rc },
                    ] + vars0.skip(i + 1));
                    assert(final(self)@.vars =~= update_var_rc(vars0, name@, rc));
                }
                return ;
            }
            proof {
                assert(vars0.skip(i as int)[0] == vars0[i as int]);
                assert(vars0.skip(i as int).drop_first() =~= vars0.skip(i + 1));
                assert(update_var_rc(vars0, name@, rc) =~= vars0.take(i + 1) + update_var_rc(
                    vars0.skip(i + 1),
                    name@,
                    rc,
                ));
            }
            i = i + 1;
        }
        proof {
            assert(update_var_rc(vars0, name@, rc) =~= vars0);
        }
    }

    /// Registers a function signature. Later registrations of the same
    /// name do not shadow the earliest one.
    pub fn push_function(&mut self, name: Ident, args: Vec<Ident>, ret: ConstType)
        ensures
            final(self)@.funcs == old(self)@.funcs.push(FuncSigS { name, args: args@, ret }),
            final(self)@.vars == old(self)@.vars,
            final(self)@.current == old(self)@.current,
    {
        let ghost funcs0 = self.funcs@;
        let sig = FuncSig { name, args, ret };
        let ghost sigs = sig@;
        self.funcs.push(sig);
        proof {
            assert(final(self)@.funcs =~= funcs_view(funcs0).push(sigs));
        }
    }

    /// The registered signature the name resolves to, if any.
    #[verifier::loop_isolation(false)]
    pub fn get_function(&self, name: &Ident) -> (r: Option<&FuncSig>)
        ensures
            match lookup_fn(self@.funcs, name.val@) {
                Option::Some(fs) => r matches Option::Some(f) && f@ == fs,
                Option::None => r is None,
            },
    {
        proof {
            assert(self@.funcs.skip(0) =~= self@.funcs);
        }
        let mut j: usize = 0;
        while j < self.funcs.len()
            invariant
                0 <= j <= self.funcs.len(),
                lookup_fn(self@.funcs, name.val@) == lookup_fn(
                    self@.funcs.skip(j as int),
                    name.val@,
                ),
            decreases self.funcs@.len() - j,
        {
            if self.funcs[j].name.val == *(&name.val) {
                proof {
                    assert(self@.funcs[j as int] == self.funcs@[j as int]@);
                }
                return Option::Some(&self.funcs[j]);
            }
            proof {
                assert(self@.funcs[j as int] == self.funcs@[j as int]@);
                assert(self@.funcs.skip(j as int).drop_first() =~= self@.funcs.skip(j + 1));
            }
            j = j + 1;
        }
        Option::None
    }
}

} // verus!

//! The fixed hierarchy of roles.
//!
//! Every role names one parent. `Noob` is the root and its own parent; `Approver`
//! and `FacilityManager` stand directly above it; `Superadmin` stands above
//! `Approver`.

use crate::text::str_eq;
use vstd::prelude::*;

verus! {

/// A role that an account can hold or an operation can require.
#[derive(Clone, Copy, Debug, PartialEq, Eq, Structural)]
pub enum Role {
    Noob,
    Approver,
    FacilityManager,
    Superadmin,
}

impl Role {
    /// The parent of this role; the root is its own parent.
    pub open spec fn spec_daddy(self) -> Role {
        match self {
            Role::Noob => Role::Noob,
            Role::Approver => Role::Noob,
            Role::FacilityManager => Role::Noob,
            Role::Superadmin => Role::Approver,
        }
    }

    /// Whether this role is the root of the hierarchy.
    pub open spec fn spec_is_root(self) -> bool {
        self.spec_daddy() == self
    }

    /// The name under which this role is stored in an account.
    pub open spec fn spec_name(self) -> Seq<char> {
        match self {
            Role::Noob => "Noob"@,
            Role::Approver => "Approver"@,
            Role::FacilityManager => "FacilityManager"@,
            Role::Superadmin => "Superadmin"@,
        }
    }

    /// How many steps lead from this role to the root.
    pub open spec fn depth(self) -> nat {
        match self {
            Role::Noob => 0,
            Role::Approver => 1,
            Role::FacilityManager => 1,
            Role::Superadmin => 2,
        }
    }

    /// This role and its ancestors, nearest first, without the root.
    pub open spec fn chain(self) -> Seq<Role>
        decreases self.depth(),
    {
        if self.spec_is_root() {
            Seq::empty()
        } else {
            seq![self] + self.spec_daddy().chain()
        }
    }

    /// The names of the roles in `chain`, in the same order.
    pub open spec fn chain_names(self) -> Seq<Seq<char>> {
        self.chain().map_values(|r: Role| r.spec_name())
    }

    /// The parent of this role; the root is its own parent.
    pub fn daddy(self) -> (parent: Role)
        ensures
            parent == self.spec_daddy(),
    {
        match self {
            Role::Noob => Role::Noob,
            Role::Approver => Role::Noob,
            Role::FacilityManager => Role::Noob,
            Role::Superadmin => Role::Approver,
        }
    }

    /// Whether this role is the root of the hierarchy.
    pub fn is_root(self) -> (root: bool)
        ensures
            root == self.spec_is_root(),
    {
        match self {
            Role::Noob => true,
            _ => false,
        }
    }

    /// The name under which this role is stored in an account.
    pub fn name(self) -> (name: &'static str)
        ensures
            name@ == self.spec_name(),
    {
        match self {
            Role::Noob => "Noob",
            Role::Approver => "Approver",
            Role::FacilityManager => "FacilityManager",
            Role::Superadmin => "Superadmin",
        }
    }

    /// The role with the given name, if there is one.
    pub fn from_name(name: &str) -> (role: Option<Role>)
        ensures
            match role {
                Some(r) => r.spec_name() == name@,
                None => forall|r: Role| r.spec_name() != name@,
            },
    {
        if str_eq(name, "Noob") {
            Some(Role::Noob)
        } else if str_eq(name, "Approver") {
            Some(Role::Approver)
        } else if str_eq(name, "FacilityManager") {
            Some(Role::FacilityManager)
        } else if str_eq(name, "Superadmin") {
            Some(Role::Superadmin)
        } else {
            None
        }
    }

    /// The names of this role and of its ancestors, nearest first, without the
    /// root. The root itself has an empty chain.
    pub fn resolve_daddy(self) -> (names: Vec<&'static str>)
        ensures
            names.deep_view() == self.chain_names(),
    {
        let mut names: Vec<&'static str> = Vec::new();
        let mut role = self;
        let ghost mut done: Seq<Role> = Seq::empty();
        while !role.is_root()
            invariant
                self.chain() == done + role.chain(),
                names@.len() == done.len(),
                forall|i: int| 0 <= i < done.len() ==> (#[trigger] names@[i])@ == done[i].spec_name(),
            decreases role.depth(),
        {
            names.push(role.name());
            proof {
                assert(role.chain() == seq![role] + role.spec_daddy().chain());
                assert(done + role.chain() =~= done.push(role) + role.spec_daddy().chain());
                done = done.push(role);
            }
            role = role.daddy();
        }
        proof {
            assert(role.chain() =~= Seq::<Role>::empty());
            assert(self.chain() =~= done);
            assert(names.deep_view() =~= self.chain_names());
        }
        names
    }
}

/// Whether an account whose role is named `held` may do what requires
/// `required`: the name is that of `required` itself or stands in its chain.
pub open spec fn authorized(held: Seq<char>, required: Role) -> bool {
    held == required.spec_name() || required.chain_names().contains(held)
}

/// Whether an account whose role is named `held` may do what requires
/// `required`. A name that belongs to no role authorizes nothing.
pub fn is_authorized(held: &str, required: Role) -> (allowed: bool)
    ensures
        allowed == authorized(held@, required),
{
    if str_eq(required.name(), held) {
        return true;
    }
    let names = required.resolve_daddy();
    let mut i: usize = 0;
    while i < names.len()
        invariant
            i <= names@.len(),
            names.deep_view() == required.chain_names(),
            forall|k: int| 0 <= k < i ==> required.chain_names()[k] != held@,
        decreases names@.len() - i,
    {
        if str_eq(names[i], held) {
            assert(required.chain_names()[i as int] == held@);
            return true;
        }
        i += 1;
    }
    false
}

/// The chain of each role, written out.
pub proof fn lemma_chains()
    ensures
        Role::Noob.chain() == Seq::<Role>::empty(),
        Role::Approver.chain() == seq![Role::Approver],
        Role::FacilityManager.chain() == seq![Role::FacilityManager],
        Role::Superadmin.chain() == seq![Role::Superadmin, Role::Approver],
{
    reveal_with_fuel(Role::chain, 3);
    assert(Role::Noob.chain() =~= Seq::<Role>::empty());
    assert(Role::Approver.chain() =~= seq![Role::Approver]);
    assert(Role::FacilityManager.chain() =~= seq![Role::FacilityManager]);
    assert(Role::Superadmin.chain() =~= seq![Role::Superadmin, Role::Approver]);
}

/// No two roles share a name.
pub proof fn lemma_names_differ(a: Role, b: Role)
    ensures
        a.spec_name() == b.spec_name() <==> a == b,
{
    reveal_strlit("Noob");
    reveal_strlit("Approver");
    reveal_strlit("FacilityManager");
    reveal_strlit("Superadmin");
    assert("Noob"@.len() == 4);
    assert("Approver"@.len() == 8);
    assert("FacilityManager"@.len() == 15);
    assert("Superadmin"@.len() == 10);
}

/// A name authorizes against `required` exactly when it is the name of
/// `required` or of a role in the chain of `required`.
pub proof fn lemma_authorized_by_role(held: Seq<char>, required: Role)
    ensures
        authorized(held, required) <==> exists|r: Role|
            r.spec_name() == held && (r == required || required.chain().contains(r)),
{
    let names = required.chain_names();
    let chain = required.chain();
    if authorized(held, required) {
        if held == required.spec_name() {
            assert(required.spec_name() == held && required == required);
        } else {
            let i = choose|i: int| 0 <= i < names.len() && names[i] == held;
            assert(chain.contains(chain[i]));
            assert(chain[i].spec_name() == held);
        }
    }
    if exists|r: Role| r.spec_name() == held && (r == required || chain.contains(r)) {
        let r = choose|r: Role| r.spec_name() == held && (r == required || chain.contains(r));
        if r != required {
            let i = choose|i: int| 0 <= i < chain.len() && chain[i] == r;
            assert(names[i] == held);
        }
    }
}

/// A role satisfies a requirement for itself.
pub proof fn lemma_authorized_reflexive(role: Role)
    ensures
        authorized(role.spec_name(), role),
{
}

/// A role satisfies a requirement exactly when it is the required role or
/// stands in the chain of the required role.
pub proof fn lemma_authorized_along_chain(role: Role, required: Role)
    ensures
        authorized(role.spec_name(), required) <==> (role == required || required.chain().contains(
            role,
        )),
{
    lemma_authorized_by_role(role.spec_name(), required);
    if authorized(role.spec_name(), required) {
        let r = choose|r: Role|
            r.spec_name() == role.spec_name() && (r == required || required.chain().contains(r));
        lemma_names_differ(r, role);
    }
}

/// Where `a` satisfies a requirement for `b`, and `b` one for `c`, `a`
/// satisfies the requirement for `c`.
pub proof fn lemma_authorized_transitive(a: Role, b: Role, c: Role)
    requires
        authorized(a.spec_name(), b),
        authorized(b.spec_name(), c),
    ensures
        authorized(a.spec_name(), c),
{
    lemma_authorized_along_chain(a, b);
    lemma_authorized_along_chain(b, c);
    lemma_authorized_along_chain(a, c);
    lemma_chains();
    if a != b && b != c {
        let i = choose|i: int| 0 <= i < b.chain().len() && b.chain()[i] == a;
        let j = choose|j: int| 0 <= j < c.chain().len() && c.chain()[j] == b;
        assert(b == Role::Superadmin || b == Role::Approver || b == Role::FacilityManager);
        assert(c == Role::Superadmin);
        assert(c.chain()[1] == Role::Approver);
    }
}

/// A name that belongs to no role satisfies no requirement.
pub proof fn lemma_unknown_name_authorizes_nothing(held: Seq<char>, required: Role)
    requires
        forall|r: Role| r.spec_name() != held,
    ensures
        !authorized(held, required),
{
    lemma_authorized_by_role(held, required);
}

} // verus!

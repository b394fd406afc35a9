//! The role store: who holds which role.
//!
//! A principal holds at most one role. The deployer becomes a developer when
//! the service starts; everyone else gets a role on first login, or from an
//! admin or a developer. Nothing takes a binding away; a new binding for the
//! same principal replaces the old one.

use crate::error::ServiceError;
use crate::guard::{
    bound_role, check_role, holds_role, require_admin_or_developer, require_role, role_of,
};
use crate::preservation::{lemma_assign_role_wf, lemma_login_wf};
use crate::principal::is_anonymous_principal;
use crate::role::Role;
use crate::state::University;
use candid::Principal;
use vstd::prelude::*;

verus! {

/// Whether `list` names each binding of `roles` once and nothing else.
pub open spec fn lists_bindings(list: Seq<(Principal, Role)>, roles: Map<Principal, Role>) -> bool {
    &&& forall|i: int| 0 <= i < list.len() ==> holds_role(roles, (#[trigger] list[i]).0, list[i].1)
    &&& forall|i: int, j: int|
        0 <= i < j < list.len() ==> (#[trigger] list[i]).0 != (#[trigger] list[j]).0
    &&& forall|p: Principal| #[trigger]
        roles.contains_key(p) ==> exists|i: int| 0 <= i < list.len() && (#[trigger] list[i]).0 == p
}

/// Whether `list` names each principal that has a role once and nobody else.
pub open spec fn lists_principals(list: Seq<Principal>, roles: Map<Principal, Role>) -> bool {
    &&& list.no_duplicates()
    &&& forall|p: Principal| #[trigger] roles.contains_key(p) <==> list.contains(p)
}

impl University {
    /// Whether any principal holds `Admin`.
    pub fn has_admin(&self) -> (found: bool)
        requires
            self.wf(),
        ensures
            found == self@.has_admin(),
    {
        let mut i: usize = 0;
        while i < self.roles.len()
            invariant
                self.wf(),
                i <= self.roles.key_seq().len(),
                forall|j: int| 0 <= j < i ==> self.roles.value_seq()[j] != Role::Admin,
            decreases self.roles.key_seq().len() - i,
        {
            if *self.roles.value_at(i) == Role::Admin {
                proof {
                    self.roles.lemma_slot(i as int);
                    assert(holds_role(self@.roles, self.roles.key_seq()[i as int], Role::Admin));
                }
                return true;
            }
            i += 1;
        }
        proof {
            assert forall|p: Principal| !holds_role(self@.roles, p, Role::Admin) by {
                if self@.roles.contains_key(p) {
                    self.roles.lemma_key_has_slot(p);
                }
            }
        }
        false
    }

    /// `caller` logs in, asking for `requested_role`, and learns the role it
    /// holds from now on.
    ///
    /// A caller that already has a role keeps it and gets it back, whatever it
    /// asked for. A new caller gets the role it asked for, with one exception:
    /// `Admin` is granted only while nobody holds it, and `Guest` is granted in
    /// its place otherwise.
    pub fn login_as_role(&mut self, caller: &Principal, requested_role: Role) -> (r: Result<
        Role,
        ServiceError,
    >)
        requires
            old(self).wf(),
        ensures
            final(self).wf(),
            match old(self)@.login_as_role(*caller, requested_role) {
                Ok(next) => final(self)@ == next && r == Ok::<Role, ServiceError>(
                    role_of(next.roles, *caller),
                ),
                Err(e) => final(self)@ == old(self)@ && r == Err::<Role, ServiceError>(e),
            },
    {
        if is_anonymous_principal(caller) {
            return Err(ServiceError::Unauthenticated);
        }
        match bound_role(&self.roles, caller) {
            Some(role) => Ok(role),
            None => {
                let granted = if requested_role == Role::Admin && self.has_admin() {
                    Role::Guest
                } else {
                    requested_role
                };
                self.roles.insert(*caller, granted);
                proof {
                    lemma_login_wf(old(self)@, *caller, requested_role);
                }
                Ok(granted)
            },
        }
    }

    /// `caller`, an admin or a developer, binds `user` to `role`. Any role can
    /// be given to anyone, the caller included.
    pub fn assign_role(&mut self, caller: &Principal, user: Principal, role: Role) -> (r: Result<
        (),
        ServiceError,
    >)
        requires
            old(self).wf(),
        ensures
            final(self).wf(),
            match old(self)@.assign_role(*caller, user, role) {
                Ok(next) => final(self)@ == next && r is Ok,
                Err(e) => final(self)@ == old(self)@ && r == Err::<(), ServiceError>(e),
            },
    {
        match require_admin_or_developer(&self.roles, caller) {
            Err(e) => {
                return Err(e);
            },
            Ok(_) => {},
        }
        self.roles.insert(user, role);
        proof {
            lemma_assign_role_wf(old(self)@, *caller, user, role);
        }
        Ok(())
    }

    /// The role of `caller`: the one bound to it, or `Guest`.
    pub fn my_role(&self, caller: &Principal) -> (role: Role)
        requires
            self.wf(),
        ensures
            role == role_of(self@.roles, *caller),
    {
        match bound_role(&self.roles, caller) {
            Some(role) => role,
            None => Role::Guest,
        }
    }

    /// All bindings, for an admin.
    pub fn list_users(&self, caller: &Principal) -> (r: Result<Vec<(Principal, Role)>, ServiceError>)
        requires
            self.wf(),
        ensures
            match check_role(self@.roles, *caller, Role::Admin) {
                Ok(_) => r is Ok && lists_bindings(r->Ok_0@, self@.roles),
                Err(e) => r == Err::<Vec<(Principal, Role)>, ServiceError>(e),
            },
    {
        match require_role(&self.roles, caller, Role::Admin) {
            Err(e) => {
                return Err(e);
            },
            Ok(_) => {},
        }
        let mut users: Vec<(Principal, Role)> = Vec::new();
        let mut i: usize = 0;
        while i < self.roles.len()
            invariant
                self.wf(),
                i <= self.roles.key_seq().len(),
                users@.len() == i,
                forall|j: int|
                    0 <= j < i ==> (#[trigger] users@[j]).0 == self.roles.key_seq()[j]
                        && users@[j].1 == self.roles.value_seq()[j],
            decreases self.roles.key_seq().len() - i,
        {
            users.push((self.roles.key_at(i), *self.roles.value_at(i)));
            i += 1;
        }
        proof {
            let list = users@;
            let roles = self@.roles;
            assert forall|j: int| 0 <= j < list.len() implies holds_role(
                roles,
                (#[trigger] list[j]).0,
                list[j].1,
            ) by {
                self.roles.lemma_slot(j);
            }
            assert forall|p: Principal| #[trigger] roles.contains_key(p) implies exists|j: int|
                0 <= j < list.len() && (#[trigger] list[j]).0 == p by {
                self.roles.lemma_key_has_slot(p);
                let j = crate::principal_map::slot_of(self.roles.key_seq(), p);
                assert(list[j].0 == p);
            }
        }
        Ok(users)
    }

    /// Every principal that has a role.
    pub fn list_principals(&self) -> (principals: Vec<Principal>)
        requires
            self.wf(),
        ensures
            lists_principals(principals@, self@.roles),
    {
        let mut principals: Vec<Principal> = Vec::new();
        let mut i: usize = 0;
        while i < self.roles.len()
            invariant
                self.wf(),
                i <= self.roles.key_seq().len(),
                principals@ == self.roles.key_seq().subrange(0, i as int),
            decreases self.roles.key_seq().len() - i,
        {
            principals.push(self.roles.key_at(i));
            i += 1;
        }
        assert(principals@ == self.roles.key_seq());
        principals
    }

    /// The principal that started the service.
    pub fn get_deployer_principal(&self) -> (deployer: Option<Principal>)
        ensures
            deployer == self@.deployer,
    {
        self.deployer
    }
}

} // verus!

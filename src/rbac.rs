use std::collections::HashMap;
use vstd::prelude::*;
use crate::types::{Address, ContractError};

verus! {

broadcast use vstd::std_specs::hash::group_hash_axioms;

/// The role assigned to a user; the basis of its default permissions.
#[derive(Clone, Copy, Debug, PartialEq, Eq, Structural)]
pub enum Role {
    Admin,
    Optometrist,
    Patient,
}

/// An atomic capability.
#[derive(Clone, Copy, Debug, PartialEq, Eq, Structural)]
pub enum Permission {
    ManageUsers,
    WriteRecord,
    ManageAccess,
    SystemAdmin,
}

/// The permission catalog: whether `role` holds `p` by default.
pub open spec fn role_grants(role: Role, p: Permission) -> bool {
    match role {
        Role::Admin => true,
        Role::Optometrist => p == Permission::WriteRecord,
        Role::Patient => false,
    }
}

/// A set of permissions, one flag per permission.
#[derive(Clone, Copy, Debug, PartialEq, Eq, Structural)]
pub struct PermissionSet {
    pub manage_users: bool,
    pub write_record: bool,
    pub manage_access: bool,
    pub system_admin: bool,
}

impl PermissionSet {
    pub open spec fn spec_empty() -> PermissionSet {
        PermissionSet {
            manage_users: false,
            write_record: false,
            manage_access: false,
            system_admin: false,
        }
    }

    pub open spec fn has(self, p: Permission) -> bool {
        match p {
            Permission::ManageUsers => self.manage_users,
            Permission::WriteRecord => self.write_record,
            Permission::ManageAccess => self.manage_access,
            Permission::SystemAdmin => self.system_admin,
        }
    }

    pub open spec fn with_spec(self, p: Permission) -> PermissionSet {
        match p {
            Permission::ManageUsers => PermissionSet { manage_users: true, ..self },
            Permission::WriteRecord => PermissionSet { write_record: true, ..self },
            Permission::ManageAccess => PermissionSet { manage_access: true, ..self },
            Permission::SystemAdmin => PermissionSet { system_admin: true, ..self },
        }
    }

    pub fn empty() -> (r: PermissionSet)
        ensures
            r == PermissionSet::spec_empty(),
            forall|p: Permission| !r.has(p),
    {
        PermissionSet {
            manage_users: false,
            write_record: false,
            manage_access: false,
            system_admin: false,
        }
    }

    pub fn contains(&self, p: Permission) -> (r: bool)
        ensures
            r == self.has(p),
    {
        match p {
            Permission::ManageUsers => self.manage_users,
            Permission::WriteRecord => self.write_record,
            Permission::ManageAccess => self.manage_access,
            Permission::SystemAdmin => self.system_admin,
        }
    }

    pub fn with(&self, p: Permission) -> (r: PermissionSet)
        ensures
            r == self.with_spec(p),
            forall|q: Permission| r.has(q) == (self.has(q) || q == p),
    {
        let mut r = *self;
        match p {
            Permission::ManageUsers => r.manage_users = true,
            Permission::WriteRecord => r.write_record = true,
            Permission::ManageAccess => r.manage_access = true,
            Permission::SystemAdmin => r.system_admin = true,
        }
        r
    }
}

/// The default permissions of a role, as the catalog gives them.
pub fn defaults_for(role: Role) -> (r: PermissionSet)
    ensures
        forall|p: Permission| r.has(p) == role_grants(role, p),
{
    match role {
        Role::Admin => PermissionSet {
            manage_users: true,
            write_record: true,
            manage_access: true,
            system_admin: true,
        },
        Role::Optometrist => PermissionSet {
            manage_users: false,
            write_record: true,
            manage_access: false,
            system_admin: false,
        },
        Role::Patient => PermissionSet::empty(),
    }
}

/// A user's RBAC state: the assigned role and the explicit overrides on top of it.
#[derive(Clone, Copy, Debug, PartialEq, Eq, Structural)]
pub struct RoleAssignment {
    pub role: Role,
    pub effective_from: u64,
    pub granted: PermissionSet,
    pub revoked: PermissionSet,
}

impl RoleAssignment {
    /// Resolution order: an explicit revoke masks everything, else an explicit
    /// grant or the role default gives the permission.
    pub open spec fn holds(self, p: Permission) -> bool {
        if self.revoked.has(p) {
            false
        } else {
            self.granted.has(p) || role_grants(self.role, p)
        }
    }
}

/// `delegator` lends the default permissions of `role` to the delegatee, to act on
/// the delegator's resources, until `expires_at` (exclusive).
#[derive(Clone, Copy, Debug, PartialEq, Eq, Structural)]
pub struct Delegation {
    pub delegator: Address,
    pub delegatee: Address,
    pub role: Role,
    pub expires_at: u64,
}

impl Delegation {
    pub open spec fn lends(self, p: Permission, now: u64) -> bool {
        now < self.expires_at && role_grants(self.role, p)
    }
}

/// Per-user role assignments with overrides, and the delegations between users.
pub struct RbacStore {
    assignments: HashMap<u64, RoleAssignment>,
    /// delegatee id, then delegator id
    delegations: HashMap<u64, HashMap<u64, Delegation>>,
}

impl RbacStore {
    /// The RBAC record of `user`, if one was ever assigned.
    pub closed spec fn assignment(&self, user: Address) -> Option<RoleAssignment> {
        if self.assignments@.contains_key(user.id) {
            Some(self.assignments@[user.id])
        } else {
            None
        }
    }

    /// The delegation from `owner` to `actor`, if one was recorded.
    pub closed spec fn delegation(&self, owner: Address, actor: Address) -> Option<Delegation> {
        if self.delegations@.contains_key(actor.id) && self.delegations@[actor.id]@.contains_key(
            owner.id,
        ) {
            Some(self.delegations@[actor.id]@[owner.id])
        } else {
            None
        }
    }

    pub open spec fn permitted(&self, user: Address, p: Permission) -> bool {
        match self.assignment(user) {
            Some(a) => a.holds(p),
            None => false,
        }
    }

    pub open spec fn delegated(&self, owner: Address, actor: Address, p: Permission, now: u64) -> bool {
        match self.delegation(owner, actor) {
            Some(d) => d.lends(p, now),
            None => false,
        }
    }

    pub fn new() -> (r: RbacStore)
        ensures
            forall|u: Address| r.assignment(u).is_none(),
            forall|o: Address, a: Address| r.delegation(o, a).is_none(),
    {
        RbacStore { assignments: HashMap::new(), delegations: HashMap::new() }
    }
}

/// The RBAC record after assigning `role`: the overrides of an earlier record stay.
pub open spec fn reassigned(prev: Option<RoleAssignment>, role: Role, effective_from: u64) -> RoleAssignment {
    match prev {
        Some(a) => RoleAssignment { role, effective_from, ..a },
        None => RoleAssignment {
            role,
            effective_from,
            granted: PermissionSet::spec_empty(),
            revoked: PermissionSet::spec_empty(),
        },
    }
}

/// Sets or overwrites the role of `user`; overrides already recorded for the user
/// are kept.
pub fn assign_role(store: &mut RbacStore, user: Address, role: Role, effective_from: u64)
    ensures
        final(store).assignment(user) == Some(reassigned(old(store).assignment(user), role, effective_from)),
        forall|u: Address| u != user ==> final(store).assignment(u) == old(store).assignment(u),
        forall|o: Address, a: Address| final(store).delegation(o, a) == old(store).delegation(o, a),
{
    let next = match store.assignments.get(&user.id) {
        Some(a) => RoleAssignment { role, effective_from, ..*a },
        None => RoleAssignment {
            role,
            effective_from,
            granted: PermissionSet::empty(),
            revoked: PermissionSet::empty(),
        },
    };
    store.assignments.insert(user.id, next);
}

/// Adds an explicit grant of `permission` to `user`'s overrides.
pub fn grant_custom_permission(store: &mut RbacStore, user: Address, permission: Permission) -> (r:
    Result<(), ContractError>)
    ensures
        r == if old(store).assignment(user) is Some {
            Ok::<(), ContractError>(())
        } else {
            Err(ContractError::UserNotFound)
        },
        r is Err ==> *final(store) == *old(store),
        r is Ok ==> final(store).assignment(user) == Some(
            RoleAssignment {
                granted: old(store).assignment(user).unwrap().granted.with_spec(permission),
                ..old(store).assignment(user).unwrap()
            },
        ),
        forall|u: Address| u != user ==> final(store).assignment(u) == old(store).assignment(u),
        forall|o: Address, a: Address| final(store).delegation(o, a) == old(store).delegation(o, a),
{
    match store.assignments.get(&user.id) {
        Some(a) => {
            let next = RoleAssignment { granted: a.granted.with(permission), ..*a };
            store.assignments.insert(user.id, next);
            Ok(())
        },
        None => Err(ContractError::UserNotFound),
    }
}

/// Adds an explicit revoke of `permission` to `user`'s overrides; it masks the role
/// default and any explicit grant.
pub fn revoke_custom_permission(store: &mut RbacStore, user: Address, permission: Permission) -> (r:
    Result<(), ContractError>)
    ensures
        r == if old(store).assignment(user) is Some {
            Ok::<(), ContractError>(())
        } else {
            Err(ContractError::UserNotFound)
        },
        r is Err ==> *final(store) == *old(store),
        r is Ok ==> final(store).assignment(user) == Some(
            RoleAssignment {
                revoked: old(store).assignment(user).unwrap().revoked.with_spec(permission),
                ..old(store).assignment(user).unwrap()
            },
        ),
        r is Ok ==> !final(store).permitted(user, permission),
        forall|u: Address| u != user ==> final(store).assignment(u) == old(store).assignment(u),
        forall|o: Address, a: Address| final(store).delegation(o, a) == old(store).delegation(o, a),
{
    match store.assignments.get(&user.id) {
        Some(a) => {
            let next = RoleAssignment { revoked: a.revoked.with(permission), ..*a };
            store.assignments.insert(user.id, next);
            Ok(())
        },
        None => Err(ContractError::UserNotFound),
    }
}

/// Records that `delegator` lends `role` to `delegatee` until `expires_at`, replacing
/// an earlier delegation between the same two users. Whether the delegator holds
/// `role` is not checked here: that is the caller's responsibility.
pub fn delegate_role(
    store: &mut RbacStore,
    delegator: Address,
    delegatee: Address,
    role: Role,
    expires_at: u64,
)
    ensures
        final(store).delegation(delegator, delegatee) == Some(
            Delegation { delegator, delegatee, role, expires_at },
        ),
        forall|o: Address, a: Address|
            !(o.id == delegator.id && a.id == delegatee.id) ==> final(store).delegation(o, a)
                == old(store).delegation(o, a),
        forall|u: Address| final(store).assignment(u) == old(store).assignment(u),
{
    let mut inbound = match store.delegations.remove(&delegatee.id) {
        Some(m) => m,
        None => HashMap::new(),
    };
    inbound.insert(delegator.id, Delegation { delegator, delegatee, role, expires_at });
    store.delegations.insert(delegatee.id, inbound);
}

/// Whether `user` holds `permission`: an explicit revoke wins, else an explicit
/// grant or the role default gives it.
pub fn has_permission(store: &RbacStore, user: Address, permission: Permission) -> (r: bool)
    ensures
        r == store.permitted(user, permission),
{
    match store.assignments.get(&user.id) {
        Some(a) => {
            if a.revoked.contains(permission) {
                false
            } else {
                a.granted.contains(permission) || defaults_for(a.role).contains(permission)
            }
        },
        None => false,
    }
}

/// Whether `owner` has a live delegation to `actor` whose role holds `permission`
/// by default.
pub fn has_delegated_permission(
    store: &RbacStore,
    owner: Address,
    actor: Address,
    permission: Permission,
    now: u64,
) -> (r: bool)
    ensures
        r == store.delegated(owner, actor, permission, now),
{
    match store.delegations.get(&actor.id) {
        Some(inbound) => match inbound.get(&owner.id) {
            Some(d) => now < d.expires_at && defaults_for(d.role).contains(permission),
            None => false,
        },
        None => false,
    }
}

/// An explicit revoke wins: a revoked permission is not held, whatever the role
/// gives by default and whatever was explicitly granted.
pub proof fn lemma_revoke_wins(store: &RbacStore, user: Address, permission: Permission)
    requires
        store.assignment(user) is Some,
        store.assignment(user).unwrap().revoked.has(permission),
    ensures
        !store.permitted(user, permission),
{
}

} // verus!

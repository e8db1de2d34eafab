use std::collections::HashMap;
use vstd::prelude::*;
use crate::types::{AccessLevel, Address};

verus! {

broadcast use vstd::std_specs::hash::group_hash_axioms;

/// A patient shares their records with `grantee` at `level` until `expires_at`
/// (exclusive).
#[derive(Clone, Copy, Debug, PartialEq, Eq, Structural)]
pub struct AccessGrant {
    pub patient: Address,
    pub grantee: Address,
    pub level: AccessLevel,
    pub granted_at: u64,
    pub expires_at: u64,
}

/// The level a grant gives at time `now`: its level while live, `NoAccess` once
/// expired or when there is no grant.
pub open spec fn level_at(grant: Option<AccessGrant>, now: u64) -> AccessLevel {
    match grant {
        Some(g) => if now < g.expires_at {
            g.level
        } else {
            AccessLevel::NoAccess
        },
        None => AccessLevel::NoAccess,
    }
}

/// At most one grant per (patient, grantee) pair.
pub struct AccessRegistry {
    /// patient id, then grantee id
    grants: HashMap<u64, HashMap<u64, AccessGrant>>,
}

impl AccessRegistry {
    /// The stored grant of `patient` to `grantee`, live or expired.
    pub closed spec fn grant(&self, patient: Address, grantee: Address) -> Option<AccessGrant> {
        if self.grants@.contains_key(patient.id) && self.grants@[patient.id]@.contains_key(
            grantee.id,
        ) {
            Some(self.grants@[patient.id]@[grantee.id])
        } else {
            None
        }
    }

    pub fn new() -> (r: AccessRegistry)
        ensures
            forall|p: Address, g: Address| r.grant(p, g).is_none(),
    {
        AccessRegistry { grants: HashMap::new() }
    }

    /// Stores `grant` under its (patient, grantee) pair, replacing an earlier one.
    pub fn put(&mut self, grant: AccessGrant)
        ensures
            final(self).grant(grant.patient, grant.grantee) == Some(grant),
            forall|p: Address, g: Address|
                !(p.id == grant.patient.id && g.id == grant.grantee.id) ==> final(self).grant(p, g)
                    == old(self).grant(p, g),
    {
        let mut outbound = match self.grants.remove(&grant.patient.id) {
            Some(m) => m,
            None => HashMap::new(),
        };
        outbound.insert(grant.grantee.id, grant);
        self.grants.insert(grant.patient.id, outbound);
    }

    /// Deletes the grant of `patient` to `grantee`, if any.
    pub fn remove(&mut self, patient: Address, grantee: Address)
        ensures
            final(self).grant(patient, grantee).is_none(),
            forall|p: Address, g: Address|
                !(p.id == patient.id && g.id == grantee.id) ==> final(self).grant(p, g) == old(
                    self,
                ).grant(p, g),
    {
        match self.grants.remove(&patient.id) {
            Some(m) => {
                let mut outbound = m;
                outbound.remove(&grantee.id);
                self.grants.insert(patient.id, outbound);
            },
            None => {},
        }
    }

    /// The level `patient` currently shares with `grantee` (lazy expiry).
    pub fn level(&self, patient: Address, grantee: Address, now: u64) -> (r: AccessLevel)
        ensures
            r == level_at(self.grant(patient, grantee), now),
    {
        match self.grants.get(&patient.id) {
            Some(outbound) => match outbound.get(&grantee.id) {
                Some(g) => {
                    if g.expires_at > now {
                        g.level
                    } else {
                        AccessLevel::NoAccess
                    }
                },
                None => AccessLevel::NoAccess,
            },
            None => AccessLevel::NoAccess,
        }
    }
}

/// Lazy expiry: a stored grant reads as `NoAccess` from its expiry on, though it is
/// still stored.
pub proof fn lemma_expired_grant_reads_no_access(
    registry: &AccessRegistry,
    patient: Address,
    grantee: Address,
    now: u64,
)
    requires
        registry.grant(patient, grantee) is Some,
        now >= registry.grant(patient, grantee).unwrap().expires_at,
    ensures
        level_at(registry.grant(patient, grantee), now) == AccessLevel::NoAccess,
{
}

} // verus!

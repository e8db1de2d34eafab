use std::collections::HashMap;
use vstd::prelude::*;
use crate::access::{level_at, AccessGrant, AccessRegistry};
use crate::rbac::{
    assign_role, delegate_role, grant_custom_permission, has_delegated_permission,
    has_permission, reassigned, revoke_custom_permission, Permission, RbacStore, Role,
};
use crate::types::{AccessLevel, Address, ContractError, RecordType};
use crate::versioning::{
    append_version, compare_versions, comparison_of, get_history, get_version, latest_of,
    latest_version, version_in, RecordComparison, RecordVersion, VersionLog,
};

verus! {

broadcast use vstd::std_specs::hash::group_hash_axioms;

/// A registered user.
#[derive(Clone, Debug, PartialEq, Eq)]
pub struct User {
    pub address: Address,
    pub role: Role,
    pub name: String,
    pub registered_at: u64,
    pub is_active: bool,
}

impl User {
    /// A field-by-field copy.
    pub fn duplicate(&self) -> (r: User)
        ensures
            r == *self,
    {
        User {
            address: self.address,
            role: self.role,
            name: self.name.clone(),
            registered_at: self.registered_at,
            is_active: self.is_active,
        }
    }
}

/// A vision record; it holds the digest of its content, never the content.
#[derive(Clone, Debug, PartialEq, Eq)]
pub struct VisionRecord {
    pub id: u64,
    pub patient: Address,
    pub provider: Address,
    pub record_type: RecordType,
    pub data_hash: String,
    pub created_at: u64,
    pub updated_at: u64,
}

impl VisionRecord {
    /// A field-by-field copy.
    pub fn duplicate(&self) -> (r: VisionRecord)
        ensures
            r == *self,
    {
        VisionRecord {
            id: self.id,
            patient: self.patient,
            provider: self.provider,
            record_type: self.record_type,
            data_hash: self.data_hash.clone(),
            created_at: self.created_at,
            updated_at: self.updated_at,
        }
    }
}

/// The write rule: a provider writes under their own `WriteRecord`; anyone else needs
/// a live delegation of `WriteRecord` from the provider, or `SystemAdmin`.
pub open spec fn write_allowed(rbac: RbacStore, caller: Address, provider: Address, now: u64) -> bool {
    if caller == provider {
        rbac.permitted(caller, Permission::WriteRecord)
    } else {
        rbac.delegated(provider, caller, Permission::WriteRecord, now) || rbac.permitted(
            caller,
            Permission::SystemAdmin,
        )
    }
}

/// The grant-management rule: the patient manages their own grants; anyone else
/// needs a live delegation of `ManageAccess` from the patient, or `SystemAdmin`.
pub open spec fn grant_allowed(rbac: RbacStore, caller: Address, patient: Address, now: u64) -> bool {
    caller == patient || rbac.delegated(patient, caller, Permission::ManageAccess, now)
        || rbac.permitted(caller, Permission::SystemAdmin)
}

/// Decides whether `caller` may write a record whose provider is `provider`.
pub fn can_write_record(rbac: &RbacStore, caller: Address, provider: Address, now: u64) -> (r: bool)
    ensures
        r == write_allowed(*rbac, caller, provider, now),
{
    if caller == provider {
        return has_permission(rbac, caller, Permission::WriteRecord);
    }
    has_delegated_permission(rbac, provider, caller, Permission::WriteRecord, now)
        || has_permission(rbac, caller, Permission::SystemAdmin)
}

/// The ids of the records of `patient` among `records`, in the order of creation.
pub open spec fn ids_of_patient(records: Seq<VisionRecord>, patient: Address) -> Seq<u64>
    decreases records.len(),
{
    if records.len() == 0 {
        Seq::empty()
    } else {
        let rest = ids_of_patient(records.drop_last(), patient);
        if records.last().patient == patient {
            rest.push(records.last().id)
        } else {
            rest
        }
    }
}

/// The whole state: users, RBAC, access grants, records and their histories. Each
/// entry point takes the authenticated caller and the ledger time as arguments.
pub struct VisionRecordsContract {
    admin: Option<Address>,
    users: HashMap<u64, User>,
    rbac: RbacStore,
    access: AccessRegistry,
    records: Vec<VisionRecord>,
    log: VersionLog,
}

impl VisionRecordsContract {
    pub closed spec fn admin_of(&self) -> Option<Address> {
        self.admin
    }

    pub closed spec fn user_of(&self, user: Address) -> Option<User> {
        if self.users@.contains_key(user.id) {
            Some(self.users@[user.id])
        } else {
            None
        }
    }

    pub closed spec fn roles(&self) -> RbacStore {
        self.rbac
    }

    pub closed spec fn grants(&self) -> AccessRegistry {
        self.access
    }

    /// All records, record `id` at position `id - 1`.
    pub closed spec fn all_records(&self) -> Seq<VisionRecord> {
        self.records@
    }

    pub closed spec fn versions(&self) -> VersionLog {
        self.log
    }

    pub open spec fn record_of(&self, id: u64) -> Option<VisionRecord> {
        if 1 <= id <= self.all_records().len() {
            Some(self.all_records()[id - 1])
        } else {
            None
        }
    }

    pub open spec fn history_of(&self, id: u64) -> Seq<RecordVersion> {
        self.versions().history(id)
    }

    /// Record ids are `1..=count`; the histories are well formed; a record has a
    /// history exactly when it exists; before initialization nobody has a role.
    pub open spec fn wf(&self) -> bool {
        &&& self.versions().wf()
        &&& forall|i: int|
            0 <= i < self.all_records().len() ==> (#[trigger] self.all_records()[i]).id == i + 1
        &&& forall|id: u64|
            #![trigger self.versions().history(id)]
            self.record_of(id) is None ==> self.versions().history(id).len() == 0
        &&& forall|id: u64|
            #![trigger self.versions().history(id)]
            self.record_of(id) is Some ==> self.versions().history(id).len() > 0
        &&& self.admin_of() is None ==> forall|u: Address| #[trigger]
            self.roles().assignment(u) is None
    }

    /// A fresh, uninitialized contract.
    pub fn new() -> (r: VisionRecordsContract)
        ensures
            r.wf(),
            r.admin_of() is None,
            r.all_records().len() == 0,
            forall|u: Address| r.user_of(u) is None,
            forall|u: Address| r.roles().assignment(u) is None,
            forall|o: Address, a: Address| r.roles().delegation(o, a) is None,
            forall|p: Address, g: Address| r.grants().grant(p, g) is None,
    {
        VisionRecordsContract {
            admin: None,
            users: HashMap::new(),
            rbac: RbacStore::new(),
            access: AccessRegistry::new(),
            records: Vec::new(),
            log: VersionLog::new(),
        }
    }

    /// Sets the admin once and gives them the `Admin` role.
    pub fn initialize(&mut self, admin: Address) -> (r: Result<(), ContractError>)
        requires
            old(self).wf(),
        ensures
            final(self).wf(),
            old(self).admin_of() is Some <==> r is Err,
            r is Err ==> r == Err::<(), ContractError>(ContractError::AlreadyInitialized)
                && *final(self) == *old(self),
            r is Ok ==> final(self).admin_of() == Some(admin),
            r is Ok ==> final(self).roles().assignment(admin) == Some(
                reassigned(old(self).roles().assignment(admin), Role::Admin, 0),
            ),
            r is Ok ==> final(self).roles().permitted(admin, Permission::SystemAdmin),
            forall|u: Address|
                u != admin ==> final(self).roles().assignment(u) == old(self).roles().assignment(u),
            forall|o: Address, a: Address|
                final(self).roles().delegation(o, a) == old(self).roles().delegation(o, a),
            forall|u: Address| final(self).user_of(u) == old(self).user_of(u),
            final(self).all_records() == old(self).all_records(),
            final(self).versions() == old(self).versions(),
            final(self).grants() == old(self).grants(),
    {
        if self.admin.is_some() {
            return Err(ContractError::AlreadyInitialized);
        }
        self.admin = Some(admin);
        assign_role(&mut self.rbac, admin, Role::Admin, 0);
        Ok(())
    }

    pub fn get_admin(&self) -> (r: Result<Address, ContractError>)
        ensures
            r == match self.admin_of() {
                Some(a) => Ok::<Address, ContractError>(a),
                None => Err(ContractError::NotInitialized),
            },
    {
        match self.admin {
            Some(a) => Ok(a),
            None => Err(ContractError::NotInitialized),
        }
    }

    pub fn is_initialized(&self) -> (r: bool)
        ensures
            r == self.admin_of() is Some,
    {
        self.admin.is_some()
    }
    /// Registers `user` with `role`; the caller needs `ManageUsers`.
    pub fn register_user(
        &mut self,
        caller: Address,
        user: Address,
        role: Role,
        name: String,
        now: u64,
    ) -> (r: Result<(), ContractError>)
        requires
            old(self).wf(),
        ensures
            final(self).wf(),
            !old(self).roles().permitted(caller, Permission::ManageUsers) <==> r is Err,
            r is Err ==> r == Err::<(), ContractError>(ContractError::Unauthorized) && *final(self)
                == *old(self),
            r is Ok ==> final(self).user_of(user) == Some(
                User { address: user, role, name, registered_at: now, is_active: true },
            ),
            r is Ok ==> final(self).roles().assignment(user) == Some(
                reassigned(old(self).roles().assignment(user), role, 0),
            ),
            forall|u: Address|
                u != user ==> final(self).roles().assignment(u) == old(self).roles().assignment(u),
            forall|u: Address| u != user ==> final(self).user_of(u) == old(self).user_of(u),
            forall|o: Address, a: Address|
                final(self).roles().delegation(o, a) == old(self).roles().delegation(o, a),
            final(self).all_records() == old(self).all_records(),
            final(self).versions() == old(self).versions(),
            final(self).grants() == old(self).grants(),
            final(self).admin_of() == old(self).admin_of(),
    {
        if !has_permission(&self.rbac, caller, Permission::ManageUsers) {
            return Err(ContractError::Unauthorized);
        }
        let user_data = User { address: user, role, name, registered_at: now, is_active: true };
        self.users.insert(user.id, user_data);
        assign_role(&mut self.rbac, user, role, 0);
        Ok(())
    }

    pub fn get_user(&self, user: Address) -> (r: Result<User, ContractError>)
        ensures
            r == match self.user_of(user) {
                Some(u) => Ok::<User, ContractError>(u),
                None => Err(ContractError::UserNotFound),
            },
    {
        match self.users.get(&user.id) {
            Some(u) => Ok(u.duplicate()),
            None => Err(ContractError::UserNotFound),
        }
    }

    /// Creates record number `count + 1` and its first version, written by `caller`
    /// at `now`. Fails, changing nothing, on an empty hash (`InvalidInput`), when
    /// the write rule refuses the caller (`Unauthorized`), or when no id is left
    /// (`InvalidInput`).
    pub fn add_record(
        &mut self,
        caller: Address,
        patient: Address,
        provider: Address,
        record_type: RecordType,
        data_hash: String,
        now: u64,
    ) -> (r: Result<u64, ContractError>)
        requires
            old(self).wf(),
        ensures
            final(self).wf(),
            r is Err ==> *final(self) == *old(self),
            data_hash@.len() == 0 ==> r == Err::<u64, ContractError>(ContractError::InvalidInput),
            data_hash@.len() > 0 && !write_allowed(old(self).roles(), caller, provider, now) ==> r
                == Err::<u64, ContractError>(ContractError::Unauthorized),
            data_hash@.len() > 0 && write_allowed(old(self).roles(), caller, provider, now) ==> r
                == if old(self).all_records().len() < u64::MAX {
                Ok::<u64, ContractError>((old(self).all_records().len() + 1) as u64)
            } else {
                Err(ContractError::InvalidInput)
            },
            r is Ok ==> final(self).all_records() == old(self).all_records().push(
                VisionRecord {
                    id: r->Ok_0,
                    patient,
                    provider,
                    record_type,
                    data_hash,
                    created_at: now,
                    updated_at: now,
                },
            ),
            r is Ok ==> final(self).history_of(r->Ok_0) == seq![
                RecordVersion {
                    record_id: r->Ok_0,
                    version: 1,
                    data_hash,
                    modified_by: caller,
                    modified_at: now,
                },
            ],
            r is Ok ==> forall|id: u64|
                id != r->Ok_0 ==> final(self).history_of(id) == old(self).history_of(id),
            final(self).roles() == old(self).roles(),
            final(self).grants() == old(self).grants(),
            final(self).admin_of() == old(self).admin_of(),
            forall|u: Address| final(self).user_of(u) == old(self).user_of(u),
    {
        if data_hash.as_str().is_empty() {
            return Err(ContractError::InvalidInput);
        }
        if !can_write_record(&self.rbac, caller, provider, now) {
            return Err(ContractError::Unauthorized);
        }
        let count = self.records.len() as u64;
        if count == u64::MAX {
            return Err(ContractError::InvalidInput);
        }
        let record_id = count + 1;
        let ghost old_log = self.log;
        assert(self.record_of(record_id) is None);
        assert(old_log.history(record_id).len() == 0);
        let first = append_version(&mut self.log, record_id, data_hash.clone(), caller, now);
        assert(first is Ok);
        let record = VisionRecord {
            id: record_id,
            patient,
            provider,
            record_type,
            data_hash,
            created_at: now,
            updated_at: now,
        };
        self.records.push(record);
        assert(self.history_of(record_id) =~= seq![
            RecordVersion { record_id, version: 1, data_hash, modified_by: caller, modified_at: now },
        ]);
        assert forall|id: u64| #![trigger self.versions().history(id)]
            self.record_of(id) is None implies self.versions().history(id).len() == 0 by {
            if id != record_id {
                assert(old(self).record_of(id) is None);
                assert(old(self).versions().history(id) == self.versions().history(id));
            }
        }
        Ok(record_id)
    }

    pub fn get_record(&self, record_id: u64) -> (r: Result<VisionRecord, ContractError>)
        ensures
            r == match self.record_of(record_id) {
                Some(rec) => Ok::<VisionRecord, ContractError>(rec),
                None => Err(ContractError::RecordNotFound),
            },
    {
        if record_id == 0 || record_id > self.records.len() as u64 {
            return Err(ContractError::RecordNotFound);
        }
        Ok(self.records[(record_id - 1) as usize].duplicate())
    }

    /// The ids of `patient`'s records, oldest first.
    pub fn get_patient_records(&self, patient: Address) -> (r: Vec<u64>)
        ensures
            r@ == ids_of_patient(self.all_records(), patient),
    {
        let mut out: Vec<u64> = Vec::new();
        let mut i: usize = 0;
        while i < self.records.len()
            invariant
                0 <= i <= self.records@.len(),
                out@ == ids_of_patient(self.records@.subrange(0, i as int), patient),
            decreases self.records@.len() - i,
        {
            let ghost prefix = self.records@.subrange(0, i as int);
            assert(self.records@.subrange(0, i + 1).drop_last() =~= prefix);
            if self.records[i].patient == patient {
                out.push(self.records[i].id);
            }
            i += 1;
        }
        assert(self.records@.subrange(0, i as int) =~= self.records@);
        out
    }

    /// The number of records created so far.
    pub fn get_record_count(&self) -> (r: u64)
        ensures
            r == self.all_records().len(),
    {
        self.records.len() as u64
    }
}

impl VisionRecordsContract {
    /// Proves the wf clause on histories after record `record_id` (an existing one)
    /// got a new entry.
    proof fn lemma_wf_after_append(old_state: &Self, new_state: &Self, record_id: u64)
        requires
            old_state.wf(),
            new_state.versions().wf(),
            old_state.record_of(record_id) is Some,
            new_state.all_records().len() == old_state.all_records().len(),
            forall|i: int|
                0 <= i < new_state.all_records().len() ==> (#[trigger] new_state.all_records()[i]).id
                    == old_state.all_records()[i].id,
            forall|id: u64|
                id != record_id ==> new_state.versions().history(id) == old_state.versions().history(
                    id,
                ),
            new_state.versions().history(record_id).len() > 0,
            new_state.admin_of() == old_state.admin_of(),
            new_state.roles() == old_state.roles(),
        ensures
            new_state.wf(),
    {
        assert forall|i: int|
            0 <= i < new_state.all_records().len() implies (#[trigger] new_state.all_records()[i]).id
            == i + 1 by {
            assert(old_state.all_records()[i].id == i + 1);
        }
        assert forall|id: u64| #![trigger new_state.versions().history(id)]
            new_state.record_of(id) is None implies new_state.versions().history(id).len() == 0 by {
            assert(old_state.record_of(id) is None);
            assert(old_state.versions().history(id) == new_state.versions().history(id));
        }
        assert forall|id: u64| #![trigger new_state.versions().history(id)]
            new_state.record_of(id) is Some implies new_state.versions().history(id).len() > 0 by {
            if id != record_id {
                assert(old_state.record_of(id) is Some);
                assert(old_state.versions().history(id) == new_state.versions().history(id));
            }
        }
    }

    /// Replaces the content hash of record `record_id` and appends the matching
    /// version, written by `caller` at `now`. Fails, changing nothing, on an empty
    /// hash (`InvalidInput`), an unknown record (`RecordNotFound`), when the write
    /// rule refuses the caller for the record's provider (`Unauthorized`), or when
    /// the history has no version number left (`InvalidInput`).
    pub fn update_record(&mut self, caller: Address, record_id: u64, data_hash: String, now: u64) -> (r:
        Result<u32, ContractError>)
        requires
            old(self).wf(),
        ensures
            final(self).wf(),
            r is Err ==> *final(self) == *old(self),
            data_hash@.len() == 0 ==> r == Err::<u32, ContractError>(ContractError::InvalidInput),
            data_hash@.len() > 0 && old(self).record_of(record_id) is None ==> r == Err::<
                u32,
                ContractError,
            >(ContractError::RecordNotFound),
            data_hash@.len() > 0 && old(self).record_of(record_id) is Some && !write_allowed(
                old(self).roles(),
                caller,
                old(self).record_of(record_id).unwrap().provider,
                now,
            ) ==> r == Err::<u32, ContractError>(ContractError::Unauthorized),
            data_hash@.len() > 0 && old(self).record_of(record_id) is Some && write_allowed(
                old(self).roles(),
                caller,
                old(self).record_of(record_id).unwrap().provider,
                now,
            ) ==> r == if old(self).history_of(record_id).len() < u32::MAX {
                Ok::<u32, ContractError>((old(self).history_of(record_id).len() + 1) as u32)
            } else {
                Err(ContractError::InvalidInput)
            },
            r is Ok ==> final(self).all_records() == old(self).all_records().update(
                record_id - 1,
                VisionRecord {
                    data_hash,
                    updated_at: now,
                    ..old(self).record_of(record_id).unwrap()
                },
            ),
            r is Ok ==> final(self).history_of(record_id) == old(self).history_of(record_id).push(
                RecordVersion {
                    record_id,
                    version: r->Ok_0,
                    data_hash,
                    modified_by: caller,
                    modified_at: now,
                },
            ),
            forall|id: u64| id != record_id ==> final(self).history_of(id) == old(self).history_of(id),
            final(self).roles() == old(self).roles(),
            final(self).grants() == old(self).grants(),
            final(self).admin_of() == old(self).admin_of(),
            forall|u: Address| final(self).user_of(u) == old(self).user_of(u),
    {
        if data_hash.as_str().is_empty() {
            return Err(ContractError::InvalidInput);
        }
        if record_id == 0 || record_id > self.records.len() as u64 {
            return Err(ContractError::RecordNotFound);
        }
        let idx = (record_id - 1) as usize;
        if !can_write_record(&self.rbac, caller, self.records[idx].provider, now) {
            return Err(ContractError::Unauthorized);
        }
        let entry = match append_version(&mut self.log, record_id, data_hash.clone(), caller, now) {
            Ok(e) => e,
            Err(e) => return Err(e),
        };
        let mut record = self.records[idx].duplicate();
        record.data_hash = data_hash;
        record.updated_at = now;
        self.records[idx] = record;
        proof {
            Self::lemma_wf_after_append(old(self), self, record_id);
        }
        Ok(entry.version)
    }

    /// Makes the content of version `target_version` the live content again by
    /// appending a new version with its hash; history is never rewritten. Only a
    /// caller with `SystemAdmin` may do it (`Unauthorized`); an unknown version gives
    /// `VersionNotFound`, an unknown record `RecordNotFound`, a full history
    /// `InvalidInput`. Nothing changes on failure.
    pub fn rollback_record(&mut self, caller: Address, record_id: u64, target_version: u32, now: u64) -> (r:
        Result<u32, ContractError>)
        requires
            old(self).wf(),
        ensures
            final(self).wf(),
            r is Err ==> *final(self) == *old(self),
            !old(self).roles().permitted(caller, Permission::SystemAdmin) ==> r == Err::<
                u32,
                ContractError,
            >(ContractError::Unauthorized),
            old(self).roles().permitted(caller, Permission::SystemAdmin) && version_in(
                old(self).history_of(record_id),
                target_version,
            ) is None ==> r == Err::<u32, ContractError>(ContractError::VersionNotFound),
            old(self).roles().permitted(caller, Permission::SystemAdmin) && version_in(
                old(self).history_of(record_id),
                target_version,
            ) is Some ==> r == if old(self).history_of(record_id).len() < u32::MAX {
                Ok::<u32, ContractError>((old(self).history_of(record_id).len() + 1) as u32)
            } else {
                Err(ContractError::InvalidInput)
            },
            r is Ok ==> old(self).record_of(record_id) is Some,
            r is Ok ==> final(self).record_of(record_id).unwrap().data_hash == version_in(
                final(self).history_of(record_id),
                target_version,
            ).unwrap().data_hash,
            r is Ok ==> version_in(final(self).history_of(record_id), target_version) == version_in(
                old(self).history_of(record_id),
                target_version,
            ),
            r is Ok ==> latest_of(final(self).history_of(record_id)) == Some(
                (old(self).history_of(record_id).len() + 1) as u32,
            ),
            r is Ok ==> final(self).all_records() == old(self).all_records().update(
                record_id - 1,
                VisionRecord {
                    data_hash: version_in(old(self).history_of(record_id), target_version).unwrap().data_hash,
                    updated_at: now,
                    ..old(self).record_of(record_id).unwrap()
                },
            ),
            r is Ok ==> final(self).history_of(record_id) == old(self).history_of(record_id).push(
                RecordVersion {
                    record_id,
                    version: r->Ok_0,
                    data_hash: version_in(old(self).history_of(record_id), target_version).unwrap().data_hash,
                    modified_by: caller,
                    modified_at: now,
                },
            ),
            forall|id: u64| id != record_id ==> final(self).history_of(id) == old(self).history_of(id),
            final(self).roles() == old(self).roles(),
            final(self).grants() == old(self).grants(),
            final(self).admin_of() == old(self).admin_of(),
            forall|u: Address| final(self).user_of(u) == old(self).user_of(u),
    {
        if !has_permission(&self.rbac, caller, Permission::SystemAdmin) {
            return Err(ContractError::Unauthorized);
        }
        let target = match get_version(&self.log, record_id, target_version) {
            Some(v) => v,
            None => return Err(ContractError::VersionNotFound),
        };
        if record_id == 0 || record_id > self.records.len() as u64 {
            // a version exists only for an existing record
            assert(self.versions().history(record_id).len() == 0);
            return Err(ContractError::RecordNotFound);
        }
        let idx = (record_id - 1) as usize;
        let entry = match append_version(
            &mut self.log,
            record_id,
            target.data_hash.clone(),
            caller,
            now,
        ) {
            Ok(e) => e,
            Err(e) => return Err(e),
        };
        let mut record = self.records[idx].duplicate();
        record.data_hash = target.data_hash;
        record.updated_at = now;
        self.records[idx] = record;
        proof {
            Self::lemma_wf_after_append(old(self), self, record_id);
        }
        Ok(entry.version)
    }

    /// The whole history of an existing record.
    pub fn get_record_history(&self, record_id: u64) -> (r: Result<Vec<RecordVersion>, ContractError>)
        ensures
            self.record_of(record_id) is None ==> r == Err::<Vec<RecordVersion>, ContractError>(
                ContractError::RecordNotFound,
            ),
            self.record_of(record_id) is Some ==> r is Ok && r->Ok_0@ == self.history_of(record_id),
    {
        if record_id == 0 || record_id > self.records.len() as u64 {
            return Err(ContractError::RecordNotFound);
        }
        Ok(get_history(&self.log, record_id))
    }

    /// Version `version` of an existing record.
    pub fn get_record_version(&self, record_id: u64, version: u32) -> (r: Result<
        RecordVersion,
        ContractError,
    >)
        requires
            self.wf(),
        ensures
            r == if self.record_of(record_id) is None {
                Err::<RecordVersion, ContractError>(ContractError::RecordNotFound)
            } else {
                match version_in(self.history_of(record_id), version) {
                    Some(v) => Ok(v),
                    None => Err(ContractError::VersionNotFound),
                }
            },
    {
        if record_id == 0 || record_id > self.records.len() as u64 {
            return Err(ContractError::RecordNotFound);
        }
        match get_version(&self.log, record_id, version) {
            Some(v) => Ok(v),
            None => Err(ContractError::VersionNotFound),
        }
    }

    /// The latest version number of an existing record: its history's length.
    pub fn get_latest_record_version(&self, record_id: u64) -> (r: Result<u32, ContractError>)
        requires
            self.wf(),
        ensures
            r == if self.record_of(record_id) is None {
                Err::<u32, ContractError>(ContractError::RecordNotFound)
            } else {
                match latest_of(self.history_of(record_id)) {
                    Some(v) => Ok(v),
                    None => Err(ContractError::VersionNotFound),
                }
            },
    {
        if record_id == 0 || record_id > self.records.len() as u64 {
            return Err(ContractError::RecordNotFound);
        }
        match latest_version(&self.log, record_id) {
            Some(v) => Ok(v),
            None => Err(ContractError::VersionNotFound),
        }
    }

    /// Compares two versions of an existing record.
    pub fn compare_record_versions(&self, record_id: u64, from_version: u32, to_version: u32) -> (r:
        Result<RecordComparison, ContractError>)
        requires
            self.wf(),
        ensures
            r == if self.record_of(record_id) is None {
                Err::<RecordComparison, ContractError>(ContractError::RecordNotFound)
            } else {
                match (
                    version_in(self.history_of(record_id), from_version),
                    version_in(self.history_of(record_id), to_version),
                ) {
                    (Some(f), Some(t)) => Ok(
                        comparison_of(record_id, from_version, to_version, f, t),
                    ),
                    _ => Err(ContractError::VersionNotFound),
                }
            },
    {
        if record_id == 0 || record_id > self.records.len() as u64 {
            return Err(ContractError::RecordNotFound);
        }
        match compare_versions(&self.log, record_id, from_version, to_version) {
            Some(c) => Ok(c),
            None => Err(ContractError::VersionNotFound),
        }
    }
}

impl VisionRecordsContract {
    /// Shares `patient`'s records with `grantee` at `level` for `duration_seconds`
    /// from `now`, replacing an earlier grant to the same grantee. The grant rule
    /// decides (`Unauthorized`); an expiry past `u64::MAX` gives `InvalidInput`.
    pub fn grant_access(
        &mut self,
        caller: Address,
        patient: Address,
        grantee: Address,
        level: AccessLevel,
        duration_seconds: u64,
        now: u64,
    ) -> (r: Result<(), ContractError>)
        requires
            old(self).wf(),
        ensures
            final(self).wf(),
            r is Err ==> *final(self) == *old(self),
            !grant_allowed(old(self).roles(), caller, patient, now) ==> r == Err::<(), ContractError>(
                ContractError::Unauthorized,
            ),
            grant_allowed(old(self).roles(), caller, patient, now) ==> r == if now + duration_seconds
                <= u64::MAX {
                Ok::<(), ContractError>(())
            } else {
                Err(ContractError::InvalidInput)
            },
            r is Ok ==> final(self).grants().grant(patient, grantee) == Some(
                AccessGrant {
                    patient,
                    grantee,
                    level,
                    granted_at: now,
                    expires_at: (now + duration_seconds) as u64,
                },
            ),
            r is Ok ==> forall|p: Address, g: Address|
                !(p.id == patient.id && g.id == grantee.id) ==> final(self).grants().grant(p, g)
                    == old(self).grants().grant(p, g),
            final(self).roles() == old(self).roles(),
            final(self).all_records() == old(self).all_records(),
            final(self).versions() == old(self).versions(),
            final(self).admin_of() == old(self).admin_of(),
            forall|u: Address| final(self).user_of(u) == old(self).user_of(u),
    {
        let has_perm = if caller == patient {
            true
        } else {
            has_delegated_permission(&self.rbac, patient, caller, Permission::ManageAccess, now)
                || has_permission(&self.rbac, caller, Permission::SystemAdmin)
        };
        if !has_perm {
            return Err(ContractError::Unauthorized);
        }
        let expires_at = match now.checked_add(duration_seconds) {
            Some(t) => t,
            None => return Err(ContractError::InvalidInput),
        };
        self.access.put(AccessGrant { patient, grantee, level, granted_at: now, expires_at });
        Ok(())
    }

    /// The level `patient` shares with `grantee` at `now`: `NoAccess` without a grant
    /// or once `now` reaches its expiry.
    pub fn check_access(&self, patient: Address, grantee: Address, now: u64) -> (r: AccessLevel)
        ensures
            r == level_at(self.grants().grant(patient, grantee), now),
    {
        self.access.level(patient, grantee, now)
    }

    /// Deletes the grant of `patient` to `grantee`; `patient` is the authenticated
    /// caller.
    pub fn revoke_access(&mut self, patient: Address, grantee: Address) -> (r: Result<(), ContractError>)
        requires
            old(self).wf(),
        ensures
            final(self).wf(),
            r is Ok,
            final(self).grants().grant(patient, grantee) is None,
            forall|p: Address, g: Address|
                !(p.id == patient.id && g.id == grantee.id) ==> final(self).grants().grant(p, g)
                    == old(self).grants().grant(p, g),
            final(self).roles() == old(self).roles(),
            final(self).all_records() == old(self).all_records(),
            final(self).versions() == old(self).versions(),
            final(self).admin_of() == old(self).admin_of(),
            forall|u: Address| final(self).user_of(u) == old(self).user_of(u),
    {
        self.access.remove(patient, grantee);
        Ok(())
    }

    /// The version of this contract's interface.
    pub fn version() -> (r: u32)
        ensures
            r == 1,
    {
        1
    }

    /// Adds an explicit grant of `permission` to `user`; the caller needs
    /// `ManageUsers` (`Unauthorized`), and `user` an RBAC record (`UserNotFound`).
    pub fn grant_custom_permission(&mut self, caller: Address, user: Address, permission: Permission) -> (r:
        Result<(), ContractError>)
        requires
            old(self).wf(),
        ensures
            final(self).wf(),
            r is Err ==> *final(self) == *old(self),
            !old(self).roles().permitted(caller, Permission::ManageUsers) ==> r == Err::<
                (),
                ContractError,
            >(ContractError::Unauthorized),
            old(self).roles().permitted(caller, Permission::ManageUsers) ==> r == if old(
                self,
            ).roles().assignment(user) is Some {
                Ok::<(), ContractError>(())
            } else {
                Err(ContractError::UserNotFound)
            },
            r is Ok ==> final(self).roles().assignment(user) == Some(
                crate::rbac::RoleAssignment {
                    granted: old(self).roles().assignment(user).unwrap().granted.with_spec(permission),
                    ..old(self).roles().assignment(user).unwrap()
                },
            ),
            forall|u: Address|
                u != user ==> final(self).roles().assignment(u) == old(self).roles().assignment(u),
            forall|o: Address, a: Address|
                final(self).roles().delegation(o, a) == old(self).roles().delegation(o, a),
            final(self).all_records() == old(self).all_records(),
            final(self).versions() == old(self).versions(),
            final(self).grants() == old(self).grants(),
            final(self).admin_of() == old(self).admin_of(),
            forall|u: Address| final(self).user_of(u) == old(self).user_of(u),
    {
        if !has_permission(&self.rbac, caller, Permission::ManageUsers) {
            return Err(ContractError::Unauthorized);
        }
        grant_custom_permission(&mut self.rbac, user, permission)
    }

    /// Adds an explicit revoke of `permission` to `user`, which then no longer holds
    /// it; the caller needs `ManageUsers` (`Unauthorized`), and `user` an RBAC record
    /// (`UserNotFound`).
    pub fn revoke_custom_permission(&mut self, caller: Address, user: Address, permission: Permission) -> (r:
        Result<(), ContractError>)
        requires
            old(self).wf(),
        ensures
            final(self).wf(),
            r is Err ==> *final(self) == *old(self),
            !old(self).roles().permitted(caller, Permission::ManageUsers) ==> r == Err::<
                (),
                ContractError,
            >(ContractError::Unauthorized),
            old(self).roles().permitted(caller, Permission::ManageUsers) ==> r == if old(
                self,
            ).roles().assignment(user) is Some {
                Ok::<(), ContractError>(())
            } else {
                Err(ContractError::UserNotFound)
            },
            r is Ok ==> final(self).roles().assignment(user) == Some(
                crate::rbac::RoleAssignment {
                    revoked: old(self).roles().assignment(user).unwrap().revoked.with_spec(permission),
                    ..old(self).roles().assignment(user).unwrap()
                },
            ),
            r is Ok ==> !final(self).roles().permitted(user, permission),
            forall|u: Address|
                u != user ==> final(self).roles().assignment(u) == old(self).roles().assignment(u),
            forall|o: Address, a: Address|
                final(self).roles().delegation(o, a) == old(self).roles().delegation(o, a),
            final(self).all_records() == old(self).all_records(),
            final(self).versions() == old(self).versions(),
            final(self).grants() == old(self).grants(),
            final(self).admin_of() == old(self).admin_of(),
            forall|u: Address| final(self).user_of(u) == old(self).user_of(u),
    {
        if !has_permission(&self.rbac, caller, Permission::ManageUsers) {
            return Err(ContractError::Unauthorized);
        }
        revoke_custom_permission(&mut self.rbac, user, permission)
    }

    /// Lends `role` from `delegator` (the authenticated caller) to `delegatee` until
    /// `expires_at`. Whether the delegator holds `role` is not checked: callers
    /// validate that upstream.
    pub fn delegate_role(
        &mut self,
        delegator: Address,
        delegatee: Address,
        role: Role,
        expires_at: u64,
    ) -> (r: Result<(), ContractError>)
        requires
            old(self).wf(),
        ensures
            final(self).wf(),
            r is Ok,
            final(self).roles().delegation(delegator, delegatee) == Some(
                crate::rbac::Delegation { delegator, delegatee, role, expires_at },
            ),
            forall|o: Address, a: Address|
                !(o.id == delegator.id && a.id == delegatee.id) ==> final(self).roles().delegation(
                    o,
                    a,
                ) == old(self).roles().delegation(o, a),
            forall|u: Address| final(self).roles().assignment(u) == old(self).roles().assignment(u),
            final(self).all_records() == old(self).all_records(),
            final(self).versions() == old(self).versions(),
            final(self).grants() == old(self).grants(),
            final(self).admin_of() == old(self).admin_of(),
            forall|u: Address| final(self).user_of(u) == old(self).user_of(u),
    {
        delegate_role(&mut self.rbac, delegator, delegatee, role, expires_at);
        Ok(())
    }

    pub fn check_permission(&self, user: Address, permission: Permission) -> (r: bool)
        ensures
            r == self.roles().permitted(user, permission),
    {
        has_permission(&self.rbac, user, permission)
    }
}

/// A caller holding `SystemAdmin` passes the grant rule for every patient, and the
/// write rule for every provider other than themself (for their own records the
/// write rule asks for `WriteRecord` alone).
pub proof fn lemma_system_admin_authorized(rbac: RbacStore, caller: Address, owner: Address, now: u64)
    requires
        rbac.permitted(caller, Permission::SystemAdmin),
        !(caller == owner && !rbac.permitted(caller, Permission::WriteRecord)),
    ensures
        write_allowed(rbac, caller, owner, now),
        grant_allowed(rbac, caller, owner, now),
{
}

/// For an existing record the latest version is the length of its history, which is
/// at least one, and the history is numbered `1..=length` in order.
pub proof fn lemma_existing_record_latest(c: &VisionRecordsContract, record_id: u64)
    requires
        c.wf(),
        c.record_of(record_id) is Some,
    ensures
        c.history_of(record_id).len() >= 1,
        latest_of(c.history_of(record_id)) == Some(c.history_of(record_id).len() as u32),
        c.history_of(record_id).len() as u32 == c.history_of(record_id).len(),
        forall|i: int|
            0 <= i < c.history_of(record_id).len() ==> (#[trigger] c.history_of(record_id)[i]).version
                == i + 1,
{
    assert(c.versions().history(record_id).len() > 0);
    crate::versioning::lemma_latest_is_history_length(&c.versions(), record_id);
}

} // verus!
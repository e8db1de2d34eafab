use vision_records::access::AccessRegistry;
use vision_records::contract::can_write_record;
use vision_records::rbac::{
    assign_role, defaults_for, delegate_role, has_delegated_permission, has_permission,
    revoke_custom_permission, RbacStore,
};
use vision_records::versioning::{append_version, get_history, latest_version, VersionLog};
use vision_records::{
    AccessGrant, AccessLevel, Address, ContractError, Permission, RecordType, Role,
    VisionRecordsContract,
};

fn setup() -> (VisionRecordsContract, Address, Address, Address) {
    let mut c = VisionRecordsContract::new();
    let admin = Address::from_id(10);
    c.initialize(admin).unwrap();
    let provider = Address::from_id(20);
    c.register_user(admin, provider, Role::Optometrist, String::from("P"), 0).unwrap();
    let patient = Address::from_id(30);
    c.register_user(admin, patient, Role::Patient, String::from("A"), 0).unwrap();
    (c, admin, provider, patient)
}

#[test]
fn scenario_create_update_rollback() {
    let (mut c, admin, provider, patient) = setup();
    let id = c
        .add_record(provider, patient, provider, RecordType::Examination, String::from("H1"), 100)
        .unwrap();
    let v1 = c.get_record_version(id, 1).unwrap();
    assert_eq!(v1.version, 1);
    assert_eq!(v1.modified_by, provider);
    assert_eq!(v1.modified_at, 100);
    assert_eq!(c.update_record(provider, id, String::from("H2"), 200), Ok(2));
    assert_eq!(c.rollback_record(admin, id, 1, 300), Ok(3));
    let v3 = c.get_record_version(id, 3).unwrap();
    assert_eq!(v3.data_hash, "H1");
    assert_eq!(v3.modified_by, admin);
    assert_eq!(v3.modified_at, 300);
    let rec = c.get_record(id).unwrap();
    assert_eq!(rec.data_hash, "H1");
    assert_eq!(rec.updated_at, 300);
    assert_eq!(rec.created_at, 100);
    assert_eq!(c.get_latest_record_version(id), Ok(3));
}

#[test]
fn outsider_update_is_unauthorized_and_changes_nothing() {
    let (mut c, _admin, provider, patient) = setup();
    let id = c
        .add_record(provider, patient, provider, RecordType::Surgery, String::from("H1"), 1)
        .unwrap();
    let outsider = Address::from_id(99);
    assert_eq!(
        c.update_record(outsider, id, String::from("H2"), 2),
        Err(ContractError::Unauthorized)
    );
    assert_eq!(c.get_record_history(id).unwrap().len(), 1);
    assert_eq!(c.get_record(id).unwrap().data_hash, "H1");
}

#[test]
fn write_grant_expires_at_the_boundary() {
    let (mut c, _admin, _provider, patient) = setup();
    let third = Address::from_id(40);
    c.grant_access(patient, patient, third, AccessLevel::Write, 3600, 1000).unwrap();
    assert_eq!(c.check_access(patient, third, 4599), AccessLevel::Write);
    assert_eq!(c.check_access(patient, third, 4600), AccessLevel::NoAccess);
    assert_eq!(c.check_access(patient, third, 5000), AccessLevel::NoAccess);
}

#[test]
fn grant_overwrites_and_revoke_deletes() {
    let (mut c, _admin, _provider, patient) = setup();
    let third = Address::from_id(40);
    c.grant_access(patient, patient, third, AccessLevel::Read, 10, 0).unwrap();
    c.grant_access(patient, patient, third, AccessLevel::Full, 10, 0).unwrap();
    assert_eq!(c.check_access(patient, third, 5), AccessLevel::Full);
    c.revoke_access(patient, third).unwrap();
    assert_eq!(c.check_access(patient, third, 5), AccessLevel::NoAccess);
}

#[test]
fn grant_access_errors() {
    let (mut c, admin, provider, patient) = setup();
    let third = Address::from_id(40);
    assert_eq!(
        c.grant_access(provider, patient, third, AccessLevel::Read, 10, 0),
        Err(ContractError::Unauthorized)
    );
    assert_eq!(
        c.grant_access(patient, patient, third, AccessLevel::Read, u64::MAX, 1),
        Err(ContractError::InvalidInput)
    );
    assert_eq!(c.check_access(patient, third, 0), AccessLevel::NoAccess);
    // a system admin manages grants on the patient's behalf
    assert_eq!(c.grant_access(admin, patient, third, AccessLevel::Read, 10, 0), Ok(()));
    assert_eq!(c.check_access(patient, third, 9), AccessLevel::Read);
}

#[test]
fn delegated_manage_access_allows_granting() {
    let (mut c, _admin, provider, patient) = setup();
    let third = Address::from_id(40);
    c.delegate_role(patient, provider, Role::Admin, 50).unwrap();
    assert_eq!(c.grant_access(provider, patient, third, AccessLevel::Read, 10, 49), Ok(()));
    assert_eq!(
        c.grant_access(provider, patient, third, AccessLevel::Read, 10, 50),
        Err(ContractError::Unauthorized)
    );
}

#[test]
fn admin_writes_for_any_provider() {
    let (mut c, admin, provider, patient) = setup();
    let id = c
        .add_record(admin, patient, provider, RecordType::Diagnosis, String::from("X"), 0)
        .unwrap();
    assert_eq!(id, 1);
    assert_eq!(c.update_record(admin, id, String::from("Y"), 1), Ok(2));
    assert_eq!(c.get_record(id).unwrap().provider, provider);
}

#[test]
fn revoke_wins_over_role_default() {
    let (mut c, admin, provider, _patient) = setup();
    assert!(c.check_permission(provider, Permission::WriteRecord));
    c.grant_custom_permission(admin, provider, Permission::WriteRecord).unwrap();
    c.revoke_custom_permission(admin, provider, Permission::WriteRecord).unwrap();
    assert!(!c.check_permission(provider, Permission::WriteRecord));
    c.grant_custom_permission(admin, provider, Permission::WriteRecord).unwrap();
    assert!(!c.check_permission(provider, Permission::WriteRecord));
}

#[test]
fn custom_permission_errors() {
    let (mut c, admin, provider, patient) = setup();
    assert_eq!(
        c.grant_custom_permission(provider, patient, Permission::WriteRecord),
        Err(ContractError::Unauthorized)
    );
    assert_eq!(
        c.revoke_custom_permission(admin, Address::from_id(77), Permission::WriteRecord),
        Err(ContractError::UserNotFound)
    );
    assert_eq!(
        c.grant_custom_permission(admin, Address::from_id(77), Permission::WriteRecord),
        Err(ContractError::UserNotFound)
    );
    c.grant_custom_permission(admin, patient, Permission::WriteRecord).unwrap();
    assert!(c.check_permission(patient, Permission::WriteRecord));
}

#[test]
fn catalog_defaults() {
    let admin = defaults_for(Role::Admin);
    assert!(admin.system_admin && admin.manage_users && admin.write_record && admin.manage_access);
    let opt = defaults_for(Role::Optometrist);
    assert!(opt.write_record && !opt.system_admin && !opt.manage_users && !opt.manage_access);
    let pat = defaults_for(Role::Patient);
    assert!(!pat.write_record && !pat.system_admin && !pat.manage_users && !pat.manage_access);
}

#[test]
fn delegation_is_scoped_to_owner_and_expires() {
    let mut store = RbacStore::new();
    let owner = Address::from_id(1);
    let other = Address::from_id(2);
    let actor = Address::from_id(3);
    delegate_role(&mut store, owner, actor, Role::Optometrist, 100);
    assert!(has_delegated_permission(&store, owner, actor, Permission::WriteRecord, 99));
    assert!(!has_delegated_permission(&store, owner, actor, Permission::WriteRecord, 100));
    assert!(!has_delegated_permission(&store, other, actor, Permission::WriteRecord, 0));
    assert!(!has_delegated_permission(&store, owner, actor, Permission::SystemAdmin, 0));
    assert!(can_write_record(&store, actor, owner, 50));
    assert!(!can_write_record(&store, actor, other, 50));
    // the actor's own permissions are untouched
    assert!(!has_permission(&store, actor, Permission::WriteRecord));
}

#[test]
fn role_reassignment_keeps_overrides() {
    let mut store = RbacStore::new();
    let u = Address::from_id(5);
    assert_eq!(
        revoke_custom_permission(&mut store, u, Permission::ManageUsers),
        Err(ContractError::UserNotFound)
    );
    assign_role(&mut store, u, Role::Admin, 0);
    revoke_custom_permission(&mut store, u, Permission::ManageUsers).unwrap();
    assign_role(&mut store, u, Role::Admin, 7);
    assert!(!has_permission(&store, u, Permission::ManageUsers));
    assert!(has_permission(&store, u, Permission::SystemAdmin));
}

#[test]
fn self_write_needs_write_record_even_for_admin() {
    let (mut c, admin, _provider, patient) = setup();
    c.revoke_custom_permission(admin, admin, Permission::WriteRecord).unwrap();
    assert_eq!(
        c.add_record(admin, patient, admin, RecordType::Examination, String::from("Z"), 0),
        Err(ContractError::Unauthorized)
    );
}

#[test]
fn add_record_errors_and_counts() {
    let (mut c, _admin, provider, patient) = setup();
    assert_eq!(
        c.add_record(provider, patient, provider, RecordType::Examination, String::new(), 0),
        Err(ContractError::InvalidInput)
    );
    assert_eq!(
        c.add_record(patient, patient, provider, RecordType::Examination, String::from("h"), 0),
        Err(ContractError::Unauthorized)
    );
    assert_eq!(c.get_record_count(), 0);
    let other = Address::from_id(31);
    let a = c.add_record(provider, patient, provider, RecordType::Examination, String::from("a"), 0).unwrap();
    let b = c.add_record(provider, other, provider, RecordType::Examination, String::from("b"), 0).unwrap();
    let d = c.add_record(provider, patient, provider, RecordType::Examination, String::from("c"), 0).unwrap();
    assert_eq!((a, b, d), (1, 2, 3));
    assert_eq!(c.get_record_count(), 3);
    assert_eq!(c.get_patient_records(patient), vec![1, 3]);
    assert_eq!(c.get_patient_records(other), vec![2]);
    assert!(c.get_patient_records(Address::from_id(500)).is_empty());
}

#[test]
fn read_errors() {
    let (mut c, admin, provider, patient) = setup();
    assert_eq!(c.get_record(1).unwrap_err(), ContractError::RecordNotFound);
    assert_eq!(c.get_record_history(1).unwrap_err(), ContractError::RecordNotFound);
    assert_eq!(c.get_latest_record_version(0), Err(ContractError::RecordNotFound));
    assert_eq!(c.compare_record_versions(1, 1, 1).unwrap_err(), ContractError::RecordNotFound);
    assert_eq!(
        c.update_record(provider, 1, String::from("h"), 0),
        Err(ContractError::RecordNotFound)
    );
    assert_eq!(
        c.update_record(provider, 1, String::new(), 0),
        Err(ContractError::InvalidInput)
    );
    let id = c.add_record(provider, patient, provider, RecordType::Examination, String::from("a"), 0).unwrap();
    assert_eq!(c.compare_record_versions(id, 1, 2).unwrap_err(), ContractError::VersionNotFound);
    assert_eq!(c.get_record_version(id, 0).unwrap_err(), ContractError::VersionNotFound);
    assert_eq!(c.rollback_record(admin, id, 5, 0), Err(ContractError::VersionNotFound));
    let same = c.compare_record_versions(id, 1, 1).unwrap();
    assert!(!same.changed);
    assert_eq!(same.from_version, 1);
    assert_eq!(same.to_modified_at, 0);
}

#[test]
fn initialize_and_users() {
    let mut c = VisionRecordsContract::new();
    assert!(!c.is_initialized());
    assert_eq!(c.get_admin(), Err(ContractError::NotInitialized));
    let admin = Address::from_id(1);
    c.initialize(admin).unwrap();
    assert!(c.is_initialized());
    assert_eq!(c.get_admin(), Ok(admin));
    assert_eq!(c.initialize(Address::from_id(2)), Err(ContractError::AlreadyInitialized));
    assert_eq!(c.get_admin(), Ok(admin));
    let u = Address::from_id(3);
    assert_eq!(c.get_user(u).unwrap_err(), ContractError::UserNotFound);
    assert_eq!(
        c.register_user(u, u, Role::Admin, String::from("me"), 1),
        Err(ContractError::Unauthorized)
    );
    c.register_user(admin, u, Role::Patient, String::from("Ann"), 42).unwrap();
    let user = c.get_user(u).unwrap();
    assert_eq!(user.name, "Ann");
    assert_eq!(user.registered_at, 42);
    assert_eq!(user.role, Role::Patient);
    assert!(user.is_active);
    assert_eq!(VisionRecordsContract::version(), 1);
}

#[test]
fn history_numbering_and_latest() {
    let mut log = VersionLog::new();
    let who = Address::from_id(1);
    assert_eq!(latest_version(&log, 4), None);
    assert!(get_history(&log, 4).is_empty());
    for t in 0..5u64 {
        let e = append_version(&mut log, 4, format!("h{}", t), who, t).unwrap();
        assert_eq!(e.version as u64, t + 1);
        assert_eq!(e.record_id, 4);
    }
    let h = get_history(&log, 4);
    assert_eq!(latest_version(&log, 4), Some(h.len() as u32));
    for (i, v) in h.iter().enumerate() {
        assert_eq!(v.version as usize, i + 1);
    }
    assert_eq!(latest_version(&log, 5), None);
}

#[test]
fn registry_lazy_expiry_keeps_entry() {
    let mut reg = AccessRegistry::new();
    let p = Address::from_id(1);
    let g = Address::from_id(2);
    reg.put(AccessGrant { patient: p, grantee: g, level: AccessLevel::Full, granted_at: 0, expires_at: 10 });
    assert_eq!(reg.level(p, g, 9), AccessLevel::Full);
    assert_eq!(reg.level(p, g, 10), AccessLevel::NoAccess);
    // a later grant on the same pair still overwrites the expired one
    reg.put(AccessGrant { patient: p, grantee: g, level: AccessLevel::Read, granted_at: 10, expires_at: 20 });
    assert_eq!(reg.level(p, g, 15), AccessLevel::Read);
    assert_eq!(reg.level(g, p, 15), AccessLevel::NoAccess);
}

use vision_records::{Address, RecordType, Role, VisionRecordsContract};

fn setup() -> (VisionRecordsContract, Address, Address, Address) {
    let mut client = VisionRecordsContract::new();

    let admin = Address::from_id(1);
    client.initialize(admin).unwrap();

    let provider = Address::from_id(2);
    client
        .register_user(admin, provider, Role::Optometrist, String::from("Provider"), 0)
        .unwrap();

    let patient = Address::from_id(3);
    client
        .register_user(admin, patient, Role::Patient, String::from("Patient"), 0)
        .unwrap();

    (client, admin, provider, patient)
}

#[test]
fn test_record_history_tracks_versions_with_timestamps() {
    let (mut client, _admin, provider, patient) = setup();

    let first_hash = String::from("QmVersion1");
    let second_hash = String::from("QmVersion2");

    let record_id = client
        .add_record(provider, patient, provider, RecordType::Examination, first_hash.clone(), 100)
        .unwrap();

    assert_eq!(client.get_latest_record_version(record_id).unwrap(), 1);

    let next_version = client
        .update_record(provider, record_id, second_hash.clone(), 200)
        .unwrap();
    assert_eq!(next_version, 2);

    let history = client.get_record_history(record_id).unwrap();
    assert_eq!(history.len(), 2);

    let v1 = history.get(0).unwrap();
    let v2 = history.get(1).unwrap();

    assert_eq!(v1.version, 1);
    assert_eq!(v1.data_hash, first_hash);
    assert_eq!(v1.modified_by, provider);
    assert_eq!(v1.modified_at, 100);

    assert_eq!(v2.version, 2);
    assert_eq!(v2.data_hash, second_hash);
    assert_eq!(v2.modified_by, provider);
    assert_eq!(v2.modified_at, 200);
}

#[test]
fn test_version_comparison_reports_differences() {
    let (mut client, _admin, provider, patient) = setup();

    let first_hash = String::from("QmAlpha");
    let second_hash = String::from("QmBeta");

    let record_id = client
        .add_record(provider, patient, provider, RecordType::Diagnosis, first_hash.clone(), 0)
        .unwrap();
    client.update_record(provider, record_id, second_hash.clone(), 0).unwrap();

    let cmp = client.compare_record_versions(record_id, 1, 2).unwrap();
    assert!(cmp.changed);
    assert_eq!(cmp.from_data_hash, first_hash);
    assert_eq!(cmp.to_data_hash, second_hash);
}

#[test]
fn test_admin_can_rollback_to_previous_version() {
    let (mut client, admin, provider, patient) = setup();

    let first_hash = String::from("QmBefore");
    let second_hash = String::from("QmAfter");

    let record_id = client
        .add_record(provider, patient, provider, RecordType::Treatment, first_hash.clone(), 0)
        .unwrap();
    client.update_record(provider, record_id, second_hash.clone(), 0).unwrap();

    let rollback_version = client.rollback_record(admin, record_id, 1, 300).unwrap();
    assert_eq!(rollback_version, 3);

    let current = client.get_record(record_id).unwrap();
    assert_eq!(current.data_hash, first_hash);

    let rolled = client.get_record_version(record_id, 3).unwrap();
    assert_eq!(rolled.data_hash, first_hash);
    assert_eq!(rolled.modified_by, admin);
    assert_eq!(rolled.modified_at, 300);
}

#[test]
fn test_non_admin_cannot_rollback() {
    let (mut client, _admin, provider, patient) = setup();

    let first_hash = String::from("QmStable");
    let second_hash = String::from("QmChanged");

    let record_id = client
        .add_record(provider, patient, provider, RecordType::Prescription, first_hash, 0)
        .unwrap();
    client.update_record(provider, record_id, second_hash, 0).unwrap();

    let result = client.rollback_record(provider, record_id, 1, 0);
    assert!(result.is_err());
}

#[test]
fn test_version_query_by_number() {
    let (mut client, _admin, provider, patient) = setup();

    let first_hash = String::from("QmQuery1");
    let second_hash = String::from("QmQuery2");

    let record_id = client
        .add_record(provider, patient, provider, RecordType::LabResult, first_hash.clone(), 0)
        .unwrap();
    client.update_record(provider, record_id, second_hash.clone(), 0).unwrap();

    let version_one = client.get_record_version(record_id, 1).unwrap();
    let version_two = client.get_record_version(record_id, 2).unwrap();

    assert_eq!(version_one.data_hash, first_hash);
    assert_eq!(version_two.data_hash, second_hash);

    let missing = client.get_record_version(record_id, 99);
    assert!(missing.is_err());
}

use sidecar_lifecycle::codec::encode;
use sidecar_lifecycle::credentials::AwsCredentials;
use sidecar_lifecycle::store::{StoreError, StoreState};

fn rec(akid: &str, sak: &str, region: &str, token: Option<&str>) -> AwsCredentials {
    AwsCredentials {
        access_key_id: String::from(akid),
        secret_access_key: String::from(sak),
        region: String::from(region),
        session_token: token.map(String::from),
    }
}

#[test]
fn migration_is_idempotent() {
    let r = rec("AKIA1", "secret", "us-east-1", None);
    let mut store = StoreState { secure: None, legacy: Some(encode(&r)) };

    let first = store.load(true, true);
    assert_eq!(first, Some(rec("AKIA1", "secret", "us-east-1", None)));
    assert_eq!(store.legacy, None);
    assert_eq!(store.secure, Some(encode(&r)));

    let secure_before = store.secure.clone();
    let second = store.load(true, true);
    assert_eq!(second, Some(rec("AKIA1", "secret", "us-east-1", None)));
    assert_eq!(store.secure, secure_before);
    assert_eq!(store.legacy, None);
}

#[test]
fn absent_is_valid() {
    let mut store = StoreState::empty();
    assert_eq!(store.load(true, true), None);
    assert_eq!(store.secure, None);
    assert_eq!(store.legacy, None);
}

#[test]
fn save_then_load_round_trips() {
    let r = rec("AKIAX", "topsecret", "eu-central-1", Some("tok"));
    let mut store = StoreState::empty();
    assert!(store.save(&r, true, true).is_ok());
    assert_eq!(store.load(true, true), Some(rec("AKIAX", "topsecret", "eu-central-1", Some("tok"))));
}

#[test]
fn save_failure_surfaces_error_and_changes_nothing() {
    let r = rec("AKIAX", "topsecret", "eu-central-1", None);
    let old = rec("OLD", "oldsecret", "us-west-2", None);
    let mut store = StoreState { secure: Some(encode(&old)), legacy: Some(String::from("junk")) };
    let res = store.save(&r, false, true);
    assert_eq!(
        res,
        Err(StoreError::SecureStoreUnavailable(String::from(
            "secure credential store unavailable"
        )))
    );
    assert_eq!(store.secure, Some(encode(&old)));
    assert_eq!(store.legacy, Some(String::from("junk")));
}

#[test]
fn store_error_carries_its_message_verbatim() {
    let e = StoreError::SecureStoreUnavailable(String::from("platform keychain said no"));
    assert_eq!(e.message(), String::from("platform keychain said no"));
}

#[test]
fn migration_write_failure_still_returns_record() {
    let r = rec("AKIA2", "s", "us-east-2", None);
    let mut store = StoreState { secure: None, legacy: Some(encode(&r)) };
    let loaded = store.load(false, true);
    assert_eq!(loaded, Some(rec("AKIA2", "s", "us-east-2", None)));
    // The migration could not be persisted: nothing changed.
    assert_eq!(store.secure, None);
    assert_eq!(store.legacy, Some(encode(&r)));
}

#[test]
fn migration_survives_failed_legacy_deletion() {
    let r = rec("AKIA3", "s", "sa-east-1", None);
    let mut store = StoreState { secure: None, legacy: Some(encode(&r)) };
    let loaded = store.load(true, false);
    assert_eq!(loaded, Some(rec("AKIA3", "s", "sa-east-1", None)));
    assert_eq!(store.secure, Some(encode(&r)));
    // Deleting the legacy file failed; it is redundant but still there.
    assert_eq!(store.legacy, Some(encode(&r)));
}

#[test]
fn malformed_secure_blob_falls_back_to_legacy() {
    let r = rec("AKIA4", "s", "us-east-1", None);
    let mut store = StoreState {
        secure: Some(String::from("corrupted")),
        legacy: Some(encode(&r)),
    };
    let loaded = store.load(true, true);
    assert_eq!(loaded, Some(rec("AKIA4", "s", "us-east-1", None)));
    assert_eq!(store.secure, Some(encode(&r)));
    assert_eq!(store.legacy, None);
}

#[test]
fn malformed_everything_reads_as_absent() {
    let mut store = StoreState {
        secure: Some(String::from("corrupted")),
        legacy: Some(String::from("also corrupted")),
    };
    assert_eq!(store.load(true, true), None);
    // Nothing to migrate: the store is untouched.
    assert_eq!(store.secure, Some(String::from("corrupted")));
    assert_eq!(store.legacy, Some(String::from("also corrupted")));
}

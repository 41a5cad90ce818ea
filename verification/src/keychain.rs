//! The secure credential store, reached through the OS keychain.
//!
//! The keychain itself is outside code and outside state: the wrappers
//! here promise nothing about what it holds. Everything decided on its
//! answers — decoding, the legacy fallback, the one-time migration — is
//! verified code over those answers.

use crate::codec::{decode, encode, opt_cred_view, spec_decode};
use crate::credentials::AwsCredentials;
use crate::store::StoreError;
use vstd::prelude::*;

verus! {

#[verifier::external_type_specification]
#[verifier::external_body]
pub struct ExEntry(keyring::Entry);

/// The fixed service name the credential record is stored under.
pub fn keyring_service() -> (s: &'static str)
    ensures
        s@ == "aws-cost-optimizer"@,
{
    "aws-cost-optimizer"
}

/// The fixed account name the credential record is stored under.
pub fn keyring_account() -> (s: &'static str)
    ensures
        s@ == "aws-credentials"@,
{
    "aws-credentials"
}

/// Relies on `keyring::Entry::new`: binds an entry to the platform
/// credential store for the given service and account, or fails with the
/// store's own description when no store is available. What it returns
/// depends on the machine, so nothing is promised of it.
#[verifier::external_body]
fn keyring_entry(service: &str, account: &str) -> (r: Result<keyring::Entry, String>) {
    match keyring::Entry::new(service, account) {
        Ok(e) => Ok(e),
        Err(err) => Err(err.to_string()),
    }
}

/// Relies on `keyring::Entry::get_password`: reads the entry's stored
/// string, failing when there is none or the store cannot be reached. The
/// answer depends on the machine's keychain, so nothing is promised of it.
#[verifier::external_body]
fn entry_get_password(e: &keyring::Entry) -> (r: Option<String>) {
    e.get_password().ok()
}

/// Relies on `keyring::Entry::set_password`: replaces the entry's stored
/// string, failing with the store's own description when the write is
/// refused. The answer depends on the machine's keychain, so nothing is
/// promised of it.
#[verifier::external_body]
fn entry_set_password(e: &keyring::Entry, value: &str) -> (r: Result<(), String>) {
    match e.set_password(value) {
        Ok(()) => Ok(()),
        Err(err) => Err(err.to_string()),
    }
}

/// Reads the record from the secure store: malformed or missing data, and
/// an unreachable store, all read as absent. What comes back is decided by
/// the machine's keychain, so nothing is promised of it.
pub fn read_credentials_from_keyring() -> (r: Option<AwsCredentials>) {
    let entry = match keyring_entry(keyring_service(), keyring_account()) {
        Ok(e) => e,
        Err(_) => {
            return None;
        },
    };
    let raw = match entry_get_password(&entry) {
        Some(raw) => raw,
        None => {
            return None;
        },
    };
    decode(raw.as_str())
}

/// Writes the record's canonical blob to the secure store. Succeeds or
/// fails as the keychain answers; a refusal is surfaced as the store's one
/// hard error, carrying the platform's own description verbatim, and
/// nothing else is touched.
pub fn write_credentials(c: &AwsCredentials) -> Result<(), StoreError> {
    let blob = encode(c);
    let entry = match keyring_entry(keyring_service(), keyring_account()) {
        Ok(e) => e,
        Err(m) => {
            return Err(StoreError::SecureStoreUnavailable(m));
        },
    };
    match entry_set_password(&entry, blob.as_str()) {
        Ok(()) => Ok(()),
        Err(m) => Err(StoreError::SecureStoreUnavailable(m)),
    }
}

/// Loads the record: the secure store first, then the legacy file's
/// content, migrating a legacy hit into the secure store best-effort. The
/// second result is whether the migration write succeeded, and so whether
/// the caller should delete the legacy file. A record whose blob is in the
/// legacy file is always returned, migrated or not.
pub fn read_credentials(legacy_blob: Option<String>) -> (r: (Option<AwsCredentials>, bool))
    ensures
        (legacy_blob matches Some(b) && spec_decode(b@) is Some) ==> r.0 is Some,
        r.1 ==> (legacy_blob matches Some(b) && opt_cred_view(r.0) == spec_decode(b@)),
{
    match read_credentials_from_keyring() {
        Some(c) => {
            return (Some(c), false);
        },
        None => {},
    }
    let blob = match legacy_blob {
        Some(b) => b,
        None => {
            return (None, false);
        },
    };
    match decode(blob.as_str()) {
        Some(c) => {
            proof {
                assert(spec_decode(blob@) == Some(c@));
            }
            let migrated = write_credentials(&c).is_ok();
            (Some(c), migrated)
        },
        None => (None, false),
    }
}

} // verus!

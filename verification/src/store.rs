//! The credential store, modelled as a value.
//!
//! The real store has two locations: a secure secret store, read first, and
//! a legacy plaintext file that is only read once and then migrated. This
//! module captures both as one state value and gives the exact transition
//! for `load` and `save`. The operations the platform may refuse — the
//! secure-store write and the legacy-file deletion — are passed in as
//! outcome flags, so every behaviour of the environment is covered.

use crate::codec::{decode, encode, lemma_decode_encode, opt_cred_view, spec_decode, spec_encode};
use crate::credentials::{AwsCredentials, CredView};
use vstd::prelude::*;

verus! {

/// Ghost image of the store: the blob each location holds, if any.
pub ghost struct StoreStateView {
    pub secure: Option<Seq<char>>,
    pub legacy: Option<Seq<char>>,
}

/// The two credential locations: the secure store's blob and the legacy
/// file's content.
pub struct StoreState {
    pub secure: Option<String>,
    pub legacy: Option<String>,
}

impl View for StoreState {
    type V = StoreStateView;

    open spec fn view(&self) -> StoreStateView {
        StoreStateView {
            secure: match self.secure {
                Some(b) => Some(b@),
                None => None,
            },
            legacy: match self.legacy {
                Some(b) => Some(b@),
                None => None,
            },
        }
    }
}

/// The store's only hard error: the secure store refused the write. It
/// carries the refusing store's own description, propagated verbatim to
/// the caller.
#[derive(Clone, Debug)]
pub enum StoreError {
    SecureStoreUnavailable(String),
}

impl StoreError {
    /// The description the error carries.
    pub open spec fn text(self) -> Seq<char> {
        match self {
            StoreError::SecureStoreUnavailable(m) => m@,
        }
    }

    /// The descriptive message surfaced to the caller, verbatim.
    pub fn message(&self) -> (s: String)
        ensures
            s@ == self.text(),
    {
        match self {
            StoreError::SecureStoreUnavailable(m) => m.clone(),
        }
    }
}

impl PartialEq for StoreError {
    fn eq(&self, other: &Self) -> (r: bool) {
        match (self, other) {
            (
                StoreError::SecureStoreUnavailable(a),
                StoreError::SecureStoreUnavailable(b),
            ) => *a == *b,
        }
    }
}

impl vstd::std_specs::cmp::PartialEqSpecImpl for StoreError {
    open spec fn obeys_eq_spec() -> bool {
        true
    }

    open spec fn eq_spec(&self, other: &Self) -> bool {
        self.text() == other.text()
    }
}

/// What `load` does to the store and returns: a secure-store hit is
/// returned as is; otherwise a legacy hit is returned and, when the
/// secure-store write succeeds, migrated (and the file deleted when the
/// deletion succeeds); otherwise the result is absent. A failed migration
/// write never loses the record: it is still returned.
pub open spec fn spec_load(s: StoreStateView, write_ok: bool, delete_ok: bool) -> (
    StoreStateView,
    Option<CredView>,
) {
    if s.secure is Some && spec_decode(s.secure->0) is Some {
        (s, spec_decode(s.secure->0))
    } else if s.legacy is Some && spec_decode(s.legacy->0) is Some {
        let r = spec_decode(s.legacy->0)->0;
        if write_ok {
            (
                StoreStateView {
                    secure: Some(spec_encode(r)),
                    legacy: if delete_ok {
                        None
                    } else {
                        s.legacy
                    },
                },
                Some(r),
            )
        } else {
            (s, Some(r))
        }
    } else {
        (s, None)
    }
}

/// What `save` does: on a successful secure-store write the blob is
/// replaced and the legacy file is deleted best-effort; on a failed write
/// nothing changes and the failure is surfaced. The second component is
/// whether the save succeeded.
pub open spec fn spec_save(s: StoreStateView, r: CredView, write_ok: bool, delete_ok: bool) -> (
    StoreStateView,
    bool,
) {
    if write_ok {
        (
            StoreStateView {
                secure: Some(spec_encode(r)),
                legacy: if delete_ok {
                    None
                } else {
                    s.legacy
                },
            },
            true,
        )
    } else {
        (s, false)
    }
}

impl StoreState {
    /// A store with nothing in either location.
    pub fn empty() -> (s: StoreState)
        ensures
            s@.secure is None,
            s@.legacy is None,
    {
        StoreState { secure: None, legacy: None }
    }

    /// Loads the record, migrating a legacy hit into the secure store.
    /// `write_ok` and `delete_ok` are the environment's answers to the
    /// migration write and the file deletion.
    pub fn load(&mut self, write_ok: bool, delete_ok: bool) -> (r: Option<AwsCredentials>)
        ensures
            (final(self)@, opt_cred_view(r)) == spec_load(old(self)@, write_ok, delete_ok),
    {
        match &self.secure {
            Some(blob) => {
                match decode(blob.as_str()) {
                    Some(c) => {
                        return Some(c);
                    },
                    None => {},
                }
            },
            None => {},
        }
        let legacy_blob = match &self.legacy {
            Some(blob) => blob.clone(),
            None => {
                return None;
            },
        };
        match decode(legacy_blob.as_str()) {
            Some(c) => {
                if write_ok {
                    self.secure = Some(encode(&c));
                    if delete_ok {
                        self.legacy = None;
                    }
                }
                Some(c)
            },
            None => None,
        }
    }

    /// Saves the record. `write_ok` and `delete_ok` are the environment's
    /// answers to the secure-store write and the legacy-file deletion; the
    /// model's simulated refusal carries a fixed description where the real
    /// store would supply its own.
    pub fn save(&mut self, r: &AwsCredentials, write_ok: bool, delete_ok: bool) -> (res: Result<
        (),
        StoreError,
    >)
        ensures
            (final(self)@, res is Ok) == spec_save(old(self)@, r@, write_ok, delete_ok),
            res matches Err(e) ==> e.text() == "secure credential store unavailable"@,
    {
        if write_ok {
            self.secure = Some(encode(r));
            if delete_ok {
                self.legacy = None;
            }
            Ok(())
        } else {
            Err(
                StoreError::SecureStoreUnavailable(
                    String::from_str("secure credential store unavailable"),
                ),
            )
        }
    }
}

/// Migration happens once and is idempotent: with an empty secure store and
/// a legacy file holding a blob of record `r`, the first load returns `r`
/// and removes the legacy file, and a second load returns `r` again from
/// the secure store without changing anything.
pub proof fn lemma_idempotent_migration(
    s0: StoreStateView,
    blob: Seq<char>,
    r: CredView,
    w2: bool,
    d2: bool,
)
    requires
        s0.secure is None,
        s0.legacy == Some(blob),
        spec_decode(blob) == Some(r),
    ensures
        ({
            let (s1, r1) = spec_load(s0, true, true);
            let (s2, r2) = spec_load(s1, w2, d2);
            &&& r1 == Some(r)
            &&& s1.legacy is None
            &&& r2 == Some(r)
            &&& s2 == s1
        }),
{
    lemma_decode_encode(r);
}

/// Absence is a valid steady state: with neither location populated, load
/// returns absent and changes nothing, whatever the environment answers.
pub proof fn lemma_absent_is_valid(s: StoreStateView, write_ok: bool, delete_ok: bool)
    requires
        s.secure is None,
        s.legacy is None,
    ensures
        spec_load(s, write_ok, delete_ok) == (s, Option::<CredView>::None),
{
}

/// Save-then-load round trip: after a successful save of a configured
/// record, a load returns exactly that record and leaves the store as the
/// save left it.
pub proof fn lemma_save_load_round_trip(
    s0: StoreStateView,
    r: CredView,
    d1: bool,
    w2: bool,
    d2: bool,
)
    requires
        r.is_configured(),
    ensures
        ({
            let (s1, ok) = spec_save(s0, r, true, d1);
            let (s2, r2) = spec_load(s1, w2, d2);
            &&& ok
            &&& r2 == Some(r)
            &&& s2 == s1
        }),
{
    lemma_decode_encode(r);
}

} // verus!

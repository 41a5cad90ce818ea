//! The sidecar lifecycle controller.
//!
//! One authoritative handle for the running backend, guarded by the caller
//! with a single lock for the whole terminate-then-spawn-then-probe
//! sequence. The decisions of the two entry points — startup and credential
//! update — are exact transition functions here; performing the spawn, the
//! kill and the probe is the surrounding process's work, and their outcomes
//! are handed in as values. A ghost model of the set of live child
//! processes ties the transitions to what the controller owes its caller:
//! a save failure touches nothing, and serialized updates never leave two
//! children running at once.

use crate::credentials::AwsCredentials;
use vstd::prelude::*;

verus! {

/// The authoritative sidecar slot: the handle of the one running, probed
/// child, or absent.
#[derive(Clone, Copy, Debug, PartialEq, Eq, Structural)]
pub struct SidecarState {
    pub current: Option<u64>,
}

/// What the operating system answered to a spawn request.
#[derive(Clone, Copy, Debug, PartialEq, Eq, Structural)]
pub enum SpawnOutcome {
    /// The executable could not be found or started.
    Failed,
    /// A child was started, with its handle.
    Started(u64),
}

/// How an update sequence ended.
#[derive(Clone, Copy, Debug, PartialEq, Eq, Structural)]
pub enum UpdateOutcome {
    /// The secure-store write failed; the running backend was not touched.
    SaveFailed,
    /// The new child could not be spawned; no backend is running.
    SpawnFailed,
    /// The new child never answered its health probe; its handle was not
    /// registered and no backend is considered running.
    NotReady,
    /// The new child is running and probed; its handle is registered.
    Completed,
}

/// How the startup sequence ended.
#[derive(Clone, Copy, Debug, PartialEq, Eq, Structural)]
pub enum StartupOutcome {
    /// No stored credentials: the application proceeds without a backend.
    NoCredentials,
    /// The child could not be spawned: startup fails.
    SpawnFailedFatal,
    /// The child never answered its health probe: startup fails.
    NotReadyFatal,
    /// The backend is running and probed; its handle is registered.
    Running,
}

/// The registered handle after an update with the given outcomes.
pub open spec fn spec_update_state(
    cur: Option<u64>,
    save_ok: bool,
    sp: SpawnOutcome,
    probe_ok: bool,
) -> Option<u64> {
    if !save_ok {
        cur
    } else {
        match sp {
            SpawnOutcome::Started(id) => if probe_ok {
                Some(id)
            } else {
                None
            },
            SpawnOutcome::Failed => None,
        }
    }
}

/// The reported outcome of an update with the given outcomes.
pub open spec fn spec_update_outcome(save_ok: bool, sp: SpawnOutcome, probe_ok: bool)
    -> UpdateOutcome {
    if !save_ok {
        UpdateOutcome::SaveFailed
    } else {
        match sp {
            SpawnOutcome::Started(id) => if probe_ok {
                UpdateOutcome::Completed
            } else {
                UpdateOutcome::NotReady
            },
            SpawnOutcome::Failed => UpdateOutcome::SpawnFailed,
        }
    }
}

/// The set of live child processes after an update: the old registered
/// child is killed only once the save succeeded, and a spawned child is
/// live whether or not its probe later succeeds.
pub open spec fn spec_live_after(
    live: Set<u64>,
    cur: Option<u64>,
    save_ok: bool,
    sp: SpawnOutcome,
) -> Set<u64> {
    if !save_ok {
        live
    } else {
        let cleared = match cur {
            Some(h) => live.remove(h),
            None => live,
        };
        match sp {
            SpawnOutcome::Started(id) => cleared.insert(id),
            SpawnOutcome::Failed => cleared,
        }
    }
}

/// No leaked children: the live set is exactly the registered handle.
pub open spec fn tracked_live(live: Set<u64>, cur: Option<u64>) -> bool {
    match cur {
        Some(h) => live =~= set![h],
        None => live =~= Set::<u64>::empty(),
    }
}

/// At most one child runs, and a registered handle is a live one.
pub open spec fn at_most_one_live(live: Set<u64>, cur: Option<u64>) -> bool {
    &&& (live =~= Set::<u64>::empty() || (exists|h: u64| live =~= set![h]))
    &&& match cur {
        Some(h) => live.contains(h),
        None => true,
    }
}

impl SidecarState {
    /// The state before any child was started.
    pub fn absent() -> (s: SidecarState)
        ensures
            s.current is None,
    {
        SidecarState { current: None }
    }

    /// First half of an update, entered with the lock held, after the save:
    /// on a failed save the sequence aborts with the state untouched; on a
    /// successful save the old handle is surrendered for termination and
    /// the slot is cleared.
    pub fn begin_update(&mut self, save_ok: bool) -> (to_kill: Option<Option<u64>>)
        ensures
            !save_ok ==> *final(self) == *old(self) && to_kill is None,
            save_ok ==> to_kill == Some(old(self).current) && final(self).current is None,
    {
        if !save_ok {
            None
        } else {
            let old_handle = self.current;
            self.current = None;
            Some(old_handle)
        }
    }

    /// Second half of an update: registers the new child only when it was
    /// spawned and answered its probe; otherwise the slot stays absent and
    /// the failure is reported.
    pub fn finish_update(&mut self, sp: &SpawnOutcome, probe_ok: bool) -> (r: UpdateOutcome)
        requires
            old(self).current is None,
        ensures
            final(self).current == spec_update_state(None, true, *sp, probe_ok),
            r == spec_update_outcome(true, *sp, probe_ok),
    {
        match sp {
            SpawnOutcome::Failed => UpdateOutcome::SpawnFailed,
            SpawnOutcome::Started(id) => {
                if probe_ok {
                    self.current = Some(*id);
                    UpdateOutcome::Completed
                } else {
                    UpdateOutcome::NotReady
                }
            },
        }
    }

    /// A whole update sequence over its three outside outcomes. Returns the
    /// reported outcome and the handle that was surrendered for
    /// termination, if any.
    pub fn apply_update(&mut self, save_ok: bool, sp: &SpawnOutcome, probe_ok: bool) -> (r: (
        UpdateOutcome,
        Option<u64>,
    ))
        ensures
            final(self).current == spec_update_state(old(self).current, save_ok, *sp, probe_ok),
            r.0 == spec_update_outcome(save_ok, *sp, probe_ok),
            r.1 == (if save_ok {
                old(self).current
            } else {
                Option::<u64>::None
            }),
    {
        match self.begin_update(save_ok) {
            None => (UpdateOutcome::SaveFailed, None),
            Some(to_kill) => {
                let outcome = self.finish_update(sp, probe_ok);
                (outcome, to_kill)
            },
        }
    }

    /// The startup sequence over its outside outcomes: absent credentials
    /// leave the slot absent and the application proceeds; otherwise the
    /// child must spawn and answer its probe before its handle is
    /// registered, and a failure of either is fatal to startup.
    pub fn apply_startup(&mut self, creds: &Option<AwsCredentials>, sp: &SpawnOutcome, probe_ok:
        bool) -> (r: StartupOutcome)
        requires
            old(self).current is None,
        ensures
            creds is None ==> final(self).current is None && r == StartupOutcome::NoCredentials,
            creds is Some ==> final(self).current == spec_update_state(None, true, *sp, probe_ok)
                && r == (match *sp {
                SpawnOutcome::Failed => StartupOutcome::SpawnFailedFatal,
                SpawnOutcome::Started(id) => if probe_ok {
                    StartupOutcome::Running
                } else {
                    StartupOutcome::NotReadyFatal
                },
            }),
    {
        match creds {
            None => StartupOutcome::NoCredentials,
            Some(_) => {
                match sp {
                    SpawnOutcome::Failed => StartupOutcome::SpawnFailedFatal,
                    SpawnOutcome::Started(id) => {
                        if probe_ok {
                            self.current = Some(*id);
                            StartupOutcome::Running
                        } else {
                            StartupOutcome::NotReadyFatal
                        }
                    },
                }
            },
        }
    }
}

/// A failed save never touches the running backend: the registered handle
/// and the set of live children stay exactly as they were.
pub proof fn lemma_no_restart_on_save_failure(
    live: Set<u64>,
    cur: Option<u64>,
    sp: SpawnOutcome,
    probe_ok: bool,
)
    ensures
        spec_update_state(cur, false, sp, probe_ok) == cur,
        spec_update_outcome(false, sp, probe_ok) == UpdateOutcome::SaveFailed,
        spec_live_after(live, cur, false, sp) == live,
{
}

/// One update sequence, from a state with no leaked children, never leaves
/// two children running: afterwards at most one child is live, and a
/// registered handle is that one live child.
pub proof fn lemma_update_single_live(
    live: Set<u64>,
    cur: Option<u64>,
    save_ok: bool,
    sp: SpawnOutcome,
    probe_ok: bool,
)
    requires
        tracked_live(live, cur),
        sp matches SpawnOutcome::Started(id) ==> !live.contains(id),
    ensures
        at_most_one_live(
            spec_live_after(live, cur, save_ok, sp),
            spec_update_state(cur, save_ok, sp, probe_ok),
        ),
{
    let live1 = spec_live_after(live, cur, save_ok, sp);
    if save_ok {
        match cur {
            Some(h) => {
                assert(live.remove(h) =~= Set::<u64>::empty());
            },
            None => {},
        }
        match sp {
            SpawnOutcome::Started(id) => {
                assert(live1 =~= set![id]);
            },
            SpawnOutcome::Failed => {},
        }
    }
}

/// An update that ends well leaves no leaked children behind.
pub proof fn lemma_update_keeps_tracked(
    live: Set<u64>,
    cur: Option<u64>,
    save_ok: bool,
    sp: SpawnOutcome,
    probe_ok: bool,
)
    requires
        tracked_live(live, cur),
        sp matches SpawnOutcome::Started(id) ==> !live.contains(id),
        !(save_ok && sp is Started && !probe_ok),
    ensures
        tracked_live(
            spec_live_after(live, cur, save_ok, sp),
            spec_update_state(cur, save_ok, sp, probe_ok),
        ),
{
    if save_ok {
        match cur {
            Some(h) => {
                assert(live.remove(h) =~= Set::<u64>::empty());
            },
            None => {},
        }
        match sp {
            SpawnOutcome::Started(id) => {
                assert(spec_live_after(live, cur, save_ok, sp) =~= set![id]);
            },
            SpawnOutcome::Failed => {},
        }
    }
}

/// Serialized restarts: two update sequences run one after the other — the
/// lock admits no other interleaving — never produce two simultaneously
/// running children, provided the first did not end with an unverified
/// child (a spawned child whose probe failed is live but untracked, and a
/// later update cannot terminate it). The final registered handle, if any,
/// is the one live child.
pub proof fn lemma_serialized_restarts(
    live: Set<u64>,
    cur: Option<u64>,
    save1: bool,
    sp1: SpawnOutcome,
    probe1: bool,
    save2: bool,
    sp2: SpawnOutcome,
    probe2: bool,
)
    requires
        tracked_live(live, cur),
        sp1 matches SpawnOutcome::Started(id) ==> !live.contains(id),
        !(save1 && sp1 is Started && !probe1),
        sp2 matches SpawnOutcome::Started(id) ==> !spec_live_after(
            live,
            cur,
            save1,
            sp1,
        ).contains(id),
    ensures
        ({
            let live1 = spec_live_after(live, cur, save1, sp1);
            let cur1 = spec_update_state(cur, save1, sp1, probe1);
            let live2 = spec_live_after(live1, cur1, save2, sp2);
            let cur2 = spec_update_state(cur1, save2, sp2, probe2);
            &&& at_most_one_live(live2, cur2)
            &&& (cur2 matches Some(h) ==> live2 =~= set![h])
        }),
{
    lemma_update_keeps_tracked(live, cur, save1, sp1, probe1);
    let live1 = spec_live_after(live, cur, save1, sp1);
    let cur1 = spec_update_state(cur, save1, sp1, probe1);
    lemma_update_single_live(live1, cur1, save2, sp2, probe2);
    let live2 = spec_live_after(live1, cur1, save2, sp2);
    let cur2 = spec_update_state(cur1, save2, sp2, probe2);
    if save2 {
        match cur1 {
            Some(h) => {
                assert(live1.remove(h) =~= Set::<u64>::empty());
            },
            None => {},
        }
        match sp2 {
            SpawnOutcome::Started(id) => {
                assert(live2 =~= set![id]);
            },
            SpawnOutcome::Failed => {
                assert(cur2 is None);
            },
        }
    } else {
        assert(tracked_live(live2, cur2));
        match cur2 {
            Some(h) => {
                assert(live2 =~= set![h]);
            },
            None => {},
        }
    }
}

/// The environment bindings a record induces for the child process: the
/// key id, secret key and region are always set, the session token only
/// when present and non-empty.
pub open spec fn spec_env_bindings(c: crate::credentials::CredView) -> Seq<
    (Seq<char>, Seq<char>),
> {
    let base = seq![
        ("ACCESS_KEY_ID"@, c.access_key_id),
        ("SECRET_ACCESS_KEY"@, c.secret_access_key),
        ("DEFAULT_REGION"@, c.region),
    ];
    match c.effective_token() {
        Some(t) => base.push(("SESSION_TOKEN"@, t)),
        None => base,
    }
}

/// The environment variables to hand to a spawned child, derived from the
/// record by the declarative rule above.
pub fn env_bindings(c: &AwsCredentials) -> (v: Vec<(String, String)>)
    ensures
        ({
            let b = spec_env_bindings(c@);
            &&& v@.len() == b.len()
            &&& forall|i: int| 0 <= i < b.len() ==> (v@[i].0@, v@[i].1@) == b[i]
        }),
{
    let mut v: Vec<(String, String)> = Vec::new();
    v.push((String::from_str("ACCESS_KEY_ID"), c.access_key_id.clone()));
    v.push((String::from_str("SECRET_ACCESS_KEY"), c.secret_access_key.clone()));
    v.push((String::from_str("DEFAULT_REGION"), c.region.clone()));
    match c.effective_token() {
        Some(t) => {
            v.push((String::from_str("SESSION_TOKEN"), t));
        },
        None => {},
    }
    v
}

} // verus!

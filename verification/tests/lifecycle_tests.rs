use sidecar_lifecycle::credentials::AwsCredentials;
use sidecar_lifecycle::lifecycle::{
    env_bindings, SidecarState, SpawnOutcome, StartupOutcome, UpdateOutcome,
};

fn rec(akid: &str, sak: &str, region: &str, token: Option<&str>) -> AwsCredentials {
    AwsCredentials {
        access_key_id: String::from(akid),
        secret_access_key: String::from(sak),
        region: String::from(region),
        session_token: token.map(String::from),
    }
}

/// A handful of lines standing in for the operating system: the set of
/// live child processes, driven by the handles the controller surrenders
/// and the spawns it is told about.
struct FakeOs {
    live: Vec<u64>,
    next_id: u64,
}

impl FakeOs {
    fn new() -> FakeOs {
        FakeOs { live: Vec::new(), next_id: 1 }
    }

    fn spawn(&mut self) -> SpawnOutcome {
        let id = self.next_id;
        self.next_id += 1;
        self.live.push(id);
        SpawnOutcome::Started(id)
    }

    fn kill(&mut self, handle: Option<u64>) {
        if let Some(h) = handle {
            self.live.retain(|x| *x != h);
        }
    }
}

#[test]
fn no_restart_on_save_failure() {
    let mut st = SidecarState { current: Some(7) };
    let (outcome, to_kill) = st.apply_update(false, &SpawnOutcome::Started(9), true);
    assert_eq!(outcome, UpdateOutcome::SaveFailed);
    assert_eq!(to_kill, None);
    assert_eq!(st.current, Some(7));
}

#[test]
fn successful_update_replaces_handle() {
    let mut st = SidecarState { current: Some(7) };
    let (outcome, to_kill) = st.apply_update(true, &SpawnOutcome::Started(9), true);
    assert_eq!(outcome, UpdateOutcome::Completed);
    assert_eq!(to_kill, Some(7));
    assert_eq!(st.current, Some(9));
}

#[test]
fn update_with_failed_probe_registers_nothing() {
    let mut st = SidecarState { current: Some(7) };
    let (outcome, to_kill) = st.apply_update(true, &SpawnOutcome::Started(9), false);
    assert_eq!(outcome, UpdateOutcome::NotReady);
    assert_eq!(to_kill, Some(7));
    assert_eq!(st.current, None);
}

#[test]
fn update_with_failed_spawn_registers_nothing() {
    let mut st = SidecarState { current: Some(7) };
    let (outcome, to_kill) = st.apply_update(true, &SpawnOutcome::Failed, true);
    assert_eq!(outcome, UpdateOutcome::SpawnFailed);
    assert_eq!(to_kill, Some(7));
    assert_eq!(st.current, None);
}

#[test]
fn serialized_restarts_leave_one_live_process() {
    let mut os = FakeOs::new();
    let mut st = SidecarState::absent();

    // Startup with credentials: spawn, probe, register.
    let sp = os.spawn();
    let r = st.apply_startup(&Some(rec("a", "b", "r", None)), &sp, true);
    assert_eq!(r, StartupOutcome::Running);
    assert_eq!(os.live.len(), 1);

    // Two update sequences, serialized as under the lock.
    for _ in 0..2 {
        let save_ok = true;
        let (to_kill, cleared) = match st.begin_update(save_ok) {
            Some(h) => (h, true),
            None => (None, false),
        };
        assert!(cleared);
        os.kill(to_kill);
        let sp = os.spawn();
        let outcome = st.finish_update(&sp, true);
        assert_eq!(outcome, UpdateOutcome::Completed);
        // Never two children running at once; the registered handle is the
        // one live child.
        assert_eq!(os.live.len(), 1);
        assert_eq!(st.current, Some(os.live[0]));
    }
}

#[test]
fn startup_without_credentials_runs_no_backend() {
    let mut st = SidecarState::absent();
    let r = st.apply_startup(&None, &SpawnOutcome::Failed, false);
    assert_eq!(r, StartupOutcome::NoCredentials);
    assert_eq!(st.current, None);
}

#[test]
fn startup_probe_timeout_is_fatal_and_registers_nothing() {
    let mut st = SidecarState::absent();
    let r = st.apply_startup(&Some(rec("a", "b", "r", None)), &SpawnOutcome::Started(3), false);
    assert_eq!(r, StartupOutcome::NotReadyFatal);
    assert_eq!(st.current, None);
}

#[test]
fn startup_spawn_failure_is_fatal() {
    let mut st = SidecarState::absent();
    let r = st.apply_startup(&Some(rec("a", "b", "r", None)), &SpawnOutcome::Failed, true);
    assert_eq!(r, StartupOutcome::SpawnFailedFatal);
    assert_eq!(st.current, None);
}

#[test]
fn env_bindings_always_set_three() {
    let v = env_bindings(&rec("id", "key", "us-east-1", None));
    assert_eq!(
        v,
        vec![
            (String::from("ACCESS_KEY_ID"), String::from("id")),
            (String::from("SECRET_ACCESS_KEY"), String::from("key")),
            (String::from("DEFAULT_REGION"), String::from("us-east-1")),
        ]
    );
}

#[test]
fn env_bindings_include_nonempty_token() {
    let v = env_bindings(&rec("id", "key", "us-east-1", Some("tok")));
    assert_eq!(v.len(), 4);
    assert_eq!(v[3], (String::from("SESSION_TOKEN"), String::from("tok")));
}

#[test]
fn env_bindings_omit_empty_token() {
    let v = env_bindings(&rec("id", "key", "us-east-1", Some("")));
    assert_eq!(v.len(), 3);
}

#[test]
fn default_record_is_not_configured() {
    let d = AwsCredentials::default();
    assert_eq!(d, rec("", "", "", None));
    assert!(!d.is_configured());
}

#[test]
fn record_configured_rules() {
    assert!(rec("id", "key", "", None).is_configured());
    assert!(!rec("", "key", "r", None).is_configured());
    assert!(!rec("id", "", "r", None).is_configured());
    assert_eq!(rec("id", "key", "r", Some("")).effective_token(), None);
    assert_eq!(rec("id", "key", "r", None).effective_token(), None);
    assert_eq!(rec("id", "key", "r", Some("t")).effective_token(), Some(String::from("t")));
}

use server_supervisor::error::SupervisorError;
use server_supervisor::path::DirPath;
use server_supervisor::prober::{ProbeAction, ProbeEvent, ReadinessTarget};
use server_supervisor::startup::{Startup, StartupAction, StartupEvent, StartupOutcome};
use server_supervisor::store::{LifecycleStore, ShutdownAction};

fn dir(segments: &[&str]) -> DirPath {
    DirPath::new(segments.iter().map(|s| s.to_string()).collect())
}

fn strings(items: &[&str]) -> Vec<String> {
    items.iter().map(|s| s.to_string()).collect()
}

/// The world that a scripted host finds.
struct World {
    cwd: Option<Vec<&'static str>>,
    artifact_exists: bool,
    spawn_succeeds: bool,
    /// The attempt, counted from one, on which the port answers.
    connects_on: Option<u32>,
}

/// What the scripted host did.
struct Report {
    startup: Startup,
    outcome: StartupOutcome,
    probed: Vec<DirPath>,
    spawned: Vec<(String, Vec<String>, DirPath)>,
    handle: Option<u32>,
    connects: Vec<(String, u16)>,
    pauses: Vec<u64>,
}

fn run(target: ReadinessTarget, world: World) -> Report {
    let mut startup = Startup::new(target);
    let mut action = startup.action();
    let mut probed = Vec::new();
    let mut spawned = Vec::new();
    let mut handle = None;
    let mut connects: Vec<(String, u16)> = Vec::new();
    let mut pauses = Vec::new();
    let mut steps = 0;
    loop {
        let event = match action {
            StartupAction::ReadWorkingDirectory => match &world.cwd {
                Some(segments) => StartupEvent::DirectoryFound(dir(segments)),
                None => StartupEvent::DirectoryUnavailable,
            },
            StartupAction::ProbeArtifact(path) => {
                probed.push(path);
                StartupEvent::ArtifactProbed { exists: world.artifact_exists }
            }
            StartupAction::Spawn(plan) => {
                spawned.push((
                    plan.command().clone(),
                    plan.arguments().clone(),
                    plan.working_directory().clone(),
                ));
                if world.spawn_succeeds {
                    handle = Some(4711);
                    StartupEvent::Spawned
                } else {
                    StartupEvent::SpawnFailed
                }
            }
            StartupAction::Probe(ProbeAction::Connect { host, port }) => {
                connects.push((host, port));
                if world.connects_on == Some(connects.len() as u32) {
                    StartupEvent::Probe(ProbeEvent::Connected)
                } else {
                    StartupEvent::Probe(ProbeEvent::Refused)
                }
            }
            StartupAction::Probe(ProbeAction::Sleep { millis }) => {
                pauses.push(millis);
                StartupEvent::Probe(ProbeEvent::Slept)
            }
            StartupAction::Probe(ProbeAction::Finish { .. }) => {
                panic!("the sequence asked the host to finish the probe");
            }
            StartupAction::Finish(outcome) => {
                return Report { startup, outcome, probed, spawned, handle, connects, pauses };
            }
        };
        steps += 1;
        assert!(steps < 1_000_000);
        let next = startup.step(event);
        startup = next.0;
        action = next.1;
    }
}

#[test]
fn development_backend_ready_on_third_attempt() {
    let report = run(
        ReadinessTarget::default(),
        World {
            cwd: Some(vec!["/", "home", "dev", "agentos", "src-tauri"]),
            artifact_exists: false,
            spawn_succeeds: true,
            connects_on: Some(3),
        },
    );
    assert_eq!(report.outcome, StartupOutcome::Managed { ready: true });
    assert_eq!(report.outcome.warning(), None);
    assert!(report.outcome.has_handle());
    assert_eq!(
        report.probed,
        vec![dir(&["/", "home", "dev", "agentos", "dist", "server.js"])]
    );
    assert_eq!(
        report.spawned,
        vec![(
            "npx".to_string(),
            strings(&["tsx", "server.ts"]),
            dir(&["/", "home", "dev", "agentos"])
        )]
    );
    assert_eq!(report.connects.len(), 3);
    assert!(report
        .connects
        .iter()
        .all(|(host, port)| host == "127.0.0.1" && *port == 3011));
    assert_eq!(report.pauses, vec![500, 500]);
    assert_eq!(report.startup.prober().attempts(), 3);
    assert_eq!(report.startup.prober().sleeps(), 2);
    assert_eq!(report.handle, Some(4711));
}

#[test]
fn production_backend_is_run_from_the_working_directory() {
    let report = run(
        ReadinessTarget::default(),
        World {
            cwd: Some(vec!["/", "opt", "agentos"]),
            artifact_exists: true,
            spawn_succeeds: true,
            connects_on: Some(1),
        },
    );
    assert_eq!(report.outcome, StartupOutcome::Managed { ready: true });
    assert_eq!(report.probed, vec![dir(&["/", "opt", "agentos", "dist", "server.js"])]);
    assert_eq!(
        report.spawned,
        vec![(
            "node".to_string(),
            strings(&["dist/server.js"]),
            dir(&["/", "opt", "agentos"])
        )]
    );
    assert_eq!(report.connects.len(), 1);
    assert!(report.pauses.is_empty());
}

#[test]
fn port_never_connectable_still_completes_setup() {
    let report = run(
        ReadinessTarget::default(),
        World {
            cwd: Some(vec!["/", "opt", "agentos"]),
            artifact_exists: false,
            spawn_succeeds: true,
            connects_on: None,
        },
    );
    assert_eq!(report.outcome, StartupOutcome::Managed { ready: false });
    assert_eq!(
        report.outcome.warning(),
        Some(SupervisorError::ReadinessTimeout)
    );
    assert!(report.outcome.has_handle());
    assert_eq!(report.connects.len(), 60);
    assert_eq!(report.pauses.len(), 59);
    assert!(report.pauses.iter().all(|millis| *millis == 500));
    assert_eq!(report.startup.outcome(), Some(StartupOutcome::Managed { ready: false }));
}

#[test]
fn failed_spawn_assumes_external_backend() {
    let report = run(
        ReadinessTarget::default(),
        World {
            cwd: Some(vec!["/", "opt", "agentos"]),
            artifact_exists: false,
            spawn_succeeds: false,
            connects_on: Some(1),
        },
    );
    assert_eq!(
        report.outcome,
        StartupOutcome::External { cause: SupervisorError::Spawn }
    );
    assert_eq!(report.outcome.warning(), Some(SupervisorError::Spawn));
    assert!(!report.outcome.has_handle());
    assert_eq!(report.spawned.len(), 1);
    assert!(report.connects.is_empty());
    assert!(report.pauses.is_empty());
    assert_eq!(report.handle, None);

    let mut store: LifecycleStore<u32> = LifecycleStore::new();
    if report.outcome.has_handle() {
        if let Some(handle) = report.handle {
            assert_eq!(store.store(handle), Ok(()));
        }
    }
    assert!(!store.is_holding());
    assert_eq!(store.take_and_terminate(), ShutdownAction::Nothing);
}

#[test]
fn unknown_working_directory_assumes_external_backend() {
    let report = run(
        ReadinessTarget::default(),
        World { cwd: None, artifact_exists: true, spawn_succeeds: true, connects_on: Some(1) },
    );
    assert_eq!(
        report.outcome,
        StartupOutcome::External { cause: SupervisorError::Environment }
    );
    assert_eq!(report.outcome.warning(), Some(SupervisorError::Environment));
    assert!(!report.outcome.has_handle());
    assert!(report.probed.is_empty());
    assert!(report.spawned.is_empty());
    assert!(report.connects.is_empty());
}

#[test]
fn managed_backend_is_stored_and_terminated_once() {
    let report = run(
        ReadinessTarget::default(),
        World {
            cwd: Some(vec!["/", "opt", "agentos"]),
            artifact_exists: true,
            spawn_succeeds: true,
            connects_on: Some(2),
        },
    );
    let mut store: LifecycleStore<u32> = LifecycleStore::new();
    assert!(report.outcome.has_handle());
    assert_eq!(store.store(report.handle.unwrap()), Ok(()));
    assert_eq!(store.take_and_terminate(), ShutdownAction::Terminate(4711));
    assert_eq!(store.take_and_terminate(), ShutdownAction::Nothing);
}

#[test]
fn spawn_without_allowed_attempts_ends_not_ready() {
    let report = run(
        ReadinessTarget::new("127.0.0.1".to_string(), 3011, 0, 500),
        World {
            cwd: Some(vec!["/", "opt", "agentos"]),
            artifact_exists: true,
            spawn_succeeds: true,
            connects_on: Some(1),
        },
    );
    assert_eq!(report.outcome, StartupOutcome::Managed { ready: false });
    assert!(report.connects.is_empty());
    assert!(report.pauses.is_empty());
}

#[test]
fn sequence_begins_by_asking_for_the_working_directory() {
    let startup = Startup::new(ReadinessTarget::default());
    assert_eq!(startup.action(), StartupAction::ReadWorkingDirectory);
    assert_eq!(startup.outcome(), None);
    assert_eq!(startup.prober().attempts(), 0);
}

#[test]
fn event_out_of_turn_is_ignored() {
    let startup = Startup::new(ReadinessTarget::default());
    let (startup, action) = startup.step(StartupEvent::Spawned);
    assert_eq!(action, StartupAction::ReadWorkingDirectory);
    let (startup, action) = startup.step(StartupEvent::Probe(ProbeEvent::Connected));
    assert_eq!(action, StartupAction::ReadWorkingDirectory);
    let (startup, action) = startup.step(StartupEvent::ArtifactProbed { exists: true });
    assert_eq!(action, StartupAction::ReadWorkingDirectory);

    let (startup, action) = startup.step(StartupEvent::DirectoryFound(dir(&["p", "src-tauri"])));
    assert_eq!(action, StartupAction::ProbeArtifact(dir(&["p", "dist", "server.js"])));
    let (startup, action) = startup.step(StartupEvent::DirectoryUnavailable);
    assert_eq!(action, StartupAction::ProbeArtifact(dir(&["p", "dist", "server.js"])));
    let (startup, action) = startup.step(StartupEvent::SpawnFailed);
    assert_eq!(action, StartupAction::ProbeArtifact(dir(&["p", "dist", "server.js"])));

    let (startup, action) = startup.step(StartupEvent::ArtifactProbed { exists: true });
    assert!(matches!(action, StartupAction::Spawn(_)));
    let (startup, action) = startup.step(StartupEvent::ArtifactProbed { exists: false });
    match action {
        StartupAction::Spawn(plan) => assert_eq!(plan.command(), "node"),
        other => panic!("unexpected action {:?}", other),
    }
    let (startup, action) = startup.step(StartupEvent::Probe(ProbeEvent::Refused));
    assert!(matches!(action, StartupAction::Spawn(_)));
    assert_eq!(startup.prober().attempts(), 0);

    let (startup, action) = startup.step(StartupEvent::Spawned);
    assert!(matches!(action, StartupAction::Probe(ProbeAction::Connect { .. })));
    let (startup, action) = startup.step(StartupEvent::SpawnFailed);
    assert!(matches!(action, StartupAction::Probe(ProbeAction::Connect { .. })));
    let (startup, action) = startup.step(StartupEvent::Probe(ProbeEvent::Slept));
    assert!(matches!(action, StartupAction::Probe(ProbeAction::Connect { .. })));
    assert_eq!(startup.prober().attempts(), 0);
    assert_eq!(startup.outcome(), None);
}

#[test]
fn ended_sequence_stays_ended() {
    let startup = Startup::new(ReadinessTarget::default());
    let (startup, _) = startup.step(StartupEvent::DirectoryUnavailable);
    let ended = StartupAction::Finish(StartupOutcome::External {
        cause: SupervisorError::Environment,
    });
    let (startup, action) = startup.step(StartupEvent::DirectoryFound(dir(&["p"])));
    assert_eq!(action, ended);
    let (startup, action) = startup.step(StartupEvent::Spawned);
    assert_eq!(action, ended);
    let (startup, action) = startup.step(StartupEvent::Probe(ProbeEvent::Connected));
    assert_eq!(action, ended);
    assert_eq!(startup.action(), ended);
}

#[test]
fn startup_ends_within_the_bound_on_answers() {
    for max_attempts in 1..5u32 {
        let report = run(
            ReadinessTarget::new("h".to_string(), 1, max_attempts, 10),
            World {
                cwd: Some(vec!["p"]),
                artifact_exists: false,
                spawn_succeeds: true,
                connects_on: None,
            },
        );
        let answers = 3 + report.connects.len() + report.pauses.len();
        assert_eq!(answers as u32, 3 + 2 * max_attempts - 1);
    }
}

use slimevr_lib::status::{ChildEvent, StatusKind};
use slimevr_lib::supervisor::{server_command, ChildState, Supervisor, SERVER_ARTIFACT};

#[test]
fn server_arguments_are_exact() {
    let command = server_command("/opt/slimevr/jre/bin/java".to_string(), "/opt/slimevr".to_string());
    assert_eq!(command.program, "/opt/slimevr/jre/bin/java");
    assert_eq!(command.working_dir, "/opt/slimevr");
    assert_eq!(command.arguments(), vec!["-Xmx512M", "-jar", "slimevr.jar", "run"]);
    assert_eq!(SERVER_ARTIFACT, "slimevr.jar");
}

#[test]
fn new_supervisor_has_no_child() {
    let supervisor = Supervisor::new();
    assert_eq!(supervisor.state(), ChildState::Absent);
    assert!(!supervisor.exit_flag());
}

#[test]
fn spawn_moves_to_starting() {
    let mut supervisor = Supervisor::new();
    assert!(supervisor.record_spawn(true));
    assert_eq!(supervisor.state(), ChildState::Starting);
    assert!(!supervisor.exit_flag());
}

#[test]
fn spawn_failure_moves_to_exited_without_flag() {
    let mut supervisor = Supervisor::new();
    assert!(supervisor.record_spawn(false));
    assert_eq!(supervisor.state(), ChildState::Exited);
    assert!(!supervisor.exit_flag());
}

#[test]
fn second_spawn_is_refused() {
    let mut supervisor = Supervisor::new();
    assert!(supervisor.record_spawn(true));
    assert!(!supervisor.record_spawn(true));
    assert_eq!(supervisor.state(), ChildState::Starting);
    assert!(!supervisor.record_spawn(false));
    assert_eq!(supervisor.state(), ChildState::Starting);
}

#[test]
fn first_event_moves_to_running() {
    let mut supervisor = Supervisor::new();
    supervisor.record_spawn(true);
    let status = supervisor.observe(ChildEvent::Stdout(b"booting".to_vec()));
    assert_eq!(status.kind, StatusKind::Stdout);
    assert_eq!(status.payload, "booting");
    assert_eq!(supervisor.state(), ChildState::Running);
    assert!(!supervisor.exit_flag());
}

#[test]
fn termination_raises_the_flag_at_once() {
    let mut supervisor = Supervisor::new();
    supervisor.record_spawn(true);
    supervisor.observe(ChildEvent::Stdout(b"line".to_vec()));
    assert!(!supervisor.exit_flag());
    let status = supervisor.observe(ChildEvent::Terminated("done".to_string()));
    assert_eq!(status.kind, StatusKind::Terminated);
    assert_eq!(status.payload, "done");
    assert!(supervisor.exit_flag());
    assert_eq!(supervisor.state(), ChildState::Exited);
}

#[test]
fn termination_as_first_event_raises_the_flag() {
    let mut supervisor = Supervisor::new();
    supervisor.record_spawn(true);
    supervisor.observe(ChildEvent::Terminated("early".to_string()));
    assert!(supervisor.exit_flag());
    assert_eq!(supervisor.state(), ChildState::Exited);
}

#[test]
fn flag_stays_up_and_late_output_is_still_relayed() {
    let mut supervisor = Supervisor::new();
    supervisor.record_spawn(true);
    supervisor.observe(ChildEvent::Terminated("done".to_string()));
    let late = supervisor.observe(ChildEvent::Stderr(b"flushing".to_vec()));
    assert_eq!(late.kind, StatusKind::Stderr);
    assert_eq!(late.payload, "flushing");
    assert!(supervisor.exit_flag());
    assert_eq!(supervisor.state(), ChildState::Exited);
    supervisor.observe(ChildEvent::Other);
    assert!(supervisor.exit_flag());
}

#[test]
fn dead_server_stays_dead() {
    let mut supervisor = Supervisor::new();
    supervisor.record_spawn(true);
    supervisor.observe(ChildEvent::Terminated("done".to_string()));
    assert!(!supervisor.record_spawn(true));
    assert_eq!(supervisor.state(), ChildState::Exited);
}

#[test]
fn events_without_a_child_change_nothing() {
    let mut supervisor = Supervisor::new();
    let status = supervisor.observe(ChildEvent::Terminated("stray".to_string()));
    assert_eq!(status.kind, StatusKind::Terminated);
    assert_eq!(supervisor.state(), ChildState::Absent);
    assert!(!supervisor.exit_flag());
    let mut failed = Supervisor::new();
    failed.record_spawn(false);
    failed.observe(ChildEvent::Terminated("stray".to_string()));
    assert_eq!(failed.state(), ChildState::Exited);
    assert!(!failed.exit_flag());
}

#[test]
fn closing_event_is_other_receiver_cancelled() {
    let status = Supervisor::receiver_closed();
    assert_eq!(status.kind, StatusKind::Other);
    assert_eq!(status.payload, "receiver cancelled");
}

#[test]
fn one_run_publishes_terminated_once() {
    let events = vec![
        ChildEvent::Stdout(b"a".to_vec()),
        ChildEvent::Stderr(b"b".to_vec()),
        ChildEvent::Error("c".to_string()),
        ChildEvent::Terminated("d".to_string()),
        ChildEvent::Stdout(b"e".to_vec()),
    ];
    let mut supervisor = Supervisor::new();
    supervisor.record_spawn(true);
    let mut kinds: Vec<StatusKind> = Vec::new();
    let mut flag_after: Vec<bool> = Vec::new();
    for event in events {
        kinds.push(supervisor.observe(event).kind);
        flag_after.push(supervisor.exit_flag());
    }
    kinds.push(Supervisor::receiver_closed().kind);
    assert_eq!(
        kinds,
        vec![
            StatusKind::Stdout,
            StatusKind::Stderr,
            StatusKind::Error,
            StatusKind::Terminated,
            StatusKind::Stdout,
            StatusKind::Other
        ]
    );
    assert_eq!(kinds.iter().filter(|kind| **kind == StatusKind::Terminated).count(), 1);
    assert_eq!(flag_after, vec![false, false, false, true, true]);
}

#[test]
fn stream_that_closes_without_termination_leaves_the_flag_down() {
    let mut supervisor = Supervisor::new();
    supervisor.record_spawn(true);
    supervisor.observe(ChildEvent::Stdout(b"a".to_vec()));
    let closing = Supervisor::receiver_closed();
    assert_eq!(closing.kind, StatusKind::Other);
    assert!(!supervisor.exit_flag());
    assert_eq!(supervisor.state(), ChildState::Running);
}

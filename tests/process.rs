use std::io::ErrorKind;

use edr_generator::common::GenerationError;
use edr_generator::process::{
    classify_probes, plan_launch, KillCount, KillOutcome, ProcessManager, StopFailure,
};

fn stop_all(manager: &mut ProcessManager) -> Result<KillCount, StopFailure> {
    let mut run = manager.stop_all_begin();
    while manager.stop_all_step(&mut run) {}
    manager.stop_all_finish(run)
}

#[test]
fn failed_spawn_is_passed_on_untracked() {
    let mut manager = ProcessManager::new().unwrap();
    let launch = plan_launch("garbasgwe".to_string(), None);
    let failure = GenerationError::from_io(ErrorKind::NotFound, "No such file or directory".to_string());
    let result = manager.new_process(launch, Err(failure));
    let e = result.unwrap_err();
    assert_eq!(e.kind, "process");
    assert_eq!(e.message, "No such file or directory");
    assert_eq!(e.io_subkind, Some(ErrorKind::NotFound));
    assert_eq!(manager.len(), 0);
}

#[test]
fn unlisted_process_is_a_process_error() {
    let mut manager = ProcessManager::new().unwrap();
    let launch = plan_launch("sh".to_string(), None);
    let e = manager.new_process(launch, Ok(0xFFFF_FFF0)).unwrap_err();
    assert_eq!(e.kind, "process");
    assert_eq!(e.message, "Process Died Unexpectedly");
    assert_eq!(manager.len(), 0);
}

#[test]
fn empty_roster_stops_cleanly() {
    let mut manager = ProcessManager::new().unwrap();
    let count = stop_all(&mut manager).ok().unwrap();
    assert!(count.killed.is_empty() && count.premature.is_empty() && count.failures.is_empty());
}

#[test]
fn probes_classify_each_outcome() {
    assert_eq!(classify_probes(true, false), KillOutcome::Killed);
    assert_eq!(classify_probes(false, false), KillOutcome::Premature);
    assert_eq!(classify_probes(false, true), KillOutcome::Premature);
    assert_eq!(classify_probes(true, true), KillOutcome::Failed);
}

#[test]
fn launch_splits_arguments_as_a_shell_would() {
    let launch = plan_launch("/bin/echo".to_string(), Some("a 'b c' \"d e\" ".to_string()));
    assert_eq!(launch.path, "/bin/echo");
    assert_eq!(launch.args, vec!["a".to_string(), "b c".to_string(), "d e".to_string()]);
    assert_eq!(launch.cmd, "/bin/echo a 'b c' \"d e\" ");
    let bare = plan_launch("sh".to_string(), None);
    assert!(bare.args.is_empty());
    assert_eq!(bare.cmd, "sh  ");
}

#[test]
fn listed_process_is_tracked() {
    let mut manager = ProcessManager::new().unwrap();
    let launch = plan_launch("sleep".to_string(), Some("30 ".to_string()));
    let event = manager.track_spawned(launch, 4321, Some(("sleep".to_string(), 1700000000))).unwrap();
    assert_eq!(manager.len(), 1);
    assert_eq!(event.t, "Information");
    assert_eq!(event.activity, "New Process");
    assert_eq!(event.proc_id, "4321");
    assert_eq!(event.proc_name, "sleep");
    assert_eq!(event.proc_cmd, "sleep 30 ");
    assert_eq!(event.timestamp, "1700000000");
    assert_eq!(event.username, "");
    assert_eq!(event.source_addr, "");
}

#[test]
fn unlisted_spawn_is_not_tracked() {
    let mut manager = ProcessManager::new().unwrap();
    let launch = plan_launch("sh".to_string(), None);
    let e = manager.track_spawned(launch, 4321, None).unwrap_err();
    assert_eq!(e.kind, "process");
    assert_eq!(e.message, "Process Died Unexpectedly");
    assert_eq!(manager.len(), 0);
}

#[test]
fn teardown_of_a_vanished_process_is_premature() {
    let mut manager = ProcessManager::new().unwrap();
    let launch = plan_launch("sleep".to_string(), Some("1 ".to_string()));
    manager.track_spawned(launch, 0x7fff_fff0, Some(("sleep".to_string(), 5))).unwrap();
    let count = stop_all(&mut manager).ok().unwrap();
    assert_eq!(count.premature.len(), 1);
    assert!(count.killed.is_empty() && count.failures.is_empty());
    let record = &count.premature[0];
    assert_eq!(record.t, "Information");
    assert_eq!(record.activity, "Process had prematurely terminated");
    assert_eq!(record.proc_id, "2147483632");
    assert_eq!(record.proc_cmd, "sleep 1 ");
    assert_eq!(record.timestamp, "5");
    assert_eq!(record.file_path, "");
}

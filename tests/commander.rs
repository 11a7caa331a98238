use edr_generator::commander::{plan_row, Command, TaskCommander};
use edr_generator::common::GenerationError;
use edr_generator::log::{adapt_log_file, Logger};

fn row(fields: &[&str]) -> Vec<String> {
    fields.iter().map(|f| f.to_string()).collect()
}

fn identity() -> Logger {
    Logger {
        username: "tester".to_string(),
        proc_name: "generator".to_string(),
        proc_cmd: "generator input.csv".to_string(),
        proc_id: "42".to_string(),
    }
}

fn valid_rows() -> Vec<Vec<String>> {
    vec![
        row(&["process", "sh", "-c", "exit 0"]),
        row(&["pause", "10"]),
        row(&["new_file", "a.txt"]),
        row(&["mod_file", "a.txt"]),
        row(&["delete_file", "a.txt"]),
        row(&["connect", "127.0.0.1", "8080", "hello"]),
        row(&["connect_self", "hello"]),
    ]
}

#[test]
fn well_formed_rows_report_no_errors() {
    let mut commander = TaskCommander::new(identity());
    let rows = valid_rows();
    let mut events = 0;
    for r in &rows {
        let plan = commander.read_next(Some(r)).unwrap();
        assert!(plan.errors.is_empty());
        assert!(plan.command.is_some());
        let outcome = commander.conclude(r, Ok(adapt_log_file("x".to_string(), "y".to_string())));
        assert!(outcome.is_ok());
        events += 1;
    }
    assert_eq!(events, rows.len());
    assert_eq!(commander.get_num_errors(), 0);
}

#[test]
fn malformed_rows_are_counted_and_valid_rows_still_run() {
    let mut commander = TaskCommander::new(identity());
    let malformed = vec![
        row(&["explode", "now"]),
        row(&["process"]),
        row(&["process", "sh"]),
        row(&["new_file"]),
        row(&["connect", "127.0.0.1", "70000", "hi"]),
        row(&["connect", "127.0.0.1", "80"]),
        row(&["connect_self"]),
        row(&["pause", "soon"]),
    ];
    let mut rows = Vec::new();
    for (m, v) in malformed.iter().zip(valid_rows().iter().cycle()) {
        rows.push(m.clone());
        rows.push(v.clone());
    }
    let mut commands = 0;
    for r in &rows {
        let plan = commander.read_next(Some(r)).unwrap();
        if plan.command.is_some() {
            commands += 1;
        }
    }
    assert_eq!(commands, malformed.len());
    assert_eq!(commander.get_num_errors(), malformed.len());
}

#[test]
fn exhausted_source_ends_the_session() {
    let mut commander = TaskCommander::new(identity());
    assert!(commander.read_next(None).is_none());
    assert_eq!(commander.get_num_errors(), 0);
}

#[test]
fn pause_without_argument_reports_twice() {
    let plan = plan_row(&row(&["pause"]), true);
    assert!(plan.command.is_none());
    assert_eq!(plan.errors.len(), 2);
    assert!(plan.errors.iter().all(|e| e.kind == "input_format"));
}

#[test]
fn unknown_verb_is_an_input_format_error() {
    let plan = plan_row(&row(&["reboot", "now"]), true);
    assert!(plan.command.is_none());
    assert_eq!(plan.errors.len(), 1);
    assert_eq!(plan.errors[0].kind, "input_format");
    assert_eq!(plan.errors[0].message, "reboot is not a valid instruction");
    let empty = plan_row(&row(&[]), true);
    assert_eq!(empty.errors.len(), 1);
    assert_eq!(empty.errors[0].kind, "input_format");
}

#[test]
fn process_without_spawning_is_a_permission_error() {
    let plan = plan_row(&row(&["process", "sh"]), false);
    assert!(plan.command.is_none());
    assert_eq!(plan.errors.len(), 1);
    assert_eq!(plan.errors[0].kind, "user_permissions");
    let files = plan_row(&row(&["new_file", "b.txt"]), false);
    assert!(matches!(files.command, Some(Command::NewFile { .. })));
}

#[test]
fn spawning_degrades_per_verb() {
    let mut commander = TaskCommander::new(identity());
    assert!(commander.take_process_manager().is_some());
    assert!(!commander.can_spawn());
    let plan = commander.read_next(Some(&row(&["process", "sh"]))).unwrap();
    assert_eq!(plan.errors[0].kind, "user_permissions");
    let plan = commander.read_next(Some(&row(&["pause", "5"]))).unwrap();
    assert!(matches!(plan.command, Some(Command::Pause { millis: 5 })));
    assert_eq!(commander.get_num_errors(), 1);
}

#[test]
fn process_arguments_are_joined_with_spaces() {
    let plan = plan_row(&row(&["process", "/bin/echo", "a", "b c"]), true);
    match plan.command {
        Some(Command::Process { path, arguments }) => {
            assert_eq!(path, "/bin/echo");
            assert_eq!(arguments, Some("a b c ".to_string()));
        }
        _ => panic!("expected a process command"),
    }
    let plan = plan_row(&row(&["process", "/bin/true"]), true);
    assert!(plan.command.is_none());
    assert_eq!(plan.errors.len(), 1);
    assert_eq!(plan.errors[0].kind, "input_format");
}

#[test]
fn connect_fields_are_parsed() {
    let plan = plan_row(&row(&["connect", "example.org", "443", "héllo"]), true);
    match plan.command {
        Some(Command::Connect { host, port, payload }) => {
            assert_eq!(host, "example.org");
            assert_eq!(port, 443);
            assert_eq!(payload, "héllo".as_bytes().to_vec());
        }
        _ => panic!("expected a connect command"),
    }
    let plan = plan_row(&row(&["connect", "example.org", "0", "x"]), true);
    assert!(matches!(plan.command, Some(Command::Connect { port: 0, .. })));
}

#[test]
fn failed_action_is_counted_once_and_names_the_row() {
    let mut commander = TaskCommander::new(identity());
    let r = row(&["new_file", "a.txt"]);
    commander.read_next(Some(&r)).unwrap();
    let failure = GenerationError::new("io".to_string(), "exists".to_string());
    let e = commander.conclude(&r, Err(failure)).unwrap_err();
    assert_eq!(e.kind, "io");
    assert_eq!(e.message, "Record [new_file, a.txt] encountered an error exists");
    assert_eq!(commander.get_num_errors(), 1);
}

#[test]
fn successful_action_is_stamped_with_identity() {
    let mut commander = TaskCommander::new(identity());
    let r = row(&["new_file", "a.txt"]);
    let l = commander.conclude(&r, Ok(adapt_log_file("New File".to_string(), "/tmp/a.txt".to_string()))).unwrap();
    assert_eq!(l.username, "tester");
    assert_eq!(l.proc_name, "generator");
    assert_eq!(l.proc_id, "42");
    assert_eq!(l.activity, "New File");
    assert_eq!(l.file_path, "/tmp/a.txt");
}

#[test]
fn connect_to_port_zero_is_counted_before_any_socket() {
    let mut commander = TaskCommander::new(identity());
    let r = row(&["connect", "127.0.0.1", "0", "hi"]);
    let plan = commander.read_next(Some(&r)).unwrap();
    assert!(plan.errors.is_empty());
    let e = commander.connect_target(&r, &"127.0.0.1".to_string(), 0).unwrap_err();
    assert_eq!(e.kind, "network");
    assert_eq!(e.message, "Record [connect, 127.0.0.1, 0, hi] encountered an error Invalid Port Number");
    let ok = commander.connect_target(&r, &"127.0.0.1".to_string(), 9).unwrap();
    assert_eq!(ok, "127.0.0.1:9");
    assert_eq!(commander.get_num_errors(), 1);
}

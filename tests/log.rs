use std::io::ErrorKind;

use edr_generator::common::GenerationError;
use edr_generator::log::{adapt_log_file, adapt_log_network, adapt_log_pause, adapt_log_process, file_event, FileOp, Logger};

fn identity() -> Logger {
    Logger {
        username: "tester".to_string(),
        proc_name: "generator".to_string(),
        proc_cmd: "generator input.csv".to_string(),
        proc_id: "42".to_string(),
    }
}

#[test]
fn process_record_carries_its_fields() {
    let l = adapt_log_process("New Process".to_string(), 1700000000, "sh".to_string(), "sh  ".to_string(), "321".to_string());
    assert_eq!(l.t, "Information");
    assert_eq!(l.timestamp, "1700000000");
    assert_eq!(l.proc_name, "sh");
    assert_eq!(l.proc_cmd, "sh  ");
    assert_eq!(l.proc_id, "321");
    assert_eq!(l.activity, "New Process");
    assert_eq!(l.username, "");
    assert_eq!(l.file_path, "");
    assert_eq!(l.protocol, "");
}

#[test]
fn file_record_leaves_network_columns_empty() {
    let l = adapt_log_file("Modify File".to_string(), "/tmp/x".to_string());
    assert_eq!(l.t, "Information");
    assert_eq!(l.file_path, "/tmp/x");
    assert!(!l.timestamp.is_empty());
    assert_eq!(l.source_addr, "");
    assert_eq!(l.dest_port, "");
    assert_eq!(file_event(FileOp::Delete, "/tmp/y".to_string()).activity, "Delete File");
}

#[test]
fn network_and_pause_records() {
    let l = adapt_log_network("Network Connection".to_string(), "1.2.3.4".to_string(), 4000, "5.6.7.8".to_string(), 80, 3, "TCP".to_string());
    assert_eq!(l.source_port, "4000");
    assert_eq!(l.dest_addr, "5.6.7.8");
    assert_eq!(l.bytes_sent, "3");
    assert_eq!(adapt_log_pause(250).activity, "Pause 250 ms");
}

#[test]
fn event_keeps_its_own_process_columns() {
    let logger = identity();
    let own = adapt_log_process("New Process".to_string(), 1, "child".to_string(), "child -x".to_string(), "7".to_string());
    let l = logger.log_event(own);
    assert_eq!(l.username, "tester");
    assert_eq!(l.proc_name, "child");
    assert_eq!(l.proc_cmd, "child -x");
    assert_eq!(l.proc_id, "7");
    let filled = logger.log_event(adapt_log_file("New File".to_string(), "f".to_string()));
    assert_eq!(filled.proc_name, "generator");
    assert_eq!(filled.proc_cmd, "generator input.csv");
    assert_eq!(filled.proc_id, "42");
}

#[test]
fn error_record_joins_kind_and_message() {
    let e = GenerationError::new("network".to_string(), "Unable to Connect".to_string());
    let r = identity().log_error(&e);
    assert_eq!(r.t, "Error");
    assert_eq!(r.message, "network: Unable to Connect");
    assert_eq!(e.describe(), "GenerationError {network: message: Unable to Connect }");
}

#[test]
fn identity_of_an_unlisted_process() {
    let logger = Logger::new(0xFFFF_FFF0);
    assert_eq!(logger.proc_id, "4294967280");
    assert_eq!(logger.proc_name, "");
    assert_eq!(logger.proc_cmd, "");
}

#[test]
fn io_failures_keep_their_subkind() {
    let exists = GenerationError::from_io(ErrorKind::AlreadyExists, "File exists (os error 17)".to_string());
    assert_eq!(exists.kind, "io");
    assert_eq!(exists.io_subkind, Some(ErrorKind::AlreadyExists));
    let missing = GenerationError::from_io(ErrorKind::NotFound, "No such file or directory (os error 2)".to_string());
    assert_eq!(missing.kind, "io");
    assert_eq!(missing.io_subkind, Some(ErrorKind::NotFound));
    assert_eq!(missing.message, "No such file or directory (os error 2)");
    let plain = GenerationError::from_text("bad");
    assert_eq!((plain.kind.as_str(), plain.message.as_str()), ("string", "bad"));
    assert!(GenerationError::new("io".to_string(), "x".to_string()).io_subkind.is_none());
}

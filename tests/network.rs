use edr_generator::network::{listener_failed, loopback_text, send_result, send_target, socket_address, SendOutcome};

#[test]
fn port_zero_is_refused_before_connecting() {
    let e = send_target(&"127.0.0.1".to_string(), 0).unwrap_err();
    assert_eq!(e.kind, "network");
    assert_eq!(e.message, "Invalid Port Number");
}

#[test]
fn target_address_joins_host_and_port() {
    assert_eq!(send_target(&"example.org".to_string(), 8080).unwrap(), "example.org:8080");
    assert_eq!(socket_address(&"10.0.0.1".to_string(), 65535), "10.0.0.1:65535");
    assert_eq!(loopback_text(), "127.0.0.1");
}

#[test]
fn send_outcomes_become_events_or_errors() {
    let sent = SendOutcome::Sent { local_addr: "127.0.0.1".to_string(), local_port: 50000, bytes: 11 };
    let l = send_result("10.1.2.3".to_string(), 80, sent).unwrap();
    assert_eq!(l.source_addr, "127.0.0.1");
    assert_eq!(l.source_port, "50000");
    assert_eq!(l.dest_addr, "10.1.2.3");
    assert_eq!(l.dest_port, "80");
    assert_eq!(l.bytes_sent, "11");
    assert_eq!(l.protocol, "TCP");
    assert_eq!(l.file_path, "");
    let c = send_result("h".to_string(), 1, SendOutcome::ConnectFailed).unwrap_err();
    assert_eq!((c.kind.as_str(), c.message.as_str()), ("network", "Unable to Connect"));
    let w = send_result("h".to_string(), 1, SendOutcome::WriteFailed).unwrap_err();
    assert_eq!((w.kind.as_str(), w.message.as_str()), ("network", "Unable to open stream for writing"));
    let l = listener_failed();
    assert_eq!((l.kind.as_str(), l.message.as_str()), ("network", "Unable to Start Server"));
}

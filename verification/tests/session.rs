use uart_capture::session::CaptureSession;
use uart_capture::transport::{
    connect_request, ConnectRequest, LogStep, LogWrite, PollEffect, PollRequest, ReadOutcome,
    ToggleAction, TransportKind, READ_BUFFER_SIZE, SERIAL_BAUD_RATE, SERIAL_READ_TIMEOUT_MS,
};

fn connected(kind: TransportKind, directory: &str) -> CaptureSession {
    let mut session = CaptureSession::new(directory.to_string());
    session.connect_succeeded(kind);
    session
}

fn is_epoch_line(record: &str, payload: &str) -> bool {
    match record.split_once(" >> ") {
        Some((digits, rest)) => {
            !digits.is_empty()
                && digits.chars().all(|c| c.is_ascii_digit())
                && rest == format!("{}\n", payload)
        }
        None => false,
    }
}

#[test]
fn constants_of_the_transports() {
    assert_eq!(SERIAL_BAUD_RATE, 115_200);
    assert_eq!(SERIAL_READ_TIMEOUT_MS, 10);
    assert_eq!(READ_BUFFER_SIZE, 1024);
}

#[test]
fn new_session_is_disconnected_and_ready() {
    let session = CaptureSession::new("C:/jmOS_logs".to_string());
    assert_eq!(session.transport(), None);
    assert!(!session.is_connected());
    assert_eq!(session.log_directory(), "C:/jmOS_logs");
    assert_eq!(session.last_status(), "Ready");
}

#[test]
fn serial_request_has_fixed_baud_rate_and_timeout() {
    assert_eq!(
        connect_request(TransportKind::Serial, "COM3"),
        ConnectRequest::Serial { port_name: "COM3".to_string(), baud_rate: 115_200, timeout_ms: 10 }
    );
}

#[test]
fn network_request_carries_the_address() {
    assert_eq!(
        connect_request(TransportKind::Network, "127.0.0.1:9000"),
        ConnectRequest::Network { address: "127.0.0.1:9000".to_string() }
    );
}

#[test]
fn toggle_while_disconnected_asks_to_open_and_changes_nothing() {
    let mut session = CaptureSession::new("logs".to_string());
    let action = session.toggle(TransportKind::Network, "127.0.0.1:1234");
    assert_eq!(
        action,
        ToggleAction::Open(ConnectRequest::Network { address: "127.0.0.1:1234".to_string() })
    );
    assert_eq!(session.transport(), None);
    assert_eq!(session.last_status(), "Ready");
    assert_eq!(session.log_directory(), "logs");
}

#[test]
fn toggle_while_connected_releases() {
    let mut session = connected(TransportKind::Serial, "logs");
    let action = session.toggle(TransportKind::Network, "127.0.0.1:1234");
    assert_eq!(action, ToggleAction::Release);
    assert_eq!(session.transport(), None);
    assert_eq!(session.last_status(), "Disconnected");
}

#[test]
fn connect_sets_transport_and_status() {
    let serial = connected(TransportKind::Serial, "logs");
    assert_eq!(serial.transport(), Some(TransportKind::Serial));
    assert!(serial.is_connected());
    assert_eq!(serial.last_status(), "Connected to Serial");
    let network = connected(TransportKind::Network, "logs");
    assert_eq!(network.transport(), Some(TransportKind::Network));
    assert_eq!(network.last_status(), "Connected to Renode");
}

#[test]
fn connect_then_disconnect_round_trip() {
    for kind in [TransportKind::Serial, TransportKind::Network] {
        let mut session = CaptureSession::new("logs".to_string());
        let before_request = session.poll_request();
        let before_effect = session.handle_read(&ReadOutcome::Data(vec![1, 2, 3]), 5);
        session.connect_succeeded(kind);
        session.disconnect();
        assert_eq!(session.transport(), None);
        assert!(!session.is_connected());
        assert_eq!(session.log_directory(), "logs");
        assert_eq!(session.last_status(), "Disconnected");
        assert_eq!(session.poll_request(), before_request);
        assert_eq!(session.handle_read(&ReadOutcome::Data(vec![1, 2, 3]), 5), before_effect);
        assert_eq!(session.poll_request(), PollRequest::Idle);
    }
}

#[test]
fn round_trip_from_a_disconnected_status_restores_everything() {
    let mut session = connected(TransportKind::Network, "logs");
    session.disconnect();
    let status = session.last_status().to_string();
    session.connect_succeeded(TransportKind::Serial);
    session.disconnect();
    assert_eq!(session.last_status(), status);
    assert_eq!(session.transport(), None);
    assert_eq!(session.log_directory(), "logs");
}

#[test]
fn disconnect_twice_is_disconnect_once() {
    let mut session = connected(TransportKind::Network, "logs");
    session.disconnect();
    session.disconnect();
    assert_eq!(session.transport(), None);
    assert_eq!(session.last_status(), "Disconnected");
}

#[test]
fn reconnect_with_other_parameters_holds_only_the_new_transport() {
    let mut session = connected(TransportKind::Serial, "logs");
    session.disconnect();
    session.connect_succeeded(TransportKind::Network);
    assert_eq!(session.transport(), Some(TransportKind::Network));
    assert_eq!(
        session.poll_request(),
        PollRequest::Read { kind: TransportKind::Network, nonblocking: true, capacity: 1024 }
    );
    session.disconnect();
    session.connect_succeeded(TransportKind::Serial);
    assert_eq!(session.transport(), Some(TransportKind::Serial));
    assert_eq!(
        session.poll_request(),
        PollRequest::Read { kind: TransportKind::Serial, nonblocking: false, capacity: 1024 }
    );
}

#[test]
fn failed_serial_connect_leaves_the_session_disconnected() {
    let mut session = CaptureSession::new("logs".to_string());
    let action = session.toggle(TransportKind::Serial, "COM_DOES_NOT_EXIST");
    assert_eq!(
        action,
        ToggleAction::Open(ConnectRequest::Serial {
            port_name: "COM_DOES_NOT_EXIST".to_string(),
            baud_rate: 115_200,
            timeout_ms: 10,
        })
    );
    session.connect_failed(TransportKind::Serial, "No such file or directory");
    assert_eq!(session.transport(), None);
    assert!(!session.is_connected());
    assert_eq!(session.last_status(), "Serial Error: No such file or directory");
    assert_eq!(session.poll_request(), PollRequest::Idle);
}

#[test]
fn failed_network_connect_reports_the_cause() {
    let mut session = CaptureSession::new("logs".to_string());
    session.connect_failed(TransportKind::Network, "Connection refused (os error 111)");
    assert_eq!(session.transport(), None);
    assert_eq!(session.last_status(), "TCP Error: Connection refused (os error 111)");
}

#[test]
fn failed_connect_can_be_retried() {
    let mut session = CaptureSession::new("logs".to_string());
    session.connect_failed(TransportKind::Network, "invalid socket address");
    let action = session.toggle(TransportKind::Network, "127.0.0.1:9000");
    assert_eq!(
        action,
        ToggleAction::Open(ConnectRequest::Network { address: "127.0.0.1:9000".to_string() })
    );
    session.connect_succeeded(TransportKind::Network);
    assert_eq!(session.transport(), Some(TransportKind::Network));
}

#[test]
fn port_listing_failure_is_a_status() {
    let mut session = connected(TransportKind::Network, "logs");
    session.port_listing_failed("permission denied");
    assert_eq!(session.last_status(), "Error listing ports: permission denied");
    assert_eq!(session.transport(), Some(TransportKind::Network));
}

#[test]
fn set_log_directory_changes_only_the_directory() {
    let mut session = connected(TransportKind::Serial, "logs");
    session.set_log_directory("D:/captures".to_string());
    assert_eq!(session.log_directory(), "D:/captures");
    assert_eq!(session.transport(), Some(TransportKind::Serial));
    assert_eq!(session.last_status(), "Connected to Serial");
}

#[test]
fn poll_while_disconnected_asks_for_nothing() {
    let session = CaptureSession::new("logs".to_string());
    assert_eq!(session.poll_request(), PollRequest::Idle);
}

#[test]
fn poll_on_network_reasserts_nonblocking_mode() {
    let session = connected(TransportKind::Network, "logs");
    assert_eq!(
        session.poll_request(),
        PollRequest::Read { kind: TransportKind::Network, nonblocking: true, capacity: 1024 }
    );
}

#[test]
fn poll_on_serial_relies_on_the_timeout() {
    let session = connected(TransportKind::Serial, "logs");
    assert_eq!(
        session.poll_request(),
        PollRequest::Read { kind: TransportKind::Serial, nonblocking: false, capacity: 1024 }
    );
}

#[test]
fn read_while_disconnected_has_no_effect() {
    let session = CaptureSession::new("logs".to_string());
    assert_eq!(session.handle_read(&ReadOutcome::Data(b"late".to_vec()), 9), PollEffect::Idle);
    assert_eq!(session.handle_read(&ReadOutcome::WouldBlock, 9), PollEffect::Idle);
    assert_eq!(session.handle_read(&ReadOutcome::TimedOut, 9), PollEffect::Idle);
    assert_eq!(session.handle_read(&ReadOutcome::Failed("gone".to_string()), 9), PollEffect::Idle);
}

#[test]
fn would_block_on_network_is_idle() {
    let session = connected(TransportKind::Network, "logs");
    assert_eq!(session.handle_read(&ReadOutcome::WouldBlock, 9), PollEffect::Idle);
}

#[test]
fn serial_timeout_and_zero_bytes_are_idle() {
    let session = connected(TransportKind::Serial, "logs");
    assert_eq!(session.handle_read(&ReadOutcome::TimedOut, 9), PollEffect::Idle);
    assert_eq!(session.handle_read(&ReadOutcome::Data(Vec::new()), 9), PollEffect::Idle);
}

#[test]
fn failed_read_is_reported_and_keeps_the_transport() {
    let session = connected(TransportKind::Network, "logs");
    let effect = session.handle_read(&ReadOutcome::Failed("Connection reset by peer".to_string()), 9);
    assert_eq!(
        effect,
        PollEffect::Diagnostic("Error reading from connection: Connection reset by peer".to_string())
    );
    assert_eq!(session.transport(), Some(TransportKind::Network));
    assert_eq!(session.last_status(), "Connected to Renode");
    assert_eq!(
        session.handle_read(&ReadOutcome::Data(b"x".to_vec()), 10),
        PollEffect::Append(LogWrite {
            directory: "logs".to_string(),
            path: "logs/uart_log.txt".to_string(),
            record: "10 >> x\n".to_string(),
        })
    );
}

#[test]
fn data_is_logged_with_directory_path_and_record() {
    let session = connected(TransportKind::Serial, "C:/jmOS_logs");
    let effect = session.handle_read(&ReadOutcome::Data(b"boot ok".to_vec()), 1_700_000_000);
    assert_eq!(
        effect,
        PollEffect::Append(LogWrite {
            directory: "C:/jmOS_logs".to_string(),
            path: "C:/jmOS_logs/uart_log.txt".to_string(),
            record: "1700000000 >> boot ok\n".to_string(),
        })
    );
}

#[test]
fn network_peer_sends_hello() {
    let mut session = CaptureSession::new("logs".to_string());
    let action = session.toggle(TransportKind::Network, "127.0.0.1:9000");
    assert_eq!(
        action,
        ToggleAction::Open(ConnectRequest::Network { address: "127.0.0.1:9000".to_string() })
    );
    session.connect_succeeded(TransportKind::Network);
    let effect = session.handle_read(&ReadOutcome::Data(b"hello\n".to_vec()), 1_761_600_000);
    match effect {
        PollEffect::Append(write) => {
            assert_eq!(write.record, "1761600000 >> hello\n\n");
            assert!(is_epoch_line(&write.record, "hello\n"));
            assert!(write.record.starts_with("1761600000 >> hello\n"));
            assert_eq!(write.path, "logs/uart_log.txt");
        }
        other => panic!("expected an append, got {:?}", other),
    }
}

#[test]
fn invalid_bytes_are_logged_with_placeholders() {
    let session = connected(TransportKind::Serial, "logs");
    let effect = session.handle_read(&ReadOutcome::Data(b"a\xffb".to_vec()), 3);
    match effect {
        PollEffect::Append(write) => assert_eq!(write.record, "3 >> a\u{FFFD}b\n"),
        other => panic!("expected an append, got {:?}", other),
    }
}

#[test]
fn each_read_with_data_gives_one_record_in_order() {
    let session = connected(TransportKind::Network, "logs");
    let reads: Vec<(u64, &[u8])> =
        vec![(100, &b"one"[..]), (100, &b"two\n"[..]), (101, &b"\xf0three"[..]), (250, &b"4"[..])];
    let mut log: Vec<String> = vec!["99 >> earlier\n".to_string()];
    for (epoch, bytes) in &reads {
        match session.handle_read(&ReadOutcome::Data(bytes.to_vec()), *epoch) {
            PollEffect::Append(write) => log.push(write.record),
            other => panic!("expected an append, got {:?}", other),
        }
    }
    assert_eq!(
        log,
        vec![
            "99 >> earlier\n".to_string(),
            "100 >> one\n".to_string(),
            "100 >> two\n\n".to_string(),
            "101 >> \u{FFFD}three\n".to_string(),
            "250 >> 4\n".to_string(),
        ]
    );
    let epochs: Vec<u64> = log
        .iter()
        .map(|record| record.split(' ').next().unwrap().parse::<u64>().unwrap())
        .collect();
    assert!(epochs.windows(2).all(|pair| pair[0] <= pair[1]));
}

#[test]
fn idle_reads_between_data_add_nothing() {
    let session = connected(TransportKind::Serial, "logs");
    let outcomes = vec![
        ReadOutcome::TimedOut,
        ReadOutcome::Data(b"a".to_vec()),
        ReadOutcome::Data(Vec::new()),
        ReadOutcome::WouldBlock,
        ReadOutcome::Failed("noise".to_string()),
        ReadOutcome::Data(b"b".to_vec()),
    ];
    let mut appended = 0;
    for (i, outcome) in outcomes.iter().enumerate() {
        if let PollEffect::Append(_) = session.handle_read(outcome, i as u64) {
            appended += 1;
        }
    }
    assert_eq!(appended, 2);
}

#[test]
fn log_entry_names_the_whole_directory_chain() {
    let session = connected(TransportKind::Network, "/tmp/does/not/exist/yet");
    let write = session.log_entry("first", 12);
    assert_eq!(write.directory, "/tmp/does/not/exist/yet");
    assert_eq!(write.path, "/tmp/does/not/exist/yet/uart_log.txt");
    assert_eq!(write.record, "12 >> first\n");
}

#[test]
fn log_entry_follows_a_changed_directory() {
    let mut session = connected(TransportKind::Network, "a");
    session.set_log_directory("b/".to_string());
    let write = session.log_entry("x", 1);
    assert_eq!(write.directory, "b/");
    assert_eq!(write.path, "b/uart_log.txt");
}

#[test]
fn log_failure_is_a_status_and_keeps_the_transport() {
    let mut session = connected(TransportKind::Serial, "logs");
    session.log_failed(LogStep::CreateDirectory, "permission denied");
    assert_eq!(session.last_status(), "Failed to create log directory: permission denied");
    assert_eq!(session.transport(), Some(TransportKind::Serial));
    session.log_failed(LogStep::OpenFile, "is a directory");
    assert_eq!(session.last_status(), "Failed to open log file: is a directory");
    session.log_failed(LogStep::WriteRecord, "disk full");
    assert_eq!(session.last_status(), "Failed to write log data to file: disk full");
    assert_eq!(session.log_directory(), "logs");
    assert_eq!(
        session.poll_request(),
        PollRequest::Read { kind: TransportKind::Serial, nonblocking: false, capacity: 1024 }
    );
}

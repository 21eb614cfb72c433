use uart_capture::selection::{Settings, TargetSelection};
use uart_capture::transport::{ConnectRequest, TransportKind};

#[test]
fn selection_starts_with_the_network_target() {
    let selection = TargetSelection::new();
    assert_eq!(selection.mode(), TransportKind::Network);
    assert_eq!(selection.network_address(), "127.0.0.1:1234");
    assert_eq!(selection.selected_port(), "");
    assert_eq!(selection.port_count(), 0);
    assert_eq!(selection.port_name(0), None);
    assert_eq!(selection.target(), "127.0.0.1:1234");
}

#[test]
fn listing_chooses_the_first_port() {
    let mut selection = TargetSelection::new();
    selection.apply_port_listing(vec!["COM3".to_string(), "COM7".to_string()]);
    assert_eq!(selection.selected_port(), "COM3");
    assert_eq!(selection.port_count(), 2);
    assert_eq!(selection.port_name(0), Some("COM3"));
    assert_eq!(selection.port_name(1), Some("COM7"));
    assert_eq!(selection.port_name(2), None);
}

#[test]
fn empty_listing_keeps_the_chosen_port() {
    let mut selection = TargetSelection::new();
    selection.select_port("COM9".to_string());
    selection.apply_port_listing(Vec::new());
    assert_eq!(selection.selected_port(), "COM9");
    assert_eq!(selection.port_count(), 0);
}

#[test]
fn listing_replaces_an_earlier_choice() {
    let mut selection = TargetSelection::new();
    selection.select_port("COM9".to_string());
    selection.apply_port_listing(vec!["/dev/ttyUSB0".to_string()]);
    assert_eq!(selection.selected_port(), "/dev/ttyUSB0");
}

#[test]
fn target_follows_the_mode() {
    let mut selection = TargetSelection::new();
    selection.select_port("COM4".to_string());
    selection.set_network_address("10.0.0.2:4000".to_string());
    assert_eq!(selection.target(), "10.0.0.2:4000");
    assert_eq!(
        selection.connect_request(),
        ConnectRequest::Network { address: "10.0.0.2:4000".to_string() }
    );
    selection.set_mode(TransportKind::Serial);
    assert_eq!(selection.mode(), TransportKind::Serial);
    assert_eq!(selection.target(), "COM4");
    assert_eq!(
        selection.connect_request(),
        ConnectRequest::Serial { port_name: "COM4".to_string(), baud_rate: 115_200, timeout_ms: 10 }
    );
    assert_eq!(selection.network_address(), "10.0.0.2:4000");
}

#[test]
fn settings_start_with_the_defaults() {
    let settings = Settings::initial();
    assert_eq!(settings.serial_port_name, "COM3");
    assert_eq!(settings.baud_rate, 115_200);
    assert_eq!(settings.log_directory, "C:/jmOS_logs");
}

#[test]
fn settings_take_the_log_directory_of_the_session() {
    let settings = Settings::initial().with_log_directory("D:/captures");
    assert_eq!(
        settings,
        Settings {
            serial_port_name: "COM3".to_string(),
            baud_rate: 115_200,
            log_directory: "D:/captures".to_string(),
        }
    );
}

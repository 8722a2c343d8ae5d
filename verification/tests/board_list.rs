use thingblock_link::grpc::board::{
    board_list_request, count_board_ports, detected_ports_to_targets, normalize_hex_id, port_label, port_pnp_id,
    property, BOARD_LIST_TIMEOUT_MS,
};
use thingblock_link::grpc::cli::{BoardListItem, DetectedPort, Instance, Port};

/// An Uno-shaped serial port: VID 2341 / PID 0043, with a matching board.
fn uno_port() -> DetectedPort {
    DetectedPort {
        matching_boards: vec![BoardListItem {
            name: "Arduino Uno".into(),
            fqbn: "arduino:avr:uno".into(),
        }],
        port: Some(Port {
            address: "/dev/ttyACM0".into(),
            label: "ttyACM0".into(),
            properties: vec![("vid".into(), "0x2341".into()), ("pid".into(), "0x0043".into())],
            ..Default::default()
        }),
    }
}

const UNO_PNPID: &str = "USB\\VID_2341&PID_0043";

#[test]
fn keeps_matching_port_and_uses_board_name_label() {
    let targets = detected_ports_to_targets(&[uno_port()], &[UNO_PNPID.into()]);

    assert_eq!(targets.len(), 1);
    assert_eq!(targets[0].port, "/dev/ttyACM0");
    assert_eq!(targets[0].label, "Arduino Uno");
}

#[test]
fn drops_port_whose_pnpid_is_not_requested() {
    let targets = detected_ports_to_targets(&[uno_port()], &["USB\\VID_FFFF&PID_FFFF".into()]);

    assert!(targets.is_empty());
}

#[test]
fn matches_pnpid_case_insensitively() {
    let targets = detected_ports_to_targets(&[uno_port()], &["usb\\vid_2341&pid_0043".into()]);

    assert_eq!(targets.len(), 1, "match must ignore ASCII case");
}

#[test]
fn skips_port_missing_vid_or_pid() {
    let network_port = DetectedPort {
        matching_boards: vec![],
        port: Some(Port {
            address: "192.168.1.5".into(),
            label: "my-board".into(),
            // No vid/pid properties: cannot form a pnpid.
            ..Default::default()
        }),
    };

    let targets = detected_ports_to_targets(&[network_port], &[UNO_PNPID.into()]);

    assert!(targets.is_empty());
}

#[test]
fn labels_fall_back_to_port_label_then_address() {
    let mut no_board = uno_port();
    no_board.matching_boards.clear();
    let label_fallback = detected_ports_to_targets(&[no_board], &[UNO_PNPID.into()]);
    assert_eq!(label_fallback[0].label, "ttyACM0");

    let mut no_board_no_label = uno_port();
    no_board_no_label.matching_boards.clear();
    no_board_no_label.port.as_mut().unwrap().label = String::new();
    let address_fallback = detected_ports_to_targets(&[no_board_no_label], &[UNO_PNPID.into()]);
    assert_eq!(address_fallback[0].label, "/dev/ttyACM0");
}

#[test]
fn empty_pnpid_filter_matches_nothing() {
    let targets = detected_ports_to_targets(&[uno_port()], &[]);

    assert!(targets.is_empty());
}

#[test]
fn pnp_id_is_rebuilt_from_vid_and_pid() {
    let port = uno_port().port.unwrap();
    assert_eq!(port_pnp_id(&port).as_deref(), Some(UNO_PNPID));

    let only_vid = Port { properties: vec![("vid".into(), "0x2341".into())], ..Default::default() };
    assert_eq!(port_pnp_id(&only_vid), None);

    let lower = Port {
        properties: vec![("pid".into(), "0x00ab".into()), ("vid".into(), "2a03".into())],
        ..Default::default()
    };
    assert_eq!(port_pnp_id(&lower).as_deref(), Some("USB\\VID_2A03&PID_00AB"));
}

#[test]
fn hex_ids_lose_their_prefix_and_are_uppercased() {
    assert_eq!(normalize_hex_id(&"0x2341".into()), "2341");
    assert_eq!(normalize_hex_id(&"0Xabcd".into()), "ABCD");
    assert_eq!(normalize_hex_id(&"abcd".into()), "ABCD");
    assert_eq!(normalize_hex_id(&"0".into()), "0");
    assert_eq!(normalize_hex_id(&"0x".into()), "");
    // Unicode uppercasing, as `str::to_uppercase` does.
    assert_eq!(normalize_hex_id(&"0xß".into()), "SS");
}

#[test]
fn property_lookup_takes_the_first_entry_of_a_key() {
    let props = vec![("vid".to_string(), "1".to_string()), ("vid".to_string(), "2".to_string())];
    assert_eq!(property(&props, &"vid".into()).as_deref(), Some("1"));
    assert_eq!(property(&props, &"pid".into()), None);
}

#[test]
fn empty_board_name_falls_back_to_port_label() {
    let mut unnamed = uno_port();
    unnamed.matching_boards[0].name = String::new();
    let port = unnamed.port.clone().unwrap();
    assert_eq!(port_label(&unnamed, &port), "ttyACM0");
}

#[test]
fn board_count_counts_usb_ports_only() {
    let network_port = DetectedPort {
        matching_boards: vec![],
        port: Some(Port { address: "192.168.1.5".into(), ..Default::default() }),
    };
    let no_port = DetectedPort { matching_boards: vec![], port: None };
    assert_eq!(count_board_ports(&[uno_port(), network_port, no_port, uno_port()]), 2);
    assert_eq!(count_board_ports(&[]), 0);
}

#[test]
fn targets_never_exceed_board_count() {
    let ports = [uno_port(), uno_port()];
    let all = detected_ports_to_targets(&ports, &[UNO_PNPID.into(), "usb\\vid_2341&pid_0043".into()]);
    assert_eq!(all.len(), 2);
    assert!(all.len() <= count_board_ports(&ports));
}

#[test]
fn board_list_request_is_offline_and_short() {
    let req = board_list_request(Instance { id: 3 });
    assert_eq!(req.instance, Some(Instance { id: 3 }));
    assert_eq!(req.timeout, BOARD_LIST_TIMEOUT_MS);
    assert_eq!(req.timeout, 1000);
    assert!(req.fqbn.is_empty());
    assert!(req.skip_cloud_api_for_board_detection);
}

#[test]
fn narrower_filter_keeps_a_subsequence() {
    let mut other = uno_port();
    if let Some(port) = other.port.as_mut() {
        port.address = "/dev/ttyUSB1".into();
        port.properties = vec![("vid".into(), "0x1A86".into()), ("pid".into(), "0x7523".into())];
    }
    let ports = [uno_port(), other];
    let wide = detected_ports_to_targets(&ports, &[UNO_PNPID.into(), "USB\\VID_1A86&PID_7523".into()]);
    let narrow = detected_ports_to_targets(&ports, &["usb\\vid_1a86&pid_7523".into()]);
    assert_eq!(wide.iter().map(|t| t.port.as_str()).collect::<Vec<_>>(), vec!["/dev/ttyACM0", "/dev/ttyUSB1"]);
    assert_eq!(narrow.iter().map(|t| t.port.as_str()).collect::<Vec<_>>(), vec!["/dev/ttyUSB1"]);
}

use rustor::app::Key;
use rustor::networkscan::{
    calculate_cidr, net_info_string, Ip4Addr, NetInfo, NetInterfaces, NetScanApp, NetScanMsg,
    ScanAction,
};

fn iface(name: &str, ip4: Option<Ip4Addr>, nmask: Option<Ip4Addr>, mac: &str) -> NetInfo {
    NetInfo {
        ip4,
        ip6: None,
        nmask,
        mac: mac.to_string(),
        name: name.to_string(),
    }
}

fn two_interfaces() -> NetInterfaces {
    NetInterfaces {
        networks: vec![
            iface(
                "lo",
                Some(Ip4Addr { a: 127, b: 0, c: 0, d: 1 }),
                Some(Ip4Addr { a: 255, b: 0, c: 0, d: 0 }),
                "00:00:00:00:00:00",
            ),
            iface(
                "eth0",
                Some(Ip4Addr { a: 192, b: 168, c: 1, d: 2 }),
                Some(Ip4Addr { a: 255, b: 255, c: 255, d: 0 }),
                "aa:bb:cc:dd:ee:ff",
            ),
        ],
    }
}

#[test]
fn test_cidr() {
    let nmask = Ip4Addr { a: 255, b: 255, c: 255, d: 0 };
    let result = calculate_cidr(nmask);
    assert_eq!(result, 24);
}

#[test]
fn test_cidr_class_a() {
    let nmask = Ip4Addr { a: 255, b: 0, c: 0, d: 0 };
    assert_eq!(calculate_cidr(nmask), 8);
}

#[test]
fn test_cidr_empty_mask() {
    let nmask = Ip4Addr { a: 0, b: 0, c: 0, d: 0 };
    assert_eq!(calculate_cidr(nmask), 0);
}

#[test]
fn test_new_scanner_defaults() {
    let app = NetScanApp::new(two_interfaces());
    assert_eq!(app.info.title, "Netscan");
    assert_eq!(app.selected_interface, 0);
    assert!(!app.current_options.icmp_ping.active);
    assert!(!app.current_options.port_scan.active);
    assert_eq!(app.current_options.names.len(), 2);
    assert_eq!(app.current_options.names[0], "ICMP Ping");
    assert_eq!(app.current_options.names[1], "Port Scan");
}

#[test]
fn test_next_interface_wraps() {
    let mut app = NetScanApp::new(two_interfaces());
    app.next_interface();
    assert_eq!(app.selected_interface, 1);
    app.next_interface();
    assert_eq!(app.selected_interface, 0);
}

#[test]
fn test_interface_names_in_order() {
    let app = NetScanApp::new(two_interfaces());
    assert_eq!(app.interface_names(), vec!["lo".to_string(), "eth0".to_string()]);
}

#[test]
fn test_current_interface_follows_cursor() {
    let mut app = NetScanApp::new(two_interfaces());
    assert_eq!(app.current_interface(), "lo");
    app.next_interface();
    assert_eq!(app.current_interface(), "eth0");
}

#[test]
fn test_selected_interface_info_exact() {
    let mut app = NetScanApp::new(two_interfaces());
    app.next_interface();
    assert_eq!(
        app.selected_interface_info(),
        "IP4: 192.168.1.2\nIP6: N/A\nNetmask: 255.255.255.0\nMAC: aa:bb:cc:dd:ee:ff"
    );
}

#[test]
fn test_net_info_string_without_addresses() {
    let info = iface("down0", None, None, "11:22:33:44:55:66");
    assert_eq!(
        net_info_string(&info),
        "IP4: N/A\nIP6: N/A\nNetmask: N/A\nMAC: 11:22:33:44:55:66"
    );
}

#[test]
fn test_toggle_icmp_option() {
    let mut app = NetScanApp::new(two_interfaces());
    app.set_selected_option();
    assert!(app.current_options.icmp_ping.active);
    assert!(app.options_state.highlighted == Some(0));
    app.set_selected_option();
    assert!(!app.current_options.icmp_ping.active);
}

#[test]
fn test_toggle_only_wired_for_icmp() {
    let mut app = NetScanApp::new(two_interfaces());
    app.next_scan_option();
    app.set_selected_option();
    assert!(!app.current_options.icmp_ping.active);
    assert!(!app.current_options.port_scan.active);
}

#[test]
fn test_scan_option_highlight_cycles() {
    let mut app = NetScanApp::new(two_interfaces());
    app.next_scan_option();
    assert_eq!(app.options_state.highlighted, Some(1));
    app.next_scan_option();
    assert_eq!(app.options_state.highlighted, Some(0));
    app.prev_scan_option();
    assert_eq!(app.options_state.highlighted, Some(1));
}

#[test]
fn test_scan_fires_only_when_icmp_active() {
    let mut app = NetScanApp::new(two_interfaces());
    let msg = app.generate_msg(Key::Char('s')).unwrap();
    let act = app.update(&msg);
    assert_eq!(act, ScanAction::Pass);
    let toggle = app.generate_msg(Key::Char('O')).unwrap();
    app.update(&toggle);
    let act = app.update(&NetScanMsg::Scan);
    assert_eq!(act, ScanAction::IcmpScan);
}

#[test]
fn test_read_interfaces_clamps_cursor() {
    let mut app = NetScanApp::new(two_interfaces());
    app.next_interface();
    assert_eq!(app.selected_interface, 1);
    let one = NetInterfaces {
        networks: vec![iface("only0", None, None, "")],
    };
    app.read_interfaces(one);
    assert_eq!(app.selected_interface, 0);
    assert_eq!(app.interface_names(), vec!["only0".to_string()]);
}

#[test]
fn test_netscan_key_table() {
    let app = NetScanApp::new(two_interfaces());
    assert!(matches!(app.generate_msg(Key::Enter), Some(NetScanMsg::Scan)));
    assert!(matches!(app.generate_msg(Key::Char('i')), Some(NetScanMsg::NextInterface)));
    assert!(matches!(app.generate_msg(Key::Char('o')), Some(NetScanMsg::NextScanOption)));
    assert!(matches!(app.generate_msg(Key::Char('O')), Some(NetScanMsg::ToggleScanOption)));
    assert!(app.generate_msg(Key::Char('x')).is_none());
}

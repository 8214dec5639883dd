use sketchybarrc::events::{event_of_cmd, DaemonCmd, Event};
use sketchybarrc::events::NetworkData as ActionData;
use sketchybarrc::network::{
    airport_ssid, hardware_port_is_wifi, is_protected, order_networks, parse_known_networks,
    parse_scutil, power_is_on, sanitize_ssid, Network, NetworkData, NetworkReads, NetworkRequest,
    NetworkStep, WifiNetwork,
};

fn net(ssid: &str, security: Option<&str>, signal: Option<i32>) -> WifiNetwork {
    WifiNetwork { ssid: ssid.to_string(), security: security.map(|s| s.to_string()), signal }
}

const SCUTIL: &str = "Network information\n\nIPv4 network interface information\n     en0 : flags      : 0x5 (IPv4,DNS)\n           address    : 192.168.1.2\n           reach      : 0x00000002 (Reachable)\n\n   REACH : flags 0x00000002 (Reachable)\n\nIPv6 network interface information\n   No IPv6 states found\n\nNetwork interfaces: en0 utun0\n";

#[test]
fn reads_device_and_address_from_scutil() {
    let (device, ip) = parse_scutil(SCUTIL);
    assert_eq!(device, "en0");
    assert_eq!(ip, "192.168.1.2");
    let (device, ip) = parse_scutil("nothing here\n");
    assert_eq!(device, "");
    assert_eq!(ip, "");
}

#[test]
fn the_first_address_wins() {
    let (_, ip) = parse_scutil("  address : 10.0.0.1\n  address : 10.0.0.2\r\nNetwork interfaces: en1\n");
    assert_eq!(ip, "10.0.0.1");
}

#[test]
fn airport_state() {
    assert_eq!(
        airport_ssid("<dictionary> {\n  BSSID : aa:bb\n  SSID_STR : Home Net\n}\n"),
        Some("Home Net".to_string())
    );
    assert_eq!(airport_ssid("<dictionary> {\n  Power : 1\n}\n"), Some(String::new()));
    assert_eq!(airport_ssid(""), None);
    assert_eq!(airport_ssid("  No such key\n  <no such key>\n"), None);
}

#[test]
fn hardware_ports() {
    let text = "\nHardware Port: Wi-Fi\nDevice: en0\nEthernet Address: aa\n\nHardware Port: Thunderbolt 1\nDevice: en1\n";
    assert!(hardware_port_is_wifi(text, "en0"));
    assert!(!hardware_port_is_wifi(text, "en1"));
    assert!(!hardware_port_is_wifi("Device: en0\n", "en0"));
}

#[test]
fn power_and_connection() {
    assert!(power_is_on("Wi-Fi Power (en0): On\n"));
    assert!(!power_is_on("Wi-Fi Power (en0): Off\n"));
    let d = NetworkData::from_parts("en0".into(), "127.0.0.1".into(), "".into(), true, true);
    assert!(!d.is_connected);
    let d = NetworkData::from_parts("en0".into(), "".into(), "".into(), true, true);
    assert!(!d.is_connected);
    let d = NetworkData::from_parts("en0".into(), "10.0.0.2".into(), "x".into(), true, true);
    assert!(d.is_connected);
    let d = NetworkData::disconnected();
    assert!(!d.is_connected && !d.is_wifi && d.device.is_empty());
}

#[test]
fn bar_icon() {
    let wifi = NetworkData::from_parts("en0".into(), "10.0.0.2".into(), "x".into(), true, true);
    assert_eq!(Network::update_items(&wifi), vec!["--set", "network", "icon=\u{f0928}"]);
    let wired = NetworkData::from_parts("en5".into(), "10.0.0.2".into(), "".into(), false, false);
    assert_eq!(Network::update_items(&wired), vec!["--set", "network", "icon=\u{f0200}"]);
    assert_eq!(
        Network::update_items(&NetworkData::disconnected()),
        vec!["--set", "network", "icon=\u{f092e}"]
    );
}

#[test]
fn strongest_first_one_per_name() {
    let nets = vec![
        net("A", Some("WPA2"), Some(-70)),
        net("B", None, Some(-40)),
        net("A", Some("WPA3"), Some(-30)),
        net("C", None, None),
        net("D", None, Some(-40)),
    ];
    let out = order_networks(nets);
    let names: Vec<&str> = out.iter().map(|n| n.ssid.as_str()).collect();
    assert_eq!(names, vec!["A", "B", "D", "C"]);
    assert_eq!(out[0].security.as_deref(), Some("WPA3"));
    assert_eq!(out[3].signal, None);
}

#[test]
fn ordering_keeps_equal_signals_in_scan_order() {
    let nets = vec![net("x", None, Some(-50)), net("y", None, Some(-50)), net("z", None, Some(-50))];
    let out = order_networks(nets);
    let names: Vec<&str> = out.iter().map(|n| n.ssid.as_str()).collect();
    assert_eq!(names, vec!["x", "y", "z"]);
    assert!(order_networks(vec![]).is_empty());
}

#[test]
fn ordered_list_is_sorted_distinct_and_complete() {
    let nets = vec![
        net("n1", None, Some(-80)),
        net("n2", None, Some(-20)),
        net("n1", None, Some(-10)),
        net("n3", None, None),
        net("n2", None, Some(-90)),
        net("n4", None, Some(-100)),
    ];
    let out = order_networks(nets.clone());
    let key = |n: &WifiNetwork| n.signal.unwrap_or(-100);
    for w in out.windows(2) {
        assert!(key(&w[0]) >= key(&w[1]));
    }
    for (i, a) in out.iter().enumerate() {
        for b in out.iter().skip(i + 1) {
            assert_ne!(a.ssid, b.ssid);
        }
        assert!(nets.contains(a));
    }
    for n in &nets {
        assert!(out.iter().any(|o| o.ssid == n.ssid));
    }
}

#[test]
fn names_and_security() {
    assert_eq!(sanitize_ssid("My Net-5G_x!"), "MyNet5G_x");
    assert!(!is_protected("Open"));
    assert!(!is_protected(""));
    assert!(is_protected("WPA2 Personal"));
}

#[test]
fn known_networks_list() {
    let known = parse_known_networks("Preferred networks on en0:\n\tHome\n\tWork \n\n");
    assert_eq!(known, vec!["Home".to_string(), "Work".to_string()]);
    assert!(parse_known_networks("Preferred networks on en0:\n").is_empty());
}

#[test]
fn a_row_joins_its_network() {
    let cmds = Network::render_single_network(&net("Café Wi", Some("WPA2"), Some(-50)), "en0", "/bin/rc");
    assert_eq!(cmds.len(), 3);
    assert_eq!(cmds[0], vec!["--remove", "network.device.CaféWi"]);
    assert_eq!(cmds[1][..6].to_vec(), vec!["--add", "item", "network.device.CaféWi", "popup.network", "--set", "network.device.CaféWi"]);
    assert!(cmds[1].contains(&"icon=\u{f092a}".to_string()));
    assert!(cmds[1].contains(&"label=Café Wi".to_string()));
    let click = cmds[1].last().unwrap();
    assert!(click.starts_with("click_script=sketchybar --animate sin 10 --set $NAME background.highlight=on; "));
    assert!(click.ends_with(
        "/bin/rc --send '{\"cmd\":\"connect-network\",\"ssid\":\"Café Wi\",\"device\":\"en0\",\"security\":\"WPA2\"}'"
    ));
    assert_eq!(cmds[2], vec!["--subscribe", "network.device.CaféWi", "mouse.entered", "mouse.exited"]);
    let open = Network::render_single_network(&net("Free", None, None), "en0", "/bin/rc");
    assert!(open[1].contains(&"icon=\u{f0928}".to_string()));
}

#[test]
fn known_networks_come_first() {
    let nets = vec![net("x", None, Some(-10)), net("home", None, Some(-60)), net("y", None, Some(-70))];
    let cmds = Network::render_network_list(nets, vec!["home".to_string()], "en0", "/bin/rc");
    assert_eq!(cmds[0], vec!["--remove", "/network\\.device\\..*/", "/network\\.section\\..*/"]);
    let added: Vec<&str> = cmds.iter().filter(|c| c[0] == "--add").map(|c| c[2].as_str()).collect();
    assert_eq!(
        added,
        vec![
            "network.section.known",
            "network.device.home",
            "network.section.other",
            "network.device.x",
            "network.device.y",
        ]
    );
    let header = cmds.iter().find(|c| c[0] == "--add" && c[2] == "network.section.known").unwrap();
    assert!(header.contains(&"label=KNOWN NETWORKS".to_string()));
    assert!(header.contains(&"label.font=JetBrainsMono Nerd Font:Bold:10".to_string()));
    let none_known = Network::render_network_list(vec![net("x", None, None)], vec![], "en0", "/e");
    let added: Vec<&str> = none_known.iter().filter(|c| c[0] == "--add").map(|c| c[2].as_str()).collect();
    assert_eq!(added, vec!["network.section.other", "network.device.x"]);
}

#[test]
fn popup_head_offers_the_opposite_power_state() {
    let on = NetworkData::from_parts("en0".into(), "10.0.0.2".into(), "x".into(), true, true);
    let cmds = Network::popup_head(&on, "/bin/rc");
    assert_eq!(cmds[0], vec!["--remove", "/network\\.device\\..*/", "/network\\.section\\..*/", "network.toggle", "network.loading"]);
    assert!(cmds[2].contains(&"icon=\u{f0928}".to_string()));
    assert!(cmds[2].contains(&"label=Wi-Fi".to_string()));
    assert!(cmds[2].last().unwrap().ends_with("{\"cmd\":\"toggle-wifi-power\",\"device\":\"en0\",\"state\":\"off\"}'"));
    let off = NetworkData::from_parts("en0".into(), "".into(), "".into(), true, false);
    let cmds = Network::popup_head(&off, "/bin/rc");
    assert!(cmds[2].contains(&"icon=\u{f092b}".to_string()));
    assert!(cmds[2].last().unwrap().ends_with("\"state\":\"on\"}'"));
}

#[test]
fn scanning_and_setup() {
    let cmds = Network::scanning_row();
    assert_eq!(cmds[1][..4].to_vec(), vec!["--add", "item", "network.loading", "popup.network"]);
    assert!(cmds[1].contains(&"label=Scanning…".to_string()));
    let cmds = Network::setup("/bin/rc");
    assert_eq!(cmds.len(), 3);
    assert!(cmds[1].contains(&"script=/bin/rc --update-network".to_string()));
    assert!(cmds[1].contains(&"update_freq=10".to_string()));
    assert_eq!(cmds[2], vec!["--subscribe", "network", "wifi_change"]);
}

#[test]
fn requests_from_actions() {
    let r = Network::request_of(&ActionData { action: "toggle-power:off".into(), ssid: Some("en0".into()) });
    assert_eq!(r, NetworkRequest::TogglePower { device: "en0".into(), state: "off".into() });
    let r = Network::request_of(&ActionData { action: "toggle-power".into(), ssid: None });
    assert_eq!(r, NetworkRequest::Ignore);
    let r = Network::request_of(&ActionData { action: "toggle-power:".into(), ssid: None });
    assert_eq!(r, NetworkRequest::TogglePower { device: "".into(), state: "".into() });
    let r = Network::request_of(&ActionData { action: "connect:WPA2 Personal:en0".into(), ssid: Some("Home".into()) });
    assert_eq!(
        r,
        NetworkRequest::Connect { ssid: "Home".into(), security: "WPA2 Personal".into(), device: Some("en0".into()) }
    );
    let r = Network::request_of(&ActionData { action: "connect:Open".into(), ssid: Some("Cafe".into()) });
    assert_eq!(r, NetworkRequest::Connect { ssid: "Cafe".into(), security: "Open".into(), device: None });
}

#[test]
fn password_prompt_quotes_the_name() {
    assert_eq!(
        Network::password_prompt("Home"),
        "display dialog \"Enter password for Wi-Fi \\\"Home\\\":\" default answer \"\" with hidden answer"
    );
}

#[test]
fn probing_a_wifi_interface() {
    let mut reads = NetworkReads { nwi: SCUTIL.to_string(), local_ip: None, airport: None, ports: None, power: None };
    assert_eq!(Network::next_step(&reads), NetworkStep::ReadAirPort { device: "en0".to_string() });
    reads.airport = Some("<dictionary> {\n  SSID_STR : Cafe\n}\n".to_string());
    assert_eq!(Network::next_step(&reads), NetworkStep::ReadPower { device: "en0".to_string() });
    reads.power = Some("Wi-Fi Power (en0): On\n".to_string());
    match Network::next_step(&reads) {
        NetworkStep::Done(d) => {
            assert_eq!((d.device.as_str(), d.ip.as_str(), d.ssid.as_str()), ("en0", "192.168.1.2", "Cafe"));
            assert!(d.is_connected && d.is_wifi && d.is_wifi_on);
        }
        other => panic!("unexpected step {:?}", other),
    }
}

#[test]
fn probing_a_wired_interface_and_no_interface() {
    let mut reads = NetworkReads {
        nwi: "Network interfaces: en5\n".to_string(),
        local_ip: None,
        airport: None,
        ports: None,
        power: None,
    };
    assert_eq!(Network::next_step(&reads), NetworkStep::ReadLocalIp);
    reads.local_ip = Some(Some("10.1.1.1".to_string()));
    assert_eq!(Network::next_step(&reads), NetworkStep::ReadAirPort { device: "en5".to_string() });
    reads.airport = Some("  <no such key>\n".to_string());
    assert_eq!(Network::next_step(&reads), NetworkStep::ReadHardwarePorts);
    reads.ports = Some("Hardware Port: Thunderbolt Ethernet\nDevice: en5\n".to_string());
    assert_eq!(
        Network::next_step(&reads),
        NetworkStep::Done(NetworkData::from_parts("en5".into(), "10.1.1.1".into(), "".into(), false, false))
    );
    let none = NetworkReads { nwi: "".to_string(), local_ip: Some(None), airport: None, ports: None, power: None };
    assert_eq!(Network::next_step(&none), NetworkStep::Done(NetworkData::disconnected()));
}

#[test]
fn daemon_actions_decode_back() {
    let cmd = DaemonCmd::ConnectNetwork { ssid: "Home:5G".into(), device: "en0".into(), security: "WPA2".into() };
    match event_of_cmd(cmd) {
        Some(Event::NetworkAction(d)) => assert_eq!(
            Network::request_of(&d),
            NetworkRequest::Connect { ssid: "Home:5G".into(), security: "WPA2".into(), device: Some("en0".into()) }
        ),
        other => panic!("unexpected {:?}", other),
    }
    match event_of_cmd(DaemonCmd::ToggleWifiPower { device: "en0".into(), state: "off".into() }) {
        Some(Event::NetworkAction(d)) => assert_eq!(
            Network::request_of(&d),
            NetworkRequest::TogglePower { device: "en0".into(), state: "off".into() }
        ),
        other => panic!("unexpected {:?}", other),
    }
}

#[test]
fn equal_signals_keep_scan_order_after_sorting() {
    let nets = vec![net("a", None, Some(-50)), net("b", None, Some(-20)), net("c", None, Some(-50))];
    let out = order_networks(nets);
    let names: Vec<&str> = out.iter().map(|n| n.ssid.as_str()).collect();
    assert_eq!(names, vec!["b", "a", "c"]);
}

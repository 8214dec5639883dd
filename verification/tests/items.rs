use sketchybarrc::apple::{divider, menu_item, Apple};
use sketchybarrc::config::{default_args, main_bar};
use sketchybarrc::events::{daemon_send_script, escape_quotes, event_of_cmd, DaemonCmd, Event};
use sketchybarrc::item::ItemBuilder;
use sketchybarrc::simple_items::{
    focused_workspace, handle_command, parse_i32, Clock, Cpu, ItemCommand, Weather, Window,
    Workspaces,
};

fn chars(s: &str) -> Vec<char> {
    s.chars().collect()
}

#[test]
fn weather_text() {
    assert_eq!(Weather::fetch(Some("  +12°C \n")).temp, "+12°C");
    assert_eq!(Weather::fetch(Some("Unknown location; please try ~53.3,-6.2")).temp, "N/A");
    assert_eq!(Weather::fetch(Some("ERROR: 503")).temp, "N/A");
    assert_eq!(Weather::fetch(Some("   ")).temp, "N/A");
    assert_eq!(Weather::fetch(None).temp, "N/A");
    assert_eq!(Weather::update_command(Some("-3°C")), vec!["--set", "weather", "label=-3°C"]);
    let cmds = Weather::setup("/bin/rc");
    assert!(cmds[1].contains(&"update_freq=300".to_string()));
    assert!(cmds[1].contains(&"click_script=open 'https://weather.com'".to_string()));
}

#[test]
fn clock_update() {
    let cmds = Clock::update_command("Mon 01 Jan 10:00".into(), "Monday, 01 Jan 2024".into(), "09:00".into());
    assert_eq!(
        cmds,
        vec![
            vec!["--set", "clock", "label=Mon 01 Jan 10:00"],
            vec!["--set", "clock.date", "label=Monday, 01 Jan 2024"],
            vec!["--set", "clock.utc", "label=09:00"],
        ]
    );
    assert_eq!(Clock::fetch("a".into(), "b".into(), "c".into()).icon, "\u{f017}");
    let setup = Clock::setup("/bin/rc");
    assert_eq!(setup.len(), 6);
    assert_eq!(setup[3], vec!["--add", "item", "clock.date", "popup.clock", "--set", "clock.date", "position=popup.clock", "icon=Date:", "label=Loading..."]);
}

#[test]
fn cpu_label() {
    assert_eq!(Cpu::update_items("12"), vec!["--set", "cpu", "label=12%"]);
    let cmds = Cpu::setup();
    assert!(cmds[1].contains(&"icon=\u{f4bc}".to_string()));
}

#[test]
fn window_title_width() {
    assert_eq!(
        Window::update_command("Safari | Apple\n"),
        vec!["--animate", "circ", "14", "--set", "window_title", "width=150", "label=Safari | Apple"]
    );
    assert_eq!(
        Window::update_command(""),
        vec!["--animate", "circ", "14", "--set", "window_title", "width=22", "label="]
    );
    assert_eq!(
        Window::update_command("aerospace error: no window"),
        vec!["--animate", "circ", "14", "--set", "window_title", "width=22", "label=aerospace error: no window"]
    );
    let setup = Window::setup("/bin/rc");
    assert_eq!(setup[0], vec!["--add", "event", "aerospace_focus_changed"]);
    assert!(setup[2].contains(&"script=/bin/rc --update-window".to_string()));
}

#[test]
fn workspaces() {
    assert_eq!(focused_workspace(None, " workspace.3\n"), "3");
    assert_eq!(focused_workspace(Some("workspace.workspace.7"), ""), "7");
    assert_eq!(focused_workspace(Some(" 4"), "9"), " 4");
    assert_eq!(parse_i32(&chars("3")), Some(3));
    assert_eq!(parse_i32(&chars("-2147483648")), Some(i32::MIN));
    assert_eq!(parse_i32(&chars("+7")), Some(7));
    assert_eq!(parse_i32(&chars("-+7")), None);
    assert_eq!(parse_i32(&chars("2147483648")), None);
    assert_eq!(parse_i32(&chars("")), None);
    let cmds = Workspaces::update_command("3");
    assert_eq!(cmds.len(), 9);
    assert_eq!(cmds[2], vec!["--set", "workspace.3", "background.color=0xffcba6f7", "icon.color=0xff11111b"]);
    assert_eq!(cmds[0], vec!["--set", "workspace.1", "background.color=0xff45475a", "icon.color=0xffcdd6f4"]);
    let none = Workspaces::update_command("x");
    assert!(none.iter().all(|c| c[2] == "background.color=0xff45475a"));
    let setup = Workspaces::setup("/bin/rc");
    assert_eq!(setup.len(), 21);
    assert!(setup[1].contains(&"script=/bin/rc --update-workspaces".to_string()));
    assert!(!setup[3].iter().any(|w| w.starts_with("script=")));
    assert!(setup[3].contains(&"click_script=aerospace workspace 2 && /bin/rc --update-workspaces".to_string()));
    assert_eq!(setup[20], vec!["--subscribe", "workspace.1", "aerospace_workspace_change", "space_change", "workspace_change"]);
}

#[test]
fn command_line_flags() {
    assert_eq!(handle_command("--update-clock"), Some(ItemCommand::UpdateClock));
    assert_eq!(handle_command("--update-bluetooth"), Some(ItemCommand::UpdateBluetooth));
    assert_eq!(handle_command("--update-keyboard-layout"), Some(ItemCommand::UpdateKeyboardLayout));
    assert_eq!(handle_command("--update-window"), None);
    assert_eq!(handle_command("--daemon"), None);
}

#[test]
fn apple_menu() {
    let item = menu_item("apple.sleep", "Sleep", "pmset displaysleepnow");
    assert_eq!(item.name, "apple.sleep");
    let div = divider("apple.div1");
    assert_eq!(div.name, "apple.div1");
    let cmds = Apple::setup();
    assert_eq!(cmds.len(), 2 * 14 + 9);
    assert_eq!(cmds[cmds.len() - 1], vec!["--subscribe", "apple.logout", "mouse.entered", "mouse.exited", "mouse.exited.global"]);
    let sleep_add = cmds.iter().find(|c| c[0] == "--add" && c[2] == "apple.sleep").unwrap();
    assert!(sleep_add.contains(&"click_script=sketchybar --animate sin 15 --set apple.logo popup.drawing=off && pmset displaysleepnow".to_string()));
    assert!(sleep_add.contains(&"label=Sleep".to_string()));
    let logo = &cmds[1];
    assert!(logo.contains(&"popup.blur_radius=30".to_string()));
    assert!(logo.contains(&"popup.background.color=0xb21e1e2e".to_string()));
}

#[test]
fn bar_and_defaults() {
    let bar = main_bar();
    assert_eq!(bar.height, 28);
    assert_eq!(bar.corner_radius, 21);
    assert_eq!(bar.color.render(), "0xff1e1e2e");
    assert_eq!(bar.notch_width, 200);
    assert!(bar.sticky);
    let d = default_args();
    assert_eq!(d.len(), 15);
    assert_eq!(d[1], "icon.color=0xffcdd6f4");
    assert_eq!(d[10], "background.color=0xff313244");
    assert_eq!(d[14], "label.highlight_color=0xffcba6f7");
}

#[test]
fn daemon_messages() {
    let e = event_of_cmd(DaemonCmd::ToggleWifiPower { device: "en0".into(), state: "off".into() });
    match e {
        Some(Event::NetworkAction(d)) => {
            assert_eq!(d.action, "toggle-power:off");
            assert_eq!(d.ssid.as_deref(), Some("en0"));
        }
        other => panic!("unexpected {:?}", other),
    }
    let e = event_of_cmd(DaemonCmd::ConnectNetwork { ssid: "Home".into(), device: "en0".into(), security: "WPA2".into() });
    match e {
        Some(Event::NetworkAction(d)) => {
            assert_eq!(d.action, "connect:WPA2:en0");
            assert_eq!(d.ssid.as_deref(), Some("Home"));
        }
        other => panic!("unexpected {:?}", other),
    }
    assert_eq!(event_of_cmd(DaemonCmd::UpdateNetworkPopup), Some(Event::UpdateNetwork));
    assert_eq!(event_of_cmd(DaemonCmd::UpdateBluetoothPopup { scan: true }), Some(Event::UpdateBluetooth { scan: true }));
    match event_of_cmd(DaemonCmd::ToggleBluetoothDevice { address: "aa".into() }) {
        Some(Event::BluetoothAction(d)) => {
            assert_eq!(d.action, "toggle");
            assert_eq!(d.address.as_deref(), Some("aa"));
        }
        other => panic!("unexpected {:?}", other),
    }
    assert_eq!(event_of_cmd(DaemonCmd::Shutdown), None);
}

#[test]
fn send_scripts_carry_the_message_as_json() {
    assert_eq!(
        daemon_send_script("/bin/rc", &DaemonCmd::UpdateNetworkPopup),
        "/bin/rc --send '{\"cmd\":\"update-network-popup\"}'"
    );
    assert_eq!(
        daemon_send_script("/bin/rc", &DaemonCmd::UpdateBluetoothPopup { scan: true }),
        "/bin/rc --send '{\"cmd\":\"update-bluetooth-popup\",\"scan\":true}'"
    );
    assert_eq!(
        daemon_send_script("/e", &DaemonCmd::ConnectNetwork { ssid: "Bob's".into(), device: "en0".into(), security: "Open".into() }),
        "/e --send '{\"cmd\":\"connect-network\",\"ssid\":\"Bob'\\''s\",\"device\":\"en0\",\"security\":\"Open\"}'"
    );
    assert_eq!(escape_quotes("a'b"), "a'\\''b");
    assert_eq!(escape_quotes("plain"), "plain");
    assert_eq!(daemon_send_script("/e", &DaemonCmd::Shutdown), "/e --send '{\"cmd\":\"shutdown\"}'");
}

#[test]
fn builders_change_one_setting() {
    let item = sketchybarrc::item::BarItem::new("x").width(5).padding_left(3).y_offset(-2);
    assert_eq!(item.set(), vec!["--set", "x", "y_offset=-2", "padding_left=3", "width=5"]);
}

#[test]
fn escaped_quotes_read_back_by_a_shell_reader() {
    // Read the body of a single-quoted word as the shell does for `'\''` groups.
    fn unquote(t: &str) -> Option<String> {
        let mut out = String::new();
        let mut rest = t;
        while let Some(c) = rest.chars().next() {
            if c == '\'' {
                rest = rest.strip_prefix("'\\''")?;
                out.push('\'');
            } else {
                out.push(c);
                rest = &rest[c.len_utf8()..];
            }
        }
        Some(out)
    }
    for s in ["", "'", "''", "it's", "a'b'c", "no quotes", "\\'"] {
        assert_eq!(unquote(&escape_quotes(s)), Some(s.to_string()));
    }
    assert_eq!(escape_quotes("''"), "'\\'''\\''");
}

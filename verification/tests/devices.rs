use sketchybarrc::battery::{battery_icon, battery_status, cycle_count, pmset_percentage, Battery};
use sketchybarrc::bluetooth::{
    connected_count, render_device_list, render_single_device, strip_separators, Bluetooth,
    BluetoothDevice,
};
use sketchybarrc::keyboard_layout::{
    keyboard_name_to_code, layout_code_from_plist, source_id_to_code, KeyboardLayout,
};
use sketchybarrc::types::ToSketchybarArgs;

const PMSET: &str = "Now drawing from 'Battery Power'\n -InternalBattery-0 (id=4653155)\t85%; discharging; 4:20 remaining present: true\n";

#[test]
fn keyboard_codes_from_source_ids() {
    assert_eq!(source_id_to_code("com.apple.inputmethod.Korean.2SetKorean"), "KO");
    assert_eq!(source_id_to_code("com.apple.keylayout.Ukrainian"), "UA");
    assert_eq!(source_id_to_code("com.apple.inputmethod.Kotoeri.RomajiTyping.Japanese"), "JA");
    assert_eq!(source_id_to_code("com.apple.inputmethod.SCIM.ITABC"), "ZH");
    assert_eq!(source_id_to_code("com.apple.inputmethod.VietnameseIM"), "VI");
    assert_eq!(source_id_to_code("com.apple.keylayout.US"), "US");
    assert_eq!(source_id_to_code("com.apple.keylayout.ABC."), "EN");
    assert_eq!(source_id_to_code("com.apple.keylayout.colemak"), "CO");
    assert_eq!(source_id_to_code("..."), "..");
}

#[test]
fn keyboard_codes_from_layout_names() {
    assert_eq!(keyboard_name_to_code("U.S."), "EN");
    assert_eq!(keyboard_name_to_code("British - PC"), "EN");
    assert_eq!(keyboard_name_to_code("Austrian"), "DE");
    assert_eq!(keyboard_name_to_code("Finnish"), "FI");
    assert_eq!(keyboard_name_to_code("Norwegian"), "NO");
    assert_eq!(keyboard_name_to_code("swiss"), "SW");
    assert_eq!(keyboard_name_to_code("x"), "X");
    assert_eq!(keyboard_name_to_code("Czech"), "CZ");
    assert_eq!(keyboard_name_to_code("Ukrainian"), "UA");
    assert_eq!(keyboard_name_to_code(""), "");
}

#[test]
fn keyboard_code_from_plist_history() {
    let layout = "Dict {\n    InputSourceKind = Keyboard Layout\n    KeyboardLayout ID = 17\n    KeyboardLayout Name = Finnish\n}\n";
    assert_eq!(layout_code_from_plist(layout), "FI");
    let ime = "Dict {\n    Bundle ID = com.apple.inputmethod.Kotoeri\n    Input Mode = com.apple.inputmethod.Japanese.Katakana\n    InputSourceKind = Input Mode\n}\n";
    assert_eq!(layout_code_from_plist(ime), "JA");
    assert_eq!(layout_code_from_plist("Dict {\n}\n"), "??");
    assert_eq!(KeyboardLayout::fetch(None).name, "??");
    assert_eq!(KeyboardLayout::fetch(Some(layout)).name, "FI");
}

#[test]
fn keyboard_update_prefers_the_notification() {
    assert_eq!(
        KeyboardLayout::update_command(Some("com.apple.keylayout.German"), None),
        vec!["--set", "keyboard_layout", "label=DE"]
    );
    let layout = "    KeyboardLayout Name = Polish Pro\n";
    assert_eq!(
        KeyboardLayout::update_command(Some(""), Some(layout)),
        vec!["--set", "keyboard_layout", "label=PL"]
    );
    let cmds = KeyboardLayout::setup("/bin/rc");
    assert_eq!(cmds.len(), 4);
    assert!(cmds[1].contains(&"script=/bin/rc --update-keyboard-layout".to_string()));
    assert_eq!(cmds[2], vec!["--add", "event", "keyboard_layout_change"]);
    assert_eq!(cmds[3], vec!["--subscribe", "keyboard_layout", "keyboard_layout_change"]);
}

#[test]
fn battery_readings() {
    assert_eq!(pmset_percentage(PMSET), Some(85));
    assert_eq!(pmset_percentage("Now drawing from 'AC Power'\n"), None);
    assert_eq!(pmset_percentage("x\n -InternalBattery-0\t300%; charging\n"), None);
    assert_eq!(battery_status(PMSET, "", "", ""), "Discharging");
    assert_eq!(battery_status("Now drawing from 'AC Power'\n", "", "", ""), "AC Power");
    assert_eq!(battery_status("", "", "", ""), "Unknown");
    assert_eq!(battery_status(PMSET, "  \"IsCharging\" = Yes\n", "", ""), "Charging");
    assert_eq!(battery_status(PMSET, "", "power_source_change", "AC"), "Charging");
    assert_eq!(battery_status("AC Power", "", "power_source_change", "Battery"), "Discharging");
    assert_eq!(cycle_count("  \"DesignCycleCount9C\" = 1000\n  \"CycleCount\" = 123\n"), Some(123));
    assert_eq!(cycle_count(""), None);
    assert_eq!(cycle_count("  \"CycleCount\" = many\n"), None);
}

#[test]
fn battery_icons_by_charge() {
    assert_eq!(battery_icon(Some(96), false), "\u{f0079}");
    assert_eq!(battery_icon(Some(95), false), "\u{f0082}");
    assert_eq!(battery_icon(Some(55), false), "\u{f007e}");
    assert_eq!(battery_icon(Some(10), false), "\u{f008e}");
    assert_eq!(battery_icon(Some(100), true), "\u{f0085}");
    assert_eq!(battery_icon(Some(21), true), "\u{f0086}");
    assert_eq!(battery_icon(Some(0), true), "\u{f089f}");
    assert_eq!(battery_icon(None, true), "\u{f1e6}");
}

#[test]
fn battery_item_and_popup() {
    let b = Battery::fetch(PMSET, "  \"CycleCount\" = 42\n", "", "", Some(91), Some("7.5".to_string()));
    assert_eq!(b.percentage, Some(85));
    assert_eq!(b.status, "Discharging");
    assert_eq!(b.icon, "\u{f0081}");
    assert_eq!(b.cycle_count, Some(42));
    let args: Vec<String> = b.to_sketchybar_args().iter().map(|p| p.render()).collect();
    assert_eq!(args, vec!["icon=\u{f0081}", "label=85%", "drawing=on"]);
    let labels = Battery::popup_labels(&b);
    assert_eq!(labels[0], vec!["--set", "battery.status", "label=Discharging"]);
    assert_eq!(labels[1], vec!["--set", "battery.wattage", "label=7.5W"]);
    assert_eq!(labels[2], vec!["--set", "battery.health", "label=91% (42 cycles)"]);
    let ac = Battery::fetch("AC Power", "", "", "", None, None);
    let args: Vec<String> = ac.to_sketchybar_args().iter().map(|p| p.render()).collect();
    assert_eq!(args[1], "label=AC");
    let labels = Battery::popup_labels(&ac);
    assert_eq!(labels[1], vec!["--set", "battery.wattage", "label=0.0W"]);
    assert_eq!(labels[2], vec!["--set", "battery.health", "label=100% (0 cycles)"]);
    let setup = Battery::setup("/bin/rc", &b);
    assert_eq!(setup[2], vec!["--subscribe", "battery", "system_woke", "power_source_change"]);
    assert_eq!(
        setup[1],
        vec![
            "--add", "item", "battery", "right", "--set", "battery", "drawing=on", "position=right",
            "background.drawing=on", "background.color=0xff313244", "update_freq=60", "updates=on",
            "script=/bin/rc --update-battery", "click_script=sketchybar --set battery popup.drawing=toggle",
            "popup.align=center", "popup.background.color=0xff1e1e2e", "popup.background.border_color=0xff45475a",
            "popup.background.border_width=2", "popup.background.corner_radius=8",
        ]
    );
    assert_eq!(
        setup[4],
        vec!["--add", "item", "battery.status", "right", "--set", "battery.status", "position=right", "icon=Status:", "update_freq=0", "updates=on"]
    );
    assert_eq!(setup[5], vec!["--set", "battery.status", "position=popup.battery"]);
    assert_eq!(setup.len(), 16);
}

fn device(name: &str, address: &str, connected: bool, nearby: bool, kind: Option<&str>) -> BluetoothDevice {
    BluetoothDevice {
        name: name.to_string(),
        address: address.to_string(),
        connected,
        is_nearby: nearby,
        device_type: kind.map(|k| k.to_string()),
    }
}

#[test]
fn bluetooth_bar_item() {
    let ds = vec![
        device("Buds", "aa:bb", true, false, Some("Headphones")),
        device("Mouse", "cc-dd", false, false, Some("Mouse")),
        device("Kbd", "ee:ff", true, false, None),
    ];
    assert_eq!(connected_count(&ds), 2);
    assert_eq!(
        Bluetooth::update(true, &ds),
        vec!["--set", "bluetooth", "icon=\u{f00b1}", "label=2", "label.drawing=on"]
    );
    assert_eq!(
        Bluetooth::update(true, &vec![]),
        vec!["--set", "bluetooth", "icon=\u{f293}", "label.drawing=off"]
    );
    assert_eq!(
        Bluetooth::update(false, &ds[1..].to_vec()),
        vec!["--set", "bluetooth", "icon=\u{f00b2}", "label=1", "label.drawing=on"]
    );
    assert_eq!(
        Bluetooth::update(false, &ds[1..2].to_vec()),
        vec!["--set", "bluetooth", "icon=\u{f00b2}", "label.drawing=off"]
    );
}

#[test]
fn bluetooth_rows() {
    assert_eq!(strip_separators("AA:BB-CC"), "AABBCC");
    let cmds = render_single_device(&device("Buds", "aa:bb", true, false, Some("Headset")), true, "/bin/rc");
    assert_eq!(cmds[0], vec!["--remove", "bluetooth.device.aabb"]);
    assert!(cmds[1].contains(&"icon=\u{f00b1}".to_string()));
    assert!(cmds[1].contains(&"label=Buds | Connected".to_string()));
    assert!(cmds[1].last().unwrap().ends_with("--send '{\"cmd\":\"toggle-bluetooth-device\",\"address\":\"aa:bb\"}'"));
    let cmds = render_single_device(&device("Pad", "11", false, false, Some("Trackpad")), true, "/e");
    assert!(cmds[1].contains(&"icon=\u{f07e1}".to_string()));
    assert!(cmds[1].contains(&"label=Pad | Not Connected".to_string()));
    let cmds = render_single_device(&device("Thing", "22", false, true, None), false, "/e");
    assert_eq!(cmds[1][2], "bluetooth.section.nearby");
    assert!(cmds[3].contains(&"icon=\u{f15ff}".to_string()));
    assert!(cmds[3].contains(&"label=Thing | Nearby".to_string()));
    let list = render_device_list(&vec![device("A", "1", false, false, None)], &vec![], "/e");
    let added: Vec<&str> = list.iter().filter(|c| c[0] == "--add").map(|c| c[2].as_str()).collect();
    assert_eq!(added, vec!["bluetooth.section.paired", "bluetooth.device.1"]);
    assert_eq!(list[0], vec!["--remove", "/bluetooth\\.device\\..*/", "bluetooth.section.*"]);
}

#[test]
fn bluetooth_scan_decisions() {
    assert!(Bluetooth::scan_continues(Some("on")));
    assert!(!Bluetooth::scan_continues(Some("off")));
    assert!(!Bluetooth::scan_continues(None));
    assert_eq!(Bluetooth::next_spinner(5), 0);
    assert_eq!(Bluetooth::next_spinner(2), 3);
    assert_eq!(Bluetooth::spinner_frame(1), vec!["--set", "bluetooth.loading", "icon=\u{ee07}"]);
    let d = Bluetooth::nearby_device(None, "x".to_string());
    assert_eq!(d.name, "Unknown Device");
    assert!(d.is_nearby && !d.connected);
    assert!(Bluetooth::is_new_device(&vec![], "x"));
    assert!(!Bluetooth::is_new_device(&vec![d], "x"));
    assert!(Bluetooth::swift_toggle_script("aa-bb").contains("let address = \"aa-bb\"\n"));
    assert_eq!(
        Bluetooth::toggle_feedback("aa:bb"),
        vec!["--set", "bluetooth.device.aabb", "label=Processing...", "label.color=0xfffab387"]
    );
    let cmds = Bluetooth::setup("/bin/rc");
    assert!(cmds[1].contains(&"update_freq=5".to_string()));
    let rows = Bluetooth::searching_row();
    assert_eq!(rows[2], vec!["--set", "bluetooth.loading", "before=/.*/"]);
}

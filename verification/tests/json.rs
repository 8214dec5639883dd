use sketchybarrc::bluetooth::bluetooth_status;
use sketchybarrc::json::{parse_json, popup_drawing, JsonValue};
use sketchybarrc::network::airport_networks;

#[test]
fn parses_json_values() {
    let v = parse_json(br#"{"b": true, "n": -3, "f": 1.5, "s": "x", "a": [null], "o": {}}"#).unwrap();
    match v {
        JsonValue::Object(es) => {
            let keys: Vec<&str> = es.iter().map(|(k, _)| k.as_str()).collect();
            assert_eq!(keys, vec!["b", "n", "f", "s", "a", "o"]);
            assert!(matches!(es[0].1, JsonValue::Bool(true)));
            assert!(matches!(es[1].1, JsonValue::Number(Some(-3))));
            assert!(matches!(es[2].1, JsonValue::Number(None)));
        }
        other => panic!("not an object: {:?}", other),
    }
    assert!(parse_json(b"{not json").is_none());
}

#[test]
fn reads_the_popup_state() {
    let v = parse_json(br#"{"name": "bluetooth", "popup": {"drawing": "on", "items": []}}"#).unwrap();
    assert_eq!(popup_drawing(&v), Some("on".to_string()));
    let v = parse_json(br#"{"popup": {"drawing": 1}}"#).unwrap();
    assert_eq!(popup_drawing(&v), None);
    assert_eq!(popup_drawing(&parse_json(b"[]").unwrap()), None);
}

const BT: &[u8] = br#"{"SPBluetoothDataType": [
  {"controller_properties": {"controller_state": "attrib_off"},
   "device_connected": [{"Buds": {"device_address": "AA:BB", "device_minorType": "Headphones"}}],
   "device_not_connected": [{"Mouse": {"device_address": "CC:DD"}, "Ghost": {"no_address": 1}},
                            {"Kbd": {"device_address": "EE:FF", "device_minorType": 5}}]},
  {"controller_properties": {"controller_state": "attrib_on"}},
  {"controller_properties": {"other": 1}}
]}"#;

#[test]
fn reads_bluetooth_status() {
    let (on, ds) = bluetooth_status(&parse_json(BT).unwrap());
    assert!(on);
    let names: Vec<&str> = ds.iter().map(|d| d.name.as_str()).collect();
    assert_eq!(names, vec!["Buds", "Mouse", "Kbd"]);
    assert!(ds[0].connected && !ds[1].connected && !ds[2].connected);
    assert_eq!(ds[0].device_type.as_deref(), Some("Headphones"));
    assert_eq!(ds[1].device_type, None);
    assert_eq!(ds[2].device_type, None);
    assert_eq!(ds[1].address, "CC:DD");
    assert!(ds.iter().all(|d| !d.is_nearby));
    let (on, ds) = bluetooth_status(&parse_json(br#"{"other": 1}"#).unwrap());
    assert!(!on && ds.is_empty());
}

const AIR: &[u8] = br#"{"SPAirPortDataType": [{"spairport_airport_interfaces": [
  {"_name": "awdl0", "spairport_network_list": [{"_name": "Other"}]},
  {"_name": "en0", "spairport_network_list": [
    {"_name": "Home", "spairport_network_security": "WPA2", "spairport_network_signal_strength": -60},
    {"_name": "Cafe", "spairport_network_signal_strength": -40},
    {"_name": "Home", "spairport_network_signal_strength": -30},
    {"_name": "Bad", "spairport_network_signal_strength": 1.5},
    {"no_name": true},
    ["Tuple", null, -50]
  ]}
]}]}"#;

#[test]
fn reads_networks_in_range() {
    let ns = airport_networks(&parse_json(AIR).unwrap(), "en0");
    let names: Vec<&str> = ns.iter().map(|n| n.ssid.as_str()).collect();
    assert_eq!(names, vec!["Home", "Cafe", "Tuple"]);
    assert_eq!(ns[0].signal, Some(-30));
    assert_eq!(ns[0].security, None);
    assert!(airport_networks(&parse_json(AIR).unwrap(), "en9").is_empty());
}

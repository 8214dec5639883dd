//! The bluetooth item: the icon and count of connected devices, the popup
//! listing paired and nearby devices, and the decisions of the nearby scan.

use vstd::prelude::*;
use crate::api::{
    add_special_item, cmd_view, cmds_view, set_texts, spec_set_cmd, spec_set_texts_cmd,
    spec_special_cmds,
};
use crate::events::{daemon_send_script, spec_send_text, spec_toggle_device_fields, DaemonCmd};
use crate::item::{BarItem, ItemBuilder};
use crate::json::{get, get_opt, spec_elems, spec_get, spec_get_opt, spec_str, JsonValue};
use crate::network::{section_header, spec_header_cmds};
use crate::pieces::dec_u32;
use crate::props::{BackgroundProps, Geometry, ItemProps, PopupProps, ScriptType, Text};
use crate::strs::{str_chars};
use crate::style::ItemStyle;
use crate::text::{concat2, push_char, spec_dec, str_eq, string_from_chars, string_of};
use crate::themes::{catppuccin_mocha, spec_catppuccin_mocha};
use crate::types::{
    spec_argb_text, Argb, ComponentPosition, PopupAlign, PropView, ToSketchybarArgs, ToggleState,
    WidthMode,
};

verus! {

/// A bluetooth device, paired or found nearby.
#[derive(Debug, Clone, PartialEq, Eq)]
pub struct BluetoothDevice {
    pub name: String,
    pub address: String,
    pub connected: bool,
    pub is_nearby: bool,
    pub device_type: Option<String>,
}

/// The number of connected devices.
pub open spec fn spec_connected_count(ds: Seq<BluetoothDevice>) -> nat
    decreases ds.len(),
{
    if ds.len() == 0 {
        0
    } else {
        spec_connected_count(ds.drop_last()) + if ds.last().connected {
            1nat
        } else {
            0nat
        }
    }
}

// ----- reading `system_profiler SPBluetoothDataType -json` ---------------------------

/// Whether bluetooth is on: the last data element whose controller state is
/// a string decides (on when it is `attrib_on`); off when none has one.
pub open spec fn spec_bt_on(ds: Seq<JsonValue>) -> bool
    decreases ds.len(),
{
    if ds.len() == 0 {
        false
    } else {
        match spec_str(spec_get_opt(spec_get(ds.last(), "controller_properties"@), "controller_state"@)) {
            Some(s) => s@ == "attrib_on"@,
            None => spec_bt_on(ds.drop_last()),
        }
    }
}

/// The device an entry `name: info` describes, when the info has an address.
pub open spec fn spec_info_device(name: String, info: JsonValue, connected: bool) -> Seq<BluetoothDevice> {
    match spec_str(spec_get(info, "device_address"@)) {
        Some(a) => seq![
            BluetoothDevice {
                name,
                address: a,
                connected,
                is_nearby: false,
                device_type: spec_str(spec_get(info, "device_minorType"@)),
            },
        ],
        None => seq![],
    }
}

/// The devices of an object's entries, in order.
pub open spec fn spec_map_devices(es: Seq<(String, JsonValue)>, connected: bool) -> Seq<BluetoothDevice>
    decreases es.len(),
{
    if es.len() == 0 {
        seq![]
    } else {
        spec_map_devices(es.drop_last(), connected) + spec_info_device(es.last().0, es.last().1, connected)
    }
}

/// The devices of a list's objects, in order.
pub open spec fn spec_list_devices(xs: Seq<JsonValue>, connected: bool) -> Seq<BluetoothDevice>
    decreases xs.len(),
{
    if xs.len() == 0 {
        seq![]
    } else {
        spec_list_devices(xs.drop_last(), connected) + match xs.last() {
            JsonValue::Object(es) => spec_map_devices(es@, connected),
            _ => seq![],
        }
    }
}

/// The devices of one data element: the connected ones, then the others.
pub open spec fn spec_data_devices(d: JsonValue) -> Seq<BluetoothDevice> {
    spec_list_devices(spec_elems(spec_get(d, "device_connected"@)), true) + spec_list_devices(
        spec_elems(spec_get(d, "device_not_connected"@)),
        false,
    )
}

/// The devices of all data elements, in order.
pub open spec fn spec_all_devices(ds: Seq<JsonValue>) -> Seq<BluetoothDevice>
    decreases ds.len(),
{
    if ds.len() == 0 {
        seq![]
    } else {
        spec_all_devices(ds.drop_last()) + spec_data_devices(ds.last())
    }
}

/// The data elements of the report.
pub open spec fn spec_bt_data(json: JsonValue) -> Seq<JsonValue> {
    spec_elems(spec_get(json, "SPBluetoothDataType"@))
}

fn map_devices(es: &Vec<(String, JsonValue)>, connected: bool, out: &mut Vec<BluetoothDevice>)
    ensures
        final(out)@ == old(out)@ + spec_map_devices(es@, connected),
{
    let mut i: usize = 0;
    while i < es.len()
        invariant
            i <= es@.len(),
            out@ == old(out)@ + spec_map_devices(es@.subrange(0, i as int), connected),
        decreases es@.len() - i,
    {
        let ghost before = out@;
        let info = &es[i].1;
        match get(info, "device_address") {
            Some(JsonValue::Str(a)) => {
                let device_type = match get(info, "device_minorType") {
                    Some(JsonValue::Str(t)) => Some(t.clone()),
                    _ => None,
                };
                out.push(
                    BluetoothDevice {
                        name: es[i].0.clone(),
                        address: a.clone(),
                        connected,
                        is_nearby: false,
                        device_type,
                    },
                );
            },
            _ => {},
        }
        let ghost sub = es@.subrange(0, i + 1);
        assert(sub.drop_last() =~= es@.subrange(0, i as int));
        assert(sub.last() == es@[i as int]);
        assert(out@ =~= before + spec_info_device(es@[i as int].0, es@[i as int].1, connected));
        i = i + 1;
    }
    assert(es@.subrange(0, i as int) =~= es@);
}

fn list_devices(v: Option<&JsonValue>, connected: bool, out: &mut Vec<BluetoothDevice>)
    ensures
        final(out)@ == old(out)@ + spec_list_devices(
            spec_elems(
                match v {
                    Some(x) => Some(*x),
                    None => None,
                },
            ),
            connected,
        ),
{
    match v {
        Some(JsonValue::Array(xs)) => {
            let mut i: usize = 0;
            while i < xs.len()
                invariant
                    i <= xs@.len(),
                    out@ == old(out)@ + spec_list_devices(xs@.subrange(0, i as int), connected),
                decreases xs@.len() - i,
            {
                let ghost before = out@;
                match &xs[i] {
                    JsonValue::Object(es) => map_devices(es, connected, out),
                    _ => {},
                }
                let ghost sub = xs@.subrange(0, i + 1);
                assert(sub.drop_last() =~= xs@.subrange(0, i as int));
                assert(sub.last() == xs@[i as int]);
                assert(out@ =~= before + match xs@[i as int] {
                    JsonValue::Object(es) => spec_map_devices(es@, connected),
                    _ => seq![],
                });
                i = i + 1;
            }
            assert(xs@.subrange(0, i as int) =~= xs@);
        },
        _ => {
            assert(out@ =~= old(out)@ + Seq::<BluetoothDevice>::empty());
        },
    }
}

/// Whether bluetooth is on, and the paired devices (connected ones of each
/// data element first), read from `system_profiler SPBluetoothDataType -json`.
pub fn bluetooth_status(json: &JsonValue) -> (r: (bool, Vec<BluetoothDevice>))
    ensures
        r.0 == spec_bt_on(spec_bt_data(*json)),
        r.1@ == spec_all_devices(spec_bt_data(*json)),
{
    let mut devices: Vec<BluetoothDevice> = Vec::new();
    let mut is_on = false;
    match get(json, "SPBluetoothDataType") {
        Some(JsonValue::Array(ds)) => {
            let mut i: usize = 0;
            while i < ds.len()
                invariant
                    i <= ds@.len(),
                    is_on == spec_bt_on(ds@.subrange(0, i as int)),
                    devices@ == spec_all_devices(ds@.subrange(0, i as int)),
                decreases ds@.len() - i,
            {
                let d = &ds[i];
                let ghost sub = ds@.subrange(0, i + 1);
                assert(sub.drop_last() =~= ds@.subrange(0, i as int));
                assert(sub.last() == ds@[i as int]);
                match get_opt(get(d, "controller_properties"), "controller_state") {
                    Some(JsonValue::Str(state)) => {
                        is_on = str_eq(state.as_str(), "attrib_on");
                    },
                    _ => {},
                }
                let ghost before = devices@;
                list_devices(get(d, "device_connected"), true, &mut devices);
                list_devices(get(d, "device_not_connected"), false, &mut devices);
                assert(devices@ =~= before + spec_data_devices(ds@[i as int]));
                i = i + 1;
            }
            assert(ds@.subrange(0, i as int) =~= ds@);
        },
        _ => {},
    }
    (is_on, devices)
}

/// Counts the connected devices.
pub fn connected_count(ds: &Vec<BluetoothDevice>) -> (r: usize)
    ensures
        r == spec_connected_count(ds@),
        r <= ds@.len(),
{
    let mut n: usize = 0;
    let mut i: usize = 0;
    while i < ds.len()
        invariant
            i <= ds@.len(),
            n == spec_connected_count(ds@.subrange(0, i as int)),
            n <= i,
        decreases ds@.len() - i,
    {
        assert(ds@.subrange(0, i + 1).drop_last() =~= ds@.subrange(0, i as int));
        if ds[i].connected {
            n = n + 1;
        }
        i = i + 1;
    }
    assert(ds@.subrange(0, i as int) =~= ds@);
    n
}

/// The bar icon: off, some device connected, or on.
pub open spec fn spec_bluetooth_icon(is_on: bool, count: nat) -> Seq<char> {
    if !is_on {
        "󰂲"@
    } else if count > 0 {
        "󰂱"@
    } else {
        "\u{f293}"@
    }
}

/// The bar item after an update: its icon, and the number of connected
/// devices as its label, drawn only when there is one.
pub open spec fn spec_bluetooth_update_props(p: ItemProps, is_on: bool, count: nat) -> bool {
    &&& p.geometry == Geometry::spec_empty()
    &&& (p.icon.icon matches Some(s) && s@ == spec_bluetooth_icon(is_on, count))
    &&& p.icon.props is None
    &&& (count > 0 ==> (p.label.label matches Some(s) && s@ == spec_dec(count)))
    &&& (count == 0 ==> p.label.label is None)
    &&& p.label.props == Some(
        Text {
            drawing: Some(if count > 0 {
                ToggleState::On
            } else {
                ToggleState::Off
            }),
            ..Text::spec_empty()
        },
    )
    &&& p.scripting == crate::props::Scripting::spec_empty()
    &&& p.text is None
    &&& p.popup is None
}

/// The commands that add the rows of the given devices, in order.
pub open spec fn spec_devices_cmds(ds: Seq<BluetoothDevice>, paired: bool, exe_path: Seq<char>) -> Seq<
    Seq<Seq<char>>,
>
    decreases ds.len(),
{
    if ds.len() == 0 {
        seq![]
    } else {
        spec_devices_cmds(ds.drop_last(), paired, exe_path) + spec_device_cmds(
            ds.last(),
            paired,
            exe_path,
        )
    }
}

/// `address` without `:` and `-`.
pub open spec fn spec_strip_separators(address: Seq<char>) -> Seq<char>
    decreases address.len(),
{
    if address.len() == 0 {
        seq![]
    } else if address.last() == ':' || address.last() == '-' {
        spec_strip_separators(address.drop_last())
    } else {
        spec_strip_separators(address.drop_last()).push(address.last())
    }
}

/// Removes `:` and `-` from an address.
pub fn strip_separators(address: &str) -> (r: String)
    ensures
        r@ == spec_strip_separators(address@),
{
    let cs = str_chars(address);
    let mut out: Vec<char> = Vec::new();
    let mut i: usize = 0;
    while i < cs.len()
        invariant
            i <= cs@.len(),
            cs@ == address@,
            out@ == spec_strip_separators(address@.subrange(0, i as int)),
        decreases cs@.len() - i,
    {
        assert(address@.subrange(0, i + 1).drop_last() =~= address@.subrange(0, i as int));
        if cs[i] != ':' && cs[i] != '-' {
            out.push(cs[i]);
        }
        i = i + 1;
    }
    assert(address@.subrange(0, i as int) =~= address@);
    string_from_chars(out.as_slice())
}

/// The item name of a device's row.
pub open spec fn spec_device_name(address: Seq<char>) -> Seq<char> {
    "bluetooth.device."@ + spec_strip_separators(address)
}

/// The type of a device, when known.
pub open spec fn spec_type(d: BluetoothDevice) -> Option<Seq<char>> {
    match d.device_type {
        Some(t) => Some(t@),
        None => None,
    }
}

/// The icon of a device: connected, else by its type, else nearby or paired.
pub open spec fn spec_device_icon(d: BluetoothDevice) -> Seq<char> {
    if d.connected {
        "󰂱"@
    } else if spec_type(d) == Some("Headset"@) || spec_type(d) == Some("Headphones"@) {
        "󰋋"@
    } else if spec_type(d) == Some("Mouse"@) {
        "󰍽"@
    } else if spec_type(d) == Some("Keyboard"@) {
        "󰌌"@
    } else if spec_type(d) == Some("Trackpad"@) {
        "󰟡"@
    } else if d.is_nearby {
        "󱗿"@
    } else {
        "󰂯"@
    }
}

/// A connected device shows the link glyph whatever its type. Otherwise the
/// type decides: headsets and headphones alike show the headphone glyph, a
/// mouse, a keyboard and a trackpad each their own; a device of another or no
/// type shows the nearby glyph when nearby and the paired glyph when not.
pub proof fn lemma_device_icon_table(d: BluetoothDevice)
    ensures
        d.connected ==> spec_device_icon(d) == "\u{f00b1}"@,
        !d.connected && (spec_type(d) == Some("Headset"@) || spec_type(d) == Some("Headphones"@))
            ==> spec_device_icon(d) == "\u{f02cb}"@,
        !d.connected && spec_type(d) == Some("Mouse"@) ==> spec_device_icon(d) == "\u{f037d}"@,
        !d.connected && spec_type(d) == Some("Keyboard"@) ==> spec_device_icon(d) == "\u{f030c}"@,
        !d.connected && spec_type(d) == Some("Trackpad"@) ==> spec_device_icon(d) == "\u{f07e1}"@,
        !d.connected && spec_type(d) != Some("Headset"@) && spec_type(d) != Some("Headphones"@)
            && spec_type(d) != Some("Mouse"@) && spec_type(d) != Some("Keyboard"@) && spec_type(d)
            != Some("Trackpad"@) ==> spec_device_icon(d) == (if d.is_nearby {
            "\u{f15ff}"@
        } else {
            "\u{f00af}"@
        }),
{
    reveal_strlit("Headset");
    reveal_strlit("Headphones");
    reveal_strlit("Mouse");
    reveal_strlit("Keyboard");
    reveal_strlit("Trackpad");
    assert("Headset"@.len() == 7 && "Headphones"@.len() == 10 && "Mouse"@.len() == 5);
    assert("Keyboard"@[0] == 'K' && "Trackpad"@[0] == 'T' && "Headset"@[0] == 'H');
}

/// The icon color: blue when connected, yellow when nearby, dimmed otherwise.
pub open spec fn spec_device_icon_color(d: BluetoothDevice) -> Argb {
    if d.connected {
        spec_catppuccin_mocha().blue
    } else if d.is_nearby {
        spec_catppuccin_mocha().yellow
    } else {
        spec_catppuccin_mocha().overlay0
    }
}

/// The status shown after the name.
pub open spec fn spec_device_status(d: BluetoothDevice) -> Seq<char> {
    if d.connected {
        "Connected"@
    } else if d.is_nearby {
        "Nearby"@
    } else {
        "Not Connected"@
    }
}

/// The label color: plain text when connected, dimmed otherwise.
pub open spec fn spec_device_label_color(d: BluetoothDevice) -> Argb {
    if d.connected {
        spec_catppuccin_mocha().text
    } else {
        spec_catppuccin_mocha().overlay2
    }
}

/// The click script of a device's row: a short highlight, then the message
/// that connects or disconnects the device.
pub open spec fn spec_device_click(d: BluetoothDevice, exe_path: Seq<char>) -> Seq<char> {
    "sketchybar --set $NAME background.highlight=on; sleep 0.1; sketchybar --set $NAME background.highlight=off; "@
        + spec_send_text(exe_path, spec_toggle_device_fields(d.address@))
}

/// The settings of a device's row, in the order sketchybar receives them.
pub open spec fn spec_device_args(d: BluetoothDevice, exe_path: Seq<char>) -> Seq<PropView> {
    seq![
        ("width"@, spec_dec(320)),
        ("background."@ + "drawing"@, "on"@),
        ("background."@ + "color"@, spec_argb_text(spec_catppuccin_mocha().transparent)),
        ("background."@ + "height"@, spec_dec(36)),
        ("background."@ + "corner_radius"@, spec_dec(8)),
        ("icon"@, spec_device_icon(d)),
        ("icon."@ + "color"@, spec_argb_text(spec_device_icon_color(d))),
        ("label"@, d.name@ + " | "@ + spec_device_status(d)),
        ("label."@ + "color"@, spec_argb_text(spec_device_label_color(d))),
        ("click_script"@, spec_device_click(d, exe_path)),
    ]
}

/// The commands that add a device's row (after the nearby header, for a
/// device that is not paired) to the popup.
pub open spec fn spec_device_cmds(d: BluetoothDevice, paired: bool, exe_path: Seq<char>) -> Seq<
    Seq<Seq<char>>,
> {
    (if paired {
        Seq::<Seq<Seq<char>>>::empty()
    } else {
        spec_nearby_header_cmds()
    }) + spec_special_cmds(
        "item"@,
        spec_device_name(d.address@),
        Some("popup."@ + "bluetooth"@),
        spec_device_args(d, exe_path),
    )
}

/// The header of the nearby devices.
pub open spec fn spec_nearby_header_cmds() -> Seq<Seq<Seq<char>>> {
    spec_header_cmds("bluetooth"@, "bluetooth.section.nearby"@, "NEARBY DEVICES"@, 12, 320)
}

proof fn lemma_device_args(p: ItemProps, d: BluetoothDevice, click: Seq<char>)
    requires
        p.geometry == (Geometry {
            width: Some(WidthMode::Value(320)),
            background: Some(
                BackgroundProps {
                    color: Some(spec_catppuccin_mocha().transparent),
                    height: Some(36),
                    drawing: Some(ToggleState::On),
                    corner_radius: Some(8),
                    ..BackgroundProps::spec_empty()
                },
            ),
            ..Geometry::spec_empty()
        }),
        p.icon.icon matches Some(s) && s@ == spec_device_icon(d),
        p.icon.props == Some(Text { color: Some(spec_device_icon_color(d)), ..Text::spec_empty() }),
        p.label.label matches Some(s) && s@ == d.name@ + " | "@ + spec_device_status(d),
        p.label.props == Some(
            Text { color: Some(spec_device_label_color(d)), ..Text::spec_empty() },
        ),
        p.scripting.script is None,
        p.scripting.update_freq is None,
        p.scripting.updates is None,
        p.scripting.mach_helper is None,
        p.scripting.click_script matches Some(ScriptType::String(s)) && s@ == click,
        p.text is None,
        p.popup is None,
    ensures
        p.spec_args() == seq![
            ("width"@, spec_dec(320)),
            ("background."@ + "drawing"@, "on"@),
            ("background."@ + "color"@, spec_argb_text(spec_catppuccin_mocha().transparent)),
            ("background."@ + "height"@, spec_dec(36)),
            ("background."@ + "corner_radius"@, spec_dec(8)),
            ("icon"@, spec_device_icon(d)),
            ("icon."@ + "color"@, spec_argb_text(spec_device_icon_color(d))),
            ("label"@, d.name@ + " | "@ + spec_device_status(d)),
            ("label."@ + "color"@, spec_argb_text(spec_device_label_color(d))),
            ("click_script"@, click),
        ],
{
    reveal(ItemProps::spec_args_at);
    let bg = p.geometry.background.unwrap();
    assert(bg.spec_args() =~= seq![
        ("drawing"@, "on"@),
        ("color"@, spec_argb_text(spec_catppuccin_mocha().transparent)),
        ("height"@, spec_dec(36)),
        ("corner_radius"@, spec_dec(8)),
    ]);
    assert(p.geometry.spec_args_at(None) =~= seq![
        ("width"@, spec_dec(320)),
        ("background."@ + "drawing"@, "on"@),
        ("background."@ + "color"@, spec_argb_text(spec_catppuccin_mocha().transparent)),
        ("background."@ + "height"@, spec_dec(36)),
        ("background."@ + "corner_radius"@, spec_dec(8)),
    ]);
    assert(p.icon.props.unwrap().spec_args() =~= seq![
        ("color"@, spec_argb_text(spec_device_icon_color(d))),
    ]);
    assert(p.label.props.unwrap().spec_args() =~= seq![
        ("color"@, spec_argb_text(spec_device_label_color(d))),
    ]);
    assert(p.scripting.spec_args() =~= seq![("click_script"@, click)]);
    assert(p.spec_args() =~= seq![
        ("width"@, spec_dec(320)),
        ("background."@ + "drawing"@, "on"@),
        ("background."@ + "color"@, spec_argb_text(spec_catppuccin_mocha().transparent)),
        ("background."@ + "height"@, spec_dec(36)),
        ("background."@ + "corner_radius"@, spec_dec(8)),
        ("icon"@, spec_device_icon(d)),
        ("icon."@ + "color"@, spec_argb_text(spec_device_icon_color(d))),
        ("label"@, d.name@ + " | "@ + spec_device_status(d)),
        ("label."@ + "color"@, spec_argb_text(spec_device_label_color(d))),
        ("click_script"@, click),
    ]);
}

fn type_is(d: &BluetoothDevice, t: &str) -> (r: bool)
    ensures
        r == (spec_type(*d) == Some(t@)),
{
    match &d.device_type {
        Some(x) => str_eq(x.as_str(), t),
        None => false,
    }
}

/// Adds the header of the nearby devices.
pub fn render_nearby_header() -> (r: Vec<Vec<String>>)
    ensures
        cmds_view(r@) == spec_nearby_header_cmds(),
{
    section_header("bluetooth", "bluetooth.section.nearby", "NEARBY DEVICES", 12, 320)
}

/// Adds a device's row to the popup; a device that is not paired first
/// gets the nearby header.
pub fn render_single_device(device: &BluetoothDevice, is_paired: bool, exe_path: &str) -> (r: Vec<
    Vec<String>,
>)
    ensures
        cmds_view(r@) == spec_device_cmds(*device, is_paired, exe_path@),
{
    let theme = catppuccin_mocha();
    let name = concat2("bluetooth.device.", strip_separators(device.address.as_str()).as_str());
    let mut cmds: Vec<Vec<String>> = Vec::new();
    if !is_paired {
        cmds = render_nearby_header();
    }
    let ghost head = cmds_view(cmds@);
    let icon = if device.connected {
        "󰂱"
    } else if type_is(device, "Headset") || type_is(device, "Headphones") {
        "󰋋"
    } else if type_is(device, "Mouse") {
        "󰍽"
    } else if type_is(device, "Keyboard") {
        "󰌌"
    } else if type_is(device, "Trackpad") {
        "󰟡"
    } else if device.is_nearby {
        "󱗿"
    } else {
        "󰂯"
    };
    let icon_color = if device.connected {
        theme.blue
    } else if device.is_nearby {
        theme.yellow
    } else {
        theme.overlay0
    };
    let status = if device.connected {
        "Connected"
    } else if device.is_nearby {
        "Nearby"
    } else {
        "Not Connected"
    };
    let label_color = if device.connected {
        theme.text
    } else {
        theme.overlay2
    };
    let toggle = daemon_send_script(
        exe_path,
        &DaemonCmd::ToggleBluetoothDevice { address: device.address.clone() },
    );
    let click = concat2(
        "sketchybar --set $NAME background.highlight=on; sleep 0.1; sketchybar --set $NAME background.highlight=off; ",
        toggle.as_str(),
    );
    assert(click@ == spec_device_click(*device, exe_path@));
    let mut label = concat2(device.name.as_str(), " | ");
    label.append(status);
    let item = BarItem::new(name.as_str()).icon(icon).icon_color(icon_color).label(
        label.as_str(),
    ).label_color(label_color).width(320).background_color(theme.transparent).background_height(
        36,
    ).background_drawing(ToggleState::On).background_corner_radius(8).click_script(
        click.as_str(),
    );
    proof {
        lemma_device_args(item.props, *device, click@);
        assert(item.props.spec_args() =~= spec_device_args(*device, exe_path@));
    }
    let mut row = add_special_item(
        "item",
        name.as_str(),
        Some(ComponentPosition::Popup(string_of("bluetooth"))),
        &item,
    );
    let ghost vr = cmds_view(row@);
    cmds.append(&mut row);
    assert(cmds_view(cmds@) =~= head + vr);
    cmds
}

/// The commands that rebuild the popup: remove the old rows and headers,
/// then the paired devices under their header, then the nearby devices
/// (each after a nearby header) when there are any.
pub open spec fn spec_device_list_cmds(
    paired: Seq<BluetoothDevice>,
    nearby: Seq<BluetoothDevice>,
    exe_path: Seq<char>,
) -> Seq<Seq<Seq<char>>> {
    seq![seq!["--remove"@, "/bluetooth\\.device\\..*/"@, "bluetooth.section.*"@]]
        + spec_header_cmds("bluetooth"@, "bluetooth.section.paired"@, "MY DEVICES"@, 12, 320)
        + spec_devices_cmds(paired, true, exe_path) + if nearby.len() > 0 {
        spec_nearby_header_cmds() + spec_devices_cmds(nearby, false, exe_path)
    } else {
        seq![]
    }
}

fn devices_cmds(ds: &Vec<BluetoothDevice>, paired: bool, exe_path: &str) -> (r: Vec<Vec<String>>)
    ensures
        cmds_view(r@) == spec_devices_cmds(ds@, paired, exe_path@),
{
    let mut cmds: Vec<Vec<String>> = Vec::new();
    let mut i: usize = 0;
    assert(cmds_view(cmds@) =~= spec_devices_cmds(ds@.subrange(0, 0), paired, exe_path@));
    while i < ds.len()
        invariant
            i <= ds@.len(),
            cmds_view(cmds@) == spec_devices_cmds(ds@.subrange(0, i as int), paired, exe_path@),
        decreases ds@.len() - i,
    {
        let mut more = render_single_device(&ds[i], paired, exe_path);
        let ghost before = cmds_view(cmds@);
        let ghost vm = cmds_view(more@);
        cmds.append(&mut more);
        assert(ds@.subrange(0, i + 1).drop_last() =~= ds@.subrange(0, i as int));
        assert(cmds_view(cmds@) =~= before + vm);
        i = i + 1;
    }
    assert(ds@.subrange(0, i as int) =~= ds@);
    cmds
}

/// Rebuilds the popup with the paired and the nearby devices.
pub fn render_device_list(paired: &Vec<BluetoothDevice>, nearby: &Vec<BluetoothDevice>, exe_path: &str) -> (r: Vec<
    Vec<String>,
>)
    ensures
        cmds_view(r@) == spec_device_list_cmds(paired@, nearby@, exe_path@),
{
    let mut c: Vec<String> = Vec::new();
    c.push(string_of("--remove"));
    c.push(string_of("/bluetooth\\.device\\..*/"));
    c.push(string_of("bluetooth.section.*"));
    let mut cmds: Vec<Vec<String>> = Vec::new();
    cmds.push(c);
    let mut h = section_header("bluetooth", "bluetooth.section.paired", "MY DEVICES", 12, 320);
    let mut rows = devices_cmds(paired, true, exe_path);
    let ghost (vh, vr) = (cmds_view(h@), cmds_view(rows@));
    cmds.append(&mut h);
    cmds.append(&mut rows);
    assert(cmd_view(c) =~= seq!["--remove"@, "/bluetooth\\.device\\..*/"@, "bluetooth.section.*"@]);
    let ghost head = cmds_view(cmds@);
    assert(head =~= seq![cmd_view(c)] + vh + vr);
    if nearby.len() > 0 {
        let mut nh = render_nearby_header();
        let mut nr = devices_cmds(nearby, false, exe_path);
        let ghost (vnh, vnr) = (cmds_view(nh@), cmds_view(nr@));
        cmds.append(&mut nh);
        cmds.append(&mut nr);
        assert(cmds_view(cmds@) =~= head + vnh + vnr);
    } else {
        assert(cmds_view(cmds@) =~= head + Seq::<Seq<Seq<char>>>::empty());
    }
    cmds
}

/// The bluetooth item after an update.
pub open spec fn spec_bluetooth_update(is_on: bool, ds: Seq<BluetoothDevice>, r: Seq<Seq<char>>) -> bool {
    exists|p: ItemProps|
        spec_bluetooth_update_props(p, is_on, spec_connected_count(ds)) && r == spec_set_cmd(
            "bluetooth"@,
            p.spec_args(),
        )
}

/// The bar item.
pub struct Bluetooth;

impl Bluetooth {
    /// The command that shows the power state and the number of connected
    /// devices on the bar item.
    pub fn update(is_on: bool, devices: &Vec<BluetoothDevice>) -> (r: Vec<String>)
        ensures
            spec_bluetooth_update(is_on, devices@, cmd_view(r)),
    {
        let count = connected_count(devices);
        let icon = if !is_on {
            "󰂲"
        } else if count > 0 {
            "󰂱"
        } else {
            "\u{f293}"
        };
        let item = BarItem::new("bluetooth").icon(icon).label_drawing(ToggleState::Off);
        let item = if count > 0 {
            let n = crate::text::dec_u64(count as u64);
            item.label(n.as_str()).label_drawing(ToggleState::On)
        } else {
            item
        };
        assert(spec_bluetooth_update_props(item.props, is_on, spec_connected_count(devices@)));
        item.set()
    }
}

/// The AppleScript-free Swift program that connects the device at `address`
/// when it is disconnected and disconnects it otherwise.
pub open spec fn spec_swift_toggle(address: Seq<char>) -> Seq<char> {
    "\nimport IOBluetooth\nlet address = \""@ + address
        + "\"\nguard let device = IOBluetoothDevice(addressString: address) else {\n    exit(1) \n}\nif device.isConnected() { device.closeConnection() } else { device.openConnection() }\n"@
}

/// The glyph of each frame of the scanning spinner.
pub open spec fn spec_spinner(i: int) -> Seq<char> {
    if i == 0 {
        "\u{ee06}"@
    } else if i == 1 {
        "\u{ee07}"@
    } else if i == 2 {
        "\u{ee08}"@
    } else if i == 3 {
        "\u{ee09}"@
    } else if i == 4 {
        "\u{ee0a}"@
    } else {
        "\u{ee0b}"@
    }
}

/// The searching indicator: a yellow refresh icon over a dimmed italic label.
pub open spec fn spec_searching_props(p: ItemProps) -> bool {
    let mocha = spec_catppuccin_mocha();
    &&& p.geometry == (Geometry { width: Some(WidthMode::Value(320)), ..Geometry::spec_empty() })
    &&& (p.icon.icon matches Some(s) && s@ == "󰑐"@)
    &&& p.icon.props == Some(Text { color: Some(mocha.yellow), ..Text::spec_empty() })
    &&& (p.label.label matches Some(s) && s@ == "Searching for nearby devices..."@)
    &&& p.label.props is Some
    &&& p.label.props.unwrap() == (Text {
        color: Some(mocha.subtext0),
        font: p.label.props.unwrap().font,
        ..Text::spec_empty()
    })
    &&& p.label.props.unwrap().font is Some
    &&& p.label.props.unwrap().font.unwrap().spec_text() == crate::types::spec_nerd_font_text(
        crate::types::FontStyle::Italic,
        "11"@,
    )
    &&& p.scripting == crate::props::Scripting::spec_empty()
    &&& p.text is None
    &&& p.popup is None
}

/// The bluetooth bar item: on the right, refreshed every 5 seconds by
/// `<exe> --update-bluetooth`; a click toggles the popup and asks the daemon
/// to rebuild it with a scan.
pub open spec fn spec_bluetooth_props(p: ItemProps, exe_path: Seq<char>) -> bool {
    let mocha = spec_catppuccin_mocha();
    &&& p.geometry == (Geometry {
        position: Some(ComponentPosition::Right),
        background: Some(
            BackgroundProps {
                color: Some(mocha.surface0),
                drawing: Some(ToggleState::On),
                ..BackgroundProps::spec_empty()
            },
        ),
        ..Geometry::spec_empty()
    })
    &&& (p.icon.icon matches Some(s) && s@ == "\u{f293}"@)
    &&& p.icon.props == Some(Text { color: Some(mocha.blue), ..Text::spec_empty() })
    &&& p.label.label is None
    &&& p.label.props == Some(Text { drawing: Some(ToggleState::Off), ..Text::spec_empty() })
    &&& p.scripting.update_freq == Some(5u32)
    &&& p.scripting.updates is None
    &&& p.scripting.mach_helper is None
    &&& (p.scripting.script matches Some(ScriptType::String(s)) && s@ == exe_path
        + " --update-bluetooth"@)
    &&& (p.scripting.click_script matches Some(ScriptType::String(s)) && s@
        == "sketchybar --set bluetooth popup.drawing=toggle; "@ + spec_send_text(
        exe_path,
        seq![
            ("cmd"@, crate::events::JsonScalarView::Str("update-bluetooth-popup"@)),
            ("scan"@, crate::events::JsonScalarView::Bool(true)),
        ],
    ))
    &&& p.text is None
    &&& p.popup == Some(
        PopupProps {
            align: Some(PopupAlign::Center),
            background: Some(
                BackgroundProps {
                    color: Some(mocha.base),
                    border_color: Some(mocha.surface1),
                    border_width: Some(2),
                    corner_radius: Some(12),
                    ..BackgroundProps::spec_empty()
                },
            ),
            ..PopupProps::spec_empty()
        },
    )
}

/// The row shown while a device is being connected or disconnected.
pub open spec fn spec_processing_props(p: ItemProps) -> bool {
    &&& p.geometry == Geometry::spec_empty()
    &&& p.icon == crate::props::Icon::spec_empty()
    &&& (p.label.label matches Some(s) && s@ == "Processing..."@)
    &&& p.label.props == Some(
        Text { color: Some(Argb { a: 0xff, r: 0xfa, g: 0xb3, b: 0x87 }), ..Text::spec_empty() },
    )
    &&& p.scripting == crate::props::Scripting::spec_empty()
    &&& p.text is None
    &&& p.popup is None
}

impl Bluetooth {
    /// The command that marks a device's row as being processed.
    pub fn toggle_feedback(address: &str) -> (r: Vec<String>)
        ensures
            exists|p: ItemProps|
                spec_processing_props(p) && cmd_view(r) == spec_set_cmd(
                    spec_device_name(address@),
                    p.spec_args(),
                ),
    {
        let name = concat2("bluetooth.device.", strip_separators(address).as_str());
        let item = BarItem::new(name.as_str()).label_color(Argb::from_u32(0xfffab387)).label(
            "Processing...",
        );
        assert(spec_processing_props(item.props));
        item.set()
    }

    /// The Swift program that connects or disconnects a device.
    pub fn swift_toggle_script(address: &str) -> (r: String)
        ensures
            r@ == spec_swift_toggle(address@),
    {
        let mut s = concat2("\nimport IOBluetooth\nlet address = \"", address);
        s.append(
            "\"\nguard let device = IOBluetoothDevice(addressString: address) else {\n    exit(1) \n}\nif device.isConnected() { device.closeConnection() } else { device.openConnection() }\n",
        );
        s
    }

    /// The spinner frame after `idx`.
    pub fn next_spinner(idx: usize) -> (r: usize)
        requires
            idx < 6,
        ensures
            r == (idx + 1) % 6,
    {
        (idx + 1) % 6
    }

    /// The command that shows spinner frame `idx` on the searching indicator.
    pub fn spinner_frame(idx: usize) -> (r: Vec<String>)
        requires
            idx < 6,
        ensures
            cmd_view(r) == spec_set_texts_cmd(
                "bluetooth.loading"@,
                Some(spec_spinner(idx as int)),
                None,
            ),
    {
        let glyph = if idx == 0 {
            "\u{ee06}"
        } else if idx == 1 {
            "\u{ee07}"
        } else if idx == 2 {
            "\u{ee08}"
        } else if idx == 3 {
            "\u{ee09}"
        } else if idx == 4 {
            "\u{ee0a}"
        } else {
            "\u{ee0b}"
        };
        set_texts("bluetooth.loading", Some(glyph), None)
    }

    /// The scan goes on while the popup's drawing state is known and not `off`.
    pub fn scan_continues(popup_drawing: Option<&str>) -> (r: bool)
        ensures
            r == (popup_drawing matches Some(d) && d@ != "off"@),
    {
        match popup_drawing {
            Some(d) => !str_eq(d, "off"),
            None => false,
        }
    }

    /// Whether a discovered address is not among the devices found so far.
    pub fn is_new_device(found: &Vec<BluetoothDevice>, address: &str) -> (r: bool)
        ensures
            r == (forall|i: int| 0 <= i < found@.len() ==> (#[trigger] found@[i]).address@ != address@),
    {
        let mut i: usize = 0;
        while i < found.len()
            invariant
                i <= found@.len(),
                forall|k: int| 0 <= k < i ==> (#[trigger] found@[k]).address@ != address@,
            decreases found@.len() - i,
        {
            if str_eq(found[i].address.as_str(), address) {
                return false;
            }
            i = i + 1;
        }
        true
    }

    /// A device found by the scan: named `Unknown Device` when it has no name.
    pub fn nearby_device(name: Option<String>, address: String) -> (r: BluetoothDevice)
        ensures
            r.name@ == (match name {
                Some(n) => n@,
                None => "Unknown Device"@,
            }),
            r.address == address,
            !r.connected,
            r.is_nearby,
            r.device_type is None,
    {
        let name = match name {
            Some(n) => n,
            None => string_of("Unknown Device"),
        };
        BluetoothDevice { name, address, connected: false, is_nearby: true, device_type: None }
    }

    /// The commands that add the searching indicator and move it to the top
    /// of the popup.
    pub fn searching_row() -> (r: Vec<Vec<String>>)
        ensures
            exists|p: ItemProps|
                spec_searching_props(p) && cmds_view(r@) == spec_special_cmds(
                    "item"@,
                    "bluetooth.loading"@,
                    Some("popup."@ + "bluetooth"@),
                    p.spec_args(),
                ).push(seq!["--set"@, "bluetooth.loading"@, "before=/.*/"@]),
    {
        let theme = catppuccin_mocha();
        let item = BarItem::new("bluetooth.loading").icon("󰑐").label(
            "Searching for nearby devices...",
        ).icon_color(theme.yellow).label_color(theme.subtext0).label_font(
            crate::types::nerd_font(crate::types::FontStyle::Italic, "11"),
        ).width(320);
        assert(spec_searching_props(item.props));
        let mut cmds = add_special_item(
            "item",
            "bluetooth.loading",
            Some(ComponentPosition::Popup(string_of("bluetooth"))),
            &item,
        );
        let mut args: Vec<String> = Vec::new();
        args.push(string_of("before=/.*/"));
        let c = crate::api::set_args("bluetooth.loading", args);
        let ghost before = cmds_view(cmds@);
        cmds.push(c);
        assert(cmd_view(c) =~= seq!["--set"@, "bluetooth.loading"@, "before=/.*/"@]);
        assert(cmds_view(cmds@) =~= before.push(cmd_view(c)));
        cmds
    }

    /// The commands that add the bluetooth item.
    pub fn setup(exe_path: &str) -> (r: Vec<Vec<String>>)
        ensures
            exists|p: ItemProps|
                spec_bluetooth_props(p, exe_path@) && cmds_view(r@) == spec_special_cmds(
                    "item"@,
                    "bluetooth"@,
                    Some("right"@),
                    p.spec_args(),
                ),
    {
        let theme = catppuccin_mocha();
        let scan = daemon_send_script(exe_path, &DaemonCmd::UpdateBluetoothPopup { scan: true });
        let click = concat2("sketchybar --set bluetooth popup.drawing=toggle; ", scan.as_str());
        let script = concat2(exe_path, " --update-bluetooth");
        let item = BarItem::new("bluetooth").position(ComponentPosition::Right).update_freq(
            5,
        ).script(script.as_str()).click_script(click.as_str()).icon("\u{f293}").icon_color(
            theme.blue,
        ).label_drawing(ToggleState::Off).background_color(theme.surface0).background_drawing(
            ToggleState::On,
        ).popup_align(PopupAlign::Center).popup_background_color(
            theme.base,
        ).popup_background_border_color(theme.surface1).popup_background_border_width(
            2,
        ).popup_background_corner_radius(12);
        assert(spec_bluetooth_props(item.props, exe_path@));
        proof {
            crate::api::lemma_add_childless(item);
        }
        item.add()
    }
}

} // verus!

//! The messages the daemon receives and the events it broadcasts to items,
//! and the shell command lines that send messages to it.

use vstd::prelude::*;
use crate::text::{concat2, push_char, string_of};

verus! {

/// An action requested on the network item.
#[derive(Debug, Clone, PartialEq, Eq)]
pub struct NetworkData {
    pub action: String,
    pub ssid: Option<String>,
}

/// An action requested on the bluetooth item.
#[derive(Debug, Clone, PartialEq, Eq)]
pub struct BluetoothData {
    pub action: String,
    pub address: Option<String>,
}

/// An event broadcast to the items' background tasks.
#[derive(Debug, Clone, PartialEq, Eq)]
pub enum Event {
    UpdateClock,
    UpdateWeather,
    UpdateBattery,
    UpdateCpu,
    UpdateKeyboardLayout { source_id: Option<String> },
    UpdateNetwork,
    UpdateVolume,
    UpdateMedia,
    UpdateWorkspaces,
    UpdateBluetooth { scan: bool },
    NetworkAction(NetworkData),
    BluetoothAction(BluetoothData),
}

/// A message sent to the daemon.
#[derive(Debug, Clone, PartialEq, Eq)]
pub enum DaemonCmd {
    UpdateNetworkPopup,
    ToggleWifiPower { device: String, state: String },
    ConnectNetwork { ssid: String, device: String, security: String },
    UpdateBluetoothPopup { scan: bool },
    ToggleBluetoothDevice { address: String },
    Shutdown,
}

/// The event the daemon broadcasts for a message; none for `Shutdown`,
/// which stops the daemon instead.
pub open spec fn spec_event_of_cmd(cmd: DaemonCmd, r: Option<Event>) -> bool {
    match cmd {
        DaemonCmd::UpdateNetworkPopup => r == Some(Event::UpdateNetwork),
        DaemonCmd::ToggleWifiPower { device, state } => {
            &&& r matches Some(Event::NetworkAction(d))
            &&& d.action@ == "toggle-power:"@ + state@
            &&& d.ssid matches Some(x)
            &&& x@ == device@
        },
        DaemonCmd::ConnectNetwork { ssid, device, security } => {
            &&& r matches Some(Event::NetworkAction(d))
            &&& d.action@ == "connect:"@ + security@ + ":"@ + device@
            &&& d.ssid matches Some(x)
            &&& x@ == ssid@
        },
        DaemonCmd::UpdateBluetoothPopup { scan } => r == Some(Event::UpdateBluetooth { scan }),
        DaemonCmd::ToggleBluetoothDevice { address } => {
            &&& r matches Some(Event::BluetoothAction(d))
            &&& d.action@ == "toggle"@
            &&& d.address matches Some(x)
            &&& x@ == address@
        },
        DaemonCmd::Shutdown => r is None,
    }
}

/// The event broadcast for a message received by the daemon.
pub fn event_of_cmd(cmd: DaemonCmd) -> (r: Option<Event>)
    ensures
        spec_event_of_cmd(cmd, r),
{
    match cmd {
        DaemonCmd::UpdateNetworkPopup => Some(Event::UpdateNetwork),
        DaemonCmd::ToggleWifiPower { device, state } => Some(
            Event::NetworkAction(
                NetworkData { action: concat2("toggle-power:", state.as_str()), ssid: Some(device) },
            ),
        ),
        DaemonCmd::ConnectNetwork { ssid, device, security } => {
            let mut action = concat2("connect:", security.as_str());
            push_char(&mut action, ':');
            action.append(device.as_str());
            assert(action@ =~= "connect:"@ + security@ + ":"@ + device@) by {
                reveal_strlit(":");
            }
            Some(Event::NetworkAction(NetworkData { action, ssid: Some(ssid) }))
        },
        DaemonCmd::UpdateBluetoothPopup { scan } => Some(Event::UpdateBluetooth { scan }),
        DaemonCmd::ToggleBluetoothDevice { address } => Some(
            Event::BluetoothAction(
                BluetoothData { action: string_of("toggle"), address: Some(address) },
            ),
        ),
        DaemonCmd::Shutdown => None,
    }
}

// ----- the wire form of a message --------------------------------------------------

/// A JSON scalar: a string or a boolean.
#[derive(Debug, Clone, PartialEq, Eq)]
pub enum JsonScalar {
    Str(String),
    Bool(bool),
}

/// The value of a JSON scalar.
pub enum JsonScalarView {
    Str(Seq<char>),
    Bool(bool),
}

impl View for JsonScalar {
    type V = JsonScalarView;

    open spec fn view(&self) -> JsonScalarView {
        match self {
            JsonScalar::Str(s) => JsonScalarView::Str(s@),
            JsonScalar::Bool(b) => JsonScalarView::Bool(*b),
        }
    }
}

/// The values of the fields of a JSON object.
pub open spec fn fields_view(v: Seq<(String, JsonScalar)>) -> Seq<(Seq<char>, JsonScalarView)> {
    v.map_values(|f: (String, JsonScalar)| (f.0@, f.1@))
}

/// The compact JSON text `serde_json` writes for an object with these
/// fields, in this order.
pub uninterp spec fn spec_json_object(fields: Seq<(Seq<char>, JsonScalarView)>) -> Seq<char>;

/// Writes an object with the given fields, in order, as compact JSON by
/// `serde_json` (with its `preserve_order` feature, a `Map` keeps the order
/// of insertion). The claim is only that the text is a function of the
/// fields: `spec_json_object` names it.
#[verifier::external_body]
fn json_object(fields: &Vec<(String, JsonScalar)>) -> (r: String)
    ensures
        r@ == spec_json_object(fields_view(fields@)),
{
    let mut map = serde_json::Map::new();
    for (k, v) in fields.iter() {
        let value = match v {
            JsonScalar::Str(s) => serde_json::Value::String(s.clone()),
            JsonScalar::Bool(b) => serde_json::Value::Bool(*b),
        };
        map.insert(k.clone(), value);
    }
    serde_json::Value::Object(map).to_string()
}

/// The wire fields of a request to switch the Wi-Fi power of a device.
pub open spec fn spec_toggle_power_fields(device: Seq<char>, state: Seq<char>) -> Seq<
    (Seq<char>, JsonScalarView),
> {
    seq![
        ("cmd"@, JsonScalarView::Str("toggle-wifi-power"@)),
        ("device"@, JsonScalarView::Str(device)),
        ("state"@, JsonScalarView::Str(state)),
    ]
}

/// The wire fields of a request to join a network.
pub open spec fn spec_connect_fields(ssid: Seq<char>, device: Seq<char>, security: Seq<char>) -> Seq<
    (Seq<char>, JsonScalarView),
> {
    seq![
        ("cmd"@, JsonScalarView::Str("connect-network"@)),
        ("ssid"@, JsonScalarView::Str(ssid)),
        ("device"@, JsonScalarView::Str(device)),
        ("security"@, JsonScalarView::Str(security)),
    ]
}

/// The wire fields of a request to connect or disconnect a bluetooth device.
pub open spec fn spec_toggle_device_fields(address: Seq<char>) -> Seq<(Seq<char>, JsonScalarView)> {
    seq![
        ("cmd"@, JsonScalarView::Str("toggle-bluetooth-device"@)),
        ("address"@, JsonScalarView::Str(address)),
    ]
}

/// The fields of the wire form of a message: the tag `cmd` with the
/// kebab-case name of the message, then the message's fields in order.
pub open spec fn spec_cmd_fields(cmd: DaemonCmd) -> Seq<(Seq<char>, JsonScalarView)> {
    match cmd {
        DaemonCmd::UpdateNetworkPopup => seq![
            ("cmd"@, JsonScalarView::Str("update-network-popup"@)),
        ],
        DaemonCmd::ToggleWifiPower { device, state } => spec_toggle_power_fields(device@, state@),
        DaemonCmd::ConnectNetwork { ssid, device, security } => spec_connect_fields(
            ssid@,
            device@,
            security@,
        ),
        DaemonCmd::UpdateBluetoothPopup { scan } => seq![
            ("cmd"@, JsonScalarView::Str("update-bluetooth-popup"@)),
            ("scan"@, JsonScalarView::Bool(scan)),
        ],
        DaemonCmd::ToggleBluetoothDevice { address } => spec_toggle_device_fields(address@),
        DaemonCmd::Shutdown => seq![("cmd"@, JsonScalarView::Str("shutdown"@))],
    }
}

fn str_field(key: &str, value: &str) -> (r: (String, JsonScalar))
    ensures
        r.0@ == key@,
        r.1@ == JsonScalarView::Str(value@),
{
    (string_of(key), JsonScalar::Str(string_of(value)))
}

/// The fields of the wire form of a message.
pub fn cmd_fields(cmd: &DaemonCmd) -> (r: Vec<(String, JsonScalar)>)
    ensures
        fields_view(r@) == spec_cmd_fields(*cmd),
{
    let mut v: Vec<(String, JsonScalar)> = Vec::new();
    match cmd {
        DaemonCmd::UpdateNetworkPopup => {
            v.push(str_field("cmd", "update-network-popup"));
        },
        DaemonCmd::ToggleWifiPower { device, state } => {
            v.push(str_field("cmd", "toggle-wifi-power"));
            v.push(str_field("device", device.as_str()));
            v.push(str_field("state", state.as_str()));
        },
        DaemonCmd::ConnectNetwork { ssid, device, security } => {
            v.push(str_field("cmd", "connect-network"));
            v.push(str_field("ssid", ssid.as_str()));
            v.push(str_field("device", device.as_str()));
            v.push(str_field("security", security.as_str()));
        },
        DaemonCmd::UpdateBluetoothPopup { scan } => {
            v.push(str_field("cmd", "update-bluetooth-popup"));
            v.push((string_of("scan"), JsonScalar::Bool(*scan)));
        },
        DaemonCmd::ToggleBluetoothDevice { address } => {
            v.push(str_field("cmd", "toggle-bluetooth-device"));
            v.push(str_field("address", address.as_str()));
        },
        DaemonCmd::Shutdown => {
            v.push(str_field("cmd", "shutdown"));
        },
    }
    assert(fields_view(v@) =~= spec_cmd_fields(*cmd));
    v
}

/// `s` with every `'` written as `'\''`, so that it can stand inside a
/// single-quoted shell word.
pub open spec fn spec_escape_quotes(s: Seq<char>) -> Seq<char>
    decreases s.len(),
{
    if s.len() == 0 {
        seq![]
    } else if s.last() == '\'' {
        spec_escape_quotes(s.drop_last()) + seq!['\'', '\\', '\'', '\'']
    } else {
        spec_escape_quotes(s.drop_last()).push(s.last())
    }
}

/// What the shell reads from text `t` standing between the quotes of a
/// single-quoted word: every character as it is, except that a quote is only
/// read in the group `'\''` (which closes the quoted text, adds an escaped
/// quote and reopens it); none when a quote stands anywhere else.
pub open spec fn spec_shell_unquote(t: Seq<char>) -> Option<Seq<char>>
    decreases t.len(),
{
    if t.len() == 0 {
        Some(seq![])
    } else if t[0] == '\'' {
        if t.len() >= 4 && t[1] == '\\' && t[2] == '\'' && t[3] == '\'' {
            match spec_shell_unquote(t.subrange(4, t.len() as int)) {
                Some(r) => Some(seq!['\''] + r),
                None => None,
            }
        } else {
            None
        }
    } else {
        match spec_shell_unquote(t.subrange(1, t.len() as int)) {
            Some(r) => Some(seq![t[0]] + r),
            None => None,
        }
    }
}

/// The escaping of one character.
pub open spec fn spec_escape_char(c: char) -> Seq<char> {
    if c == '\'' {
        seq!['\'', '\\', '\'', '\'']
    } else {
        seq![c]
    }
}

proof fn lemma_escape_split(a: Seq<char>, b: Seq<char>)
    ensures
        spec_escape_quotes(a + b) == spec_escape_quotes(a) + spec_escape_quotes(b),
    decreases b.len(),
{
    if b.len() == 0 {
        assert(a + b =~= a);
    } else {
        lemma_escape_split(a, b.drop_last());
        assert((a + b).drop_last() =~= a + b.drop_last());
        assert((a + b).last() == b.last());
    }
}

/// The shell reads the escaped text, placed between single quotes, back as
/// the text it was given.
pub proof fn lemma_escape_quotes_read_back(s: Seq<char>)
    ensures
        spec_shell_unquote(spec_escape_quotes(s)) == Some(s),
    decreases s.len(),
{
    if s.len() > 0 {
        let rest = s.subrange(1, s.len() as int);
        lemma_escape_quotes_read_back(rest);
        lemma_escape_split(seq![s[0]], rest);
        assert(seq![s[0]] + rest =~= s);
        let one = seq![s[0]];
        assert(one.drop_last() =~= Seq::<char>::empty());
        assert(one.last() == s[0]);
        assert(spec_escape_quotes(Seq::<char>::empty()) == Seq::<char>::empty());
        assert(spec_escape_quotes(one) =~= spec_escape_char(s[0])) by {
            assert(Seq::<char>::empty() + seq!['\'', '\\', '\'', '\''] =~= seq![
                '\'',
                '\\',
                '\'',
                '\'',
            ]);
            assert(Seq::<char>::empty().push(s[0]) =~= seq![s[0]]);
        }
        let t = spec_escape_quotes(s);
        let u = spec_escape_char(s[0]);
        assert(t == u + spec_escape_quotes(rest));
        assert(t.subrange(u.len() as int, t.len() as int) =~= spec_escape_quotes(rest));
        if s[0] == '\'' {
            assert(seq!['\''] + rest =~= s);
        } else {
            assert(seq![s[0]] + rest =~= s);
        }
    }
}

/// Escapes single quotes for a single-quoted shell word.
pub fn escape_quotes(s: &str) -> (r: String)
    ensures
        r@ == spec_escape_quotes(s@),
{
    let cs = crate::text::chars_of(s);
    let mut out = String::new();
    let mut i: usize = 0;
    while i < cs.len()
        invariant
            i <= cs@.len(),
            cs@ == s@,
            out@ == spec_escape_quotes(s@.subrange(0, i as int)),
        decreases cs@.len() - i,
    {
        let c = cs[i];
        let ghost pre = s@.subrange(0, i as int);
        let ghost post = s@.subrange(0, i + 1);
        assert(post.drop_last() =~= pre);
        if c == '\'' {
            push_char(&mut out, '\'');
            push_char(&mut out, '\\');
            push_char(&mut out, '\'');
            push_char(&mut out, '\'');
        } else {
            push_char(&mut out, c);
        }
        assert(out@ =~= spec_escape_quotes(post));
        i = i + 1;
    }
    assert(s@.subrange(0, i as int) =~= s@);
    out
}

/// The shell command that runs `exe_path --send '<json>'` with the wire form
/// of `cmd`.
pub open spec fn spec_send_script(exe_path: Seq<char>, cmd: DaemonCmd) -> Seq<char> {
    spec_send_text(exe_path, spec_cmd_fields(cmd))
}

/// The shell command that runs `exe_path --send '<json>'` with a message of
/// these wire fields.
pub open spec fn spec_send_text(exe_path: Seq<char>, fields: Seq<(Seq<char>, JsonScalarView)>) -> Seq<
    char,
> {
    exe_path + " --send '"@ + spec_escape_quotes(spec_json_object(fields)) + "'"@
}

/// Builds the shell command that sends `cmd` to the daemon.
pub fn daemon_send_script(exe_path: &str, cmd: &DaemonCmd) -> (r: String)
    ensures
        r@ == spec_send_script(exe_path@, *cmd),
{
    let fields = cmd_fields(cmd);
    let json = json_object(&fields);
    let safe = escape_quotes(json.as_str());
    let mut s = concat2(exe_path, " --send '");
    s.append(safe.as_str());
    s.append("'");
    s
}

} // verus!

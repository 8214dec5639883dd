//! The network item: reading the state of the primary interface from the
//! system tools' output, choosing its icon, and building the Wi-Fi popup
//! with the networks in range.

use vstd::prelude::*;
use crate::api::{
    add_special_item, cmd_view, cmds_view, opt_str_view, set_texts, spec_event_names,
    spec_set_texts_cmd, spec_special_cmds,
};
use crate::event::BarEvent;
use crate::events::{
    daemon_send_script, spec_connect_fields, spec_event_of_cmd, spec_send_text, DaemonCmd, Event,
};
use crate::item::{BarItem, ItemBuilder};
use crate::json::{get, spec_elems, spec_get, spec_str, JsonValue};
use crate::pieces::spec_opt_string;
use crate::props::{spec_texts_only, BackgroundProps, Geometry, ItemProps, ScriptType};
use crate::style::ItemStyle;
use crate::text::{concat2, spec_dec};
use crate::themes::{catppuccin_mocha, spec_catppuccin_mocha};
use crate::types::{
    nerd_font, spec_argb_text, spec_nerd_font_text, Argb, ComponentPosition, FontStyle, PropView,
    ToSketchybarArgs, ToggleState, WidthMode,
};
use crate::props::Text;
use crate::strs::{
    contains, lines_of, remove_all, spec_contains, spec_field, spec_lines, spec_remove_all,
    spec_split, spec_starts_with, spec_trim, split_on, starts_with, str_chars, trim, vecs_view,
};
use crate::text::{str_eq, string_from_chars, string_of};

verus! {

/// A Wi-Fi network in range.
#[derive(Debug, Clone, PartialEq, Eq)]
pub struct WifiNetwork {
    pub ssid: String,
    pub security: Option<String>,
    pub signal: Option<i32>,
}

/// The strength a network is ordered by; an unknown signal counts as -100.
pub open spec fn spec_signal_key(n: WifiNetwork) -> int {
    match n.signal {
        Some(v) => v as int,
        None => -100,
    }
}

/// Inserts `x` into `s` after every trailing element at least as strong.
pub open spec fn spec_insert_by_signal(s: Seq<WifiNetwork>, x: WifiNetwork) -> Seq<WifiNetwork>
    decreases s.len(),
{
    if s.len() == 0 {
        seq![x]
    } else if spec_signal_key(s.last()) >= spec_signal_key(x) {
        s.push(x)
    } else {
        spec_insert_by_signal(s.drop_last(), x).push(s.last())
    }
}

/// The networks ordered from the strongest signal to the weakest; networks of
/// equal strength keep their relative order (a stable sort).
pub open spec fn spec_sort_by_signal(s: Seq<WifiNetwork>) -> Seq<WifiNetwork>
    decreases s.len(),
{
    if s.len() == 0 {
        seq![]
    } else {
        spec_insert_by_signal(spec_sort_by_signal(s.drop_last()), s.last())
    }
}

/// Some network in `s` has this name.
pub open spec fn spec_has_ssid(s: Seq<WifiNetwork>, ssid: Seq<char>) -> bool {
    exists|i: int| 0 <= i < s.len() && (#[trigger] s[i]).ssid@ == ssid
}

/// The networks with the first one of each name kept and later ones dropped.
pub open spec fn spec_dedup_ssid(s: Seq<WifiNetwork>) -> Seq<WifiNetwork>
    decreases s.len(),
{
    if s.len() == 0 {
        seq![]
    } else {
        let d = spec_dedup_ssid(s.drop_last());
        if spec_has_ssid(d, s.last().ssid@) {
            d
        } else {
            d.push(s.last())
        }
    }
}

/// The scanned networks as the popup lists them: strongest first, one per name.
pub open spec fn spec_ordered_networks(s: Seq<WifiNetwork>) -> Seq<WifiNetwork> {
    spec_dedup_ssid(spec_sort_by_signal(s))
}

fn signal_key(n: &WifiNetwork) -> (r: i64)
    ensures
        r == spec_signal_key(*n),
{
    match n.signal {
        Some(v) => v as i64,
        None => -100,
    }
}

/// Inserts `x` as `spec_insert_by_signal` does.
fn insert_by_signal(s: &mut Vec<WifiNetwork>, x: WifiNetwork)
    ensures
        final(s)@ == spec_insert_by_signal(old(s)@, x),
{
    let kx = signal_key(&x);
    let mut pos = s.len();
    assert(s@.subrange(0, s@.len() as int) =~= s@);
    assert(spec_insert_by_signal(s@, x) =~= spec_insert_by_signal(s@.subrange(0, pos as int), x)
        + s@.subrange(pos as int, s@.len() as int));
    while pos > 0 && signal_key(&s[pos - 1]) < kx
        invariant
            pos <= s@.len(),
            kx == spec_signal_key(x),
            spec_insert_by_signal(s@, x) == spec_insert_by_signal(s@.subrange(0, pos as int), x)
                + s@.subrange(pos as int, s@.len() as int),
        decreases pos,
    {
        let ghost t = s@.subrange(0, pos as int);
        assert(t.drop_last() =~= s@.subrange(0, pos - 1));
        assert(spec_insert_by_signal(t, x) == spec_insert_by_signal(t.drop_last(), x).push(
            t.last(),
        ));
        assert(s@.subrange(pos - 1, s@.len() as int) =~= seq![t.last()] + s@.subrange(
            pos as int,
            s@.len() as int,
        ));
        assert(spec_insert_by_signal(s@, x) =~= spec_insert_by_signal(s@.subrange(0, pos - 1), x)
            + s@.subrange(pos - 1, s@.len() as int));
        pos = pos - 1;
    }
    let ghost t = s@.subrange(0, pos as int);
    assert(spec_insert_by_signal(t, x) =~= t.push(x));
    let ghost old_s = s@;
    s.insert(pos, x);
    assert(s@ =~= old_s.subrange(0, pos as int).push(x) + old_s.subrange(
        pos as int,
        old_s.len() as int,
    ));
}

/// Whether some network in `s` has the name `ssid`.
fn has_ssid(s: &Vec<WifiNetwork>, ssid: &String) -> (r: bool)
    ensures
        r == spec_has_ssid(s@, ssid@),
{
    let mut i: usize = 0;
    while i < s.len()
        invariant
            i <= s@.len(),
            forall|k: int| 0 <= k < i ==> (#[trigger] s@[k]).ssid@ != ssid@,
        decreases s@.len() - i,
    {
        if s[i].ssid == *ssid {
            return true;
        }
        i = i + 1;
    }
    false
}

/// Orders scanned networks for the popup: strongest signal first (stable),
/// then only the first network of each name.
pub fn order_networks(networks: Vec<WifiNetwork>) -> (r: Vec<WifiNetwork>)
    ensures
        r@ == spec_ordered_networks(networks@),
{
    let ghost input = networks@;
    let n = networks.len();
    let mut rest = networks;
    let mut sorted: Vec<WifiNetwork> = Vec::new();
    let mut i: usize = 0;
    while rest.len() > 0
        invariant
            i + rest@.len() == input.len(),
            input.len() == n,
            rest@ == input.subrange(i as int, input.len() as int),
            sorted@ == spec_sort_by_signal(input.subrange(0, i as int)),
        decreases rest@.len(),
    {
        let x = rest.remove(0);
        assert(input.subrange(0, i + 1).drop_last() =~= input.subrange(0, i as int));
        insert_by_signal(&mut sorted, x);
        i = i + 1;
        assert(rest@ =~= input.subrange(i as int, input.len() as int));
    }
    assert(input.subrange(0, i as int) =~= input);
    proof {
        lemma_sort_props(input);
    }
    let ghost all = sorted@;
    let mut out: Vec<WifiNetwork> = Vec::new();
    let mut j: usize = 0;
    while sorted.len() > 0
        invariant
            j + sorted@.len() == all.len(),
            all.len() == n,
            sorted@ == all.subrange(j as int, all.len() as int),
            out@ == spec_dedup_ssid(all.subrange(0, j as int)),
        decreases sorted@.len(),
    {
        let x = sorted.remove(0);
        assert(all.subrange(0, j + 1).drop_last() =~= all.subrange(0, j as int));
        if !has_ssid(&out, &x.ssid) {
            out.push(x);
        }
        j = j + 1;
        assert(sorted@ =~= all.subrange(j as int, all.len() as int));
    }
    assert(all.subrange(0, j as int) =~= all);
    out
}

// ----- reading `system_profiler SPAirPortDataType -json` ----------------------------

/// An optional text field as a derived deserializer reads it: missing or
/// null is none, a string is that text; anything else fails (outer `None`).
pub open spec fn spec_opt_text_field(v: Option<JsonValue>) -> Option<Option<String>> {
    match v {
        None => Some(None),
        Some(JsonValue::Null) => Some(None),
        Some(JsonValue::Str(s)) => Some(Some(s)),
        _ => None,
    }
}

/// An optional `i32` field as a derived deserializer reads it: missing or
/// null is none, an integer in range is that number; anything else fails.
pub open spec fn spec_opt_i32_field(v: Option<JsonValue>) -> Option<Option<i32>> {
    match v {
        None => Some(None),
        Some(JsonValue::Null) => Some(None),
        Some(JsonValue::Number(Some(n))) => if i32::MIN <= n <= i32::MAX {
            Some(Some(n as i32))
        } else {
            None
        },
        _ => None,
    }
}

/// The network built from a name and the two optional fields, if all read.
pub open spec fn spec_network_of(
    name: Option<String>,
    security: Option<Option<String>>,
    signal: Option<Option<i32>>,
) -> Option<WifiNetwork> {
    match (name, security, signal) {
        (Some(n), Some(sec), Some(sig)) => Some(WifiNetwork { ssid: n, security: sec, signal: sig }),
        _ => None,
    }
}

/// A listed network as the derived deserializer of a network reads it: an
/// object with a string `_name` and optional security and signal fields, or
/// an array of exactly those three values; none for anything else.
pub open spec fn spec_wire_network(e: JsonValue) -> Option<WifiNetwork> {
    match e {
        JsonValue::Object(_) => spec_network_of(
            spec_str(spec_get(e, "_name"@)),
            spec_opt_text_field(spec_get(e, "spairport_network_security"@)),
            spec_opt_i32_field(spec_get(e, "spairport_network_signal_strength"@)),
        ),
        JsonValue::Array(xs) => if xs@.len() == 3 {
            spec_network_of(
                spec_str(Some(xs@[0])),
                spec_opt_text_field(Some(xs@[1])),
                spec_opt_i32_field(Some(xs@[2])),
            )
        } else {
            None
        },
        _ => None,
    }
}

/// The networks of a list that read as networks, in order.
pub open spec fn spec_wire_networks(xs: Seq<JsonValue>) -> Seq<WifiNetwork>
    decreases xs.len(),
{
    if xs.len() == 0 {
        seq![]
    } else {
        spec_wire_networks(xs.drop_last()) + match spec_wire_network(xs.last()) {
            Some(n) => seq![n],
            None => seq![],
        }
    }
}

/// The networks listed for the interfaces named `device`.
pub open spec fn spec_interface_networks(ifs: Seq<JsonValue>, device: Seq<char>) -> Seq<WifiNetwork>
    decreases ifs.len(),
{
    if ifs.len() == 0 {
        seq![]
    } else {
        spec_interface_networks(ifs.drop_last(), device) + match spec_str(
            spec_get(ifs.last(), "_name"@),
        ) {
            Some(n) => if n@ == device {
                spec_wire_networks(spec_elems(spec_get(ifs.last(), "spairport_network_list"@)))
            } else {
                seq![]
            },
            None => seq![],
        }
    }
}

/// The networks listed for `device` across the report's data elements.
pub open spec fn spec_airport_list(ds: Seq<JsonValue>, device: Seq<char>) -> Seq<WifiNetwork>
    decreases ds.len(),
{
    if ds.len() == 0 {
        seq![]
    } else {
        spec_airport_list(ds.drop_last(), device) + spec_interface_networks(
            spec_elems(spec_get(ds.last(), "spairport_airport_interfaces"@)),
            device,
        )
    }
}

fn opt_text_field(v: Option<&JsonValue>) -> (r: Option<Option<String>>)
    ensures
        r == spec_opt_text_field(
            match v {
                Some(x) => Some(*x),
                None => None,
            },
        ),
{
    match v {
        None => Some(None),
        Some(JsonValue::Null) => Some(None),
        Some(JsonValue::Str(s)) => Some(Some(s.clone())),
        _ => None,
    }
}

fn opt_i32_field(v: Option<&JsonValue>) -> (r: Option<Option<i32>>)
    ensures
        r == spec_opt_i32_field(
            match v {
                Some(x) => Some(*x),
                None => None,
            },
        ),
{
    match v {
        None => Some(None),
        Some(JsonValue::Null) => Some(None),
        Some(JsonValue::Number(Some(n))) => if i32::MIN as i64 <= *n && *n <= i32::MAX as i64 {
            Some(Some(*n as i32))
        } else {
            None
        },
        _ => None,
    }
}

fn text_of(v: Option<&JsonValue>) -> (r: Option<String>)
    ensures
        r == spec_str(
            match v {
                Some(x) => Some(*x),
                None => None,
            },
        ),
{
    match v {
        Some(JsonValue::Str(s)) => Some(s.clone()),
        _ => None,
    }
}

fn network_of(name: Option<String>, security: Option<Option<String>>, signal: Option<Option<i32>>) -> (r: Option<WifiNetwork>)
    ensures
        r == spec_network_of(name, security, signal),
{
    match (name, security, signal) {
        (Some(n), Some(sec), Some(sig)) => Some(WifiNetwork { ssid: n, security: sec, signal: sig }),
        _ => None,
    }
}

fn wire_network(e: &JsonValue) -> (r: Option<WifiNetwork>)
    ensures
        r == spec_wire_network(*e),
{
    match e {
        JsonValue::Object(_) => network_of(
            text_of(get(e, "_name")),
            opt_text_field(get(e, "spairport_network_security")),
            opt_i32_field(get(e, "spairport_network_signal_strength")),
        ),
        JsonValue::Array(xs) => if xs.len() == 3 {
            network_of(text_of(Some(&xs[0])), opt_text_field(Some(&xs[1])), opt_i32_field(Some(&xs[2])))
        } else {
            None
        },
        _ => None,
    }
}

fn wire_networks(v: Option<&JsonValue>, out: &mut Vec<WifiNetwork>)
    ensures
        final(out)@ == old(out)@ + spec_wire_networks(
            spec_elems(
                match v {
                    Some(x) => Some(*x),
                    None => None,
                },
            ),
        ),
{
    match v {
        Some(JsonValue::Array(xs)) => {
            let mut i: usize = 0;
            while i < xs.len()
                invariant
                    i <= xs@.len(),
                    out@ == old(out)@ + spec_wire_networks(xs@.subrange(0, i as int)),
                decreases xs@.len() - i,
            {
                let ghost before = out@;
                match wire_network(&xs[i]) {
                    Some(n) => out.push(n),
                    None => {},
                }
                let ghost sub = xs@.subrange(0, i + 1);
                assert(sub.drop_last() =~= xs@.subrange(0, i as int));
                assert(sub.last() == xs@[i as int]);
                assert(out@ =~= before + match spec_wire_network(xs@[i as int]) {
                    Some(n) => seq![n],
                    None => seq![],
                });
                i = i + 1;
            }
            assert(xs@.subrange(0, i as int) =~= xs@);
        },
        _ => {
            assert(out@ =~= old(out)@ + Seq::<WifiNetwork>::empty());
        },
    }
}

fn interface_networks(v: Option<&JsonValue>, device: &str, out: &mut Vec<WifiNetwork>)
    ensures
        final(out)@ == old(out)@ + spec_interface_networks(
            spec_elems(
                match v {
                    Some(x) => Some(*x),
                    None => None,
                },
            ),
            device@,
        ),
{
    match v {
        Some(JsonValue::Array(ifs)) => {
            let mut i: usize = 0;
            while i < ifs.len()
                invariant
                    i <= ifs@.len(),
                    out@ == old(out)@ + spec_interface_networks(ifs@.subrange(0, i as int), device@),
                decreases ifs@.len() - i,
            {
                let ghost before = out@;
                let f = &ifs[i];
                let named = match get(f, "_name") {
                    Some(JsonValue::Str(n)) => str_eq(n.as_str(), device),
                    _ => false,
                };
                if named {
                    wire_networks(get(f, "spairport_network_list"), out);
                }
                let ghost sub = ifs@.subrange(0, i + 1);
                assert(sub.drop_last() =~= ifs@.subrange(0, i as int));
                assert(sub.last() == ifs@[i as int]);
                assert(out@ =~= before + match spec_str(spec_get(ifs@[i as int], "_name"@)) {
                    Some(n) => if n@ == device@ {
                        spec_wire_networks(spec_elems(spec_get(ifs@[i as int], "spairport_network_list"@)))
                    } else {
                        seq![]
                    },
                    None => seq![],
                });
                i = i + 1;
            }
            assert(ifs@.subrange(0, i as int) =~= ifs@);
        },
        _ => {
            assert(out@ =~= old(out)@ + Seq::<WifiNetwork>::empty());
        },
    }
}

/// The networks in range of `device`, read from
/// `system_profiler SPAirPortDataType -json` and ordered for the popup.
pub fn airport_networks(json: &JsonValue, device: &str) -> (r: Vec<WifiNetwork>)
    ensures
        r@ == spec_ordered_networks(
            spec_airport_list(spec_elems(spec_get(*json, "SPAirPortDataType"@)), device@),
        ),
{
    let mut found: Vec<WifiNetwork> = Vec::new();
    match get(json, "SPAirPortDataType") {
        Some(JsonValue::Array(ds)) => {
            let mut i: usize = 0;
            while i < ds.len()
                invariant
                    i <= ds@.len(),
                    found@ == spec_airport_list(ds@.subrange(0, i as int), device@),
                decreases ds@.len() - i,
            {
                let ghost before = found@;
                interface_networks(get(&ds[i], "spairport_airport_interfaces"), device, &mut found);
                let ghost sub = ds@.subrange(0, i + 1);
                assert(sub.drop_last() =~= ds@.subrange(0, i as int));
                assert(sub.last() == ds@[i as int]);
                i = i + 1;
            }
            assert(ds@.subrange(0, i as int) =~= ds@);
        },
        _ => {},
    }
    order_networks(found)
}

// ----- what ordering guarantees ---------------------------------------------------

/// Signals never increase along `s`.
pub open spec fn spec_sorted_by_signal(s: Seq<WifiNetwork>) -> bool {
    forall|i: int, j: int|
        0 <= i < j < s.len() ==> spec_signal_key(#[trigger] s[i]) >= spec_signal_key(
            #[trigger] s[j],
        )
}

/// No two networks of `s` have the same name.
pub open spec fn spec_distinct_ssids(s: Seq<WifiNetwork>) -> bool {
    forall|i: int, j: int| 0 <= i < j < s.len() ==> (#[trigger] s[i]).ssid@ != (#[trigger] s[j]).ssid@
}

proof fn lemma_insert_contents(s: Seq<WifiNetwork>, x: WifiNetwork)
    ensures
        spec_insert_by_signal(s, x).len() == s.len() + 1,
        spec_insert_by_signal(s, x).contains(x),
        forall|y: WifiNetwork| s.contains(y) ==> spec_insert_by_signal(s, x).contains(y),
        forall|y: WifiNetwork|
            spec_insert_by_signal(s, x).contains(y) ==> s.contains(y) || y == x,
    decreases s.len(),
{
    let r = spec_insert_by_signal(s, x);
    if s.len() == 0 {
        assert(r[0] == x);
    } else if spec_signal_key(s.last()) >= spec_signal_key(x) {
        assert(r[s.len() as int] == x);
        assert forall|y: WifiNetwork| s.contains(y) implies r.contains(y) by {
            let k = choose|k: int| 0 <= k < s.len() && s[k] == y;
            assert(r[k] == y);
        }
        assert forall|y: WifiNetwork| r.contains(y) implies s.contains(y) || y == x by {
            let k = choose|k: int| 0 <= k < r.len() && r[k] == y;
            if k < s.len() {
                assert(s[k] == y);
            }
        }
    } else {
        let p = s.drop_last();
        lemma_insert_contents(p, x);
        let q = spec_insert_by_signal(p, x);
        assert(r == q.push(s.last()));
        assert(r.contains(x)) by {
            let k = choose|k: int| 0 <= k < q.len() && q[k] == x;
            assert(r[k] == x);
        }
        assert forall|y: WifiNetwork| s.contains(y) implies r.contains(y) by {
            let k = choose|k: int| 0 <= k < s.len() && s[k] == y;
            if k == s.len() - 1 {
                assert(r[q.len() as int] == y);
            } else {
                assert(p[k] == y);
                assert(p.contains(y));
                let m = choose|m: int| 0 <= m < q.len() && q[m] == y;
                assert(r[m] == y);
            }
        }
        assert forall|y: WifiNetwork| r.contains(y) implies s.contains(y) || y == x by {
            let k = choose|k: int| 0 <= k < r.len() && r[k] == y;
            if k == q.len() {
                assert(s[s.len() - 1] == y);
            } else {
                assert(q[k] == y);
                assert(q.contains(y));
                if p.contains(y) {
                    let m = choose|m: int| 0 <= m < p.len() && p[m] == y;
                    assert(s[m] == y);
                }
            }
        }
    }
}

proof fn lemma_insert_sorted(s: Seq<WifiNetwork>, x: WifiNetwork)
    requires
        spec_sorted_by_signal(s),
    ensures
        spec_sorted_by_signal(spec_insert_by_signal(s, x)),
        forall|i: int|
            0 <= i < spec_insert_by_signal(s, x).len() ==> spec_signal_key(
                #[trigger] spec_insert_by_signal(s, x)[i],
            ) >= spec_signal_key(x) || exists|k: int|
                0 <= k < s.len() && spec_insert_by_signal(s, x)[i] == s[k],
    decreases s.len(),
{
    let r = spec_insert_by_signal(s, x);
    if s.len() == 0 {
    } else if spec_signal_key(s.last()) >= spec_signal_key(x) {
        assert forall|i: int, j: int| 0 <= i < j < r.len() implies spec_signal_key(
            #[trigger] r[i],
        ) >= spec_signal_key(#[trigger] r[j]) by {
            if j == s.len() {
                assert(spec_signal_key(s[i]) >= spec_signal_key(s[s.len() - 1]) || i == s.len()
                    - 1);
            }
        }
        assert forall|i: int| 0 <= i < r.len() implies spec_signal_key(#[trigger] r[i])
            >= spec_signal_key(x) || exists|k: int| 0 <= k < s.len() && r[i] == s[k] by {
            if i < s.len() {
                assert(r[i] == s[i]);
            }
        }
    } else {
        let p = s.drop_last();
        assert(spec_sorted_by_signal(p));
        lemma_insert_sorted(p, x);
        lemma_insert_contents(p, x);
        let q = spec_insert_by_signal(p, x);
        assert(r == q.push(s.last()));
        assert forall|i: int| 0 <= i < q.len() implies spec_signal_key(#[trigger] q[i])
            >= spec_signal_key(s.last()) by {
            if spec_signal_key(q[i]) >= spec_signal_key(x) {
            } else {
                let k = choose|k: int| 0 <= k < p.len() && q[i] == p[k];
                assert(spec_signal_key(s[k]) >= spec_signal_key(s[s.len() - 1]));
            }
        }
        assert forall|i: int, j: int| 0 <= i < j < r.len() implies spec_signal_key(
            #[trigger] r[i],
        ) >= spec_signal_key(#[trigger] r[j]) by {
            if j == q.len() {
                assert(r[i] == q[i]);
            } else {
                assert(r[i] == q[i] && r[j] == q[j]);
            }
        }
        assert forall|i: int| 0 <= i < r.len() implies spec_signal_key(#[trigger] r[i])
            >= spec_signal_key(x) || exists|k: int| 0 <= k < s.len() && r[i] == s[k] by {
            if i == q.len() {
                assert(r[i] == s[s.len() - 1]);
            } else {
                assert(r[i] == q[i]);
                if spec_signal_key(q[i]) < spec_signal_key(x) {
                    let k = choose|k: int| 0 <= k < p.len() && q[i] == p[k];
                    assert(r[i] == s[k]);
                }
            }
        }
    }
}

proof fn lemma_sort_props(s: Seq<WifiNetwork>)
    ensures
        spec_sorted_by_signal(spec_sort_by_signal(s)),
        spec_sort_by_signal(s).len() == s.len(),
        forall|y: WifiNetwork| s.contains(y) <==> spec_sort_by_signal(s).contains(y),
    decreases s.len(),
{
    if s.len() > 0 {
        let p = s.drop_last();
        lemma_sort_props(p);
        let q = spec_sort_by_signal(p);
        lemma_insert_sorted(q, s.last());
        lemma_insert_contents(q, s.last());
        let r = spec_sort_by_signal(s);
        assert forall|y: WifiNetwork| s.contains(y) <==> r.contains(y) by {
            if s.contains(y) {
                let k = choose|k: int| 0 <= k < s.len() && s[k] == y;
                if k < p.len() {
                    assert(p[k] == y);
                    assert(p.contains(y));
                    assert(q.contains(y));
                }
            }
            if r.contains(y) {
                if y == s.last() {
                    assert(s[s.len() - 1] == y);
                } else {
                    assert(q.contains(y));
                    assert(p.contains(y));
                    let k = choose|k: int| 0 <= k < p.len() && p[k] == y;
                    assert(s[k] == y);
                }
            }
        }
    }
}

proof fn lemma_dedup_props(s: Seq<WifiNetwork>)
    ensures
        spec_distinct_ssids(spec_dedup_ssid(s)),
        forall|y: WifiNetwork| spec_dedup_ssid(s).contains(y) ==> s.contains(y),
        forall|i: int|
            0 <= i < s.len() ==> spec_has_ssid(spec_dedup_ssid(s), (#[trigger] s[i]).ssid@),
        spec_sorted_by_signal(s) ==> spec_sorted_by_signal(spec_dedup_ssid(s)),
        spec_sorted_by_signal(s) ==> forall|y: WifiNetwork, i: int|
            #[trigger] spec_dedup_ssid(s).contains(y) && 0 <= i < s.len() && (#[trigger] s[i]).ssid@ == y.ssid@
                ==> spec_signal_key(y) >= spec_signal_key(s[i]),
    decreases s.len(),
{
    if s.len() > 0 {
        let p = s.drop_last();
        lemma_dedup_props(p);
        let d = spec_dedup_ssid(p);
        let x = s.last();
        let r = spec_dedup_ssid(s);
        if spec_has_ssid(d, x.ssid@) {
            assert(r == d);
        } else {
            assert(r == d.push(x));
            assert forall|i: int, j: int| 0 <= i < j < r.len() implies (#[trigger] r[i]).ssid@
                != (#[trigger] r[j]).ssid@ by {
                if j == d.len() {
                    assert(r[i] == d[i]);
                } else {
                    assert(r[i] == d[i] && r[j] == d[j]);
                }
            }
        }
        assert forall|y: WifiNetwork| r.contains(y) implies s.contains(y) by {
            let k = choose|k: int| 0 <= k < r.len() && r[k] == y;
            if k < d.len() {
                assert(r[k] == d[k]);
                assert(d.contains(y));
                assert(p.contains(y));
                let m = choose|m: int| 0 <= m < p.len() && p[m] == y;
                assert(s[m] == y);
            } else {
                assert(y == x);
                assert(s[s.len() - 1] == y);
            }
        }
        assert forall|i: int| 0 <= i < s.len() implies spec_has_ssid(r, (#[trigger] s[i]).ssid@) by {
            if i < p.len() {
                assert(p[i] == s[i]);
                assert(spec_has_ssid(d, p[i].ssid@));
                let k = choose|k: int| 0 <= k < d.len() && (#[trigger] d[k]).ssid@ == p[i].ssid@;
                assert(r[k] == d[k]);
            } else if !spec_has_ssid(d, x.ssid@) {
                assert(r[d.len() as int] == x);
            }
        }
        if spec_sorted_by_signal(s) {
            assert(spec_sorted_by_signal(p));
            assert forall|i: int, j: int| 0 <= i < j < r.len() implies spec_signal_key(
                #[trigger] r[i],
            ) >= spec_signal_key(#[trigger] r[j]) by {
                if j == d.len() && !spec_has_ssid(d, x.ssid@) {
                    assert(r[i] == d[i]);
                    assert(d.contains(d[i]));
                    assert(p.contains(d[i]));
                    let m = choose|m: int| 0 <= m < p.len() && p[m] == d[i];
                    assert(s[m] == d[i]);
                    assert(spec_signal_key(s[m]) >= spec_signal_key(s[s.len() - 1]));
                } else {
                    assert(r[i] == d[i] && r[j] == d[j]);
                }
            }
            assert forall|y: WifiNetwork, i: int|
                #[trigger] r.contains(y) && 0 <= i < s.len() && (#[trigger] s[i]).ssid@ == y.ssid@ implies
                spec_signal_key(y) >= spec_signal_key(s[i]) by {
                if d.contains(y) {
                    assert(p.contains(y));
                    let m = choose|m: int| 0 <= m < p.len() && p[m] == y;
                    assert(s[m] == y);
                    if i < p.len() {
                        assert(p[i] == s[i]);
                    } else {
                        assert(spec_signal_key(s[m]) >= spec_signal_key(s[s.len() - 1]));
                    }
                } else {
                    assert(y == x) by {
                        let k = choose|k: int| 0 <= k < r.len() && r[k] == y;
                        if k < d.len() {
                            assert(r[k] == d[k]);
                            assert(d.contains(y));
                        }
                    }
                    if i < p.len() {
                        assert(p[i] == s[i]);
                        assert(spec_has_ssid(d, p[i].ssid@));
                        assert(spec_has_ssid(d, x.ssid@));
                        assert(r == d);
                        assert(false);
                    }
                }
            }
        }
    }
}

/// The networks of `s` whose strength is `k`, in their order in `s`.
pub open spec fn spec_with_signal(s: Seq<WifiNetwork>, k: int) -> Seq<WifiNetwork>
    decreases s.len(),
{
    if s.len() == 0 {
        seq![]
    } else {
        spec_with_signal(s.drop_last(), k) + if spec_signal_key(s.last()) == k {
            seq![s.last()]
        } else {
            seq![]
        }
    }
}

proof fn lemma_insert_with_signal(t: Seq<WifiNetwork>, x: WifiNetwork, k: int)
    ensures
        spec_with_signal(spec_insert_by_signal(t, x), k) == spec_with_signal(t, k) + if spec_signal_key(
            x,
        ) == k {
            seq![x]
        } else {
            seq![]
        },
    decreases t.len(),
{
    let r = spec_insert_by_signal(t, x);
    if t.len() == 0 {
        assert(r.drop_last() =~= t);
    } else if spec_signal_key(t.last()) >= spec_signal_key(x) {
        assert(r.drop_last() =~= t);
    } else {
        let p = t.drop_last();
        lemma_insert_with_signal(p, x, k);
        assert(r.drop_last() =~= spec_insert_by_signal(p, x));
        assert(r.last() == t.last());
        assert(spec_with_signal(r, k) =~= spec_with_signal(t, k) + if spec_signal_key(x) == k {
            seq![x]
        } else {
            seq![]
        });
    }
}

/// The sort is stable: for every strength, the networks of that strength
/// come out in the order in which they were scanned.
pub proof fn lemma_sort_is_stable(s: Seq<WifiNetwork>, k: int)
    ensures
        spec_with_signal(spec_sort_by_signal(s), k) == spec_with_signal(s, k),
    decreases s.len(),
{
    if s.len() > 0 {
        lemma_sort_is_stable(s.drop_last(), k);
        lemma_insert_with_signal(spec_sort_by_signal(s.drop_last()), s.last(), k);
    }
}

/// What the popup's list of networks guarantees: signals never increase
/// down the list, no name appears twice, every scanned name appears, every
/// listed network was scanned, and the one listed for a name is at least as
/// strong as every scanned network of that name.
pub proof fn lemma_ordered_networks(s: Seq<WifiNetwork>)
    ensures
        spec_sorted_by_signal(spec_ordered_networks(s)),
        spec_distinct_ssids(spec_ordered_networks(s)),
        forall|i: int|
            0 <= i < s.len() ==> spec_has_ssid(spec_ordered_networks(s), (#[trigger] s[i]).ssid@),
        forall|y: WifiNetwork| spec_ordered_networks(s).contains(y) ==> s.contains(y),
        forall|y: WifiNetwork, i: int|
            #[trigger] spec_ordered_networks(s).contains(y) && 0 <= i < s.len() && (#[trigger] s[i]).ssid@
                == y.ssid@ ==> spec_signal_key(y) >= spec_signal_key(s[i]),
{
    lemma_sort_props(s);
    let q = spec_sort_by_signal(s);
    lemma_dedup_props(q);
    let r = spec_ordered_networks(s);
    assert forall|i: int| 0 <= i < s.len() implies spec_has_ssid(r, (#[trigger] s[i]).ssid@) by {
        assert(s.contains(s[i]));
        assert(q.contains(s[i]));
        let k = choose|k: int| 0 <= k < q.len() && q[k] == s[i];
        assert(spec_has_ssid(r, q[k].ssid@));
    }
    assert forall|y: WifiNetwork| r.contains(y) implies s.contains(y) by {
        assert(q.contains(y));
    }
    assert forall|y: WifiNetwork, i: int|
        #[trigger] r.contains(y) && 0 <= i < s.len() && (#[trigger] s[i]).ssid@ == y.ssid@ implies
        spec_signal_key(y) >= spec_signal_key(s[i]) by {
        assert(s.contains(s[i]));
        assert(q.contains(s[i]));
        let k = choose|k: int| 0 <= k < q.len() && q[k] == s[i];
        assert(q[k].ssid@ == y.ssid@);
    }
}

// ----- the state of the primary interface ---------------------------------------

/// The state of the primary network interface.
#[derive(Debug, Clone, PartialEq, Eq)]
pub struct NetworkData {
    pub is_connected: bool,
    pub is_wifi: bool,
    pub is_wifi_on: bool,
    pub ssid: String,
    pub ip: String,
    pub device: String,
}

/// One line of `scutil --nwi` applied to the device and address read so far:
/// a `Network interfaces:` line names the device (its first word), and the
/// first line that mentions `address` gives the address (after the first `:`).
pub open spec fn spec_scutil_step(st: (Seq<char>, Seq<char>), line: Seq<char>) -> (
    Seq<char>,
    Seq<char>,
) {
    let t = spec_trim(line);
    if spec_starts_with(t, "Network interfaces:"@) {
        (spec_split(spec_trim(spec_remove_all(t, "Network interfaces:"@)), ' ')[0], st.1)
    } else if spec_contains(t, "address"@) && st.1.len() == 0 {
        (
            st.0,
            match spec_field(t, ':', 1) {
                Some(f) => spec_trim(f),
                None => seq![],
            },
        )
    } else {
        st
    }
}

/// The device and address after reading the lines in order.
pub open spec fn spec_scutil_fold(lines: Seq<Seq<char>>) -> (Seq<char>, Seq<char>)
    decreases lines.len(),
{
    if lines.len() == 0 {
        (seq![], seq![])
    } else {
        spec_scutil_step(spec_scutil_fold(lines.drop_last()), lines.last())
    }
}

/// The primary device and its address, read from the output of `scutil --nwi`.
pub open spec fn spec_parse_scutil(text: Seq<char>) -> (Seq<char>, Seq<char>) {
    spec_scutil_fold(spec_lines(text))
}

fn scutil_step(device: Vec<char>, ip: Vec<char>, line: &[char]) -> (r: (Vec<char>, Vec<char>))
    ensures
        (r.0@, r.1@) == spec_scutil_step((device@, ip@), line@),
{
    let t = trim(line);
    let prefix = str_chars("Network interfaces:");
    proof {
        reveal_strlit("Network interfaces:");
    }
    if starts_with(t.as_slice(), prefix.as_slice()) {
        let rest = remove_all(t.as_slice(), prefix.as_slice());
        let rest = trim(rest.as_slice());
        let words = split_on(rest.as_slice(), ' ');
        proof {
            crate::strs::lemma_split_nonempty(rest@, ' ');
        }
        let w = crate::strs::slice_of(words[0].as_slice(), 0, words[0].len());
        assert(w@ =~= words@[0]@);
        (w, ip)
    } else if contains(t.as_slice(), str_chars("address").as_slice()) && ip.len() == 0 {
        let fields = split_on(t.as_slice(), ':');
        if fields.len() > 1 {
            assert(vecs_view(fields@)[1] == fields@[1]@);
            (device, trim(fields[1].as_slice()))
        } else {
            (device, Vec::new())
        }
    } else {
        (device, ip)
    }
}

/// Reads the primary device and its address from the output of `scutil --nwi`.
pub fn parse_scutil(text: &str) -> (r: (String, String))
    ensures
        (r.0@, r.1@) == spec_parse_scutil(text@),
{
    let lines = lines_of(str_chars(text).as_slice());
    let mut device: Vec<char> = Vec::new();
    let mut ip: Vec<char> = Vec::new();
    let mut i: usize = 0;
    while i < lines.len()
        invariant
            i <= lines@.len(),
            vecs_view(lines@) == spec_lines(text@),
            (device@, ip@) == spec_scutil_fold(vecs_view(lines@).subrange(0, i as int)),
        decreases lines@.len() - i,
    {
        assert(vecs_view(lines@).subrange(0, i + 1).drop_last() =~= vecs_view(lines@).subrange(
            0,
            i as int,
        ));
        assert(vecs_view(lines@)[i as int] == lines@[i as int]@);
        let (d, a) = scutil_step(device, ip, lines[i].as_slice());
        device = d;
        ip = a;
        i = i + 1;
    }
    assert(vecs_view(lines@).subrange(0, i as int) =~= vecs_view(lines@));
    (string_from_chars(device.as_slice()), string_from_chars(ip.as_slice()))
}

/// The AirPort state names a Wi-Fi interface when it is not empty and
/// does not report a missing key.
pub open spec fn spec_airport_is_wifi(text: Seq<char>) -> bool {
    text.len() > 0 && !spec_contains(text, "no such key"@)
}

/// The network name on the last `SSID_STR :` line (after its first `:`,
/// trimmed), or empty.
pub open spec fn spec_airport_ssid(lines: Seq<Seq<char>>) -> Seq<char>
    decreases lines.len(),
{
    if lines.len() == 0 {
        seq![]
    } else if spec_contains(lines.last(), "SSID_STR :"@) {
        match spec_field(lines.last(), ':', 1) {
            Some(f) => spec_trim(f),
            None => seq![],
        }
    } else {
        spec_airport_ssid(lines.drop_last())
    }
}

/// Reads the AirPort state of a device: the network name when the device is
/// a Wi-Fi interface, none otherwise.
pub fn airport_ssid(text: &str) -> (r: Option<String>)
    ensures
        spec_airport_is_wifi(text@) ==> (r matches Some(s) && s@ == spec_airport_ssid(
            spec_lines(text@),
        )),
        !spec_airport_is_wifi(text@) ==> r is None,
{
    let cs = str_chars(text);
    if cs.len() == 0 || contains(cs.as_slice(), str_chars("no such key").as_slice()) {
        return None;
    }
    let lines = lines_of(cs.as_slice());
    let mut ssid: Vec<char> = Vec::new();
    let mut i: usize = 0;
    let marker = str_chars("SSID_STR :");
    while i < lines.len()
        invariant
            i <= lines@.len(),
            marker@ == "SSID_STR :"@,
            ssid@ == spec_airport_ssid(vecs_view(lines@).subrange(0, i as int)),
        decreases lines@.len() - i,
    {
        let ghost sub = vecs_view(lines@).subrange(0, i + 1);
        assert(sub.drop_last() =~= vecs_view(lines@).subrange(0, i as int));
        assert(sub.last() == lines@[i as int]@);
        if contains(lines[i].as_slice(), marker.as_slice()) {
            let fields = split_on(lines[i].as_slice(), ':');
            if fields.len() > 1 {
                assert(vecs_view(fields@)[1] == fields@[1]@);
                ssid = trim(fields[1].as_slice());
            } else {
                ssid = Vec::new();
            }
        }
        i = i + 1;
    }
    assert(vecs_view(lines@).subrange(0, i as int) =~= vecs_view(lines@));
    Some(string_from_chars(ssid.as_slice()))
}

/// In the list of hardware ports, the line naming the device follows a
/// line that mentions Wi-Fi.
pub open spec fn spec_port_is_wifi(lines: Seq<Seq<char>>, device: Seq<char>) -> bool {
    exists|i: int|
        0 < i < lines.len() && spec_contains(#[trigger] lines[i], "Device: "@ + device)
            && spec_contains(lines[i - 1], "Wi-Fi"@)
}

/// Whether `networksetup -listallhardwareports` lists the device as Wi-Fi.
pub fn hardware_port_is_wifi(text: &str, device: &str) -> (r: bool)
    ensures
        r == spec_port_is_wifi(spec_lines(text@), device@),
{
    let lines = lines_of(str_chars(text).as_slice());
    let mut needle = str_chars("Device: ");
    let mut d = str_chars(device);
    needle.append(&mut d);
    let wifi = str_chars("Wi-Fi");
    let mut i: usize = 0;
    while i < lines.len()
        invariant
            i <= lines@.len(),
            vecs_view(lines@) == spec_lines(text@),
            needle@ == "Device: "@ + device@,
            wifi@ == "Wi-Fi"@,
            forall|k: int|
                0 < k < i ==> !(spec_contains(#[trigger] vecs_view(lines@)[k], needle@)
                    && spec_contains(vecs_view(lines@)[k - 1], wifi@)),
        decreases lines@.len() - i,
    {
        if i > 0 && contains(lines[i].as_slice(), needle.as_slice()) && contains(
            lines[i - 1].as_slice(),
            wifi.as_slice(),
        ) {
            assert(vecs_view(lines@)[i as int] == lines@[i as int]@);
            assert(vecs_view(lines@)[i - 1] == lines@[i - 1]@);
            return true;
        }
        assert(i > 0 ==> vecs_view(lines@)[i as int] == lines@[i as int]@ && vecs_view(
            lines@,
        )[i - 1] == lines@[i - 1]@);
        i = i + 1;
    }
    false
}

/// Whether `networksetup -getairportpower` reports the power on.
pub fn power_is_on(text: &str) -> (r: bool)
    ensures
        r == spec_contains(text@, "On"@),
{
    contains(str_chars(text).as_slice(), str_chars("On").as_slice())
}

/// An interface is connected when it has an address other than the loopback one.
pub open spec fn spec_is_connected(ip: Seq<char>) -> bool {
    ip.len() > 0 && ip != "127.0.0.1"@
}

impl NetworkData {
    /// The state when there is no primary interface.
    pub fn disconnected() -> (r: Self)
        ensures
            !r.is_connected && !r.is_wifi && !r.is_wifi_on,
            r.ssid@.len() == 0 && r.ip@.len() == 0 && r.device@.len() == 0,
    {
        NetworkData {
            is_connected: false,
            is_wifi: false,
            is_wifi_on: false,
            ssid: String::new(),
            ip: String::new(),
            device: String::new(),
        }
    }

    /// The state of an interface from what was read about it.
    pub fn from_parts(device: String, ip: String, ssid: String, is_wifi: bool, is_wifi_on: bool) -> (r: Self)
        ensures
            r.is_connected == spec_is_connected(ip@),
            r.is_wifi == is_wifi,
            r.is_wifi_on == is_wifi_on,
            r.ssid == ssid,
            r.ip == ip,
            r.device == device,
    {
        let is_connected = ip.as_str().unicode_len() > 0 && !str_eq(ip.as_str(), "127.0.0.1");
        NetworkData { is_connected, is_wifi, is_wifi_on, ssid, ip, device }
    }
}

// ----- reading the state step by step --------------------------------------------

/// What has been read about the primary interface so far; each read is
/// `None` until it was made.
#[derive(Debug, Clone, PartialEq, Eq)]
pub struct NetworkReads {
    /// The output of `scutil --nwi`.
    pub nwi: String,
    /// The machine's local address, if the system gave one.
    pub local_ip: Option<Option<String>>,
    /// The AirPort state of the device, as `scutil` prints it.
    pub airport: Option<String>,
    /// The output of `networksetup -listallhardwareports`.
    pub ports: Option<String>,
    /// The output of `networksetup -getairportpower` for the device.
    pub power: Option<String>,
}

/// What to read next about the primary interface, or its state.
#[derive(Debug, Clone, PartialEq, Eq)]
pub enum NetworkStep {
    ReadLocalIp,
    ReadAirPort { device: String },
    ReadHardwarePorts,
    ReadPower { device: String },
    Done(NetworkData),
}

/// The step is the state with these parts.
pub open spec fn spec_done(
    s: NetworkStep,
    device: Seq<char>,
    ip: Seq<char>,
    ssid: Seq<char>,
    is_wifi: bool,
    is_wifi_on: bool,
) -> bool {
    &&& s matches NetworkStep::Done(d)
    &&& d.device@ == device
    &&& d.ip@ == ip
    &&& d.ssid@ == ssid
    &&& d.is_wifi == is_wifi
    &&& d.is_wifi_on == is_wifi_on
    &&& d.is_connected == spec_is_connected(ip)
}

/// The probe of the primary interface: the interface list gives the device
/// and address (the local address stands in when the list has none); without
/// a device the machine is disconnected. The AirPort state tells a Wi-Fi
/// device and its network; failing that the hardware ports tell whether it is
/// Wi-Fi; a Wi-Fi device's power is read last.
pub open spec fn spec_network_step(r: NetworkReads, s: NetworkStep) -> bool {
    let (device, ip0) = spec_parse_scutil(r.nwi@);
    let ip = if ip0.len() > 0 {
        ip0
    } else {
        match r.local_ip {
            Some(Some(l)) => l@,
            _ => seq![],
        }
    };
    if ip0.len() == 0 && r.local_ip is None {
        s == NetworkStep::ReadLocalIp
    } else if device.len() == 0 {
        spec_done(s, seq![], seq![], seq![], false, false)
    } else {
        match r.airport {
            None => s matches NetworkStep::ReadAirPort { device: d } && d@ == device,
            Some(a) => if spec_airport_is_wifi(a@) {
                match r.power {
                    None => s matches NetworkStep::ReadPower { device: d } && d@ == device,
                    Some(p) => spec_done(
                        s,
                        device,
                        ip,
                        spec_airport_ssid(spec_lines(a@)),
                        true,
                        spec_contains(p@, "On"@),
                    ),
                }
            } else {
                match r.ports {
                    None => s == NetworkStep::ReadHardwarePorts,
                    Some(h) => if spec_port_is_wifi(spec_lines(h@), device) {
                        match r.power {
                            None => s matches NetworkStep::ReadPower { device: d } && d@ == device,
                            Some(p) => spec_done(s, device, ip, seq![], true, spec_contains(p@, "On"@)),
                        }
                    } else {
                        spec_done(s, device, ip, seq![], false, false)
                    },
                }
            },
        }
    }
}

impl Network {
    /// The next read of the probe, or the state once enough was read. A read
    /// is only asked for while it has not been made.
    pub fn next_step(reads: &NetworkReads) -> (s: NetworkStep)
        ensures
            spec_network_step(*reads, s),
            s is ReadLocalIp ==> reads.local_ip is None,
            s is ReadAirPort ==> reads.airport is None,
            s is ReadHardwarePorts ==> reads.ports is None,
            s is ReadPower ==> reads.power is None,
    {
        let (device, ip0) = parse_scutil(reads.nwi.as_str());
        let ip = if ip0.as_str().unicode_len() > 0 {
            ip0
        } else {
            match &reads.local_ip {
                None => {
                    return NetworkStep::ReadLocalIp;
                },
                Some(Some(l)) => l.clone(),
                Some(None) => String::new(),
            }
        };
        if device.as_str().unicode_len() == 0 {
            let d = NetworkData::disconnected();
            assert(d.device@ =~= Seq::<char>::empty() && d.ip@ =~= Seq::<char>::empty()
                && d.ssid@ =~= Seq::<char>::empty());
            return NetworkStep::Done(d);
        }
        let (ssid, is_wifi) = match &reads.airport {
            None => {
                return NetworkStep::ReadAirPort { device };
            },
            Some(a) => match airport_ssid(a.as_str()) {
                Some(name) => (name, true),
                None => match &reads.ports {
                    None => {
                        return NetworkStep::ReadHardwarePorts;
                    },
                    Some(h) => (String::new(), hardware_port_is_wifi(h.as_str(), device.as_str())),
                },
            },
        };
        if !is_wifi {
            return NetworkStep::Done(NetworkData::from_parts(device, ip, ssid, false, false));
        }
        match &reads.power {
            None => NetworkStep::ReadPower { device },
            Some(p) => NetworkStep::Done(
                NetworkData::from_parts(device, ip, ssid, true, power_is_on(p.as_str())),
            ),
        }
    }
}

/// The probe begins with `scutil`: while the interface list gives no address
/// and the local address was not read, it asks for the local address; once an
/// address is known (from either), an interface list without a device means
/// the machine is disconnected, whatever else was read.
pub proof fn lemma_probe_start(r: NetworkReads, s: NetworkStep)
    requires
        spec_network_step(r, s),
    ensures
        spec_parse_scutil(r.nwi@).1.len() == 0 && r.local_ip is None ==> s
            == NetworkStep::ReadLocalIp,
        (spec_parse_scutil(r.nwi@).1.len() > 0 || r.local_ip is Some) && spec_parse_scutil(
            r.nwi@,
        ).0.len() == 0 ==> (s matches NetworkStep::Done(d) && !d.is_connected && !d.is_wifi
            && !d.is_wifi_on && d.device@.len() == 0 && d.ip@.len() == 0 && d.ssid@.len() == 0),
{
}

/// When the AirPort state of the device that `scutil` names is not empty
/// and reports no missing key, the device is Wi-Fi whatever the hardware
/// ports say: the probe asks for its power, then reports it as Wi-Fi with the
/// network name of the last `SSID_STR :` line, on when the power reads `On`.
pub proof fn lemma_airport_wifi(r: NetworkReads, s: NetworkStep)
    requires
        spec_network_step(r, s),
        spec_parse_scutil(r.nwi@).0.len() > 0,
        spec_parse_scutil(r.nwi@).1.len() > 0 || r.local_ip is Some,
        r.airport matches Some(a) && a@.len() > 0 && !spec_contains(a@, "no such key"@),
    ensures
        r.power is None ==> (s matches NetworkStep::ReadPower { device: d } && d@
            == spec_parse_scutil(r.nwi@).0),
        r.power matches Some(p) ==> (s matches NetworkStep::Done(d) && d.is_wifi && d.device@
            == spec_parse_scutil(r.nwi@).0 && d.is_wifi_on == spec_contains(p@, "On"@) && d.ssid@
            == spec_airport_ssid(spec_lines(r.airport->0@))),
{
}

/// When the AirPort state does not tell a Wi-Fi interface (it is empty or
/// reports a missing key), the hardware-port list decides, looked up by the
/// device that `scutil` names: a line holding `Device: <device>` right after a
/// line that mentions Wi-Fi makes the device Wi-Fi, so the probe asks for its
/// power and, once the power is read, reports it as Wi-Fi, on when the power
/// reads `On`.
pub proof fn lemma_wifi_port_found(r: NetworkReads, s: NetworkStep, i: int)
    requires
        spec_network_step(r, s),
        spec_parse_scutil(r.nwi@).0.len() > 0,
        spec_parse_scutil(r.nwi@).1.len() > 0 || r.local_ip is Some,
        r.airport matches Some(a) && (a@.len() == 0 || spec_contains(a@, "no such key"@)),
        r.ports matches Some(h) && 0 < i < spec_lines(h@).len() && spec_contains(
            spec_lines(h@)[i],
            "Device: "@ + spec_parse_scutil(r.nwi@).0,
        ) && spec_contains(spec_lines(h@)[i - 1], "Wi-Fi"@),
    ensures
        r.power is None ==> (s matches NetworkStep::ReadPower { device: d } && d@
            == spec_parse_scutil(r.nwi@).0),
        r.power matches Some(p) ==> (s matches NetworkStep::Done(d) && d.is_wifi && d.device@
            == spec_parse_scutil(r.nwi@).0 && d.is_wifi_on == spec_contains(p@, "On"@)),
{
    let h = r.ports->0;
    assert(spec_port_is_wifi(spec_lines(h@), spec_parse_scutil(r.nwi@).0));
}

/// When neither the AirPort state nor the hardware-port list tells the
/// device that `scutil` names as Wi-Fi (no line holding `Device: <device>`
/// follows a line that mentions Wi-Fi), the interface is wired: the probe
/// reports that device and its address, not Wi-Fi, with no network name.
pub proof fn lemma_wired_port(r: NetworkReads, s: NetworkStep)
    requires
        spec_network_step(r, s),
        spec_parse_scutil(r.nwi@).0.len() > 0,
        spec_parse_scutil(r.nwi@).1.len() > 0 || r.local_ip is Some,
        r.airport matches Some(a) && (a@.len() == 0 || spec_contains(a@, "no such key"@)),
        r.ports matches Some(h) && forall|i: int|
            0 < i < spec_lines(h@).len() && spec_contains(
                #[trigger] spec_lines(h@)[i],
                "Device: "@ + spec_parse_scutil(r.nwi@).0,
            ) ==> !spec_contains(spec_lines(h@)[i - 1], "Wi-Fi"@),
    ensures
        s matches NetworkStep::Done(d) && !d.is_wifi && !d.is_wifi_on && d.ssid@.len() == 0
            && d.device@ == spec_parse_scutil(r.nwi@).0 && d.ip@ == (if spec_parse_scutil(
            r.nwi@,
        ).1.len() > 0 {
            spec_parse_scutil(r.nwi@).1
        } else {
            match r.local_ip {
                Some(Some(l)) => l@,
                _ => seq![],
            }
        }),
{
}

/// The bar icon: disconnected, Wi-Fi, or wired.
pub open spec fn spec_network_icon(data: NetworkData) -> Seq<char> {
    if !data.is_connected {
        "󰤮"@
    } else if data.is_wifi {
        "󰤨"@
    } else {
        "󰈀"@
    }
}

impl Network {
    /// The command that shows the state of the interface on the bar item.
    pub fn update_items(data: &NetworkData) -> (r: Vec<String>)
        ensures
            cmd_view(r) == spec_set_texts_cmd("network"@, Some(spec_network_icon(*data)), None),
    {
        let icon = if !data.is_connected {
            "󰤮"
        } else if data.is_wifi {
            "󰤨"
        } else {
            "󰈀"
        };
        set_texts("network", Some(icon), None)
    }
}

/// The network item.
pub struct Network;

// ----- the popup's list of networks -----------------------------------------------

/// A network needs a password unless its security is empty or `Open`.
pub open spec fn spec_is_protected(security: Seq<char>) -> bool {
    security != "Open"@ && security.len() > 0
}

/// Whether a network with this security needs a password.
pub fn is_protected(security: &str) -> (r: bool)
    ensures
        r == spec_is_protected(security@),
{
    !str_eq(security, "Open") && security.unicode_len() > 0
}

/// A character that may stand in an item name: alphanumeric or `_`.
pub open spec fn spec_name_char(c: char) -> bool {
    crate::strs::spec_is_alphanumeric(c) || c == '_'
}

/// An ASCII letter or digit, or `_`.
pub open spec fn spec_ascii_name_char(c: char) -> bool {
    crate::strs::spec_ascii_alnum(c) || c == '_'
}

/// The network name with only alphanumeric characters and `_` kept.
pub open spec fn spec_sanitize_ssid(ssid: Seq<char>) -> Seq<char> {
    crate::strs::spec_keep(ssid, |c: char| spec_name_char(c))
}

/// Keeps the characters of a network name that may stand in an item name.
pub fn sanitize_ssid(ssid: &str) -> (r: String)
    ensures
        r@ == spec_sanitize_ssid(ssid@),
        crate::strs::spec_is_ascii(ssid@) ==> r@ == crate::strs::spec_keep(
            ssid@,
            |c: char| spec_ascii_name_char(c),
        ),
{
    let cs = str_chars(ssid);
    let mut out: Vec<char> = Vec::new();
    let mut i: usize = 0;
    while i < cs.len()
        invariant
            i <= cs@.len(),
            cs@ == ssid@,
            out@ == crate::strs::spec_keep(ssid@.subrange(0, i as int), |c: char| spec_name_char(c)),
            forall|k: int|
                0 <= k < i && (#[trigger] ssid@[k] as u32) < 128 ==> (spec_name_char(ssid@[k])
                    == spec_ascii_name_char(ssid@[k])),
        decreases cs@.len() - i,
    {
        let c = cs[i];
        assert(ssid@.subrange(0, i + 1).drop_last() =~= ssid@.subrange(0, i as int));
        if crate::strs::is_alphanumeric(c) || c == '_' {
            out.push(c);
        }
        i = i + 1;
    }
    assert(ssid@.subrange(0, i as int) =~= ssid@);
    proof {
        if crate::strs::spec_is_ascii(ssid@) {
            crate::strs::lemma_keep_agree(
                ssid@,
                |c: char| spec_name_char(c),
                |c: char| spec_ascii_name_char(c),
            );
        }
    }
    string_from_chars(out.as_slice())
}

/// The item name of a network's row.
pub open spec fn spec_row_name(n: WifiNetwork) -> Seq<char> {
    "network.device."@ + spec_sanitize_ssid(n.ssid@)
}

/// A network's security, `Open` when unknown.
pub open spec fn spec_security(n: WifiNetwork) -> Seq<char> {
    match n.security {
        Some(s) => s@,
        None => "Open"@,
    }
}

/// The row icon: a lock for protected networks.
pub open spec fn spec_row_icon(n: WifiNetwork) -> Seq<char> {
    if spec_is_protected(spec_security(n)) {
        "󰤪"@
    } else {
        "󰤨"@
    }
}

/// The click script of a row: a short highlight, then the message that
/// joins the network.
pub open spec fn spec_row_click(connect_script: Seq<char>) -> Seq<char> {
    "sketchybar --animate sin 10 --set $NAME background.highlight=on; sleep 0.1; sketchybar --animate sin 10 --set $NAME background.highlight=off; "@
        + connect_script
}

/// The click script of a network's row for the given device and program path.
pub open spec fn spec_network_click(n: WifiNetwork, device: Seq<char>, exe_path: Seq<char>) -> Seq<
    char,
> {
    spec_row_click(spec_send_text(exe_path, spec_connect_fields(n.ssid@, device, spec_security(n))))
}

/// The settings of a network's row, in the order sketchybar receives them.
pub open spec fn spec_row_args(n: WifiNetwork, click: Seq<char>) -> Seq<PropView> {
    seq![
        ("padding_left"@, spec_dec(8)),
        ("width"@, spec_dec(250)),
        ("background."@ + "drawing"@, "on"@),
        ("background."@ + "color"@, spec_argb_text(Argb { a: 0, r: 0, g: 0, b: 0 })),
        ("background."@ + "height"@, spec_dec(28)),
        ("background."@ + "corner_radius"@, spec_dec(6)),
        ("icon"@, spec_row_icon(n)),
        ("label"@, n.ssid@),
        ("click_script"@, click),
    ]
}

/// The commands that add a network's row to the popup and let it react to
/// the mouse.
pub open spec fn spec_row_cmds(n: WifiNetwork, device: Seq<char>, exe_path: Seq<char>) -> Seq<
    Seq<Seq<char>>,
> {
    spec_special_cmds(
        "item"@,
        spec_row_name(n),
        Some("popup."@ + "network"@),
        spec_row_args(n, spec_network_click(n, device, exe_path)),
    ).push(seq!["--subscribe"@, spec_row_name(n), "mouse.entered"@, "mouse.exited"@])
}

impl Network {
    /// Adds a network's row to the popup: clicking it joins the network.
    /// `click` is the click script that was used, whose message is described.
    pub fn render_single_network(network: &WifiNetwork, device: &str, exe_path: &str) -> (r: Vec<
        Vec<String>,
    >)
        ensures
            cmds_view(r@) == spec_row_cmds(*network, device@, exe_path@),
    {
        let name = concat2("network.device.", sanitize_ssid(network.ssid.as_str()).as_str());
        let security = match &network.security {
            Some(s) => s.clone(),
            None => string_of("Open"),
        };
        let icon = if is_protected(security.as_str()) {
            "󰤪"
        } else {
            "󰤨"
        };
        let cmd = DaemonCmd::ConnectNetwork {
            ssid: network.ssid.clone(),
            device: string_of(device),
            security,
        };
        let connect_script = daemon_send_script(exe_path, &cmd);
        assert(security@ == spec_security(*network));
        assert(connect_script@ == spec_send_text(
            exe_path@,
            spec_connect_fields(network.ssid@, device@, spec_security(*network)),
        ));
        let click = concat2(
            "sketchybar --animate sin 10 --set $NAME background.highlight=on; sleep 0.1; sketchybar --animate sin 10 --set $NAME background.highlight=off; ",
            connect_script.as_str(),
        );
        let item = BarItem::new(name.as_str()).icon(icon).label(network.ssid.as_str()).width(
            250,
        ).padding_left(8).background_color(Argb::transparent()).background_height(
            28,
        ).background_drawing(ToggleState::On).background_corner_radius(6).click_script(
            click.as_str(),
        );
        assert(click@ == spec_network_click(*network, device@, exe_path@));
        assert(name@ == spec_row_name(*network));
        proof {
            lemma_row_args(item.props, *network, click@);
        }
        let mut cmds = add_special_item(
            "item",
            name.as_str(),
            Some(ComponentPosition::Popup(string_of("network"))),
            &item,
        );
        let mut events: Vec<BarEvent> = Vec::new();
        events.push(BarEvent::MouseEntered);
        events.push(BarEvent::MouseExited);
        let sub = crate::api::subscribe(name.as_str(), events);
        assert(spec_event_names(events@) =~= seq!["mouse.entered"@, "mouse.exited"@]);
        assert(cmd_view(sub) =~= seq![
            "--subscribe"@,
            spec_row_name(*network),
            "mouse.entered"@,
            "mouse.exited"@,
        ]);
        assert(cmds_view(cmds@) == spec_special_cmds(
            "item"@,
            spec_row_name(*network),
            Some("popup."@ + "network"@),
            spec_row_args(*network, spec_network_click(*network, device@, exe_path@)),
        ));
        let ghost before = cmds_view(cmds@);
        cmds.push(sub);
        assert(cmds_view(cmds@) =~= before.push(cmd_view(sub)));
        cmds
    }
}

proof fn lemma_row_args(p: ItemProps, n: WifiNetwork, click: Seq<char>)
    requires
        p.geometry == (Geometry {
            width: Some(WidthMode::Value(250)),
            padding_left: Some(8),
            background: Some(
                BackgroundProps {
                    color: Some(Argb { a: 0, r: 0, g: 0, b: 0 }),
                    height: Some(28),
                    drawing: Some(ToggleState::On),
                    corner_radius: Some(6),
                    ..BackgroundProps::spec_empty()
                },
            ),
            ..Geometry::spec_empty()
        }),
        p.icon.props is None,
        p.icon.icon matches Some(s) && s@ == spec_row_icon(n),
        p.label.props is None,
        p.label.label matches Some(s) && s@ == n.ssid@,
        p.scripting.script is None,
        p.scripting.update_freq is None,
        p.scripting.updates is None,
        p.scripting.mach_helper is None,
        p.scripting.click_script matches Some(ScriptType::String(s)) && s@ == click,
        p.text is None,
        p.popup is None,
    ensures
        p.spec_args() == spec_row_args(n, click),
{
    reveal(ItemProps::spec_args_at);
    let bg = p.geometry.background.unwrap();
    assert(bg.spec_args() =~= seq![
        ("drawing"@, "on"@),
        ("color"@, spec_argb_text(Argb { a: 0, r: 0, g: 0, b: 0 })),
        ("height"@, spec_dec(28)),
        ("corner_radius"@, spec_dec(6)),
    ]);
    assert(p.geometry.spec_args_at(None) =~= seq![
        ("padding_left"@, spec_dec(8)),
        ("width"@, spec_dec(250)),
        ("background."@ + "drawing"@, "on"@),
        ("background."@ + "color"@, spec_argb_text(Argb { a: 0, r: 0, g: 0, b: 0 })),
        ("background."@ + "height"@, spec_dec(28)),
        ("background."@ + "corner_radius"@, spec_dec(6)),
    ]);
    assert(p.scripting.spec_args() =~= seq![("click_script"@, click)]);
    assert(p.spec_args() =~= spec_row_args(n, click));
}

// ----- section headers -------------------------------------------------------------

/// The settings of a popup section header.
pub open spec fn spec_header_args(label: Seq<char>, padding: u32, width: u32) -> Seq<PropView> {
    seq![
        ("padding_left"@, spec_dec(padding as nat)),
        ("width"@, spec_dec(width as nat)),
        ("label"@, label),
        ("label."@ + "color"@, spec_argb_text(spec_catppuccin_mocha().overlay1)),
        ("label."@ + "font"@, spec_nerd_font_text(FontStyle::Bold, "10"@)),
    ]
}

proof fn lemma_header_args(p: ItemProps, label: Seq<char>, padding: u32, width: u32)
    requires
        p.geometry == (Geometry {
            width: Some(WidthMode::Value(width)),
            padding_left: Some(padding),
            ..Geometry::spec_empty()
        }),
        p.icon == crate::props::Icon::spec_empty(),
        p.label.label matches Some(s) && s@ == label,
        p.label.props is Some,
        p.label.props.unwrap() == (Text {
            color: Some(spec_catppuccin_mocha().overlay1),
            font: p.label.props.unwrap().font,
            ..Text::spec_empty()
        }),
        p.label.props.unwrap().font is Some,
        p.label.props.unwrap().font.unwrap().spec_text() == spec_nerd_font_text(
            FontStyle::Bold,
            "10"@,
        ),
        p.scripting == crate::props::Scripting::spec_empty(),
        p.text is None,
        p.popup is None,
    ensures
        p.spec_args() == spec_header_args(label, padding, width),
{
    reveal(ItemProps::spec_args_at);
    let t = p.label.props.unwrap();
    assert(t.spec_args() =~= seq![
        ("color"@, spec_argb_text(spec_catppuccin_mocha().overlay1)),
        ("font"@, spec_nerd_font_text(FontStyle::Bold, "10"@)),
    ]);
    assert(p.geometry.spec_args_at(None) =~= seq![
        ("padding_left"@, spec_dec(padding as nat)),
        ("width"@, spec_dec(width as nat)),
    ]);
    assert(p.icon.spec_args() =~= Seq::<PropView>::empty());
    assert(p.scripting.spec_args() =~= Seq::<PropView>::empty());
    assert(p.spec_args() =~= spec_header_args(label, padding, width));
}

/// The commands that add a section header to the popup of `parent`.
pub open spec fn spec_header_cmds(
    parent: Seq<char>,
    name: Seq<char>,
    label: Seq<char>,
    padding: u32,
    width: u32,
) -> Seq<Seq<Seq<char>>> {
    spec_special_cmds(
        "item"@,
        name,
        Some("popup."@ + parent),
        spec_header_args(label, padding, width),
    )
}

/// Adds a section header (a dimmed bold label) to the popup of `parent`.
pub fn section_header(parent: &str, name: &str, label: &str, padding: u32, width: u32) -> (r: Vec<
    Vec<String>,
>)
    ensures
        cmds_view(r@) == spec_header_cmds(parent@, name@, label@, padding, width),
{
    let theme = catppuccin_mocha();
    let header = BarItem::new(name).label(label).label_color(theme.overlay1).label_font(
        nerd_font(FontStyle::Bold, "10"),
    ).padding_left(padding).width(width);
    proof {
        lemma_header_args(header.props, label@, padding, width);
    }
    add_special_item("item", name, Some(ComponentPosition::Popup(string_of(parent))), &header)
}

// ----- the list of networks -----------------------------------------------------------

/// The networks whose name is (or, with `known` false, is not) among `names`, in order.
pub open spec fn spec_filter_known(ns: Seq<WifiNetwork>, names: Seq<Seq<char>>, known: bool) -> Seq<
    WifiNetwork,
>
    decreases ns.len(),
{
    if ns.len() == 0 {
        seq![]
    } else if names.contains(ns.last().ssid@) == known {
        spec_filter_known(ns.drop_last(), names, known).push(ns.last())
    } else {
        spec_filter_known(ns.drop_last(), names, known)
    }
}

/// The rows of the networks, in order.
pub open spec fn spec_rows_cmds(ns: Seq<WifiNetwork>, device: Seq<char>, exe_path: Seq<char>) -> Seq<
    Seq<Seq<char>>,
>
    decreases ns.len(),
{
    if ns.len() == 0 {
        seq![]
    } else {
        spec_rows_cmds(ns.drop_last(), device, exe_path) + spec_row_cmds(
            ns.last(),
            device,
            exe_path,
        )
    }
}

/// A section of the popup: a header and the rows, or nothing without networks.
pub open spec fn spec_section_cmds(
    name: Seq<char>,
    label: Seq<char>,
    ns: Seq<WifiNetwork>,
    device: Seq<char>,
    exe_path: Seq<char>,
) -> Seq<Seq<Seq<char>>> {
    if ns.len() == 0 {
        seq![]
    } else {
        spec_header_cmds("network"@, name, label, 8, 250) + spec_rows_cmds(ns, device, exe_path)
    }
}

/// The commands that rebuild the popup's list: remove the old rows and
/// headers, then the known networks' section, then the other networks'.
pub open spec fn spec_network_list_cmds(
    ns: Seq<WifiNetwork>,
    known: Seq<Seq<char>>,
    device: Seq<char>,
    exe_path: Seq<char>,
) -> Seq<Seq<Seq<char>>> {
    seq![seq!["--remove"@, "/network\\.device\\..*/"@, "/network\\.section\\..*/"@]]
        + spec_section_cmds(
        "network.section.known"@,
        "KNOWN NETWORKS"@,
        spec_filter_known(ns, known, true),
        device,
        exe_path,
    ) + spec_section_cmds(
        "network.section.other"@,
        "OTHER NETWORKS"@,
        spec_filter_known(ns, known, false),
        device,
        exe_path,
    )
}

/// The views of a list of strings.
pub open spec fn strings_view(v: Seq<String>) -> Seq<Seq<char>> {
    v.map_values(|s: String| s@)
}

fn name_in(names: &Vec<String>, ssid: &String) -> (r: bool)
    ensures
        r == strings_view(names@).contains(ssid@),
{
    let mut i: usize = 0;
    while i < names.len()
        invariant
            i <= names@.len(),
            forall|k: int| 0 <= k < i ==> names@[k]@ != ssid@,
        decreases names@.len() - i,
    {
        if names[i] == *ssid {
            assert(strings_view(names@)[i as int] == ssid@);
            return true;
        }
        i = i + 1;
    }
    assert forall|k: int| 0 <= k < strings_view(names@).len() implies strings_view(names@)[k]
        != ssid@ by {
        assert(strings_view(names@)[k] == names@[k]@);
    }
    false
}

fn section(
    name: &str,
    label: &str,
    ns: &Vec<WifiNetwork>,
    device: &str,
    exe_path: &str,
) -> (r: Vec<Vec<String>>)
    ensures
        cmds_view(r@) == spec_section_cmds(name@, label@, ns@, device@, exe_path@),
{
    let mut cmds: Vec<Vec<String>> = Vec::new();
    if ns.len() == 0 {
        assert(cmds_view(cmds@) =~= Seq::<Seq<Seq<char>>>::empty());
        return cmds;
    }
    let mut h = section_header("network", name, label, 8, 250);
    cmds.append(&mut h);
    let ghost head = cmds_view(cmds@);
    assert(head =~= spec_header_cmds("network"@, name@, label@, 8, 250));
    let mut i: usize = 0;
    while i < ns.len()
        invariant
            i <= ns@.len(),
            cmds_view(cmds@) == head + spec_rows_cmds(ns@.subrange(0, i as int), device@, exe_path@),
        decreases ns@.len() - i,
    {
        let mut rows = Network::render_single_network(&ns[i], device, exe_path);
        let ghost before = cmds_view(cmds@);
        let ghost added = cmds_view(rows@);
        cmds.append(&mut rows);
        assert(ns@.subrange(0, i + 1).drop_last() =~= ns@.subrange(0, i as int));
        assert(cmds_view(cmds@) =~= before + added);
        i = i + 1;
    }
    assert(ns@.subrange(0, i as int) =~= ns@);
    cmds
}

impl Network {
    /// Rebuilds the popup's list: the known networks first, then the others,
    /// each in the order given.
    pub fn render_network_list(
        networks: Vec<WifiNetwork>,
        known_ssids: Vec<String>,
        device: &str,
        exe_path: &str,
    ) -> (r: Vec<Vec<String>>)
        ensures
            cmds_view(r@) == spec_network_list_cmds(
                networks@,
                strings_view(known_ssids@),
                device@,
                exe_path@,
            ),
    {
        let ghost names = strings_view(known_ssids@);
        let ghost input = networks@;
        let mut known: Vec<WifiNetwork> = Vec::new();
        let mut other: Vec<WifiNetwork> = Vec::new();
        let n = networks.len();
        let mut rest = networks;
        let mut i: usize = 0;
        while rest.len() > 0
            invariant
                i + rest@.len() == input.len(),
                input.len() == n,
                rest@ == input.subrange(i as int, input.len() as int),
                names == strings_view(known_ssids@),
                known@ == spec_filter_known(input.subrange(0, i as int), names, true),
                other@ == spec_filter_known(input.subrange(0, i as int), names, false),
            decreases rest@.len(),
        {
            let x = rest.remove(0);
            assert(input.subrange(0, i + 1).drop_last() =~= input.subrange(0, i as int));
            if name_in(&known_ssids, &x.ssid) {
                known.push(x);
            } else {
                other.push(x);
            }
            i = i + 1;
            assert(rest@ =~= input.subrange(i as int, input.len() as int));
        }
        assert(input.subrange(0, i as int) =~= input);
        let mut cmds: Vec<Vec<String>> = Vec::new();
        let mut c: Vec<String> = Vec::new();
        c.push(string_of("--remove"));
        c.push(string_of("/network\\.device\\..*/"));
        c.push(string_of("/network\\.section\\..*/"));
        cmds.push(c);
        let mut a = section("network.section.known", "KNOWN NETWORKS", &known, device, exe_path);
        let mut b = section("network.section.other", "OTHER NETWORKS", &other, device, exe_path);
        let ghost va = cmds_view(a@);
        let ghost vb = cmds_view(b@);
        cmds.append(&mut a);
        cmds.append(&mut b);
        assert(cmd_view(c) =~= seq!["--remove"@, "/network\\.device\\..*/"@, "/network\\.section\\..*/"@]);
        assert(cmds_view(cmds@) =~= seq![cmd_view(c)] + va + vb);
        cmds
    }
}

/// The names of the preferred networks listed by
/// `networksetup -listpreferredwirelessnetworks`: every line after the
/// first, trimmed, without the empty ones.
pub open spec fn spec_known_networks(lines: Seq<Seq<char>>) -> Seq<Seq<char>>
    decreases lines.len(),
{
    if lines.len() <= 1 {
        seq![]
    } else if spec_trim(lines.last()).len() > 0 {
        spec_known_networks(lines.drop_last()).push(spec_trim(lines.last()))
    } else {
        spec_known_networks(lines.drop_last())
    }
}

/// Reads the names of the preferred networks.
pub fn parse_known_networks(text: &str) -> (r: Vec<String>)
    ensures
        strings_view(r@) == spec_known_networks(spec_lines(text@)),
{
    let lines = lines_of(str_chars(text).as_slice());
    let mut out: Vec<String> = Vec::new();
    let mut i: usize = 0;
    while i < lines.len()
        invariant
            i <= lines@.len(),
            strings_view(out@) == spec_known_networks(vecs_view(lines@).subrange(0, i as int)),
        decreases lines@.len() - i,
    {
        let ghost sub = vecs_view(lines@).subrange(0, i + 1);
        assert(sub.drop_last() =~= vecs_view(lines@).subrange(0, i as int));
        assert(sub.last() == lines@[i as int]@);
        if i >= 1 {
            let t = trim(lines[i].as_slice());
            if t.len() > 0 {
                let ghost before = strings_view(out@);
                out.push(string_from_chars(t.as_slice()));
                assert(strings_view(out@) =~= before.push(t@));
            }
        }
        i = i + 1;
    }
    assert(vecs_view(lines@).subrange(0, i as int) =~= vecs_view(lines@));
    out
}

// ----- the Wi-Fi switch and the scanning indicator ---------------------------------

/// The switch row: its icon and color show the power state, and a click asks
/// for the opposite state.
pub open spec fn spec_toggle_args(is_on: bool, script: Seq<char>) -> Seq<PropView> {
    seq![
        ("padding_left"@, spec_dec(8)),
        ("width"@, spec_dec(250)),
        ("icon"@, if is_on { "󰤨"@ } else { "󰤫"@ }),
        ("icon."@ + "color"@, spec_argb_text(
            if is_on {
                spec_catppuccin_mocha().blue
            } else {
                spec_catppuccin_mocha().overlay0
            },
        )),
        ("label"@, "Wi-Fi"@),
        ("click_script"@, script),
    ]
}

/// The power state a click on the switch asks for.
pub open spec fn spec_next_power(is_on: bool) -> Seq<char> {
    if is_on {
        "off"@
    } else {
        "on"@
    }
}

/// The commands that clear the popup and add the Wi-Fi switch.
pub open spec fn spec_popup_head_cmds(data: NetworkData, exe_path: Seq<char>) -> Seq<
    Seq<Seq<char>>,
> {
    seq![
        seq![
            "--remove"@,
            "/network\\.device\\..*/"@,
            "/network\\.section\\..*/"@,
            "network.toggle"@,
            "network.loading"@,
        ],
    ] + spec_special_cmds(
        "item"@,
        "network.toggle"@,
        Some("popup."@ + "network"@),
        spec_toggle_args(
            data.is_wifi_on,
            spec_send_text(
                exe_path,
                crate::events::spec_toggle_power_fields(
                    data.device@,
                    spec_next_power(data.is_wifi_on),
                ),
            ),
        ),
    )
}

proof fn lemma_toggle_args(p: ItemProps, is_on: bool, script: Seq<char>, color: Argb)
    requires
        color == (if is_on {
            spec_catppuccin_mocha().blue
        } else {
            spec_catppuccin_mocha().overlay0
        }),
        p.geometry == (Geometry {
            width: Some(WidthMode::Value(250)),
            padding_left: Some(8),
            ..Geometry::spec_empty()
        }),
        p.icon.icon matches Some(s) && s@ == (if is_on {
            "󰤨"@
        } else {
            "󰤫"@
        }),
        p.icon.props == Some(Text { color: Some(color), ..Text::spec_empty() }),
        p.label.label matches Some(s) && s@ == "Wi-Fi"@,
        p.label.props is None,
        p.scripting.script is None,
        p.scripting.update_freq is None,
        p.scripting.updates is None,
        p.scripting.mach_helper is None,
        p.scripting.click_script matches Some(ScriptType::String(s)) && s@ == script,
        p.text is None,
        p.popup is None,
    ensures
        p.spec_args() == spec_toggle_args(is_on, script),
{
    reveal(ItemProps::spec_args_at);
    let t = p.icon.props.unwrap();
    assert(t.spec_args() =~= seq![("color"@, spec_argb_text(color))]);
    assert(p.geometry.spec_args_at(None) =~= seq![
        ("padding_left"@, spec_dec(8)),
        ("width"@, spec_dec(250)),
    ]);
    assert(p.scripting.spec_args() =~= seq![("click_script"@, script)]);
    assert(p.spec_args() =~= spec_toggle_args(is_on, script));
}

impl Network {
    /// Clears the popup and adds the Wi-Fi switch.
    pub fn popup_head(data: &NetworkData, exe_path: &str) -> (r: Vec<Vec<String>>)
        ensures
            cmds_view(r@) == spec_popup_head_cmds(*data, exe_path@),
    {
        let theme = catppuccin_mocha();
        let (icon, color) = if data.is_wifi_on {
            ("󰤨", theme.blue)
        } else {
            ("󰤫", theme.overlay0)
        };
        let next = if data.is_wifi_on {
            "off"
        } else {
            "on"
        };
        let script = daemon_send_script(
            exe_path,
            &DaemonCmd::ToggleWifiPower { device: data.device.clone(), state: string_of(next) },
        );
        assert(next@ == spec_next_power(data.is_wifi_on));
        assert(script@ == spec_send_text(
            exe_path@,
            crate::events::spec_toggle_power_fields(data.device@, spec_next_power(data.is_wifi_on)),
        ));
        let item = BarItem::new("network.toggle").icon(icon).icon_color(color).label(
            "Wi-Fi",
        ).width(250).padding_left(8).click_script(script.as_str());
        proof {
            lemma_toggle_args(item.props, data.is_wifi_on, script@, color);
        }
        let mut c: Vec<String> = Vec::new();
        c.push(string_of("--remove"));
        c.push(string_of("/network\\.device\\..*/"));
        c.push(string_of("/network\\.section\\..*/"));
        c.push(string_of("network.toggle"));
        c.push(string_of("network.loading"));
        let mut cmds: Vec<Vec<String>> = Vec::new();
        cmds.push(c);
        let mut t = add_special_item(
            "item",
            "network.toggle",
            Some(ComponentPosition::Popup(string_of("network"))),
            &item,
        );
        let ghost vt = cmds_view(t@);
        cmds.append(&mut t);
        assert(cmd_view(c) =~= seq![
            "--remove"@,
            "/network\\.device\\..*/"@,
            "/network\\.section\\..*/"@,
            "network.toggle"@,
            "network.loading"@,
        ]);
        assert(cmds_view(cmds@) =~= seq![cmd_view(c)] + vt);
        cmds
    }
}

// ----- requests from the popup -----------------------------------------------------

/// What the network item is asked to do.
#[derive(Debug, Clone, PartialEq, Eq)]
pub enum NetworkRequest {
    /// Switch the Wi-Fi power of `device` to `state`.
    TogglePower { device: String, state: String },
    /// Join `ssid` with the given security, on `device` when it was given
    /// (otherwise on the primary device).
    Connect { ssid: String, security: String, device: Option<String> },
    /// Nothing to do.
    Ignore,
}

/// The request carried by a network action.
pub open spec fn spec_network_request(action: Seq<char>, ssid: Option<Seq<char>>, r: NetworkRequest) -> bool {
    let fields = spec_split(action, ':');
    let ssid_or_empty = match ssid {
        Some(s) => s,
        None => seq![],
    };
    if spec_starts_with(action, "toggle-power:"@) {
        r matches NetworkRequest::TogglePower { device, state } && device@ == ssid_or_empty
            && state@ == (if fields.len() > 1 {
            fields[1]
        } else {
            "on"@
        })
    } else if spec_starts_with(action, "connect:"@) {
        r matches NetworkRequest::Connect { ssid: s, security, device } && s@ == ssid_or_empty
            && security@ == (if fields.len() > 1 {
            fields[1]
        } else {
            "Open"@
        }) && (if fields.len() > 2 {
            device matches Some(d) && d@ == fields[2]
        } else {
            device is None
        })
    } else {
        r == NetworkRequest::Ignore
    }
}

/// The view of an optional string.
pub open spec fn opt_string_view(v: Option<String>) -> Option<Seq<char>> {
    match v {
        Some(s) => Some(s@),
        None => None,
    }
}

/// The request read from the action the daemon broadcasts for a Wi-Fi
/// message gives back the message's values: the device and state of a power
/// toggle (when the state holds no `:`), and the network, security and device
/// of a connection (when the security and the device hold no `:`).
pub proof fn lemma_action_round_trip(cmd: DaemonCmd, e: Option<Event>, req: NetworkRequest)
    requires
        spec_event_of_cmd(cmd, e),
        e matches Some(Event::NetworkAction(d)) && spec_network_request(
            d.action@,
            opt_string_view(d.ssid),
            req,
        ),
        cmd matches DaemonCmd::ToggleWifiPower { state, .. } ==> !state@.contains(':'),
        cmd matches DaemonCmd::ConnectNetwork { device, security, .. } ==> !security@.contains(':')
            && !device@.contains(':'),
    ensures
        cmd matches DaemonCmd::ToggleWifiPower { device, state } ==> (req matches NetworkRequest::TogglePower {
            device: d2,
            state: s2,
        } && d2@ == device@ && s2@ == state@),
        cmd matches DaemonCmd::ConnectNetwork { ssid, device, security } ==> (req matches NetworkRequest::Connect {
            ssid: s2,
            security: sec2,
            device: Some(d2),
        } && s2@ == ssid@ && sec2@ == security@ && d2@ == device@),
{
    reveal_strlit("toggle-power:");
    reveal_strlit("toggle-power");
    reveal_strlit("connect:");
    reveal_strlit("connect");
    reveal_strlit(":");
    let d = e->Some_0->NetworkAction_0;
    match cmd {
        DaemonCmd::ToggleWifiPower { device, state } => {
            let head = "toggle-power"@;
            assert("toggle-power:"@ =~= head.push(':'));
            assert(d.action@ =~= head.push(':') + state@);
            crate::strs::lemma_split_at_sep(head, state@, ':');
            crate::strs::lemma_split_single(head, ':');
            crate::strs::lemma_split_single(state@, ':');
            assert(spec_split(d.action@, ':') =~= seq![head, state@]);
            assert(d.action@.subrange(0, 13) =~= "toggle-power:"@);
        },
        DaemonCmd::ConnectNetwork { ssid, device, security } => {
            let head = "connect"@;
            let mid = head.push(':') + security@;
            assert(d.action@ =~= mid.push(':') + device@);
            crate::strs::lemma_split_at_sep(mid, device@, ':');
            crate::strs::lemma_split_at_sep(head, security@, ':');
            crate::strs::lemma_split_single(head, ':');
            crate::strs::lemma_split_single(security@, ':');
            crate::strs::lemma_split_single(device@, ':');
            assert(spec_split(d.action@, ':') =~= seq![head, security@, device@]);
            assert(d.action@.subrange(0, 8) =~= "connect:"@);
            assert(!spec_starts_with(d.action@, "toggle-power:"@)) by {
                if spec_starts_with(d.action@, "toggle-power:"@) {
                    assert(d.action@[0] == 'c');
                    assert(d.action@.subrange(0, 13)[0] == 't');
                }
            }
        },
        _ => {},
    }
}

impl Network {
    /// Reads the request carried by a network action: `toggle-power:<state>`
    /// with the device in `ssid`, or `connect:<security>[:<device>]` with the
    /// network's name in `ssid`.
    pub fn request_of(data: &crate::events::NetworkData) -> (r: NetworkRequest)
        ensures
            spec_network_request(data.action@, opt_string_view(data.ssid), r),
    {
        let action = str_chars(data.action.as_str());
        let fields = split_on(action.as_slice(), ':');
        let ssid = match &data.ssid {
            Some(s) => s.clone(),
            None => String::new(),
        };
        assert(vecs_view(fields@) == spec_split(data.action@, ':'));
        if starts_with(action.as_slice(), str_chars("toggle-power:").as_slice()) {
            let state = if fields.len() > 1 {
                assert(vecs_view(fields@)[1] == fields@[1]@);
                string_from_chars(fields[1].as_slice())
            } else {
                string_of("on")
            };
            NetworkRequest::TogglePower { device: ssid, state }
        } else if starts_with(action.as_slice(), str_chars("connect:").as_slice()) {
            let security = if fields.len() > 1 {
                assert(vecs_view(fields@)[1] == fields@[1]@);
                string_from_chars(fields[1].as_slice())
            } else {
                string_of("Open")
            };
            let device = if fields.len() > 2 {
                assert(vecs_view(fields@)[2] == fields@[2]@);
                Some(string_from_chars(fields[2].as_slice()))
            } else {
                None
            };
            NetworkRequest::Connect { ssid, security, device }
        } else {
            NetworkRequest::Ignore
        }
    }

    /// The AppleScript that asks for the password of a network.
    pub fn password_prompt(ssid: &str) -> (r: String)
        ensures
            r@ == "display dialog \"Enter password for Wi-Fi \\\""@ + ssid@
                + "\\\":\" default answer \"\" with hidden answer"@,
    {
        let mut s = concat2("display dialog \"Enter password for Wi-Fi \\\"", ssid);
        s.append("\\\":\" default answer \"\" with hidden answer");
        s
    }
}

// ----- the scanning indicator and the bar item -------------------------------------

/// The scanning indicator: a yellow refresh icon and a label, 250 points wide.
pub open spec fn spec_scanning_props(p: ItemProps) -> bool {
    &&& p.geometry == (Geometry {
        width: Some(WidthMode::Value(250)),
        padding_left: Some(8),
        ..Geometry::spec_empty()
    })
    &&& (p.icon.icon matches Some(s) && s@ == "󰑐"@)
    &&& p.icon.props == Some(Text { color: Some(spec_catppuccin_mocha().yellow), ..Text::spec_empty() })
    &&& (p.label.label matches Some(s) && s@ == "Scanning…"@)
    &&& p.label.props is None
    &&& p.scripting == crate::props::Scripting::spec_empty()
    &&& p.text is None
    &&& p.popup is None
}

/// The network bar item: on the right, refreshed every 10 seconds by
/// `<exe> --update-network`; a click toggles the popup and asks the daemon
/// to rebuild it.
pub open spec fn spec_network_props(p: ItemProps, exe_path: Seq<char>) -> bool {
    let mocha = spec_catppuccin_mocha();
    &&& p.geometry == (Geometry {
        position: Some(ComponentPosition::Right),
        background: Some(
            BackgroundProps {
                color: Some(mocha.surface0),
                drawing: Some(ToggleState::On),
                ..BackgroundProps::spec_empty()
            },
        ),
        ..Geometry::spec_empty()
    })
    &&& p.icon == crate::props::Icon::spec_empty()
    &&& p.label.label is None
    &&& p.label.props == Some(Text { drawing: Some(ToggleState::Off), ..Text::spec_empty() })
    &&& p.scripting.update_freq == Some(10u32)
    &&& p.scripting.updates is None
    &&& p.scripting.mach_helper is None
    &&& (p.scripting.script matches Some(ScriptType::String(s)) && s@ == exe_path
        + " --update-network"@)
    &&& (p.scripting.click_script matches Some(ScriptType::String(s)) && s@
        == "sketchybar --animate sin 15 --set network popup.drawing=toggle; "@ + spec_send_text(
        exe_path,
        seq![("cmd"@, crate::events::JsonScalarView::Str("update-network-popup"@))],
    ))
    &&& p.text is None
    &&& p.popup == Some(
        crate::props::PopupProps {
            align: Some(crate::types::PopupAlign::Right),
            background: Some(
                BackgroundProps {
                    color: Some(mocha.base),
                    border_color: Some(mocha.surface1),
                    border_width: Some(2),
                    corner_radius: Some(12),
                    ..BackgroundProps::spec_empty()
                },
            ),
            ..crate::props::PopupProps::spec_empty()
        },
    )
}

impl Network {
    /// Adds the scanning indicator to the popup.
    pub fn scanning_row() -> (r: Vec<Vec<String>>)
        ensures
            exists|p: ItemProps|
                spec_scanning_props(p) && cmds_view(r@) == spec_special_cmds(
                    "item"@,
                    "network.loading"@,
                    Some("popup."@ + "network"@),
                    p.spec_args(),
                ),
    {
        let theme = catppuccin_mocha();
        let item = BarItem::new("network.loading").icon("󰑐").icon_color(theme.yellow).label(
            "Scanning…",
        ).width(250).padding_left(8);
        assert(spec_scanning_props(item.props));
        add_special_item(
            "item",
            "network.loading",
            Some(ComponentPosition::Popup(string_of("network"))),
            &item,
        )
    }

    /// The commands that add the network item and subscribe it to Wi-Fi changes.
    pub fn setup(exe_path: &str) -> (r: Vec<Vec<String>>)
        ensures
            exists|p: ItemProps|
                spec_network_props(p, exe_path@) && cmds_view(r@) == spec_special_cmds(
                    "item"@,
                    "network"@,
                    Some("right"@),
                    p.spec_args(),
                ).push(seq!["--subscribe"@, "network"@, "wifi_change"@]),
    {
        let theme = catppuccin_mocha();
        let popup_cmd = daemon_send_script(exe_path, &DaemonCmd::UpdateNetworkPopup);
        let script = concat2(exe_path, " --update-network");
        let click = concat2(
            "sketchybar --animate sin 15 --set network popup.drawing=toggle; ",
            popup_cmd.as_str(),
        );
        let item = BarItem::new("network").position(ComponentPosition::Right).update_freq(
            10,
        ).script(script.as_str()).click_script(click.as_str()).label_drawing(
            ToggleState::Off,
        ).background_color(theme.surface0).background_drawing(ToggleState::On).popup_align(
            crate::types::PopupAlign::Right,
        ).popup_background_color(theme.base).popup_background_border_color(
            theme.surface1,
        ).popup_background_border_width(2).popup_background_corner_radius(12);
        assert(spec_network_props(item.props, exe_path@));
        proof {
            crate::api::lemma_add_childless(item);
        }
        let mut cmds = item.add();
        let mut events: Vec<BarEvent> = Vec::new();
        events.push(BarEvent::WifiChange);
        let sub = item.subscribe(events);
        assert(spec_event_names(events@) =~= seq!["wifi_change"@]);
        let ghost before = cmds_view(cmds@);
        cmds.push(sub);
        assert(cmds_view(cmds@) =~= before.push(cmd_view(sub)));
        assert(cmd_view(sub) =~= seq!["--subscribe"@, "network"@, "wifi_change"@]);
        cmds
    }
}

} // verus!

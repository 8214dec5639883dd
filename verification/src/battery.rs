//! The battery item: charge, power source and the popup with status,
//! power and health, read from the output of `pmset` and `ioreg`.

use vstd::prelude::*;
use crate::api::{cmd_view, cmds_view, set_args, spec_event_names, spec_set_cmd, spec_special_cmds};
use crate::event::BarEvent;
use crate::item::{BarItem, ItemBuilder};
use crate::pieces::{dec_u32, then};
use crate::item_model;
use crate::props::{BackgroundProps, PopupProperties, ScriptType, UpdateMode};
use crate::strs::{
    contains, lines_of, parse_u32, parse_u8, spec_contains, spec_lines, spec_parse_u32,
    spec_parse_u8, spec_split, spec_trim, split_on, str_chars, trim, vecs_view,
};
use crate::style::ItemStyle;
use crate::text::{concat2, push_char, spec_dec, str_eq, string_of};
use crate::themes::{catppuccin_mocha, spec_catppuccin_mocha};
use crate::types::{
    props_view, single, ComponentPosition, PopupAlign, Property, PropView, ToSketchybarArgs,
    ToggleState,
};

verus! {

/// The battery's state.
#[derive(Debug, Clone, PartialEq, Eq)]
pub struct Battery {
    pub percentage: Option<u8>,
    pub icon: String,
    /// The power drawn or supplied in watts, as the one-decimal text shown.
    pub wattage: Option<String>,
    pub cycle_count: Option<u32>,
    pub health: Option<u8>,
    pub status: String,
}

/// The charge in percent on the second line of `pmset -g batt`: the second
/// tab-separated field, up to its first `%`, trimmed.
pub open spec fn spec_pmset_percentage(text: Seq<char>) -> Option<u8> {
    let lines = spec_lines(text);
    if lines.len() > 1 {
        let parts = spec_split(lines[1], '\t');
        if parts.len() > 1 {
            spec_parse_u8(spec_trim(spec_split(parts[1], '%')[0]))
        } else {
            None
        }
    } else {
        None
    }
}

/// Reads the charge from the output of `pmset -g batt`.
pub fn pmset_percentage(text: &str) -> (r: Option<u8>)
    ensures
        r == spec_pmset_percentage(text@),
{
    let lines = lines_of(str_chars(text).as_slice());
    if lines.len() <= 1 {
        return None;
    }
    assert(vecs_view(lines@)[1] == lines@[1]@);
    let parts = split_on(lines[1].as_slice(), '\t');
    if parts.len() <= 1 {
        return None;
    }
    assert(vecs_view(parts@)[1] == parts@[1]@);
    let pct = split_on(parts[1].as_slice(), '%');
    proof {
        crate::strs::lemma_split_nonempty(parts@[1]@, '%');
    }
    assert(vecs_view(pct@)[0] == pct@[0]@);
    let t = trim(pct[0].as_slice());
    parse_u8(t.as_slice())
}

/// The status from the power source `pmset` reports, then `ioreg`'s charging
/// flag, then a power-source change event (`AC` or `Battery`).
pub open spec fn spec_battery_status(
    pmset: Seq<char>,
    ioreg: Seq<char>,
    sender: Seq<char>,
    info: Seq<char>,
) -> Seq<char> {
    let s1 = if spec_contains(pmset, "Battery Power"@) {
        "Discharging"@
    } else if spec_contains(pmset, "AC Power"@) {
        "AC Power"@
    } else {
        "Unknown"@
    };
    let s2 = if ioreg.len() > 0 && spec_contains(ioreg, "\"IsCharging\" = Yes"@) {
        "Charging"@
    } else {
        s1
    };
    if sender == "power_source_change"@ {
        if info == "AC"@ {
            "Charging"@
        } else if info == "Battery"@ {
            "Discharging"@
        } else {
            s2
        }
    } else {
        s2
    }
}

/// Decides the battery's status.
pub fn battery_status(pmset: &str, ioreg: &str, sender: &str, info: &str) -> (r: String)
    ensures
        r@ == spec_battery_status(pmset@, ioreg@, sender@, info@),
{
    let p = str_chars(pmset);
    let io = str_chars(ioreg);
    let mut status = if contains(p.as_slice(), str_chars("Battery Power").as_slice()) {
        string_of("Discharging")
    } else if contains(p.as_slice(), str_chars("AC Power").as_slice()) {
        string_of("AC Power")
    } else {
        string_of("Unknown")
    };
    if io.len() > 0 && contains(io.as_slice(), str_chars("\"IsCharging\" = Yes").as_slice()) {
        status = string_of("Charging");
    }
    if str_eq(sender, "power_source_change") {
        if str_eq(info, "AC") {
            status = string_of("Charging");
        } else if str_eq(info, "Battery") {
            status = string_of("Discharging");
        }
    }
    status
}

/// The first line of `lines` that mentions `key`.
pub open spec fn spec_find_line(lines: Seq<Seq<char>>, key: Seq<char>) -> Option<Seq<char>>
    decreases lines.len(),
{
    if lines.len() == 0 {
        None
    } else if spec_contains(lines[0], key) {
        Some(lines[0])
    } else {
        spec_find_line(lines.drop_first(), key)
    }
}

/// The charge cycles `ioreg` reports: the text after the last `=` on the
/// first line mentioning `"CycleCount"`, read as a number.
pub open spec fn spec_cycle_count(ioreg: Seq<char>) -> Option<u32> {
    if ioreg.len() == 0 {
        None
    } else {
        match spec_find_line(spec_lines(ioreg), "\"CycleCount\""@) {
            Some(l) => spec_parse_u32(spec_trim(spec_split(l, '=').last())),
            None => None,
        }
    }
}

/// Reads the charge cycles from the output of `ioreg`.
pub fn cycle_count(ioreg: &str) -> (r: Option<u32>)
    ensures
        r == spec_cycle_count(ioreg@),
{
    let cs = str_chars(ioreg);
    if cs.len() == 0 {
        return None;
    }
    let lines = lines_of(cs.as_slice());
    let key = str_chars("\"CycleCount\"");
    let mut i: usize = 0;
    assert(vecs_view(lines@).subrange(0, lines@.len() as int) =~= vecs_view(lines@));
    while i < lines.len()
        invariant
            i <= lines@.len(),
            key@ == "\"CycleCount\""@,
            cs@ == ioreg@,
            vecs_view(lines@) == spec_lines(ioreg@),
            spec_find_line(vecs_view(lines@), key@) == spec_find_line(
                vecs_view(lines@).subrange(i as int, lines@.len() as int),
                key@,
            ),
        decreases lines@.len() - i,
    {
        let ghost rest = vecs_view(lines@).subrange(i as int, lines@.len() as int);
        assert(rest[0] == lines@[i as int]@);
        if contains(lines[i].as_slice(), key.as_slice()) {
            let fields = split_on(lines[i].as_slice(), '=');
            proof {
                crate::strs::lemma_split_nonempty(lines@[i as int]@, '=');
            }
            let k = fields.len() - 1;
            assert(vecs_view(fields@)[k as int] == fields@[k as int]@);
            let t = trim(fields[k].as_slice());
            return parse_u32(t.as_slice());
        }
        assert(rest.drop_first() =~= vecs_view(lines@).subrange(i + 1, lines@.len() as int));
        i = i + 1;
    }
    None
}

/// The battery icon for a charge, with a bolt while charging.
pub open spec fn spec_battery_icon(percentage: Option<u8>, charging: bool) -> Seq<char> {
    match percentage {
        Some(p) => if charging {
            if p > 95 {
                "󰂅"@
            } else if p > 90 {
                "󰂋"@
            } else if p > 80 {
                "󰂊"@
            } else if p > 70 {
                "󰢞"@
            } else if p > 60 {
                "󰂉"@
            } else if p > 50 {
                "󰢝"@
            } else if p > 40 {
                "󰂈"@
            } else if p > 30 {
                "󰂇"@
            } else if p > 20 {
                "󰂆"@
            } else if p > 10 {
                "󰢜"@
            } else {
                "󰢟"@
            }
        } else {
            if p > 95 {
                "󰁹"@
            } else if p > 90 {
                "󰂂"@
            } else if p > 80 {
                "󰂁"@
            } else if p > 70 {
                "󰂀"@
            } else if p > 60 {
                "󰁿"@
            } else if p > 50 {
                "󰁾"@
            } else if p > 40 {
                "󰁽"@
            } else if p > 30 {
                "󰁼"@
            } else if p > 20 {
                "󰁻"@
            } else if p > 10 {
                "󰁺"@
            } else {
                "󰂎"@
            }
        },
        None => "\u{f1e6}"@,
    }
}

/// The battery icon for a charge.
pub fn battery_icon(percentage: Option<u8>, charging: bool) -> (r: String)
    ensures
        r@ == spec_battery_icon(percentage, charging),
{
    let s = match percentage {
        Some(p) => if charging {
            if p > 95 {
                "󰂅"
            } else if p > 90 {
                "󰂋"
            } else if p > 80 {
                "󰂊"
            } else if p > 70 {
                "󰢞"
            } else if p > 60 {
                "󰂉"
            } else if p > 50 {
                "󰢝"
            } else if p > 40 {
                "󰂈"
            } else if p > 30 {
                "󰂇"
            } else if p > 20 {
                "󰂆"
            } else if p > 10 {
                "󰢜"
            } else {
                "󰢟"
            }
        } else {
            if p > 95 {
                "󰁹"
            } else if p > 90 {
                "󰂂"
            } else if p > 80 {
                "󰂁"
            } else if p > 70 {
                "󰂀"
            } else if p > 60 {
                "󰁿"
            } else if p > 50 {
                "󰁾"
            } else if p > 40 {
                "󰁽"
            } else if p > 30 {
                "󰁼"
            } else if p > 20 {
                "󰁻"
            } else if p > 10 {
                "󰁺"
            } else {
                "󰂎"
            }
        },
        None => "\u{f1e6}",
    };
    string_of(s)
}

/// The battery glyphs without a bolt, from empty to full: one for ten percent
/// or less, one for each further tenth up to ninety-five, one above that.
pub open spec fn spec_discharging_glyphs() -> Seq<Seq<char>> {
    seq![
        "\u{f008e}"@,
        "\u{f007a}"@,
        "\u{f007b}"@,
        "\u{f007c}"@,
        "\u{f007d}"@,
        "\u{f007e}"@,
        "\u{f007f}"@,
        "\u{f0080}"@,
        "\u{f0081}"@,
        "\u{f0082}"@,
        "\u{f0079}"@,
    ]
}

/// The battery glyphs with a charging bolt, in the same steps.
pub open spec fn spec_charging_glyphs() -> Seq<Seq<char>> {
    seq![
        "\u{f089f}"@,
        "\u{f089c}"@,
        "\u{f0086}"@,
        "\u{f0087}"@,
        "\u{f0088}"@,
        "\u{f089d}"@,
        "\u{f0089}"@,
        "\u{f089e}"@,
        "\u{f008a}"@,
        "\u{f008b}"@,
        "\u{f0085}"@,
    ]
}

/// The step of a charge among the glyphs: `0` up to ten percent, then one
/// step for each further tenth (`71..=80` is step `7`), and `10` above
/// ninety-five.
pub open spec fn spec_charge_step(p: int) -> int {
    if p > 95 {
        10
    } else if p <= 10 {
        0
    } else {
        (p - 1) / 10
    }
}

/// The icon of a known charge is the glyph of its step: from the bolt set
/// while charging, from the plain set otherwise.
pub proof fn lemma_battery_icon_steps(p: u8)
    ensures
        0 <= spec_charge_step(p as int) < 11,
        spec_battery_icon(Some(p), false) == spec_discharging_glyphs()[spec_charge_step(p as int)],
        spec_battery_icon(Some(p), true) == spec_charging_glyphs()[spec_charge_step(p as int)],
{
    let k = spec_charge_step(p as int);
    assert(p <= 10 || p > 95 || (10 < p <= 95 && 1 <= k <= 9 && 10 * k < p <= 10 * k + 10));
}

/// A battery on its own power never shows a charging glyph, and a charging
/// battery never shows a plain one, whatever the two charges.
pub proof fn lemma_battery_icon_charging_apart(p: u8, q: u8)
    ensures
        spec_battery_icon(Some(p), false) != spec_battery_icon(Some(q), true),
{
    lemma_battery_icon_steps(p);
    lemma_battery_icon_steps(q);
    reveal_strlit("\u{f008e}");
    reveal_strlit("\u{f007a}");
    reveal_strlit("\u{f007b}");
    reveal_strlit("\u{f007c}");
    reveal_strlit("\u{f007d}");
    reveal_strlit("\u{f007e}");
    reveal_strlit("\u{f007f}");
    reveal_strlit("\u{f0080}");
    reveal_strlit("\u{f0081}");
    reveal_strlit("\u{f0082}");
    reveal_strlit("\u{f0079}");
    reveal_strlit("\u{f089f}");
    reveal_strlit("\u{f089c}");
    reveal_strlit("\u{f0086}");
    reveal_strlit("\u{f0087}");
    reveal_strlit("\u{f0088}");
    reveal_strlit("\u{f089d}");
    reveal_strlit("\u{f0089}");
    reveal_strlit("\u{f089e}");
    reveal_strlit("\u{f008a}");
    reveal_strlit("\u{f008b}");
    reveal_strlit("\u{f0085}");
    let i = spec_charge_step(p as int);
    let j = spec_charge_step(q as int);
    assert(spec_discharging_glyphs()[i][0] != spec_charging_glyphs()[j][0]);
}

/// The battery counts as charging while charging or on AC power.
pub open spec fn spec_is_charging(status: Seq<char>) -> bool {
    status == "Charging"@ || status == "AC Power"@
}

impl Battery {
    /// The battery's state from the output of `pmset -g batt` and `ioreg`,
    /// the event that triggered the update and its `INFO`, and the health and
    /// power computed from `ioreg`'s capacities and readings.
    pub fn fetch(
        pmset: &str,
        ioreg: &str,
        sender: &str,
        info: &str,
        health: Option<u8>,
        wattage: Option<String>,
    ) -> (r: Self)
        ensures
            r.percentage == spec_pmset_percentage(pmset@),
            r.status@ == spec_battery_status(pmset@, ioreg@, sender@, info@),
            r.icon@ == spec_battery_icon(
                spec_pmset_percentage(pmset@),
                spec_is_charging(spec_battery_status(pmset@, ioreg@, sender@, info@)),
            ),
            r.cycle_count == spec_cycle_count(ioreg@),
            r.health == health,
            r.wattage == wattage,
    {
        let percentage = pmset_percentage(pmset);
        let status = battery_status(pmset, ioreg, sender, info);
        let charging = str_eq(status.as_str(), "Charging") || str_eq(status.as_str(), "AC Power");
        let icon = battery_icon(percentage, charging);
        Battery { percentage, icon, wattage, cycle_count: cycle_count(ioreg), health, status }
    }
}

/// The bar label: the charge in percent, or `AC` without a battery.
pub open spec fn spec_battery_label(percentage: Option<u8>) -> Seq<char> {
    match percentage {
        Some(p) => spec_dec(p as nat) + seq!['%'],
        None => "AC"@,
    }
}

impl ToSketchybarArgs for Battery {
    open spec fn spec_args(&self) -> Seq<PropView> {
        seq![
            ("icon"@, self.icon@),
            ("label"@, spec_battery_label(self.percentage)),
            ("drawing"@, "on"@),
        ]
    }

    fn to_sketchybar_args(&self) -> (r: Vec<Property>) {
        let label = match self.percentage {
            Some(p) => {
                let mut s = dec_u32(p as u32);
                push_char(&mut s, '%');
                s
            },
            None => string_of("AC"),
        };
        assert(label@ =~= spec_battery_label(self.percentage));
        let a = single("icon", self.icon.clone());
        let a = then(a, single("label", label));
        let r = then(a, single("drawing", string_of("on")));
        assert(props_view(r@) =~= self.spec_args());
        r
    }
}

/// The battery bar item: on the right, drawn, refreshed every minute by
/// `<exe> --update-battery` (updates on); a click toggles the popup.
pub open spec fn spec_battery_props(p: item_model::BarItem, exe_path: Seq<char>) -> bool {
    let mocha = spec_catppuccin_mocha();
    &&& p.name@ == "battery"@
    &&& p.geometry == (item_model::Geometry {
        position: Some(ComponentPosition::Right),
        drawing: Some(true),
        background: Some(
            BackgroundProps {
                color: Some(mocha.surface0),
                drawing: Some(ToggleState::On),
                ..BackgroundProps::spec_empty()
            },
        ),
        ..item_model::Geometry::spec_empty()
    })
    &&& p.icon == crate::props::Icon::spec_empty()
    &&& p.label == crate::props::Label::spec_empty()
    &&& p.scripting.update_freq == 60u32
    &&& p.scripting.updates == UpdateMode::Toggle(true)
    &&& p.scripting.mach_helper is None
    &&& (p.scripting.script matches Some(ScriptType::String(s)) && s@ == exe_path
        + " --update-battery"@)
    &&& (p.scripting.click_script matches Some(ScriptType::String(s)) && s@
        == "sketchybar --set battery popup.drawing=toggle"@)
    &&& p.text is None
    &&& p.popup == Some(
        PopupProperties {
            align: PopupAlign::Center,
            background: Some(
                BackgroundProps {
                    color: Some(mocha.base),
                    corner_radius: Some(8),
                    border_width: Some(2),
                    border_color: Some(mocha.surface1),
                    ..BackgroundProps::spec_empty()
                },
            ),
            drawing: None,
            blur_radius: None,
            horizontal: None,
        },
    )
}

/// A popup row of the battery item: a new item on the right with a caption
/// icon (so updated, at frequency 0), then moved into the battery's popup.
pub open spec fn spec_caption_cmds(name: Seq<char>, caption: Seq<char>) -> Seq<Seq<Seq<char>>> {
    spec_special_cmds(
        "item"@,
        name,
        Some("right"@),
        seq![("position"@, "right"@), ("icon"@, caption), ("update_freq"@, "0"@), ("updates"@, "on"@)],
    ).push(seq!["--set"@, name, "position=popup.battery"@])
}

/// The popup rows' labels: the status, the power (`0.0` when unknown) in
/// watts, and the health (100 when unknown) with the cycle count (0 when
/// unknown).
pub open spec fn spec_battery_labels(data: Battery) -> Seq<Seq<Seq<char>>> {
    seq![
        seq!["--set"@, "battery.status"@, "label="@ + data.status@],
        seq![
            "--set"@,
            "battery.wattage"@,
            "label="@ + (match data.wattage {
                Some(w) => w@,
                None => "0.0"@,
            }) + "W"@,
        ],
        seq![
            "--set"@,
            "battery.health"@,
            "label="@ + spec_dec(
                (match data.health {
                    Some(h) => h,
                    None => 100u8,
                }) as nat,
            ) + "% ("@ + spec_dec(
                (match data.cycle_count {
                    Some(c) => c,
                    None => 0u32,
                }) as nat,
            ) + " cycles)"@,
        ],
    ]
}

fn caption_row(name: &str, caption: &str) -> (r: Vec<Vec<String>>)
    ensures
        cmds_view(r@) == spec_caption_cmds(name@, caption@),
{
    let mut item = item_model::BarItem::new(string_of(name), ComponentPosition::Right);
    item.icon.icon = Some(string_of(caption));
    proof {
        reveal_strlit("0");
        assert(spec_dec(0) == "0"@);
        assert(item.spec_args() =~= seq![
            ("position"@, "right"@),
            ("icon"@, caption@),
            ("update_freq"@, "0"@),
            ("updates"@, "on"@),
        ]);
    }
    let mut cmds = item.add();
    let mut args: Vec<String> = Vec::new();
    args.push(string_of("position=popup.battery"));
    let c = set_args(name, args);
    let ghost before = cmds_view(cmds@);
    cmds.push(c);
    assert(cmd_view(c) =~= seq!["--set"@, name@, "position=popup.battery"@]);
    assert(cmds_view(cmds@) =~= before.push(cmd_view(c)));
    cmds
}

impl Battery {
    /// The commands that add the battery item, subscribe it to waking and
    /// power-source changes, add the popup rows, and show `data`.
    pub fn setup(exe_path: &str, data: &Battery) -> (r: Vec<Vec<String>>)
        ensures
            exists|p: item_model::BarItem|
                spec_battery_props(p, exe_path@) && cmds_view(r@) == spec_special_cmds(
                    "item"@,
                    "battery"@,
                    Some("right"@),
                    p.spec_args(),
                ).push(seq!["--subscribe"@, "battery"@, "system_woke"@, "power_source_change"@])
                    + spec_caption_cmds("battery.status"@, "Status:"@) + spec_caption_cmds(
                    "battery.wattage"@,
                    "Power:"@,
                ) + spec_caption_cmds("battery.health"@, "Health:"@) + seq![
                    spec_set_cmd("battery"@, data.spec_args()),
                ] + spec_battery_labels(*data),
    {
        let theme = catppuccin_mocha();
        let mut item = item_model::BarItem::new(string_of("battery"), ComponentPosition::Right);
        item.geometry.drawing = Some(true);
        item.scripting.update_freq = 60;
        item.scripting.script = Some(ScriptType::String(concat2(exe_path, " --update-battery")));
        item.geometry.background = Some(
            BackgroundProps::new().color(theme.surface0).drawing(ToggleState::On),
        );
        let popup_bg = BackgroundProps::new().color(theme.base).corner_radius(8).border_width(
            2,
        ).border_color(theme.surface1);
        item.popup = Some(
            PopupProperties {
                align: PopupAlign::Center,
                background: Some(popup_bg),
                drawing: None,
                blur_radius: None,
                horizontal: None,
            },
        );
        item.scripting.click_script = Some(
            ScriptType::String(string_of("sketchybar --set battery popup.drawing=toggle")),
        );
        assert(spec_battery_props(item, exe_path@));
        let mut cmds = item.add();
        let ghost v0 = cmds_view(cmds@);
        let mut events: Vec<BarEvent> = Vec::new();
        events.push(BarEvent::SystemWoke);
        events.push(BarEvent::PowerSourceChange);
        let sub = crate::api::subscribe("battery", events);
        assert(spec_event_names(events@) =~= seq!["system_woke"@, "power_source_change"@]);
        cmds.push(sub);
        assert(cmd_view(sub) =~= seq!["--subscribe"@, "battery"@, "system_woke"@, "power_source_change"@]);
        let ghost v1 = cmds_view(cmds@);
        assert(v1 =~= v0.push(cmd_view(sub)));
        let mut a = caption_row("battery.status", "Status:");
        let mut b = caption_row("battery.wattage", "Power:");
        let mut c = caption_row("battery.health", "Health:");
        let ghost (va, vb, vc) = (cmds_view(a@), cmds_view(b@), cmds_view(c@));
        cmds.append(&mut a);
        cmds.append(&mut b);
        cmds.append(&mut c);
        let set = crate::api::set_item("battery", data);
        cmds.push(set);
        let ghost v2 = cmds_view(cmds@);
        assert(v2 =~= v1 + va + vb + vc + seq![cmd_view(set)]);
        let labels = Battery::popup_labels(data);
        let ghost vl = cmds_view(labels@);
        let mut labels = labels;
        cmds.append(&mut labels);
        assert(cmds_view(cmds@) =~= v2 + vl);
        cmds
    }

    /// The commands that show the status, power and health in the popup.
    pub fn popup_labels(data: &Battery) -> (r: Vec<Vec<String>>)
        ensures
            cmds_view(r@) == spec_battery_labels(*data),
    {
        let mut cmds: Vec<Vec<String>> = Vec::new();
        let mut a1: Vec<String> = Vec::new();
        a1.push(concat2("label=", data.status.as_str()));
        let c1 = set_args("battery.status", a1);
        let mut w = string_of("label=");
        match &data.wattage {
            Some(x) => w.append(x.as_str()),
            None => w.append("0.0"),
        }
        w.append("W");
        let mut a2: Vec<String> = Vec::new();
        a2.push(w);
        let c2 = set_args("battery.wattage", a2);
        let h = match data.health {
            Some(h) => h,
            None => 100u8,
        };
        let cy = match data.cycle_count {
            Some(c) => c,
            None => 0u32,
        };
        let mut l = string_of("label=");
        l.append(dec_u32(h as u32).as_str());
        l.append("% (");
        l.append(dec_u32(cy).as_str());
        l.append(" cycles)");
        let mut a3: Vec<String> = Vec::new();
        a3.push(l);
        let c3 = set_args("battery.health", a3);
        cmds.push(c1);
        cmds.push(c2);
        cmds.push(c3);
        assert(cmd_view(c1) =~= spec_battery_labels(*data)[0]);
        assert(cmd_view(c2) =~= spec_battery_labels(*data)[1]);
        assert(cmd_view(c3) =~= spec_battery_labels(*data)[2]);
        assert(cmds_view(cmds@) =~= spec_battery_labels(*data));
        cmds
    }
}

} // verus!

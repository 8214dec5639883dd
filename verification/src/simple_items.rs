//! The smaller items: weather, clock, CPU, the focused window and the
//! workspaces, and the commands the program answers on its command line.

use vstd::prelude::*;
use crate::api::{
    add_event, cmd_view, cmds_view, set_texts, spec_event_names, spec_item_cmds, spec_set_cmd,
    spec_set_texts_cmd, spec_special_cmds,
};
use crate::event::BarEvent;
use crate::item::{BarItem, ItemBuilder, PopupChild};
use crate::pieces::dec_u32;
use crate::props::{BackgroundProps, Geometry, ItemProps, ScriptType, Text};
use crate::strs::{
    contains, occurs_at, spec_contains, spec_is_digit, spec_digits_value, spec_starts_with,
    spec_trim, str_chars, trim,
};
use crate::style::ItemStyle;
use crate::text::{concat2, dec_u64, push_char, spec_dec, str_eq, string_from_chars, string_of};
use crate::themes::{catppuccin_mocha, spec_catppuccin_mocha};
use crate::types::{
    spec_argb_text, Argb, ComponentPosition, PopupAlign, ToSketchybarArgs, ToggleState, WidthMode,
};

verus! {

// ----- weather ------------------------------------------------------------------

/// The text `str::to_lowercase` gives for `s`, by the Unicode tables.
pub uninterp spec fn spec_to_lowercase(s: Seq<char>) -> Seq<char>;

/// Calls `str::to_lowercase`. The result is named by `spec_to_lowercase`;
/// on ASCII text the documented mapping is stated: upper-case letters become
/// lower-case, every other character stays.
#[verifier::external_body]
fn to_lowercase(s: &str) -> (r: String)
    ensures
        r@ == spec_to_lowercase(s@),
        (forall|i: int| 0 <= i < s@.len() ==> (#[trigger] s@[i] as u32) < 128) ==> r@.len()
            == s@.len() && forall|i: int|
            0 <= i < s@.len() ==> #[trigger] r@[i] == (if 'A' <= s@[i] <= 'Z' {
                ((s@[i] as u32) + 32) as char
            } else {
                s@[i]
            }),
{
    s.to_lowercase()
}

/// The temperature shown: the response's text, trimmed, unless there was no
/// response, it is empty, or it reports an unknown location or an error.
pub open spec fn spec_weather_text(response: Option<Seq<char>>) -> Seq<char> {
    match response {
        Some(body) => {
            let t = spec_trim(body);
            if t.len() == 0 || spec_contains(spec_to_lowercase(t), "unknown"@) || spec_contains(
                spec_to_lowercase(t),
                "err"@,
            ) {
                "N/A"@
            } else {
                t
            }
        },
        None => "N/A"@,
    }
}

/// The temperature shown for a trimmed body of ASCII text: `N/A` when it is
/// empty or, read in lower case, mentions `unknown` or `err`.
pub open spec fn spec_weather_ascii(t: Seq<char>) -> Seq<char> {
    let lower = crate::strs::spec_ascii_lower(t);
    if t.len() == 0 || spec_contains(lower, "unknown"@) || spec_contains(lower, "err"@) {
        "N/A"@
    } else {
        t
    }
}

/// The weather item's data.
#[derive(Debug, Clone, PartialEq, Eq)]
pub struct WeatherData {
    pub temp: String,
}

/// The weather item.
pub struct Weather;

impl Weather {
    /// The temperature from the body of the weather service's response, if
    /// the request succeeded.
    pub fn fetch(response: Option<&str>) -> (r: WeatherData)
        ensures
            r.temp@ == spec_weather_text(crate::api::opt_str_view(response)),
            response matches Some(b) ==> (crate::strs::spec_is_ascii(b@) ==> r.temp@
                == spec_weather_ascii(spec_trim(b@))),
    {
        let temp = match response {
            Some(body) => {
                let t = trim(str_chars(body).as_slice());
                let ts = string_from_chars(t.as_slice());
                let lower = to_lowercase(ts.as_str());
                proof {
                    if crate::strs::spec_is_ascii(body@) {
                        crate::strs::lemma_trim_ascii(body@);
                        assert(lower@ =~= crate::strs::spec_ascii_lower(ts@));
                    }
                }
                let lc = str_chars(lower.as_str());
                if t.len() == 0 || contains(lc.as_slice(), str_chars("unknown").as_slice())
                    || contains(lc.as_slice(), str_chars("err").as_slice()) {
                    string_of("N/A")
                } else {
                    ts
                }
            },
            None => string_of("N/A"),
        };
        WeatherData { temp }
    }

    /// The command that shows the temperature.
    pub fn update_items(data: &WeatherData) -> (r: Vec<String>)
        ensures
            cmd_view(r) == spec_set_texts_cmd("weather"@, None, Some(data.temp@)),
    {
        set_texts("weather", None, Some(data.temp.as_str()))
    }

    /// The command that shows the temperature from a response.
    pub fn update_command(response: Option<&str>) -> (r: Vec<String>)
        ensures
            cmd_view(r) == spec_set_texts_cmd(
                "weather"@,
                None,
                Some(spec_weather_text(crate::api::opt_str_view(response))),
            ),
    {
        let data = Weather::fetch(response);
        Weather::update_items(&data)
    }

    /// The commands that add the weather item.
    pub fn setup(exe_path: &str) -> (r: Vec<Vec<String>>)
        ensures
            exists|p: ItemProps|
                spec_weather_props(p, exe_path@) && cmds_view(r@) == spec_special_cmds(
                    "item"@,
                    "weather"@,
                    Some("right"@),
                    p.spec_args(),
                ),
    {
        let theme = catppuccin_mocha();
        let script = concat2(exe_path, " --update-weather");
        let item = BarItem::new("weather").position(ComponentPosition::Right).update_freq(
            300,
        ).script(script.as_str()).click_script("open 'https://weather.com'").icon(
            "\u{f0c2}",
        ).icon_color(theme.yellow).background_color(theme.surface0).background_drawing(
            ToggleState::On,
        );
        assert(spec_weather_props(item.props, exe_path@));
        proof {
            crate::api::lemma_add_childless(item);
        }
        item.add()
    }
}

/// The weather item: on the right, refreshed every five minutes by
/// `<exe> --update-weather`; a click opens the weather site.
pub open spec fn spec_weather_props(p: ItemProps, exe_path: Seq<char>) -> bool {
    let mocha = spec_catppuccin_mocha();
    &&& p.geometry == (Geometry {
        position: Some(ComponentPosition::Right),
        background: Some(
            BackgroundProps {
                color: Some(mocha.surface0),
                drawing: Some(ToggleState::On),
                ..BackgroundProps::spec_empty()
            },
        ),
        ..Geometry::spec_empty()
    })
    &&& (p.icon.icon matches Some(s) && s@ == "\u{f0c2}"@)
    &&& p.icon.props == Some(Text { color: Some(mocha.yellow), ..Text::spec_empty() })
    &&& p.label == crate::props::Label::spec_empty()
    &&& p.scripting.update_freq == Some(300u32)
    &&& p.scripting.updates is None
    &&& p.scripting.mach_helper is None
    &&& (p.scripting.script matches Some(ScriptType::String(s)) && s@ == exe_path
        + " --update-weather"@)
    &&& (p.scripting.click_script matches Some(ScriptType::String(s)) && s@
        == "open 'https://weather.com'"@)
    &&& p.text is None
    &&& p.popup is None
}

// ----- clock --------------------------------------------------------------------

/// What the clock shows: the local time, the full local date and the UTC time.
#[derive(Debug, Clone, PartialEq, Eq)]
pub struct ClockData {
    pub icon: String,
    pub time: String,
    pub full_date: String,
    pub utc_time: String,
}

/// The clock item.
pub struct Clock;

impl Clock {
    /// The clock's data from the formatted times.
    pub fn fetch(time: String, full_date: String, utc_time: String) -> (r: ClockData)
        ensures
            r.icon@ == "\u{f017}"@,
            r.time == time,
            r.full_date == full_date,
            r.utc_time == utc_time,
    {
        ClockData { icon: string_of("\u{f017}"), time, full_date, utc_time }
    }

    /// The commands that show the time on the bar item and the date and UTC
    /// time in the popup.
    pub fn update_items(data: &ClockData) -> (r: Vec<Vec<String>>)
        ensures
            cmds_view(r@) == seq![
                spec_set_texts_cmd("clock"@, None, Some(data.time@)),
                spec_set_texts_cmd("clock.date"@, None, Some(data.full_date@)),
                spec_set_texts_cmd("clock.utc"@, None, Some(data.utc_time@)),
            ],
    {
        let mut cmds: Vec<Vec<String>> = Vec::new();
        let a = set_texts("clock", None, Some(data.time.as_str()));
        let b = set_texts("clock.date", None, Some(data.full_date.as_str()));
        let c = set_texts("clock.utc", None, Some(data.utc_time.as_str()));
        cmds.push(a);
        cmds.push(b);
        cmds.push(c);
        assert(cmds_view(cmds@) =~= seq![cmd_view(a), cmd_view(b), cmd_view(c)]);
        cmds
    }

    /// The commands that show the given times.
    pub fn update_command(time: String, full_date: String, utc_time: String) -> (r: Vec<
        Vec<String>,
    >)
        ensures
            cmds_view(r@) == seq![
                spec_set_texts_cmd("clock"@, None, Some(time@)),
                spec_set_texts_cmd("clock.date"@, None, Some(full_date@)),
                spec_set_texts_cmd("clock.utc"@, None, Some(utc_time@)),
            ],
    {
        let data = Clock::fetch(time, full_date, utc_time);
        Clock::update_items(&data)
    }

    /// The commands that add the clock with its popup of date and UTC time.
    pub fn setup(exe_path: &str) -> (r: Vec<Vec<String>>)
        ensures
            exists|item: BarItem|
                spec_clock_item(item, exe_path@) && cmds_view(r@) == spec_item_cmds(
                    item,
                    item.props.geometry.position,
                ),
    {
        let theme = catppuccin_mocha();
        let script = concat2(exe_path, " --update-clock");
        let date = BarItem::new("clock.date").icon("Date:").label("Loading...");
        let utc = BarItem::new("clock.utc").icon("UTC:").label("Loading...");
        let item = BarItem::new_with_pos("clock", ComponentPosition::Right).update_freq(10).script(
            script.as_str(),
        ).icon("\u{f0954}").icon_color(theme.blue).background_color(
            theme.surface0,
        ).background_drawing(ToggleState::On).popup_align(PopupAlign::Right).popup_background_color(
            theme.base,
        ).popup_background_corner_radius(8).popup_background_border_width(
            2,
        ).popup_background_border_color(theme.surface1).click_script(
            "sketchybar --animate sin 15 --set clock popup.drawing=toggle",
        );
        let mut children: Vec<PopupChild> = Vec::new();
        children.push(PopupChild::Item(Box::new(date)));
        children.push(PopupChild::Item(Box::new(utc)));
        let item = item.with_children(children);
        assert(spec_clock_item(item, exe_path@));
        item.add()
    }
}

/// A popup child is an item of that name showing only that icon and label,
/// without popup children of its own.
pub open spec fn spec_text_child(c: PopupChild, name: Seq<char>, icon: Seq<char>, label: Seq<char>) -> bool {
    &&& c matches PopupChild::Item(b)
    &&& b.name@ == name
    &&& b.children@.len() == 0
    &&& b.props == (ItemProps {
        icon: crate::props::Icon { icon: b.props.icon.icon, props: None },
        label: crate::props::Label { label: b.props.label.label, props: None },
        ..ItemProps::spec_empty()
    })
    &&& (b.props.icon.icon matches Some(s) && s@ == icon)
    &&& (b.props.label.label matches Some(s) && s@ == label)
}

/// The clock: on the right on a drawn surface background, its blue clock
/// icon, refreshed every 10 seconds by `<exe> --update-clock`; a click
/// toggles the popup (aligned right, base background with rounded corners
/// and a border) with the date and the UTC time.
pub open spec fn spec_clock_item(item: BarItem, exe_path: Seq<char>) -> bool {
    let mocha = spec_catppuccin_mocha();
    let p = item.props;
    &&& item.name@ == "clock"@
    &&& p == (ItemProps {
        geometry: Geometry {
            position: Some(ComponentPosition::Right),
            background: Some(
                BackgroundProps {
                    color: Some(mocha.surface0),
                    drawing: Some(ToggleState::On),
                    ..BackgroundProps::spec_empty()
                },
            ),
            ..Geometry::spec_empty()
        },
        icon: crate::props::Icon {
            icon: p.icon.icon,
            props: Some(Text { color: Some(mocha.blue), ..Text::spec_empty() }),
        },
        scripting: crate::props::Scripting {
            update_freq: Some(10),
            script: p.scripting.script,
            click_script: p.scripting.click_script,
            ..crate::props::Scripting::spec_empty()
        },
        popup: Some(
            crate::props::PopupProps {
                align: Some(PopupAlign::Right),
                background: Some(
                    BackgroundProps {
                        color: Some(mocha.base),
                        corner_radius: Some(8),
                        border_width: Some(2),
                        border_color: Some(mocha.surface1),
                        ..BackgroundProps::spec_empty()
                    },
                ),
                ..crate::props::PopupProps::spec_empty()
            },
        ),
        ..ItemProps::spec_empty()
    })
    &&& (p.scripting.script matches Some(ScriptType::String(s)) && s@ == exe_path
        + " --update-clock"@)
    &&& (p.scripting.click_script matches Some(ScriptType::String(s)) && s@
        == "sketchybar --animate sin 15 --set clock popup.drawing=toggle"@)
    &&& (p.icon.icon matches Some(s) && s@ == "\u{f0954}"@)
    &&& item.children@.len() == 2
    &&& spec_text_child(item.children@[0], "clock.date"@, "Date:"@, "Loading..."@)
    &&& spec_text_child(item.children@[1], "clock.utc"@, "UTC:"@, "Loading..."@)
}

// ----- CPU ---------------------------------------------------------------------

/// The CPU item.
pub struct Cpu;

impl Cpu {
    /// The command that shows the average load, given as its rounded text.
    pub fn update_items(percent: &str) -> (r: Vec<String>)
        ensures
            cmd_view(r) == spec_set_texts_cmd("cpu"@, None, Some(percent@ + seq!['%'])),
    {
        let mut label = string_of(percent);
        push_char(&mut label, '%');
        assert(label@ =~= percent@ + seq!['%']);
        set_texts("cpu", None, Some(label.as_str()))
    }

    /// The commands that add the CPU item.
    pub fn setup() -> (r: Vec<Vec<String>>)
        ensures
            exists|p: ItemProps|
                spec_cpu_props(p) && cmds_view(r@) == spec_special_cmds(
                    "item"@,
                    "cpu"@,
                    Some("right"@),
                    p.spec_args(),
                ),
    {
        let theme = catppuccin_mocha();
        let item = BarItem::new_with_pos("cpu", ComponentPosition::Right).icon(
            "\u{f4bc}",
        ).icon_color(theme.red).background_color(theme.surface0).background_drawing(
            ToggleState::On,
        );
        assert(spec_cpu_props(item.props));
        proof {
            crate::api::lemma_add_childless(item);
        }
        item.add()
    }
}

/// The CPU item: on the right, a red chip icon over a drawn background.
pub open spec fn spec_cpu_props(p: ItemProps) -> bool {
    let mocha = spec_catppuccin_mocha();
    &&& p.geometry == (Geometry {
        position: Some(ComponentPosition::Right),
        background: Some(
            BackgroundProps {
                color: Some(mocha.surface0),
                drawing: Some(ToggleState::On),
                ..BackgroundProps::spec_empty()
            },
        ),
        ..Geometry::spec_empty()
    })
    &&& (p.icon.icon matches Some(s) && s@ == "\u{f4bc}"@)
    &&& p.icon.props == Some(Text { color: Some(mocha.red), ..Text::spec_empty() })
    &&& p.label == crate::props::Label::spec_empty()
    &&& p.scripting == crate::props::Scripting::spec_empty()
    &&& p.text is None
    &&& p.popup is None
}

// ----- focused window ----------------------------------------------------------

/// The focused window's title counts as empty when blank or an error.
pub open spec fn spec_title_empty(title: Seq<char>) -> bool {
    title.len() == 0 || spec_contains(title, "error"@)
}

/// The window-title item.
pub struct Window;

/// The window-title item after an update: the title as its label, narrow
/// when there is no title.
pub open spec fn spec_window_props(p: ItemProps, title: Seq<char>) -> bool {
    &&& p.geometry == (Geometry {
        width: Some(WidthMode::Value(if spec_title_empty(title) {
            22u32
        } else {
            150u32
        })),
        ..Geometry::spec_empty()
    })
    &&& p.icon == crate::props::Icon::spec_empty()
    &&& (p.label.label matches Some(s) && s@ == title)
    &&& p.label.props is None
    &&& p.scripting == crate::props::Scripting::spec_empty()
    &&& p.text is None
    &&& p.popup is None
}

impl Window {
    /// The command that shows the focused window, from the output of
    /// `aerospace list-windows --focused`, with an animation.
    pub fn update_command(output: &str) -> (r: Vec<String>)
        ensures
            exists|p: ItemProps|
                spec_window_props(p, spec_trim(output@)) && cmd_view(r) == seq![
                    "--animate"@,
                    "circ"@,
                    spec_dec(14),
                ] + spec_set_cmd("window_title"@, p.spec_args()),
    {
        let t = trim(str_chars(output).as_slice());
        let title = string_from_chars(t.as_slice());
        let empty = t.len() == 0 || contains(t.as_slice(), str_chars("error").as_slice());
        let item = BarItem::new("window_title").label(title.as_str()).width(
            if empty {
                22
            } else {
                150
            },
        );
        assert(spec_window_props(item.props, spec_trim(output@)));
        item.animate_set("circ", 14)
    }

    /// The commands that register the focus event, add the item and subscribe
    /// it to application, space and focus changes.
    pub fn setup(exe_path: &str) -> (r: Vec<Vec<String>>)
        ensures
            exists|p: ItemProps|
                (p.scripting.script matches Some(ScriptType::String(s)) && s@ == exe_path@
                    + " --update-window"@) && p.geometry.position == Some(ComponentPosition::Left)
                    && cmds_view(r@) == seq![seq!["--add"@, "event"@, "aerospace_focus_changed"@]]
                    + spec_special_cmds("item"@, "window_title"@, Some("left"@), p.spec_args())
                    + seq![
                    seq![
                        "--subscribe"@,
                        "window_title"@,
                        "front_app_switched"@,
                        "aerospace_workspace_change"@,
                        "space_change"@,
                        "aerospace_focus_changed"@,
                    ],
                ],
    {
        let theme = catppuccin_mocha();
        let script = concat2(exe_path, " --update-window");
        let mut cmds: Vec<Vec<String>> = Vec::new();
        let ev = add_event("aerospace_focus_changed");
        cmds.push(ev);
        let item = BarItem::new("window_title").position(ComponentPosition::Left).icon(
            "\u{f05af}",
        ).icon_color(theme.maroon).width(22).scroll_texts(ToggleState::On).label_max_chars(
            17,
        ).label_props_scroll(string_of("150")).background_color(
            theme.surface0,
        ).background_drawing(ToggleState::On).padding_left(4).padding_right(4).script(
            script.as_str(),
        );
        proof {
            crate::api::lemma_add_childless(item);
        }
        let mut added = item.add();
        let ghost va = cmds_view(added@);
        cmds.append(&mut added);
        let mut events: Vec<BarEvent> = Vec::new();
        events.push(BarEvent::FrontAppSwitched);
        events.push(BarEvent::Custom(string_of("aerospace_workspace_change")));
        events.push(BarEvent::SpaceChange);
        events.push(BarEvent::Custom(string_of("aerospace_focus_changed")));
        let sub = crate::api::subscribe("window_title", events);
        assert(spec_event_names(events@) =~= seq![
            "front_app_switched"@,
            "aerospace_workspace_change"@,
            "space_change"@,
            "aerospace_focus_changed"@,
        ]);
        cmds.push(sub);
        assert(cmd_view(sub) =~= seq![
            "--subscribe"@,
            "window_title"@,
            "front_app_switched"@,
            "aerospace_workspace_change"@,
            "space_change"@,
            "aerospace_focus_changed"@,
        ]);
        assert(cmds_view(cmds@) =~= seq![cmd_view(ev)] + va + seq![cmd_view(sub)]);
        cmds
    }
}

impl BarItem {
    /// Sets the label's scroll duration (in the label's text settings).
    pub fn label_props_scroll(self, duration: String) -> (r: Self)
        ensures
            r.name == self.name,
            r.children == self.children,
            r.props == (ItemProps {
                label: crate::props::Label {
                    props: Some(
                        Text {
                            scroll_duration: Some(duration),
                            ..crate::item::spec_or_empty_text(self.props.label.props)
                        },
                    ),
                    ..self.props.label
                },
                ..self.props
            }),
    {
        let BarItem { name, mut props, children } = self;
        let cur = match props.label.props {
            Some(t) => t,
            None => Text::default(),
        };
        props.label.props = Some(Text { scroll_duration: Some(duration), ..cur });
        BarItem { name, props, children }
    }
}

// ----- workspaces --------------------------------------------------------------

/// `s` without every leading repetition of the non-empty `p`
/// (`str::trim_start_matches`).
pub open spec fn spec_trim_start_matches(s: Seq<char>, p: Seq<char>) -> Seq<char>
    decreases s.len(),
{
    if p.len() > 0 && spec_starts_with(s, p) {
        spec_trim_start_matches(s.subrange(p.len() as int, s.len() as int), p)
    } else {
        s
    }
}

/// A signed decimal number as `str::parse::<i32>` reads it: an optional
/// sign, then one or more digits, within range.
pub open spec fn spec_parse_i32(s: Seq<char>) -> Option<i32> {
    let neg = s.len() > 0 && s[0] == '-';
    let d = if s.len() > 0 && (s[0] == '-' || s[0] == '+') {
        s.drop_first()
    } else {
        s
    };
    if crate::strs::spec_all_digits(d) {
        let v = spec_digits_value(d);
        if neg && v <= 0x8000_0000 {
            Some((-(v as int)) as i32)
        } else if !neg && v <= 0x7fff_ffff {
            Some(v as i32)
        } else {
            None
        }
    } else {
        None
    }
}

/// Reads a signed decimal number as `str::parse::<i32>` does.
pub fn parse_i32(s: &[char]) -> (r: Option<i32>)
    ensures
        r == spec_parse_i32(s@),
{
    let n = s.len();
    if n > 0 && s[0] == '-' {
        let rest = crate::strs::slice_of(s, 1, n);
        assert(rest@ =~= s@.drop_first());
        if rest.len() > 0 && rest[0] == '+' {
            assert(!spec_is_digit(rest@[0]));
            return None;
        }
        let ghost d = rest@;
        assert(crate::strs::spec_parse_nat(d) == if crate::strs::spec_all_digits(d) {
            Some(spec_digits_value(d))
        } else {
            None::<nat>
        });
        match parse_digits_upto(rest.as_slice(), 0x8000_0000) {
            Some(v) => {
                if v == 0x8000_0000 {
                    Some(i32::MIN)
                } else {
                    Some(-(v as i32))
                }
            },
            None => None,
        }
    } else {
        match parse_digits_upto(s, 0x7fff_ffff) {
            Some(v) => Some(v as i32),
            None => None,
        }
    }
}

/// Reads an optional `+` and digits with a value up to `max`.
fn parse_digits_upto(s: &[char], max: u64) -> (r: Option<u64>)
    requires
        9 <= max <= u32::MAX,
    ensures
        match crate::strs::spec_parse_nat(s@) {
            Some(v) => if v <= max {
                r == Some(v as u64)
            } else {
                r is None
            },
            None => r is None,
        },
{
    crate::strs::parse_bounded(s, max)
}

/// The focused workspace: the environment's value when it is set, else the
/// query's output trimmed; then without leading `workspace.` prefixes.
pub open spec fn spec_focused_workspace(env: Option<Seq<char>>, query: Seq<char>) -> Seq<char> {
    spec_trim_start_matches(
        match env {
            Some(v) => v,
            None => spec_trim(query),
        },
        "workspace."@,
    )
}

/// Workspace `i` is active when the focused workspace reads as the number `i`.
pub open spec fn spec_ws_active(id: Seq<char>, i: int) -> bool {
    spec_parse_i32(id) == Some(i as i32)
}

/// At most one of the nine workspaces is shown as focused.
pub proof fn lemma_one_active_workspace(focused: Seq<char>, i: int, j: int)
    requires
        1 <= i <= 9,
        1 <= j <= 9,
        spec_ws_active(focused, i),
        spec_ws_active(focused, j),
    ensures
        i == j,
{
}

/// A workspace item after an update: mauve with a dark icon when active,
/// surface-colored with a light icon otherwise.
pub open spec fn spec_ws_props(p: ItemProps, active: bool) -> bool {
    let mocha = spec_catppuccin_mocha();
    &&& p.geometry == (Geometry {
        background: Some(
            BackgroundProps {
                color: Some(if active {
                    mocha.mauve
                } else {
                    mocha.surface1
                }),
                ..BackgroundProps::spec_empty()
            },
        ),
        ..Geometry::spec_empty()
    })
    &&& p.icon.icon is None
    &&& p.icon.props == Some(
        Text {
            color: Some(if active {
                mocha.crust
            } else {
                mocha.text
            }),
            ..Text::spec_empty()
        },
    )
    &&& p.label == crate::props::Label::spec_empty()
    &&& p.scripting == crate::props::Scripting::spec_empty()
    &&& p.text is None
    &&& p.popup is None
}

/// The name of workspace `i`'s item.
pub open spec fn spec_ws_name(i: int) -> Seq<char> {
    "workspace."@ + spec_dec(i as nat)
}

/// The workspaces.
pub struct Workspaces;

/// Reads the focused workspace.
pub fn focused_workspace(env: Option<&str>, query: &str) -> (r: String)
    ensures
        r@ == spec_focused_workspace(crate::api::opt_str_view(env), query@),
{
    let raw = match env {
        Some(v) => str_chars(v),
        None => trim(str_chars(query).as_slice()),
    };
    let p = str_chars("workspace.");
    proof {
        reveal_strlit("workspace.");
    }
    let mut start: usize = 0;
    let n = raw.len();
    assert(raw@.subrange(0, n as int) =~= raw@);
    while n - start >= p.len() && occurs_at(raw.as_slice(), p.as_slice(), start)
        invariant
            n == raw@.len(),
            start <= n,
            p@ == "workspace."@,
            p@.len() == 10,
            spec_trim_start_matches(raw@, p@) == spec_trim_start_matches(
                raw@.subrange(start as int, n as int),
                p@,
            ),
        decreases n - start,
    {
        let ghost t = raw@.subrange(start as int, n as int);
        assert(t.subrange(0, 10) =~= raw@.subrange(start as int, start + 10));
        assert(t.subrange(10, t.len() as int) =~= raw@.subrange(start + 10, n as int));
        start = start + p.len();
    }
    let ghost t = raw@.subrange(start as int, n as int);
    assert(!spec_starts_with(t, p@)) by {
        if spec_starts_with(t, p@) {
            assert(t.subrange(0, 10) =~= raw@.subrange(start as int, start + 10));
        }
    }
    let rest = crate::strs::slice_of(raw.as_slice(), start, n);
    string_from_chars(rest.as_slice())
}

/// The command colors workspace `i` as active or not.
pub open spec fn spec_ws_cmd(c: Seq<Seq<char>>, i: int, active: bool) -> bool {
    exists|p: ItemProps| spec_ws_props(p, active) && c == spec_set_cmd(spec_ws_name(i), p.spec_args())
}

/// The command that colors workspace `i` as active or not.
fn ws_cmd(i: u32, active: bool) -> (r: Vec<String>)
    requires
        1 <= i <= 9,
    ensures
        spec_ws_cmd(cmd_view(r), i as int, active),
{
    let theme = catppuccin_mocha();
    let name = concat2("workspace.", dec_u32(i).as_str());
    let item = BarItem::new(name.as_str()).background_color(
        if active {
            theme.mauve
        } else {
            theme.surface1
        },
    ).icon_color(
        if active {
            theme.crust
        } else {
            theme.text
        },
    );
    assert(spec_ws_props(item.props, active));
    item.set()
}

impl Workspaces {
    /// The commands that color the nine workspaces, the focused one as active.
    pub fn update_command(focused: &str) -> (r: Vec<Vec<String>>)
        ensures
            r@.len() == 9,
            forall|k: int|
                0 <= k < 9 ==> spec_ws_cmd(
                    #[trigger] cmds_view(r@)[k],
                    k + 1,
                    spec_ws_active(focused@, k + 1),
                ),
    {
        let id = parse_i32(str_chars(focused).as_slice());
        let mut cmds: Vec<Vec<String>> = Vec::new();
        let mut i: u32 = 1;
        while i <= 9
            invariant
                1 <= i <= 10,
                cmds@.len() == i - 1,
                id == spec_parse_i32(focused@),
                forall|k: int|
                    0 <= k < i - 1 ==> spec_ws_cmd(
                        #[trigger] cmds_view(cmds@)[k],
                        k + 1,
                        spec_ws_active(focused@, k + 1),
                    ),
            decreases 10 - i,
        {
            let active = match id {
                Some(v) => v == i as i32,
                None => false,
            };
            assert(active == spec_ws_active(focused@, i as int));
            let c = ws_cmd(i, active);
            let ghost before = cmds@;
            cmds.push(c);
            assert forall|k: int| 0 <= k < i implies spec_ws_cmd(
                #[trigger] cmds_view(cmds@)[k],
                k + 1,
                spec_ws_active(focused@, k + 1),
            ) by {
                if k < i - 1 {
                    assert(cmds_view(cmds@)[k] == cmds_view(before)[k]);
                } else {
                    assert(cmds_view(cmds@)[k] == cmd_view(c));
                }
            }
            i = i + 1;
        }
        cmds
    }
}

/// The setup of workspace `i`: on the left, its number as icon, a rounded
/// background, no label; a click focuses it and updates the workspaces; the
/// first workspace also runs the update script.
pub open spec fn spec_ws_setup_props(p: ItemProps, i: int, exe_path: Seq<char>) -> bool {
    &&& p.geometry.position == Some(ComponentPosition::Left)
    &&& (p.icon.icon matches Some(s) && s@ == spec_dec(i as nat))
    &&& (p.geometry.background matches Some(b) && b.color == Some(spec_catppuccin_mocha().surface1)
        && b.corner_radius == Some(6u32) && b.drawing == Some(ToggleState::On))
    &&& (p.scripting.click_script matches Some(ScriptType::String(s)) && s@ == "aerospace workspace "@
        + spec_dec(i as nat) + " && "@ + exe_path + " --update-workspaces"@)
    &&& (i == 1 ==> (p.scripting.script matches Some(ScriptType::String(s)) && s@ == exe_path
        + " --update-workspaces"@))
    &&& (i != 1 ==> p.scripting.script is None)
}

/// The commands that add workspace `i`.
pub open spec fn spec_ws_setup_cmds(c: Seq<Seq<Seq<char>>>, i: int, exe_path: Seq<char>) -> bool {
    exists|p: ItemProps|
        spec_ws_setup_props(p, i, exe_path) && c == crate::api::spec_special_cmds(
            "item"@,
            spec_ws_name(i),
            Some("left"@),
            p.spec_args(),
        )
}

fn ws_setup(i: u32, exe_path: &str) -> (r: Vec<Vec<String>>)
    requires
        1 <= i <= 9,
    ensures
        spec_ws_setup_cmds(cmds_view(r@), i as int, exe_path@),
{
    let theme = catppuccin_mocha();
    let num = dec_u32(i);
    let name = concat2("workspace.", num.as_str());
    let mut click = concat2("aerospace workspace ", num.as_str());
    click.append(" && ");
    click.append(exe_path);
    click.append(" --update-workspaces");
    let mut item = BarItem::new(name.as_str()).position(ComponentPosition::Left).icon(
        num.as_str(),
    ).background_color(theme.surface1).background_corner_radius(6).background_drawing(
        ToggleState::On,
    ).label_drawing(ToggleState::Off).click_script(click.as_str());
    if i == 1 {
        let script = concat2(exe_path, " --update-workspaces");
        item = item.script(script.as_str());
    }
    assert(spec_ws_setup_props(item.props, i as int, exe_path@));
    proof {
        crate::api::lemma_add_childless(item);
    }
    item.add()
}

impl Workspaces {
    /// The commands that add the nine workspaces, register the workspace
    /// events and subscribe the first workspace to them.
    pub fn setup(exe_path: &str) -> (r: Vec<Vec<String>>)
        ensures
            cmds_view(r@).len() == 21,
            forall|k: int|
                0 <= k < 9 ==> spec_ws_setup_cmds(
                    #[trigger] cmds_view(r@).subrange(2 * k, 2 * k + 2),
                    k + 1,
                    exe_path@,
                ),
            cmds_view(r@).subrange(18, 21) == seq![
                seq!["--add"@, "event"@, "aerospace_workspace_change"@],
                seq!["--add"@, "event"@, "workspace_change"@],
                seq![
                    "--subscribe"@,
                    "workspace.1"@,
                    "aerospace_workspace_change"@,
                    "space_change"@,
                    "workspace_change"@,
                ],
            ],
    {
        let mut cmds: Vec<Vec<String>> = Vec::new();
        let mut i: u32 = 1;
        while i <= 9
            invariant
                1 <= i <= 10,
                cmds@.len() == 2 * (i - 1),
                forall|k: int|
                    0 <= k < i - 1 ==> spec_ws_setup_cmds(
                        #[trigger] cmds_view(cmds@).subrange(2 * k, 2 * k + 2),
                        k + 1,
                        exe_path@,
                    ),
            decreases 10 - i,
        {
            let mut more = ws_setup(i, exe_path);
            let ghost before = cmds_view(cmds@);
            let ghost vm = cmds_view(more@);
            assert(vm.len() == 2);
            cmds.append(&mut more);
            assert(cmds_view(cmds@) =~= before + vm);
            assert forall|k: int| 0 <= k < i implies spec_ws_setup_cmds(
                #[trigger] cmds_view(cmds@).subrange(2 * k, 2 * k + 2),
                k + 1,
                exe_path@,
            ) by {
                if k < i - 1 {
                    assert(cmds_view(cmds@).subrange(2 * k, 2 * k + 2) =~= before.subrange(
                        2 * k,
                        2 * k + 2,
                    ));
                } else {
                    assert(cmds_view(cmds@).subrange(2 * k, 2 * k + 2) =~= vm);
                }
            }
            i = i + 1;
        }
        let ghost v18 = cmds_view(cmds@);
        let a = add_event("aerospace_workspace_change");
        let b = add_event("workspace_change");
        let mut events: Vec<BarEvent> = Vec::new();
        events.push(BarEvent::Custom(string_of("aerospace_workspace_change")));
        events.push(BarEvent::SpaceChange);
        events.push(BarEvent::Custom(string_of("workspace_change")));
        let c = crate::api::subscribe("workspace.1", events);
        assert(spec_event_names(events@) =~= seq![
            "aerospace_workspace_change"@,
            "space_change"@,
            "workspace_change"@,
        ]);
        cmds.push(a);
        cmds.push(b);
        cmds.push(c);
        assert(cmds_view(cmds@) =~= v18 + seq![cmd_view(a), cmd_view(b), cmd_view(c)]);
        assert forall|k: int| 0 <= k < 9 implies spec_ws_setup_cmds(
            #[trigger] cmds_view(cmds@).subrange(2 * k, 2 * k + 2),
            k + 1,
            exe_path@,
        ) by {
            assert(cmds_view(cmds@).subrange(2 * k, 2 * k + 2) =~= v18.subrange(2 * k, 2 * k + 2));
        }
        assert(cmd_view(c) =~= seq![
            "--subscribe"@,
            "workspace.1"@,
            "aerospace_workspace_change"@,
            "space_change"@,
            "workspace_change"@,
        ]);
        assert(cmds_view(cmds@).subrange(18, 21) =~= seq![cmd_view(a), cmd_view(b), cmd_view(c)]);
        cmds
    }
}

// ----- commands of the program ---------------------------------------------------

/// An update the program performs when run with a command-line flag.
#[derive(Debug, Clone, Copy, PartialEq, Eq, Structural)]
pub enum ItemCommand {
    UpdateClock,
    UpdateWeather,
    UpdateBattery,
    UpdateCpu,
    UpdateKeyboardLayout,
    UpdateNetwork,
    UpdateVolume,
    UpdateMedia,
    UpdateWorkspaces,
    UpdateBluetooth,
}

/// The update a flag names, if any.
pub open spec fn spec_command_of(arg: Seq<char>) -> Option<ItemCommand> {
    if arg == "--update-clock"@ {
        Some(ItemCommand::UpdateClock)
    } else if arg == "--update-weather"@ {
        Some(ItemCommand::UpdateWeather)
    } else if arg == "--update-battery"@ {
        Some(ItemCommand::UpdateBattery)
    } else if arg == "--update-cpu"@ {
        Some(ItemCommand::UpdateCpu)
    } else if arg == "--update-keyboard-layout"@ {
        Some(ItemCommand::UpdateKeyboardLayout)
    } else if arg == "--update-network"@ {
        Some(ItemCommand::UpdateNetwork)
    } else if arg == "--update-volume"@ {
        Some(ItemCommand::UpdateVolume)
    } else if arg == "--update-media"@ {
        Some(ItemCommand::UpdateMedia)
    } else if arg == "--update-workspaces"@ {
        Some(ItemCommand::UpdateWorkspaces)
    } else if arg == "--update-bluetooth"@ {
        Some(ItemCommand::UpdateBluetooth)
    } else {
        None
    }
}

/// The update a command-line flag names.
pub fn handle_command(cmd: &str) -> (r: Option<ItemCommand>)
    ensures
        r == spec_command_of(cmd@),
{
    if str_eq(cmd, "--update-clock") {
        Some(ItemCommand::UpdateClock)
    } else if str_eq(cmd, "--update-weather") {
        Some(ItemCommand::UpdateWeather)
    } else if str_eq(cmd, "--update-battery") {
        Some(ItemCommand::UpdateBattery)
    } else if str_eq(cmd, "--update-cpu") {
        Some(ItemCommand::UpdateCpu)
    } else if str_eq(cmd, "--update-keyboard-layout") {
        Some(ItemCommand::UpdateKeyboardLayout)
    } else if str_eq(cmd, "--update-network") {
        Some(ItemCommand::UpdateNetwork)
    } else if str_eq(cmd, "--update-volume") {
        Some(ItemCommand::UpdateVolume)
    } else if str_eq(cmd, "--update-media") {
        Some(ItemCommand::UpdateMedia)
    } else if str_eq(cmd, "--update-workspaces") {
        Some(ItemCommand::UpdateWorkspaces)
    } else if str_eq(cmd, "--update-bluetooth") {
        Some(ItemCommand::UpdateBluetooth)
    } else {
        None
    }
}

} // verus!

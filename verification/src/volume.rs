//! The volume item: what an event asks of it, its icon and label, and the
//! slider in its popup.

use vstd::prelude::*;
use crate::api::{cmd_view, cmds_view, spec_event_names, spec_item_cmds, spec_set_cmd};
use crate::event::BarEvent;
use crate::item::{BarItem, ItemBuilder, PopupChild, Slider};
use crate::pieces::dec_u32;
use crate::props::{BackgroundProps, Geometry, Icon, ItemProps, PopupProps, ScriptType, Scripting, Text};
use crate::style::ItemStyle;
use crate::text::{concat2, push_char, spec_dec, str_eq, string_of};
use crate::themes::{catppuccin_mocha, spec_catppuccin_mocha};
use crate::types::{
    spec_nerd_font_text, ComponentPosition, Font, FontStyle, PopupAlign, ToSketchybarArgs,
    ToggleState,
};

verus! {

/// What an event asks of the volume before it is shown.
#[derive(Debug, Clone, Copy, PartialEq, Eq, Structural)]
pub enum VolumeInput {
    /// Set the volume to the slider's percentage.
    SetFromSlider,
    /// Change the volume by the scroll's delta.
    Scroll,
    /// Open or close the popup.
    TogglePopup,
    /// Nothing.
    Nothing,
}

/// What the event asks: a slider with a percentage sets the volume; else a
/// scroll changes it, and a click on the bar item toggles the popup.
pub open spec fn spec_volume_input(sender: Seq<char>, name: Seq<char>, percentage: Seq<char>) -> VolumeInput {
    if name == "volume.slider"@ && percentage.len() > 0 {
        VolumeInput::SetFromSlider
    } else if sender == "mouse.scrolled"@ {
        VolumeInput::Scroll
    } else if sender == "mouse.clicked"@ && name == "volume"@ {
        VolumeInput::TogglePopup
    } else {
        VolumeInput::Nothing
    }
}

/// Where the volume to show is read from.
#[derive(Debug, Clone, Copy, PartialEq, Eq, Structural)]
pub enum LevelSource {
    /// The `INFO` of a volume change.
    Info,
    /// The slider's percentage.
    Percentage,
    /// The system, asked anew.
    Query,
}

/// A volume change carries the level; else the slider's percentage; else
/// the system is asked.
pub open spec fn spec_level_source(
    sender: Seq<char>,
    name: Seq<char>,
    info: Seq<char>,
    percentage: Seq<char>,
) -> LevelSource {
    if sender == "volume_change"@ && info.len() > 0 {
        LevelSource::Info
    } else if name == "volume.slider"@ && percentage.len() > 0 {
        LevelSource::Percentage
    } else {
        LevelSource::Query
    }
}

/// The volume icon: muted, low, medium or high.
pub open spec fn spec_volume_icon(vol: u8, muted: bool) -> Seq<char> {
    if muted || vol == 0 {
        "\u{f075f}"@
    } else if vol <= 33 {
        "\u{f057f}"@
    } else if vol <= 66 {
        "\u{f0580}"@
    } else {
        "\u{f057e}"@
    }
}

/// The bar item.
pub struct Volume;

impl Volume {
    /// What an event asks of the volume.
    pub fn input(sender: &str, name: &str, percentage: &str) -> (r: VolumeInput)
        ensures
            r == spec_volume_input(sender@, name@, percentage@),
    {
        if str_eq(name, "volume.slider") && percentage.unicode_len() > 0 {
            VolumeInput::SetFromSlider
        } else if str_eq(sender, "mouse.scrolled") {
            VolumeInput::Scroll
        } else if str_eq(sender, "mouse.clicked") && str_eq(name, "volume") {
            VolumeInput::TogglePopup
        } else {
            VolumeInput::Nothing
        }
    }

    /// Where the volume to show is read from.
    pub fn level_source(sender: &str, name: &str, info: &str, percentage: &str) -> (r: LevelSource)
        ensures
            r == spec_level_source(sender@, name@, info@, percentage@),
    {
        if str_eq(sender, "volume_change") && info.unicode_len() > 0 {
            LevelSource::Info
        } else if str_eq(name, "volume.slider") && percentage.unicode_len() > 0 {
            LevelSource::Percentage
        } else {
            LevelSource::Query
        }
    }

    /// The volume icon.
    pub fn icon(vol: u8, muted: bool) -> (r: String)
        ensures
            r@ == spec_volume_icon(vol, muted),
    {
        let s = if muted || vol == 0 {
            "\u{f075f}"
        } else if vol <= 33 {
            "\u{f057f}"
        } else if vol <= 66 {
            "\u{f0580}"
        } else {
            "\u{f057e}"
        };
        string_of(s)
    }

    /// The command that opens or closes the popup with an animation.
    pub fn popup_toggle() -> (r: Vec<String>)
        ensures
            exists|p: ItemProps|
                p == (ItemProps {
                    popup: Some(
                        crate::props::PopupProps {
                            drawing: Some(ToggleState::Toggle),
                            ..crate::props::PopupProps::spec_empty()
                        },
                    ),
                    ..ItemProps::spec_empty()
                }) && cmd_view(r) == seq!["--animate"@, "sin"@, spec_dec(15)] + spec_set_cmd(
                    "volume"@,
                    p.spec_args(),
                ),
    {
        let item = BarItem::new("volume").popup_drawing(ToggleState::Toggle);
        item.animate_set("sin", 15)
    }

    /// The commands that show the volume: the icon and `N%` on the bar item,
    /// and the percentage on the slider.
    pub fn update_command(vol: u8, muted: bool) -> (r: Vec<Vec<String>>)
        ensures
            cmds_view(r@) == seq![
                crate::api::spec_set_texts_cmd(
                    "volume"@,
                    Some(spec_volume_icon(vol, muted)),
                    Some(spec_dec(vol as nat) + seq!['%']),
                ),
                seq!["--set"@, "volume.slider"@, "slider.percentage="@ + spec_dec(vol as nat)],
            ],
    {
        let icon = Volume::icon(vol, muted);
        let mut label = dec_u32(vol as u32);
        push_char(&mut label, '%');
        let c0 = crate::api::set_texts("volume", Some(icon.as_str()), Some(label.as_str()));
        let slider = Slider::new("volume.slider").percentage(vol as u32);
        let c1 = slider.set();
        assert(crate::pieces::spec_opt_u32("slider.percentage"@, Some(vol as u32)) =~= seq![
            ("slider.percentage"@, spec_dec(vol as nat)),
        ]);
        assert(slider.spec_args() =~= seq![("slider.percentage"@, spec_dec(vol as nat))]);
        assert(cmd_view(c1) =~= seq![
            "--set"@,
            "volume.slider"@,
            "slider.percentage"@ + seq!['='] + spec_dec(vol as nat),
        ]);
        proof {
            reveal_strlit("slider.percentage=");
            reveal_strlit("slider.percentage");
        }
        assert("slider.percentage"@ + seq!['='] =~= "slider.percentage="@);
        assert("slider.percentage"@ + seq!['='] + spec_dec(vol as nat) =~= "slider.percentage="@
            + spec_dec(vol as nat));
        assert(label@ =~= spec_dec(vol as nat) + seq!['%']);
        let mut cmds: Vec<Vec<String>> = Vec::new();
        cmds.push(c0);
        cmds.push(c1);
        assert(cmds_view(cmds@) =~= seq![cmd_view(c0), cmd_view(c1)]);
        cmds
    }
}

/// The volume slider: 100 wide starting at `current`, a lavender highlight,
/// a blue knob glyph in the default font, a thin rounded surface track,
/// paddings of 5, no background, run by `<exe> --update-volume`.
pub open spec fn spec_volume_slider(s: Slider, exe_path: Seq<char>, current: u32) -> bool {
    let mocha = spec_catppuccin_mocha();
    let kp = s.knob_props.unwrap();
    let ip = s.item.unwrap();
    &&& s == (Slider {
        name: s.name,
        position: ComponentPosition::Left,
        width: Some(100),
        percentage: Some(current),
        highlight_color: Some(mocha.lavender),
        knob: s.knob,
        knob_props: Some(Text { color: Some(mocha.blue), font: kp.font, ..Text::spec_empty() }),
        background: Some(
            BackgroundProps {
                height: Some(5),
                corner_radius: Some(3),
                color: Some(mocha.surface1),
                drawing: Some(ToggleState::On),
                ..BackgroundProps::spec_empty()
            },
        ),
        item: Some(
            ItemProps {
                geometry: Geometry {
                    padding_left: Some(5),
                    padding_right: Some(5),
                    background: Some(
                        BackgroundProps {
                            drawing: Some(ToggleState::Off),
                            ..BackgroundProps::spec_empty()
                        },
                    ),
                    ..Geometry::spec_empty()
                },
                scripting: Scripting { script: ip.scripting.script, ..Scripting::spec_empty() },
                ..ItemProps::spec_empty()
            },
        ),
    })
    &&& s.name@ == "volume.slider"@
    &&& (s.knob matches Some(k) && k@ == "\u{f0765}"@)
    &&& (kp.font matches Some(f) && f.spec_text() == spec_nerd_font_text(FontStyle::Regular, "14"@))
    &&& (ip.scripting.script matches Some(ScriptType::String(t)) && t@ == exe_path
        + " --update-volume"@)
}

/// The volume bar item: on the right on a drawn surface background, a blue
/// icon, run by `<exe> --update-volume`; its popup (centered, base background
/// with rounded corners and a border) holds only the slider.
pub open spec fn spec_volume_item(item: BarItem, exe_path: Seq<char>, current: u32) -> bool {
    let mocha = spec_catppuccin_mocha();
    let p = item.props;
    &&& item.name@ == "volume"@
    &&& p == (ItemProps {
        geometry: Geometry {
            position: Some(ComponentPosition::Right),
            background: Some(
                BackgroundProps {
                    color: Some(mocha.surface0),
                    drawing: Some(ToggleState::On),
                    ..BackgroundProps::spec_empty()
                },
            ),
            ..Geometry::spec_empty()
        },
        icon: Icon { icon: None, props: Some(Text { color: Some(mocha.blue), ..Text::spec_empty() }) },
        scripting: Scripting { script: p.scripting.script, ..Scripting::spec_empty() },
        popup: Some(
            PopupProps {
                align: Some(PopupAlign::Center),
                background: Some(
                    BackgroundProps {
                        color: Some(mocha.base),
                        corner_radius: Some(8),
                        border_width: Some(2),
                        border_color: Some(mocha.surface1),
                        ..BackgroundProps::spec_empty()
                    },
                ),
                ..PopupProps::spec_empty()
            },
        ),
        ..ItemProps::spec_empty()
    })
    &&& (p.scripting.script matches Some(ScriptType::String(s)) && s@ == exe_path
        + " --update-volume"@)
    &&& item.children@.len() == 1
    &&& (item.children@[0] matches PopupChild::Slider(s) && spec_volume_slider(*s, exe_path, current))
}

impl Volume {
    /// The commands that add the volume item with its slider, and subscribe
    /// the item to volume changes, scrolls and clicks, and the slider to clicks.
    pub fn setup(exe_path: &str, current_vol: u32) -> (r: Vec<Vec<String>>)
        ensures
            exists|item: BarItem|
                spec_volume_item(item, exe_path@, current_vol) && cmds_view(r@) == spec_item_cmds(
                    item,
                    item.props.geometry.position,
                ) + seq![
                    seq![
                        "--subscribe"@,
                        "volume"@,
                        "volume_change"@,
                        "mouse.scrolled"@,
                        "mouse.clicked"@,
                    ],
                    seq!["--subscribe"@, "volume.slider"@, "mouse.clicked"@],
                ],
    {
        let theme = catppuccin_mocha();
        let script = concat2(exe_path, " --update-volume");
        let slider = Slider::new("volume.slider").percentage(current_vol).background_drawing(
            ToggleState::Off,
        ).slider_width(100).slider_background_height(5).slider_background_corner_radius(
            3,
        ).slider_background_color(theme.surface1).slider_background_drawing(
            ToggleState::On,
        ).padding_left(5).padding_right(5).highlight_color(theme.lavender).knob(
            "\u{f0765}",
        ).knob_color(theme.blue).knob_font(Font::default()).script(script.as_str());
        let item = BarItem::new("volume").position(ComponentPosition::Right).script(
            script.as_str(),
        ).background_color(theme.surface0).background_drawing(ToggleState::On).icon_color(
            theme.blue,
        ).popup_align(PopupAlign::Center).popup_background_color(
            theme.base,
        ).popup_background_corner_radius(8).popup_background_border_width(
            2,
        ).popup_background_border_color(theme.surface1).add_slider(slider);
        assert(spec_volume_item(item, exe_path@, current_vol));
        let mut cmds = item.add();
        let ghost va = cmds_view(cmds@);
        let mut e1: Vec<BarEvent> = Vec::new();
        e1.push(BarEvent::VolumeChange);
        e1.push(BarEvent::MouseScrolled);
        e1.push(BarEvent::MouseClicked);
        let s1 = item.subscribe(e1);
        let mut e2: Vec<BarEvent> = Vec::new();
        e2.push(BarEvent::MouseClicked);
        let s2 = crate::api::subscribe("volume.slider", e2);
        assert(spec_event_names(e1@) =~= seq!["volume_change"@, "mouse.scrolled"@, "mouse.clicked"@]);
        assert(spec_event_names(e2@) =~= seq!["mouse.clicked"@]);
        cmds.push(s1);
        cmds.push(s2);
        assert(cmd_view(s1) =~= seq![
            "--subscribe"@,
            "volume"@,
            "volume_change"@,
            "mouse.scrolled"@,
            "mouse.clicked"@,
        ]);
        assert(cmd_view(s2) =~= seq!["--subscribe"@, "volume.slider"@, "mouse.clicked"@]);
        assert(cmds_view(cmds@) =~= va + seq![cmd_view(s1), cmd_view(s2)]);
        cmds
    }
}

} // verus!

//! The Apple menu: a logo whose popup lists system actions.

use vstd::prelude::*;
use crate::api::{cmd_view, cmds_view, spec_event_names, spec_item_cmds};
use crate::event::BarEvent;
use crate::item::{BarItem, ItemBuilder, PopupChild};
use crate::props::{BackgroundProps, Geometry, Icon, ItemProps, Label, PopupProps, ScriptType, Scripting, Text};
use crate::style::ItemStyle;
use crate::text::{concat2, string_of};
use crate::themes::{catppuccin_mocha, spec_catppuccin_mocha};
use crate::types::{
    nerd_font, spec_nerd_font_text, Argb, ComponentPosition, FontStyle, PopupAlign, ToggleState,
    WidthMode,
};

verus! {

/// The script of a menu entry: its background shows while the mouse is over it.
pub open spec fn spec_hover_script() -> Seq<char> {
    "if [ \"$SENDER\" = \"mouse.entered\" ]; then\n            sketchybar --animate sin 10 --set $NAME background.drawing=on\n        elif [ \"$SENDER\" = \"mouse.exited\" ] || [ \"$SENDER\" = \"mouse.exited.global\" ]; then\n            sketchybar --animate sin 10 --set $NAME background.drawing=off\n        fi"@
}

/// The click script of a menu entry: close the popup, then run `command`.
pub open spec fn spec_menu_click(command: Seq<char>) -> Seq<char> {
    "sketchybar --animate sin 15 --set apple.logo popup.drawing=off && "@ + command
}

/// A menu entry: 180 wide with paddings of 5, its label in bold 13 of the
/// text color, no icon, a rounded blue background shown only on hover (by the
/// hover script), and the click script; no popup children.
pub open spec fn spec_menu_entry(b: BarItem, name: Seq<char>, label: Seq<char>, command: Seq<char>) -> bool {
    let mocha = spec_catppuccin_mocha();
    let t = b.props.label.props.unwrap();
    &&& b.name@ == name
    &&& b.children@.len() == 0
    &&& b.props == (ItemProps {
        geometry: Geometry {
            width: Some(WidthMode::Value(180)),
            padding_left: Some(5),
            padding_right: Some(5),
            background: Some(
                BackgroundProps {
                    color: Some(mocha.blue),
                    corner_radius: Some(5),
                    drawing: Some(ToggleState::Off),
                    ..BackgroundProps::spec_empty()
                },
            ),
            ..Geometry::spec_empty()
        },
        icon: Icon {
            icon: None,
            props: Some(Text { drawing: Some(ToggleState::Off), ..Text::spec_empty() }),
        },
        label: Label {
            label: b.props.label.label,
            props: Some(Text { font: t.font, color: Some(mocha.text), ..Text::spec_empty() }),
        },
        scripting: Scripting {
            script: b.props.scripting.script,
            click_script: b.props.scripting.click_script,
            ..Scripting::spec_empty()
        },
        ..ItemProps::spec_empty()
    })
    &&& (t.font matches Some(f) && f.spec_text() == spec_nerd_font_text(FontStyle::Bold, "13"@))
    &&& (b.props.label.label matches Some(s) && s@ == label)
    &&& (b.props.scripting.script matches Some(ScriptType::String(s)) && s@ == spec_hover_script())
    &&& (b.props.scripting.click_script matches Some(ScriptType::String(s)) && s@ == spec_menu_click(command))
}

/// A divider: 180 wide with paddings of 10, a drawn line of height 1 in the
/// surface color, no icon and no label; no popup children.
pub open spec fn spec_divider(b: BarItem, name: Seq<char>) -> bool {
    &&& b.name@ == name
    &&& b.children@.len() == 0
    &&& b.props == (ItemProps {
        geometry: Geometry {
            width: Some(WidthMode::Value(180)),
            padding_left: Some(10),
            padding_right: Some(10),
            background: Some(
                BackgroundProps {
                    drawing: Some(ToggleState::On),
                    color: Some(spec_catppuccin_mocha().surface1),
                    height: Some(1),
                    ..BackgroundProps::spec_empty()
                },
            ),
            ..Geometry::spec_empty()
        },
        icon: Icon {
            icon: None,
            props: Some(Text { drawing: Some(ToggleState::Off), ..Text::spec_empty() }),
        },
        label: Label {
            label: None,
            props: Some(Text { drawing: Some(ToggleState::Off), ..Text::spec_empty() }),
        },
        ..ItemProps::spec_empty()
    })
}

/// A menu entry.
pub fn menu_item(name: &str, label: &str, command: &str) -> (r: BarItem)
    ensures
        spec_menu_entry(r, name@, label@, command@),
{
    let theme = catppuccin_mocha();
    let click = concat2("sketchybar --animate sin 15 --set apple.logo popup.drawing=off && ", command);
    BarItem::new(name).label(label).label_font(nerd_font(FontStyle::Bold, "13")).label_color(
        theme.text,
    ).icon_drawing(ToggleState::Off).width(180).padding_left(5).padding_right(5).background_color(
        theme.blue,
    ).background_corner_radius(5).background_drawing(ToggleState::Off).script("if [ \"$SENDER\" = \"mouse.entered\" ]; then\n            sketchybar --animate sin 10 --set $NAME background.drawing=on\n        elif [ \"$SENDER\" = \"mouse.exited\" ] || [ \"$SENDER\" = \"mouse.exited.global\" ]; then\n            sketchybar --animate sin 10 --set $NAME background.drawing=off\n        fi").click_script(
        click.as_str(),
    )
}

/// A divider: a thin drawn line between groups of entries.
pub fn divider(name: &str) -> (r: BarItem)
    ensures
        spec_divider(r, name@),
{
    let theme = catppuccin_mocha();
    BarItem::new(name).width(180).background_drawing(ToggleState::On).background_color(
        theme.surface1,
    ).background_height(1).padding_left(10).padding_right(10).icon_drawing(
        ToggleState::Off,
    ).label_drawing(ToggleState::Off)
}

/// The logo: the Apple glyph in regular 18 of the text color, no label, no
/// background; a click toggles the popup, which opens on the left, hidden at
/// first, blurred by 30, on a translucent base background with rounded
/// corners and a crust border.
pub open spec fn spec_logo_props(p: ItemProps) -> bool {
    let mocha = spec_catppuccin_mocha();
    let t = p.icon.props.unwrap();
    &&& p == (ItemProps {
        geometry: Geometry {
            position: Some(ComponentPosition::Left),
            background: Some(
                BackgroundProps { drawing: Some(ToggleState::Off), ..BackgroundProps::spec_empty() },
            ),
            ..Geometry::spec_empty()
        },
        icon: Icon {
            icon: p.icon.icon,
            props: Some(Text { color: Some(mocha.text), font: t.font, ..Text::spec_empty() }),
        },
        label: Label {
            label: None,
            props: Some(Text { drawing: Some(ToggleState::Off), ..Text::spec_empty() }),
        },
        scripting: Scripting { click_script: p.scripting.click_script, ..Scripting::spec_empty() },
        popup: Some(
            PopupProps {
                drawing: Some(ToggleState::Off),
                align: Some(PopupAlign::Left),
                blur_radius: Some(30),
                background: Some(
                    BackgroundProps {
                        color: Some(Argb { a: 178, r: mocha.base.r, g: mocha.base.g, b: mocha.base.b }),
                        corner_radius: Some(10),
                        border_width: Some(2),
                        border_color: Some(mocha.crust),
                        ..BackgroundProps::spec_empty()
                    },
                ),
                ..PopupProps::spec_empty()
            },
        ),
        ..ItemProps::spec_empty()
    })
    &&& (p.icon.icon matches Some(s) && s@ == "\u{f8ff}"@)
    &&& (t.font matches Some(f) && f.spec_text() == spec_nerd_font_text(FontStyle::Regular, "18"@))
    &&& (p.scripting.click_script matches Some(ScriptType::String(s)) && s@
        == "sketchybar --animate sin 15 --set $NAME popup.drawing=toggle"@)
}

/// The popup child is a menu entry.
pub open spec fn spec_entry_child(c: PopupChild, name: Seq<char>, label: Seq<char>, command: Seq<char>) -> bool {
    c matches PopupChild::Item(b) && spec_menu_entry(*b, name, label, command)
}

/// The popup child is a divider.
pub open spec fn spec_divider_child(c: PopupChild, name: Seq<char>) -> bool {
    c matches PopupChild::Item(b) && spec_divider(*b, name)
}

/// The Apple logo on the left; its popup lists the entries and dividers in
/// order, none of which has popup children of its own.
pub open spec fn spec_apple_item(item: BarItem) -> bool {
    let c = item.children@;
    &&& item.name@ == "apple.logo"@
    &&& spec_logo_props(item.props)
    &&& c.len() == 13
    &&& spec_entry_child(c[0], "apple.about"@, "About This Mac"@, "open x-apple.systempreferences:com.apple.SystemProfiler.AboutExtension"@)
    &&& spec_divider_child(c[1], "apple.div1"@)
    &&& spec_entry_child(c[2], "apple.settings"@, "System Settings..."@, "open -a 'System Settings'"@)
    &&& spec_entry_child(c[3], "apple.appstore"@, "App Store..."@, "open -a 'App Store'"@)
    &&& spec_divider_child(c[4], "apple.div2"@)
    &&& spec_entry_child(c[5], "apple.forcequit"@, "Force Quit..."@, "osascript -e 'tell application \"System Events\" to key code 53 using {command down, option down}'"@)
    &&& spec_divider_child(c[6], "apple.div3"@)
    &&& spec_entry_child(c[7], "apple.sleep"@, "Sleep"@, "pmset displaysleepnow"@)
    &&& spec_entry_child(c[8], "apple.restart"@, "Restart..."@, "osascript -e 'tell application \"System Events\" to restart'"@)
    &&& spec_entry_child(c[9], "apple.shutdown"@, "Shut Down..."@, "osascript -e 'tell application \"System Events\" to shut down'"@)
    &&& spec_divider_child(c[10], "apple.div4"@)
    &&& spec_entry_child(c[11], "apple.lock"@, "Lock Screen"@, "osascript -e 'tell application \"System Events\" to keystroke \"q\" using {control down, command down}'"@)
    &&& spec_entry_child(c[12], "apple.logout"@, "Log Out..."@, "osascript -e 'tell application \"System Events\" to log out'"@)
}

/// The command that subscribes a menu entry to the mouse entering and leaving it.
pub open spec fn spec_hover_subscription(name: Seq<char>) -> Seq<Seq<char>> {
    seq!["--subscribe"@, name, "mouse.entered"@, "mouse.exited"@, "mouse.exited.global"@]
}

fn hover_subscription(name: &str) -> (r: Vec<String>)
    ensures
        cmd_view(r) == spec_hover_subscription(name@),
{
    let mut ev: Vec<BarEvent> = Vec::new();
    ev.push(BarEvent::MouseEntered);
    ev.push(BarEvent::MouseExited);
    ev.push(BarEvent::MouseExitedGlobal);
    assert(spec_event_names(ev@) =~= seq!["mouse.entered"@, "mouse.exited"@, "mouse.exited.global"@]);
    let s = crate::api::subscribe(name, ev);
    assert(cmd_view(s) =~= spec_hover_subscription(name@));
    s
}

/// The Apple menu.
pub struct Apple;

impl Apple {
    /// The commands that add the logo with its menu, and subscribe each entry
    /// to the mouse entering and leaving it.
    pub fn setup() -> (r: Vec<Vec<String>>)
        ensures
            exists|item: BarItem|
                spec_apple_item(item) && cmds_view(r@) == spec_item_cmds(
                    item,
                    item.props.geometry.position,
                ) + seq![
                    seq!["--subscribe"@, "apple.about"@, "mouse.entered"@, "mouse.exited"@, "mouse.exited.global"@],
                    seq!["--subscribe"@, "apple.settings"@, "mouse.entered"@, "mouse.exited"@, "mouse.exited.global"@],
                    seq!["--subscribe"@, "apple.appstore"@, "mouse.entered"@, "mouse.exited"@, "mouse.exited.global"@],
                    seq!["--subscribe"@, "apple.forcequit"@, "mouse.entered"@, "mouse.exited"@, "mouse.exited.global"@],
                    seq!["--subscribe"@, "apple.sleep"@, "mouse.entered"@, "mouse.exited"@, "mouse.exited.global"@],
                    seq!["--subscribe"@, "apple.restart"@, "mouse.entered"@, "mouse.exited"@, "mouse.exited.global"@],
                    seq!["--subscribe"@, "apple.shutdown"@, "mouse.entered"@, "mouse.exited"@, "mouse.exited.global"@],
                    seq!["--subscribe"@, "apple.lock"@, "mouse.entered"@, "mouse.exited"@, "mouse.exited.global"@],
                    seq!["--subscribe"@, "apple.logout"@, "mouse.entered"@, "mouse.exited"@, "mouse.exited.global"@],
                ],
    {
        let theme = catppuccin_mocha();
        let logo = BarItem::new_with_pos("apple.logo", ComponentPosition::Left).icon("\u{f8ff}")
            .icon_color(theme.text).icon_font(nerd_font(FontStyle::Regular, "18")).background_drawing(
            ToggleState::Off,
        ).label_drawing(ToggleState::Off).click_script(
            "sketchybar --animate sin 15 --set $NAME popup.drawing=toggle",
        ).popup_drawing(ToggleState::Off).popup_align(PopupAlign::Left).popup_blur_radius(30)
            .popup_background_color(Argb { a: 178, r: theme.base.r, g: theme.base.g, b: theme.base.b })
            .popup_background_corner_radius(10).popup_background_border_width(2)
            .popup_background_border_color(theme.crust);
        let mut children: Vec<PopupChild> = Vec::new();
        children.push(PopupChild::Item(Box::new(menu_item("apple.about", "About This Mac", "open x-apple.systempreferences:com.apple.SystemProfiler.AboutExtension"))));
        children.push(PopupChild::Item(Box::new(divider("apple.div1"))));
        children.push(PopupChild::Item(Box::new(menu_item("apple.settings", "System Settings...", "open -a 'System Settings'"))));
        children.push(PopupChild::Item(Box::new(menu_item("apple.appstore", "App Store...", "open -a 'App Store'"))));
        children.push(PopupChild::Item(Box::new(divider("apple.div2"))));
        children.push(PopupChild::Item(Box::new(menu_item("apple.forcequit", "Force Quit...", "osascript -e 'tell application \"System Events\" to key code 53 using {command down, option down}'"))));
        children.push(PopupChild::Item(Box::new(divider("apple.div3"))));
        children.push(PopupChild::Item(Box::new(menu_item("apple.sleep", "Sleep", "pmset displaysleepnow"))));
        children.push(PopupChild::Item(Box::new(menu_item("apple.restart", "Restart...", "osascript -e 'tell application \"System Events\" to restart'"))));
        children.push(PopupChild::Item(Box::new(menu_item("apple.shutdown", "Shut Down...", "osascript -e 'tell application \"System Events\" to shut down'"))));
        children.push(PopupChild::Item(Box::new(divider("apple.div4"))));
        children.push(PopupChild::Item(Box::new(menu_item("apple.lock", "Lock Screen", "osascript -e 'tell application \"System Events\" to keystroke \"q\" using {control down, command down}'"))));
        children.push(PopupChild::Item(Box::new(menu_item("apple.logout", "Log Out...", "osascript -e 'tell application \"System Events\" to log out'"))));
        let item = logo.with_children(children);
        assert(spec_apple_item(item));
        let mut cmds = item.add();
        let ghost va = cmds_view(cmds@);
        let ghost mut subs: Seq<Seq<Seq<char>>> = Seq::empty();
        let s = hover_subscription("apple.about");
        proof {
            subs = subs.push(cmd_view(s));
        }
        cmds.push(s);
        let s = hover_subscription("apple.settings");
        proof {
            subs = subs.push(cmd_view(s));
        }
        cmds.push(s);
        let s = hover_subscription("apple.appstore");
        proof {
            subs = subs.push(cmd_view(s));
        }
        cmds.push(s);
        let s = hover_subscription("apple.forcequit");
        proof {
            subs = subs.push(cmd_view(s));
        }
        cmds.push(s);
        let s = hover_subscription("apple.sleep");
        proof {
            subs = subs.push(cmd_view(s));
        }
        cmds.push(s);
        let s = hover_subscription("apple.restart");
        proof {
            subs = subs.push(cmd_view(s));
        }
        cmds.push(s);
        let s = hover_subscription("apple.shutdown");
        proof {
            subs = subs.push(cmd_view(s));
        }
        cmds.push(s);
        let s = hover_subscription("apple.lock");
        proof {
            subs = subs.push(cmd_view(s));
        }
        cmds.push(s);
        let s = hover_subscription("apple.logout");
        proof {
            subs = subs.push(cmd_view(s));
        }
        cmds.push(s);
        assert(cmds_view(cmds@) =~= va + subs);
        cmds
    }
}

impl BarItem {
    /// Sets the blur radius behind the popup.
    pub fn popup_blur_radius(self, radius: u32) -> (r: Self)
        ensures
            r.name == self.name,
            r.children == self.children,
            r.props == (ItemProps {
                popup: Some(
                    PopupProps {
                        blur_radius: Some(radius),
                        ..crate::item::spec_or_empty_popup(self.props.popup)
                    },
                ),
                ..self.props
            }),
    {
        let BarItem { name, mut props, children } = self;
        let cur = match props.popup {
            Some(q) => q,
            None => PopupProps::default(),
        };
        props.popup = Some(PopupProps { blur_radius: Some(radius), ..cur });
        BarItem { name, props, children }
    }
}

} // verus!

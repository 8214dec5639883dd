use sketchybarrc::api::{
    add_bar, add_bracket, add_item, add_slider, add_space, add_special_item, animate_set_item,
    clone_item, remove_item, rename_item, set_args, set_default, set_item, set_texts, subscribe,
    trigger_evt, trigger_evt_with_data, update,
};
use sketchybarrc::bar::{Bar, DisplayMode, HiddenMode, TopmostMode};
use sketchybarrc::components::{Bracket, Space};
use sketchybarrc::event::BarEvent;
use sketchybarrc::item::{BarItem, ItemBuilder, PopupChild, Slider};
use sketchybarrc::props::BackgroundProps;
use sketchybarrc::types::{Argb, ComponentPosition, RelativePosition, ToSketchybarArgs};

fn words(v: &[&str]) -> Vec<String> {
    v.iter().map(|s| s.to_string()).collect()
}

#[test]
fn add_bar_lists_every_setting_in_order() {
    let cmd = add_bar(&Bar::new());
    assert_eq!(
        cmd,
        words(&[
            "--bar",
            "color=0x44000000",
            "border_color=0xffff0000",
            "position=top",
            "height=25",
            "notch_display_height=0",
            "margin=0",
            "y_offset=0",
            "corner_radius=0",
            "border_width=0",
            "blur_radius=0",
            "padding_left=0",
            "padding_right=0",
            "notch_width=200",
            "notch_offset=0",
            "display=all",
            "hidden=off",
            "topmost=off",
            "sticky=on",
            "font_smoothing=off",
            "shadow=off",
        ])
    );
}

#[test]
fn bar_modes_render() {
    let mut bar = Bar::new();
    bar.display = DisplayMode::IDs(vec![1, 2, 3]);
    bar.hidden = HiddenMode::Current;
    bar.topmost = TopmostMode::Window;
    bar.height = -3;
    let cmd = add_bar(&bar);
    assert!(cmd.contains(&"display=1,2,3".to_string()));
    assert!(cmd.contains(&"hidden=current".to_string()));
    assert!(cmd.contains(&"topmost=window".to_string()));
    assert!(cmd.contains(&"height=-3".to_string()));
}

#[test]
fn simple_commands() {
    assert_eq!(set_default(words(&["a=b", "c=d"])), words(&["--default", "a=b", "c=d"]));
    assert_eq!(set_args("x", words(&["k=v"])), words(&["--set", "x", "k=v"]));
    assert_eq!(rename_item("a", "b"), words(&["--rename", "a", "b"]));
    assert_eq!(remove_item("a"), words(&["--remove", "a"]));
    assert_eq!(update(), words(&["--update"]));
    assert_eq!(sketchybarrc::api::add_event("e"), words(&["--add", "event", "e"]));
    assert_eq!(trigger_evt(BarEvent::SpaceChange), words(&["--trigger", "space_change"]));
    assert_eq!(
        trigger_evt(BarEvent::Custom("workspace_change".to_string())),
        words(&["--trigger", "workspace_change"])
    );
    assert_eq!(trigger_evt_with_data("e", "d"), words(&["--trigger", "e", "INFO=d"]));
}

#[test]
fn clone_defaults_to_after() {
    assert_eq!(clone_item("a", "b", None), words(&["--clone", "a", "b", "after"]));
    assert_eq!(
        clone_item("a", "b", Some(RelativePosition::Before)),
        words(&["--clone", "a", "b", "before"])
    );
}

#[test]
fn subscribe_names_events_in_order() {
    let cmd = subscribe(
        "x",
        vec![BarEvent::MouseEntered, BarEvent::Custom("foo".to_string()), BarEvent::SystemWoke],
    );
    assert_eq!(cmd, words(&["--subscribe", "x", "mouse.entered", "foo", "system_woke"]));
}

#[test]
fn set_and_animate_item() {
    let item = BarItem::new("x").icon("I").label("L");
    assert_eq!(set_item("x", &item), words(&["--set", "x", "icon=I", "label=L"]));
    assert_eq!(
        animate_set_item("sin", 15, "x", &item),
        words(&["--animate", "sin", "15", "--set", "x", "icon=I", "label=L"])
    );
    assert_eq!(item.set(), words(&["--set", "x", "icon=I", "label=L"]));
    assert_eq!(set_texts("x", Some("I"), None), words(&["--set", "x", "icon=I"]));
    assert_eq!(set_texts("x", None, None), words(&["--set", "x"]));
}

#[test]
fn add_item_places_children_in_the_popup() {
    let item = BarItem::new("p")
        .icon("I")
        .add_item(BarItem::new("c").label("L"))
        .add_slider(Slider::new("s").percentage(5));
    let cmds = add_item(&item);
    assert_eq!(
        cmds,
        vec![
            words(&["--remove", "p"]),
            words(&["--add", "item", "p", "left", "--set", "p", "icon=I"]),
            words(&["--remove", "c"]),
            words(&["--add", "item", "c", "popup.p", "--set", "c", "position=popup.p", "label=L"]),
            words(&["--remove", "s"]),
            words(&["--add", "slider", "s", "popup.p", "--set", "s", "slider.percentage=5"]),
        ]
    );
}

#[test]
fn add_item_at_its_position() {
    let item = BarItem::new_with_pos("r", ComponentPosition::Right);
    assert_eq!(
        add_item(&item),
        vec![
            words(&["--remove", "r"]),
            words(&["--add", "item", "r", "right", "--set", "r", "position=right"]),
        ]
    );
}

#[test]
fn nested_popups_are_added_depth_first() {
    let item = BarItem::new("a").add_item(BarItem::new("b").add_item(BarItem::new("c")));
    let cmds = add_item(&item);
    let adds: Vec<String> = cmds.iter().filter(|c| c[0] == "--add").map(|c| c[3].clone()).collect();
    assert_eq!(adds, words(&["left", "popup.a", "popup.b"]));
}

#[test]
fn special_components() {
    let slider = Slider::new_with_pos("s", ComponentPosition::Right).slider_width(100);
    assert_eq!(
        add_slider(&slider),
        vec![
            words(&["--remove", "s"]),
            words(&["--add", "slider", "s", "right", "--set", "s", "slider.width=100"]),
        ]
    );
    let mut space = Space::new();
    space.name = "sp".to_string();
    space.space = Some(2);
    assert_eq!(
        add_space(&space),
        vec![
            words(&["--remove", "sp"]),
            words(&["--add", "space", "sp", "left", "--set", "sp", "space=2"]),
        ]
    );
    let item = BarItem::new("i");
    assert_eq!(
        add_special_item("item", "i", None, &item),
        vec![words(&["--remove", "i"]), words(&["--add", "item", "i", "--set", "i"])]
    );
}

#[test]
fn add_bracket_lists_members() {
    let mut b = Bracket::new(words(&["a", "b"]));
    b.name = "br".to_string();
    b.background = Some(BackgroundProps::default().color(Argb::from_u32(0xff313244)));
    assert_eq!(
        add_bracket(&b),
        vec![
            words(&["--remove", "br"]),
            words(&["--add", "bracket", "br", "a", "b", "--set", "br", "background.color=0xff313244"]),
        ]
    );
}

#[test]
fn item_args_are_prefixed() {
    let item = BarItem::new("x")
        .icon_props(|t| t.color(Argb::from_u32(0xff000001)))
        .label_props(|t| t.max_chars(3))
        .background(|b| b.height(20))
        .popup(|p| p.y_offset(9));
    let args: Vec<String> = item.to_sketchybar_args().iter().map(|p| p.render()).collect();
    assert_eq!(
        args,
        words(&[
            "background.height=20",
            "icon.color=0xff000001",
            "label.max_chars=3",
            "popup.y_offset=9",
        ])
    );
}

#[test]
fn popup_children_from_items_and_sliders() {
    let a: PopupChild = BarItem::new("parent.a").label("A").into();
    let b: PopupChild = Slider::new("parent.b").percentage(40).into();
    let parent = BarItem::new("parent").with_children(vec![a, b]);
    let cmds = add_item(&parent);
    assert_eq!(cmds[0], vec!["--remove", "parent"]);
    assert!(cmds.iter().any(|c| c.len() > 3 && c[..3] == ["--add", "item", "parent.a"] && c[3] == "popup.parent"));
    assert!(cmds.iter().any(|c| c.len() > 3 && c[..3] == ["--add", "slider", "parent.b"] && c[3] == "popup.parent"));
    assert!(cmds.iter().any(|c| c.contains(&"slider.percentage=40".to_string())));
    for (i, c) in cmds.iter().enumerate() {
        if c[0] == "--add" {
            assert_eq!(cmds[i - 1], vec!["--remove".to_string(), c[2].clone()]);
        }
    }
}

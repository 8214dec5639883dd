use sketchybarrc::text::dec_i64;
use sketchybarrc::event::BarEvent;
use sketchybarrc::props::{
    DisplayHandle, Icon, Label, PopupProperties, ShadowProperties, ShadowProps, UpdateMode,
};
use sketchybarrc::item_model::{BarItem as ModelItem, FontType, Geometry, Scripting, ARGB};
use sketchybarrc::themes::catppuccin_mocha;
use sketchybarrc::types::{
    Argb, ComponentPosition, Font, FontStyle, ItemPosition, PopupAlign, Property, TextAlignment,
    ToSketchybarArgs, ToggleState, WidthMode,
};

fn rendered<T: ToSketchybarArgs>(t: &T) -> Vec<String> {
    t.to_sketchybar_args().iter().map(|p| p.render()).collect()
}

#[test]
fn colors_from_hex_words() {
    let c = Argb::from_u32(0xff1e1e2e);
    assert_eq!((c.a, c.r, c.g, c.b), (0xff, 0x1e, 0x1e, 0x2e));
    assert_eq!(c.render(), "0xff1e1e2e");
    assert_eq!(Argb::transparent().render(), "0x00000000");
    assert_eq!(Argb::black().render(), "0xff000000");
    assert_eq!(Argb::new(1, 2, 3, 4).render(), "0x01020304");
}

#[test]
fn parse_colors() {
    let c = Argb::parse("0xfff5e0dc").unwrap();
    assert_eq!((c.a, c.r, c.g, c.b), (0xff, 0xf5, 0xe0, 0xdc));
    let c = Argb::parse("0xFFABCDEF").unwrap();
    assert_eq!((c.a, c.r, c.g, c.b), (0xff, 0xab, 0xcd, 0xef));
    assert_eq!(Argb::parse("ffabcdef00").unwrap_err(), "ARGB must start with 0x");
    assert_eq!(Argb::parse("0xzz000000").unwrap_err(), "invalid digit found in string");
    let c = Argb::parse("0x+f000000").unwrap();
    assert_eq!(c.a, 0x0f);
}

#[test]
fn parsing_a_rendered_color_gives_it_back() {
    for hex in [0u32, 0xffffffff, 0x12345678, 0xfab387ff, 0x00ff00ff] {
        let c = Argb::from_u32(hex);
        let back = Argb::parse(&c.render()).unwrap();
        assert_eq!(back, c);
    }
}

#[test]
fn theme_colors_match_their_hex_texts() {
    let t = catppuccin_mocha();
    assert_eq!(t.rosewater.render(), "0xfff5e0dc");
    assert_eq!(t.base.render(), "0xff1e1e2e");
    assert_eq!(t.surface1.render(), "0xff45475a");
    assert_eq!(t.mauve.render(), "0xffcba6f7");
    assert_eq!(t.transparent.render(), "0x00000000");
    assert_eq!(t.crust.render(), "0xff11111b");
}

#[test]
fn value_texts() {
    assert_eq!(Font::default().render(), "JetBrainsMono Nerd Font:Regular:14");
    assert_eq!(FontStyle::BoldItalic.render(), "BoldItalic");
    assert_eq!(ComponentPosition::Popup("x".to_string()).render(), "popup.x");
    assert_eq!(ComponentPosition::Center.render(), "center");
    assert_eq!(WidthMode::Value(5).render(), "5");
    assert_eq!(WidthMode::Dyanmic.render(), "dynamic");
    assert_eq!(ToggleState::Toggle.render(), "toggle");
    assert_eq!(TextAlignment::Right.render(), "right");
    assert_eq!(PopupAlign::Center.render(), "center");
    assert_eq!(ItemPosition::Q.render(), "q");
    assert_eq!(UpdateMode::default().render(), "on");
    assert_eq!(UpdateMode::WhenShown.render(), "when_shown");
    assert_eq!(DisplayHandle::default().render(), "0");
    assert_eq!(DisplayHandle::Id(vec![1, 22]).render(), "1,22");
    assert_eq!(DisplayHandle::Active.render(), "active");
    assert_eq!(Property::new("a", "b").render(), "a=b");
}

#[test]
fn shadow_settings() {
    let s = ShadowProps::default().drawing(ToggleState::On).color(Argb::black()).angle(30).distance(5);
    assert_eq!(
        rendered(&s),
        vec!["shadow.drawing=on", "shadow.color=0xff000000", "shadow.angle=30", "shadow.distance=5"]
    );
    assert_eq!(
        rendered(&ShadowProperties::default()),
        vec!["drawing=off", "color=0xff000000", "angle=30", "distance=5"]
    );
}

#[test]
fn event_names_round_trip() {
    let builtins = [
        BarEvent::Routine,
        BarEvent::Forced,
        BarEvent::MouseEntered,
        BarEvent::MouseExitedGlobal,
        BarEvent::MouseScrolledGlobal,
        BarEvent::FrontAppSwitched,
        BarEvent::SpaceWindowsChange,
        BarEvent::PowerSourceChange,
        BarEvent::SystemWoke,
    ];
    for e in builtins {
        assert_eq!(BarEvent::from(&e.name()), e);
    }
    assert_eq!(BarEvent::from("mouse.clicked"), BarEvent::MouseClicked);
    assert_eq!(BarEvent::from("aerospace_focus_changed").name(), "aerospace_focus_changed");
    assert_eq!(
        BarEvent::from_string("media_update".to_string()),
        BarEvent::Custom("media_update".to_string())
    );
}

#[test]
fn colors_as_backgrounds_and_text() {
    let c = Argb::from_u32(0xff89b4fa);
    assert_eq!(rendered(&c.into_background()), vec!["color=0xff89b4fa"]);
    assert_eq!(rendered(&c.into_text()), vec!["color=0xff89b4fa"]);
    assert!(rendered(&sketchybarrc::props::BackgroundProps::new()).is_empty());
}

#[test]
fn older_popup_settings() {
    let p = PopupProperties::default();
    assert_eq!(rendered(&p), vec!["popup.align=center"]);
    let p = PopupProperties {
        align: PopupAlign::Right,
        background: Some(Argb::black().into_background()),
        drawing: Some("toggle".to_string()),
        blur_radius: Some(20),
        horizontal: Some(true),
    };
    assert_eq!(
        rendered(&p),
        vec![
            "popup.align=right",
            "popup.drawing=toggle",
            "popup.blur_radius=20",
            "popup.horizontal=on",
            "popup.background.color=0xff000000",
        ]
    );
    assert!(rendered(&Icon::new()).is_empty());
    assert!(rendered(&Label::new()).is_empty());
    assert_eq!(rendered(&Geometry::new(ComponentPosition::Right)), vec!["position=right"]);
}

#[test]
fn item_model_geometry_and_scripting() {
    let g = Geometry {
        space: Some(0),
        display: Some(DisplayHandle::Id(vec![0])),
        y_offset: Some(-2),
        ..Geometry::default()
    };
    assert_eq!(rendered(&g), vec!["y_offset=-2"]);
    let g = Geometry { space: Some(3), display: Some(DisplayHandle::Id(vec![2, 1])), ..Geometry::default() };
    assert_eq!(rendered(&g), vec!["space=3", "display=2,1"]);
    let g = Geometry { display: Some(DisplayHandle::Active), ..Geometry::default() };
    assert_eq!(rendered(&g), vec!["display=active"]);
    let s = Scripting::new();
    assert_eq!(s.update_freq, 0);
    assert_eq!(s.updates, UpdateMode::Toggle(true));
    assert_eq!(rendered(&s), vec!["update_freq=0", "updates=on"]);
    let item = ModelItem::new("x".to_string(), ComponentPosition::Right);
    assert_eq!(item.add()[1], vec!["--add", "item", "x", "right", "--set", "x", "position=right", "update_freq=0", "updates=on"]);
    assert_eq!(ARGB::new(1, 2, 3, 4).render(), "0x01020304");
    assert_eq!(ARGB::default().render(), "0x00000000");
    assert_eq!(ARGB::parse("0xff000000").unwrap(), ARGB::new(0xff, 0, 0, 0));
    assert_eq!(FontType::BoldItalic.render(), "BoldItalic");
}

#[test]
fn colors_from_words_render_as_hex_words() {
    for h in [0u32, 0xffbac2de, 0x0a0b0c0d, 0xffffffff, 0x12345678] {
        let c = Argb::from_u32(h);
        assert_eq!(c.render(), format!("0x{:08x}", h));
        let back = Argb::parse(&c.render()).unwrap();
        assert_eq!((back.a, back.r, back.g, back.b), ((h >> 24) as u8, (h >> 16) as u8, (h >> 8) as u8, h as u8));
    }
}

#[test]
fn signed_decimals_include_the_smallest() {
    assert_eq!(dec_i64(i64::MIN), "-9223372036854775808");
    assert_eq!(dec_i64(-7), "-7");
    assert_eq!(dec_i64(0), "0");
}

//! The bar itself: its appearance and the settings sketchybar applies to it.

use vstd::prelude::*;
use crate::pieces::{dec_i32, dec_u32, then};
use crate::props::{join_dec, spec_join_dec};
use crate::text::{spec_dec, spec_dec_int, string_of};
use crate::types::{
    props_view, single, spec_argb_text, spec_bool_text, Argb, Property, PropView, SketchyBool,
    ToSketchybarArgs,
};

verus! {

/// Whether the bar sits at the top or at the bottom of the screen.
#[derive(Debug, Clone, Copy, PartialEq, Eq, Structural)]
pub enum BarPosition {
    Top,
    Bottom,
}

impl BarPosition {
    pub open spec fn spec_text(self) -> Seq<char> {
        match self {
            BarPosition::Top => "top"@,
            BarPosition::Bottom => "bottom"@,
        }
    }

    pub fn render(&self) -> (r: String)
        ensures
            r@ == self.spec_text(),
    {
        match self {
            BarPosition::Top => string_of("top"),
            BarPosition::Bottom => string_of("bottom"),
        }
    }
}

/// The displays the bar is drawn on.
#[derive(Debug, Clone, PartialEq, Eq)]
pub enum DisplayMode {
    Main,
    All,
    IDs(Vec<u32>),
}

impl DisplayMode {
    pub open spec fn spec_text(self) -> Seq<char> {
        match self {
            DisplayMode::Main => "main"@,
            DisplayMode::All => "all"@,
            DisplayMode::IDs(ids) => spec_join_dec(ids@),
        }
    }

    pub fn render(&self) -> (r: String)
        ensures
            r@ == self.spec_text(),
    {
        match self {
            DisplayMode::Main => string_of("main"),
            DisplayMode::All => string_of("all"),
            DisplayMode::IDs(ids) => join_dec(ids),
        }
    }
}

/// Whether the bar is hidden.
#[derive(Debug, Clone, Copy, PartialEq, Eq, Structural)]
pub enum HiddenMode {
    Toggle(bool),
    Current,
}

impl HiddenMode {
    pub open spec fn spec_text(self) -> Seq<char> {
        match self {
            HiddenMode::Toggle(b) => spec_bool_text(b),
            HiddenMode::Current => "current"@,
        }
    }

    pub fn render(&self) -> (r: String)
        ensures
            r@ == self.spec_text(),
    {
        match self {
            HiddenMode::Toggle(b) => b.to_on_off(),
            HiddenMode::Current => string_of("current"),
        }
    }
}

/// Whether the bar is drawn above windows.
#[derive(Debug, Clone, Copy, PartialEq, Eq, Structural)]
pub enum TopmostMode {
    Toggle(bool),
    Window,
}

impl TopmostMode {
    pub open spec fn spec_text(self) -> Seq<char> {
        match self {
            TopmostMode::Toggle(b) => spec_bool_text(b),
            TopmostMode::Window => "window"@,
        }
    }

    pub fn render(&self) -> (r: String)
        ensures
            r@ == self.spec_text(),
    {
        match self {
            TopmostMode::Toggle(b) => b.to_on_off(),
            TopmostMode::Window => string_of("window"),
        }
    }
}

/// The bar's appearance.
#[derive(Debug, Clone, PartialEq, Eq)]
pub struct Bar {
    /// Color of the bar
    pub color: Argb,
    /// Color of the bar's border
    pub border_color: Argb,
    pub position: BarPosition,
    pub height: i32,
    pub notch_display_height: i32,
    pub margin: i32,
    pub y_offset: i32,
    pub corner_radius: u32,
    pub border_width: u32,
    pub blur_radius: u32,
    pub padding_left: u32,
    pub padding_right: u32,
    pub notch_width: u32,
    pub notch_offset: u32,
    pub display: DisplayMode,
    pub hidden: HiddenMode,
    pub topmost: TopmostMode,
    pub sticky: bool,
    pub font_smoothing: bool,
    pub shadow: bool,
}

impl Bar {
    /// The settings of a bar created without any change.
    pub open spec fn spec_new() -> Bar {
        Bar {
            color: Argb { a: 68, r: 0, g: 0, b: 0 },
            border_color: Argb { a: 255, r: 255, g: 0, b: 0 },
            position: BarPosition::Top,
            height: 25,
            notch_display_height: 0,
            margin: 0,
            y_offset: 0,
            corner_radius: 0,
            border_width: 0,
            blur_radius: 0,
            padding_left: 0,
            padding_right: 0,
            notch_width: 200,
            notch_offset: 0,
            display: DisplayMode::All,
            hidden: HiddenMode::Toggle(false),
            topmost: TopmostMode::Toggle(false),
            sticky: true,
            font_smoothing: false,
            shadow: false,
        }
    }

    pub fn new() -> (r: Self)
        ensures
            r == Bar::spec_new(),
    {
        Bar {
            color: Argb { a: 68, r: 0, g: 0, b: 0 },
            border_color: Argb { a: 255, r: 255, g: 0, b: 0 },
            position: BarPosition::Top,
            height: 25,
            notch_display_height: 0,
            margin: 0,
            y_offset: 0,
            corner_radius: 0,
            border_width: 0,
            blur_radius: 0,
            padding_left: 0,
            padding_right: 0,
            notch_width: 200,
            notch_offset: 0,
            display: DisplayMode::All,
            hidden: HiddenMode::Toggle(false),
            topmost: TopmostMode::Toggle(false),
            sticky: true,
            font_smoothing: false,
            shadow: false,
        }
    }
}

impl Default for Bar {
    fn default() -> (r: Self)
        ensures
            r == Bar::spec_new(),
    {
        Bar::new()
    }
}

impl ToSketchybarArgs for Bar {
    open spec fn spec_args(&self) -> Seq<PropView> {
        seq![
            ("color"@, spec_argb_text(self.color)),
            ("border_color"@, spec_argb_text(self.border_color)),
            ("position"@, self.position.spec_text()),
            ("height"@, spec_dec_int(self.height as int)),
            ("notch_display_height"@, spec_dec_int(self.notch_display_height as int)),
            ("margin"@, spec_dec_int(self.margin as int)),
            ("y_offset"@, spec_dec_int(self.y_offset as int)),
            ("corner_radius"@, spec_dec(self.corner_radius as nat)),
            ("border_width"@, spec_dec(self.border_width as nat)),
            ("blur_radius"@, spec_dec(self.blur_radius as nat)),
            ("padding_left"@, spec_dec(self.padding_left as nat)),
            ("padding_right"@, spec_dec(self.padding_right as nat)),
            ("notch_width"@, spec_dec(self.notch_width as nat)),
            ("notch_offset"@, spec_dec(self.notch_offset as nat)),
            ("display"@, self.display.spec_text()),
            ("hidden"@, self.hidden.spec_text()),
            ("topmost"@, self.topmost.spec_text()),
            ("sticky"@, spec_bool_text(self.sticky)),
            ("font_smoothing"@, spec_bool_text(self.font_smoothing)),
            ("shadow"@, spec_bool_text(self.shadow)),
        ]
    }

    fn to_sketchybar_args(&self) -> (r: Vec<Property>) {
        let a = single("color", self.color.render());
        let a = then(a, single("border_color", self.border_color.render()));
        let a = then(a, single("position", self.position.render()));
        let a = then(a, single("height", dec_i32(self.height)));
        let a = then(a, single("notch_display_height", dec_i32(self.notch_display_height)));
        let a = then(a, single("margin", dec_i32(self.margin)));
        let a = then(a, single("y_offset", dec_i32(self.y_offset)));
        let a = then(a, single("corner_radius", dec_u32(self.corner_radius)));
        let a = then(a, single("border_width", dec_u32(self.border_width)));
        let a = then(a, single("blur_radius", dec_u32(self.blur_radius)));
        let a = then(a, single("padding_left", dec_u32(self.padding_left)));
        let a = then(a, single("padding_right", dec_u32(self.padding_right)));
        let a = then(a, single("notch_width", dec_u32(self.notch_width)));
        let a = then(a, single("notch_offset", dec_u32(self.notch_offset)));
        let a = then(a, single("display", self.display.render()));
        let a = then(a, single("hidden", self.hidden.render()));
        let a = then(a, single("topmost", self.topmost.render()));
        let a = then(a, single("sticky", self.sticky.to_on_off()));
        let a = then(a, single("font_smoothing", self.font_smoothing.to_on_off()));
        let r = then(a, single("shadow", self.shadow.to_on_off()));
        assert(props_view(r@) =~= self.spec_args());
        r
    }
}

} // verus!

//! The item model of the older item API: an item holds its geometry,
//! icon, label, scripting, text and popup as fields, settings are plain
//! values, and a new item starts from that model's defaults (scripts
//! updated, frequency 0). Its geometry leaves out the default space (0) and
//! a display list that starts with the default display (0).

use vstd::prelude::*;
use crate::api::{spec_special_cmds, cmds_view, add_special_item};
use crate::pieces::{
    opt_bool, opt_i32, opt_prefixed, opt_args, opt_string, opt_u32, spec_opt_args, spec_opt_bool,
    spec_opt_i32, spec_opt_prefixed, spec_opt_string, spec_opt_u32, then, none_args,
};
use crate::pieces::dec_u32;
use crate::props::{
    opt_display, opt_position, opt_script, opt_width, spec_opt_position, spec_opt_script,
    spec_opt_width, BackgroundProps, DisplayHandle, Icon, Label, PopupProperties, ScriptType, Text,
    UpdateMode, spec_join_dec,
};
use crate::text::{spec_dec, string_of};
use crate::types::{
    argb_parse_defined, props_view, single, spec_argb_text, spec_parse_argb, Argb,
    ComponentPosition, Property, PropView, ToSketchybarArgs, WidthMode,
};

verus! {

// ----- colors and font weights ----------------------------------------------------

/// A color with alpha, red, green and blue channels.
#[derive(Debug, Clone, Copy, PartialEq, Eq, Structural)]
pub struct ARGB {
    pub a: u8,
    pub r: u8,
    pub g: u8,
    pub b: u8,
}

impl ARGB {
    /// The same color as an `Argb`.
    pub open spec fn spec_argb(self) -> Argb {
        Argb { a: self.a, r: self.r, g: self.g, b: self.b }
    }

    pub fn new(a: u8, r: u8, g: u8, b: u8) -> (c: Self)
        ensures
            c.a == a && c.r == r && c.g == g && c.b == b,
    {
        ARGB { a, r, g, b }
    }

    /// `0xAARRGGBB` in lower-case hex.
    pub fn render(&self) -> (s: String)
        ensures
            s@ == spec_argb_text(self.spec_argb()),
    {
        Argb::new(self.a, self.r, self.g, self.b).render()
    }

    /// Parses `0xAARRGGBB`.
    pub fn parse(s: &str) -> (r: Result<ARGB, String>)
        requires
            argb_parse_defined(s@),
        ensures
            match spec_parse_argb(s@) {
                Ok((a, rr, g, b)) => r == Ok::<ARGB, String>(ARGB { a, r: rr, g, b }),
                Err(e) => r matches Err(m) && m@ == e,
            },
    {
        match Argb::parse(s) {
            Ok(c) => Ok(ARGB { a: c.a, r: c.r, g: c.g, b: c.b }),
            Err(e) => Err(e),
        }
    }
}

impl Default for ARGB {
    fn default() -> (c: Self)
        ensures
            c.a == 0 && c.r == 0 && c.g == 0 && c.b == 0,
    {
        ARGB::new(0, 0, 0, 0)
    }
}

/// A font's weight and slant.
#[derive(Debug, Clone, Copy, PartialEq, Eq, Structural)]
pub enum FontType {
    Regular,
    Bold,
    Italic,
    BoldItalic,
}

impl FontType {
    pub open spec fn spec_text(self) -> Seq<char> {
        match self {
            FontType::Regular => "Regular"@,
            FontType::Bold => "Bold"@,
            FontType::Italic => "Italic"@,
            FontType::BoldItalic => "BoldItalic"@,
        }
    }

    pub fn render(&self) -> (r: String)
        ensures
            r@ == self.spec_text(),
    {
        match self {
            FontType::Regular => string_of("Regular"),
            FontType::Bold => string_of("Bold"),
            FontType::Italic => string_of("Italic"),
            FontType::BoldItalic => string_of("BoldItalic"),
        }
    }
}

// ----- geometry -------------------------------------------------------------------

/// Where and how an item is drawn.
#[derive(Debug, Clone, PartialEq, Eq)]
pub struct Geometry {
    pub drawing: Option<bool>,
    pub position: Option<ComponentPosition>,
    pub space: Option<u32>,
    pub display: Option<DisplayHandle>,
    pub ignore_association: Option<bool>,
    pub y_offset: Option<i32>,
    pub padding_left: Option<i32>,
    pub padding_right: Option<i32>,
    pub width: Option<WidthMode>,
    pub scroll_texts: Option<bool>,
    pub blur_radius: Option<u32>,
    pub background: Option<BackgroundProps>,
}

/// The space, unless it is the default space 0.
pub open spec fn spec_shown_space(v: Option<u32>) -> Seq<PropView> {
    match v {
        Some(s) => if s != 0 {
            seq![("space"@, spec_dec(s as nat))]
        } else {
            seq![]
        },
        None => seq![],
    }
}

/// The displays, unless the list is empty or starts with the default display 0.
pub open spec fn spec_shown_display(v: Option<DisplayHandle>) -> Seq<PropView> {
    match v {
        Some(DisplayHandle::Id(ids)) => if ids@.len() > 0 && ids@[0] != 0 {
            seq![("display"@, spec_join_dec(ids@))]
        } else {
            seq![]
        },
        Some(DisplayHandle::Active) => seq![("display"@, "active"@)],
        None => seq![],
    }
}

fn shown_space(v: Option<u32>) -> (r: Vec<Property>)
    ensures
        props_view(r@) == spec_shown_space(v),
{
    match v {
        Some(s) => if s != 0 {
            single("space", dec_u32(s))
        } else {
            none_args()
        },
        None => none_args(),
    }
}

fn shown_display(v: &Option<DisplayHandle>) -> (r: Vec<Property>)
    ensures
        props_view(r@) == spec_shown_display(*v),
{
    match v {
        Some(DisplayHandle::Id(ids)) => if ids.len() > 0 && ids[0] != 0 {
            opt_display("display", v)
        } else {
            none_args()
        },
        Some(DisplayHandle::Active) => opt_display("display", v),
        None => none_args(),
    }
}

impl Geometry {
    pub open spec fn spec_empty() -> Self {
        Geometry {
            drawing: None,
            position: None,
            space: None,
            display: None,
            ignore_association: None,
            y_offset: None,
            padding_left: None,
            padding_right: None,
            width: None,
            scroll_texts: None,
            blur_radius: None,
            background: None,
        }
    }

    /// A geometry that only places the item at `position`.
    pub fn new(position: ComponentPosition) -> (r: Self)
        ensures
            r == (Geometry { position: Some(position), ..Geometry::spec_empty() }),
    {
        Geometry { position: Some(position), ..Geometry::default() }
    }
}

impl Default for Geometry {
    fn default() -> (r: Self)
        ensures
            r == Geometry::spec_empty(),
    {
        Geometry {
            drawing: None,
            position: None,
            space: None,
            display: None,
            ignore_association: None,
            y_offset: None,
            padding_left: None,
            padding_right: None,
            width: None,
            scroll_texts: None,
            blur_radius: None,
            background: None,
        }
    }
}

impl ToSketchybarArgs for Geometry {
    open spec fn spec_args(&self) -> Seq<PropView> {
        spec_opt_bool("drawing"@, self.drawing) + spec_opt_position("position"@, self.position)
            + spec_opt_bool("ignore_association"@, self.ignore_association) + spec_opt_i32(
            "y_offset"@,
            self.y_offset,
        ) + spec_opt_i32("padding_left"@, self.padding_left) + spec_opt_i32(
            "padding_right"@,
            self.padding_right,
        ) + spec_opt_width("width"@, self.width) + spec_opt_bool("scroll_texts"@, self.scroll_texts)
            + spec_opt_u32("blur_radius"@, self.blur_radius) + spec_shown_space(self.space)
            + spec_shown_display(self.display) + spec_opt_prefixed("background."@, self.background)
    }

    fn to_sketchybar_args(&self) -> (r: Vec<Property>) {
        let a = opt_bool("drawing", self.drawing);
        let a = then(a, opt_position("position", &self.position));
        let a = then(a, opt_bool("ignore_association", self.ignore_association));
        let a = then(a, opt_i32("y_offset", self.y_offset));
        let a = then(a, opt_i32("padding_left", self.padding_left));
        let a = then(a, opt_i32("padding_right", self.padding_right));
        let a = then(a, opt_width("width", self.width));
        let a = then(a, opt_bool("scroll_texts", self.scroll_texts));
        let a = then(a, opt_u32("blur_radius", self.blur_radius));
        let a = then(a, shown_space(self.space));
        let a = then(a, shown_display(&self.display));
        then(a, opt_prefixed("background.", &self.background))
    }
}

// ----- scripting ------------------------------------------------------------------

/// The scripts of an item; the update frequency and mode are always given.
#[derive(Debug, Clone, PartialEq, Eq)]
pub struct Scripting {
    pub script: Option<ScriptType>,
    pub click_script: Option<ScriptType>,
    pub update_freq: u32,
    pub updates: UpdateMode,
    pub mach_helper: Option<String>,
}

impl Scripting {
    /// No scripts, frequency 0, updates on.
    pub open spec fn spec_new() -> Self {
        Scripting {
            script: None,
            click_script: None,
            update_freq: 0,
            updates: UpdateMode::Toggle(true),
            mach_helper: None,
        }
    }

    pub fn new() -> (r: Self)
        ensures
            r == Scripting::spec_new(),
    {
        Scripting {
            script: None,
            click_script: None,
            update_freq: 0,
            updates: UpdateMode::Toggle(true),
            mach_helper: None,
        }
    }
}

impl Default for Scripting {
    fn default() -> (r: Self)
        ensures
            r == Scripting::spec_new(),
    {
        Scripting::new()
    }
}

impl ToSketchybarArgs for Scripting {
    open spec fn spec_args(&self) -> Seq<PropView> {
        seq![("update_freq"@, spec_dec(self.update_freq as nat)), ("updates"@, self.updates.spec_text())]
            + spec_opt_script("script"@, self.script) + spec_opt_script(
            "click_script"@,
            self.click_script,
        ) + spec_opt_string("mach_helper"@, self.mach_helper)
    }

    fn to_sketchybar_args(&self) -> (r: Vec<Property>) {
        let a = single("update_freq", dec_u32(self.update_freq));
        let a = then(a, single("updates", self.updates.render()));
        let a = then(a, opt_script("script", &self.script));
        let a = then(a, opt_script("click_script", &self.click_script));
        then(a, opt_string("mach_helper", &self.mach_helper))
    }
}

// ----- items ----------------------------------------------------------------------

/// A named item with each group of settings as a field.
#[derive(Debug, Clone, PartialEq, Eq)]
pub struct BarItem {
    pub name: String,
    pub geometry: Geometry,
    pub icon: Icon,
    pub label: Label,
    pub scripting: Scripting,
    pub text: Option<Text>,
    pub popup: Option<PopupProperties>,
}

impl BarItem {
    /// An item named `name` at `position`, with the model's defaults.
    pub fn new(name: String, position: ComponentPosition) -> (r: Self)
        ensures
            r.name == name,
            r.geometry == (Geometry { position: Some(position), ..Geometry::spec_empty() }),
            r.icon == Icon::spec_empty(),
            r.label == Label::spec_empty(),
            r.scripting == Scripting::spec_new(),
            r.text is None,
            r.popup is None,
    {
        BarItem {
            name,
            geometry: Geometry::new(position),
            icon: Icon::new(),
            label: Label::new(),
            scripting: Scripting::new(),
            text: None,
            popup: None,
        }
    }

    /// The position the item is added at: its own, else the left.
    pub open spec fn spec_add_position(self) -> ComponentPosition {
        match self.geometry.position {
            Some(p) => p,
            None => ComponentPosition::Left,
        }
    }

    /// Adds the item at its position, replacing any item of its name.
    pub fn add(&self) -> (r: Vec<Vec<String>>)
        ensures
            cmds_view(r@) == spec_special_cmds(
                "item"@,
                self.name@,
                Some(self.spec_add_position().spec_text()),
                self.spec_args(),
            ),
    {
        let pos = match &self.geometry.position {
            Some(p) => p.duplicate(),
            None => ComponentPosition::Left,
        };
        add_special_item("item", self.name.as_str(), Some(pos), self)
    }
}

impl ToSketchybarArgs for BarItem {
    open spec fn spec_args(&self) -> Seq<PropView> {
        self.geometry.spec_args() + self.icon.spec_args() + self.label.spec_args()
            + self.scripting.spec_args() + spec_opt_args(self.text) + spec_opt_args(self.popup)
    }

    fn to_sketchybar_args(&self) -> (r: Vec<Property>) {
        let a = self.geometry.to_sketchybar_args();
        let a = then(a, self.icon.to_sketchybar_args());
        let a = then(a, self.label.to_sketchybar_args());
        let a = then(a, self.scripting.to_sketchybar_args());
        let a = then(a, opt_args(&self.text));
        then(a, opt_args(&self.popup))
    }
}

} // verus!

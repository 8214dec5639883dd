//! Items and sliders, their popup children, and the builder methods that
//! set their properties.

use vstd::prelude::*;
use crate::pieces::{none_args, opt_argb, opt_prefixed, opt_string, opt_u32, opt_args, spec_opt_argb,
    spec_opt_args, spec_opt_prefixed, spec_opt_string, spec_opt_u32, then, dec_u32};
use crate::props::{
    BackgroundProps, Geometry, ItemProps, PopupProps, ScriptType, Text, UpdateMode,
};
use crate::text::string_of;
use crate::types::{
    props_view, Argb, ComponentPosition, Property, PropView, ToSketchybarArgs, ToggleState,
    WidthMode,
};

verus! {

/// An entry shown in an item's popup.
#[derive(Debug)]
pub enum PopupChild {
    Item(Box<BarItem>),
    Slider(Box<Slider>),
}

impl From<BarItem> for PopupChild {
    fn from(item: BarItem) -> (r: Self) {
        PopupChild::Item(Box::new(item))
    }
}

impl vstd::std_specs::convert::FromSpecImpl<BarItem> for PopupChild {
    open spec fn obeys_from_spec() -> bool {
        true
    }

    open spec fn from_spec(item: BarItem) -> Self {
        PopupChild::Item(Box::new(item))
    }
}

impl From<Slider> for PopupChild {
    fn from(slider: Slider) -> (r: Self) {
        PopupChild::Slider(Box::new(slider))
    }
}

impl vstd::std_specs::convert::FromSpecImpl<Slider> for PopupChild {
    open spec fn obeys_from_spec() -> bool {
        true
    }

    open spec fn from_spec(slider: Slider) -> Self {
        PopupChild::Slider(Box::new(slider))
    }
}

/// A named bar item with its properties and popup children.
#[derive(Debug)]
pub struct BarItem {
    pub name: String,
    pub props: ItemProps,
    pub children: Vec<PopupChild>,
}

impl BarItem {
    pub fn new(name: &str) -> (r: Self)
        ensures
            r.name@ == name@,
            r.props == ItemProps::spec_empty(),
            r.children@ == Seq::<PopupChild>::empty(),
    {
        BarItem { name: string_of(name), props: ItemProps::default(), children: Vec::new() }
    }

    pub fn new_with_pos(name: &str, position: ComponentPosition) -> (r: Self)
        ensures
            r.name@ == name@,
            r.props == (ItemProps {
                geometry: Geometry { position: Some(position), ..Geometry::spec_empty() },
                ..ItemProps::spec_empty()
            }),
            r.children@ == Seq::<PopupChild>::empty(),
    {
        let mut props = ItemProps::default();
        props.geometry.position = Some(position);
        BarItem { name: string_of(name), props, children: Vec::new() }
    }

    /// Appends popup children.
    pub fn with_children(self, children: Vec<PopupChild>) -> (r: Self)
        ensures
            r.name == self.name,
            r.props == self.props,
            r.children@ == self.children@ + children@,
    {
        let mut me = self;
        let mut c = children;
        me.children.append(&mut c);
        me
    }

    /// Appends an item to the popup.
    pub fn add_item(self, item: BarItem) -> (r: Self)
        ensures
            r.name == self.name,
            r.props == self.props,
            r.children@ == self.children@.push(PopupChild::Item(Box::new(item))),
    {
        let mut me = self;
        me.children.push(PopupChild::Item(Box::new(item)));
        me
    }

    /// Appends a slider to the popup.
    pub fn add_slider(self, slider: Slider) -> (r: Self)
        ensures
            r.name == self.name,
            r.props == self.props,
            r.children@ == self.children@.push(PopupChild::Slider(Box::new(slider))),
    {
        let mut me = self;
        me.children.push(PopupChild::Slider(Box::new(slider)));
        me
    }

    /// Appends a popup child.
    pub fn add_child(self, child: PopupChild) -> (r: Self)
        ensures
            r.name == self.name,
            r.props == self.props,
            r.children@ == self.children@.push(child),
    {
        let mut me = self;
        me.children.push(child);
        me
    }
}

impl ToSketchybarArgs for BarItem {
    open spec fn spec_args(&self) -> Seq<PropView> {
        self.props.spec_args()
    }

    fn to_sketchybar_args(&self) -> (r: Vec<Property>) {
        self.props.to_sketchybar_args()
    }
}

/// A slider component.
#[derive(Debug, Clone, PartialEq, Eq)]
pub struct Slider {
    pub name: String,
    pub position: ComponentPosition,
    pub width: Option<u32>,
    pub percentage: Option<u32>,
    pub highlight_color: Option<Argb>,
    pub knob: Option<String>,
    pub knob_props: Option<Text>,
    pub background: Option<BackgroundProps>,
    pub item: Option<ItemProps>,
}

impl Slider {
    pub fn new(name: &str) -> (r: Self)
        ensures
            r.name@ == name@,
            r.position == ComponentPosition::Left,
            r.width is None && r.percentage is None && r.highlight_color is None,
            r.knob is None && r.knob_props is None && r.background is None && r.item is None,
    {
        Slider::new_with_pos(name, ComponentPosition::Left)
    }

    pub fn new_with_pos(name: &str, position: ComponentPosition) -> (r: Self)
        ensures
            r.name@ == name@,
            r.position == position,
            r.width is None && r.percentage is None && r.highlight_color is None,
            r.knob is None && r.knob_props is None && r.background is None && r.item is None,
    {
        Slider {
            name: string_of(name),
            position,
            width: None,
            percentage: None,
            highlight_color: None,
            knob: None,
            knob_props: None,
            background: None,
            item: None,
        }
    }

    pub fn slider_width(self, width: u32) -> (r: Self)
        ensures
            r == (Slider { width: Some(width), ..self }),
    {
        Slider { width: Some(width), ..self }
    }

    pub fn percentage(self, percentage: u32) -> (r: Self)
        ensures
            r == (Slider { percentage: Some(percentage), ..self }),
    {
        Slider { percentage: Some(percentage), ..self }
    }

    pub fn knob(self, knob: &str) -> (r: Self)
        ensures
            r == (Slider { knob: r.knob, ..self }),
            r.knob matches Some(k) && k@ == knob@,
    {
        Slider { knob: Some(string_of(knob)), ..self }
    }

    pub fn highlight_color(self, color: Argb) -> (r: Self)
        ensures
            r == (Slider { highlight_color: Some(color), ..self }),
    {
        Slider { highlight_color: Some(color), ..self }
    }

    /// Replaces the knob's text settings by `f` applied to the current ones.
    pub fn knob_props<F: FnOnce(Text) -> Text>(self, f: F) -> (r: Self)
        requires
            call_requires(f, (spec_or_empty_text(self.knob_props),)),
        ensures
            r == (Slider { knob_props: r.knob_props, ..self }),
            r.knob_props matches Some(t) && call_ensures(f, (spec_or_empty_text(self.knob_props),), t),
    {
        let cur = match self.knob_props {
            Some(t) => t,
            None => Text::default(),
        };
        Slider { knob_props: Some(f(cur)), ..self }
    }

    /// Replaces the slider's background by `f` applied to the current one.
    pub fn slider_background<F: FnOnce(BackgroundProps) -> BackgroundProps>(self, f: F) -> (r: Self)
        requires
            call_requires(f, (crate::props::spec_or_empty_background(self.background),)),
        ensures
            r == (Slider { background: r.background, ..self }),
            r.background matches Some(b) && call_ensures(
                f,
                (crate::props::spec_or_empty_background(self.background),),
                b,
            ),
    {
        let cur = match self.background {
            Some(b) => b,
            None => BackgroundProps::default(),
        };
        Slider { background: Some(f(cur)), ..self }
    }
}

/// The text settings that are set, or empty ones.
pub open spec fn spec_or_empty_text(v: Option<Text>) -> Text {
    match v {
        Some(t) => t,
        None => Text::spec_empty(),
    }
}

/// The item properties that are set, or empty ones.
pub open spec fn spec_or_empty_props(v: Option<ItemProps>) -> ItemProps {
    match v {
        Some(p) => p,
        None => ItemProps::spec_empty(),
    }
}

impl ToSketchybarArgs for Slider {
    open spec fn spec_args(&self) -> Seq<PropView> {
        spec_opt_u32("slider.width"@, self.width) + spec_opt_u32(
            "slider.percentage"@,
            self.percentage,
        ) + spec_opt_argb("slider.highlight_color"@, self.highlight_color) + spec_opt_string(
            "slider.knob"@,
            self.knob,
        ) + spec_opt_prefixed("slider.knob."@, self.knob_props) + spec_opt_prefixed(
            "slider.background."@,
            self.background,
        ) + spec_opt_args(self.item)
    }

    fn to_sketchybar_args(&self) -> (r: Vec<Property>) {
        let a = opt_u32("slider.width", self.width);
        let a = then(a, opt_u32("slider.percentage", self.percentage));
        let a = then(a, opt_argb("slider.highlight_color", self.highlight_color));
        let a = then(a, opt_string("slider.knob", &self.knob));
        let a = then(a, opt_prefixed("slider.knob.", &self.knob_props));
        let a = then(a, opt_prefixed("slider.background.", &self.background));
        then(a, opt_args(&self.item))
    }
}


/// Setting item properties on values that carry them (items and sliders).
pub trait ItemBuilder: Sized {
    /// The item properties this value carries.
    spec fn spec_props(&self) -> ItemProps;

    /// `self` and `other` agree on everything but their item properties.
    spec fn spec_same_besides_props(&self, other: &Self) -> bool;

    proof fn lemma_same_besides_props_trans(a: Self, b: Self, c: Self)
        requires
            a.spec_same_besides_props(&b),
            b.spec_same_besides_props(&c),
        ensures
            a.spec_same_besides_props(&c),
    ;

    /// Moves the item properties out, leaving empty ones.
    fn take_props(self) -> (r: (Self, ItemProps))
        ensures
            r.1 == self.spec_props(),
            r.0.spec_same_besides_props(&self),
    ;

    /// Replaces the item properties.
    fn put_props(self, props: ItemProps) -> (r: Self)
        ensures
            r.spec_props() == props,
            r.spec_same_besides_props(&self),
    ;

    /// Applies `f` when `condition` holds.
    fn apply_if<F: FnOnce(Self) -> Self>(self, condition: bool, f: F) -> (r: Self)
        requires
            condition ==> call_requires(f, (self,)),
        ensures
            condition ==> call_ensures(f, (self,), r),
            !condition ==> r == self,
    {
        if condition {
            f(self)
        } else {
            self
        }
    }

    /// Replaces the geometry by `f` applied to it.
    fn geometry<F: FnOnce(Geometry) -> Geometry>(self, f: F) -> (r: Self)
        requires
            call_requires(f, (self.spec_props().geometry,)),
        ensures
            r.spec_same_besides_props(&self),
            call_ensures(f, (self.spec_props().geometry,), r.spec_props().geometry),
            r.spec_props() == (ItemProps { geometry: r.spec_props().geometry, ..self.spec_props() }),
    {
        let (me, mut p) = self.take_props();
        p.geometry = f(p.geometry);
        let r = me.put_props(p);
        proof {
            Self::lemma_same_besides_props_trans(r, me, self);
        }
        r
    }

    fn position(self, position: ComponentPosition) -> (r: Self)
        ensures
            r.spec_same_besides_props(&self),
            r.spec_props() == (ItemProps {
                geometry: Geometry { position: Some(position), ..self.spec_props().geometry },
                ..self.spec_props()
            }),
    {
        let (me, mut p) = self.take_props();
        p.geometry.position = Some(position);
        let r = me.put_props(p);
        proof {
            Self::lemma_same_besides_props_trans(r, me, self);
        }
        r
    }

    fn drawing(self, drawing: ToggleState) -> (r: Self)
        ensures
            r.spec_same_besides_props(&self),
            r.spec_props() == (ItemProps {
                geometry: Geometry { drawing: Some(drawing), ..self.spec_props().geometry },
                ..self.spec_props()
            }),
    {
        let (me, mut p) = self.take_props();
        p.geometry.drawing = Some(drawing);
        let r = me.put_props(p);
        proof {
            Self::lemma_same_besides_props_trans(r, me, self);
        }
        r
    }

    /// A fixed width in points.
    fn width(self, width: u32) -> (r: Self)
        ensures
            r.spec_same_besides_props(&self),
            r.spec_props() == (ItemProps {
                geometry: Geometry {
                    width: Some(WidthMode::Value(width)),
                    ..self.spec_props().geometry
                },
                ..self.spec_props()
            }),
    {
        let (me, mut p) = self.take_props();
        p.geometry.width = Some(WidthMode::Value(width));
        let r = me.put_props(p);
        proof {
            Self::lemma_same_besides_props_trans(r, me, self);
        }
        r
    }

    fn y_offset(self, offset: i32) -> (r: Self)
        ensures
            r.spec_same_besides_props(&self),
            r.spec_props() == (ItemProps {
                geometry: Geometry { y_offset: Some(offset), ..self.spec_props().geometry },
                ..self.spec_props()
            }),
    {
        let (me, mut p) = self.take_props();
        p.geometry.y_offset = Some(offset);
        let r = me.put_props(p);
        proof {
            Self::lemma_same_besides_props_trans(r, me, self);
        }
        r
    }

    fn padding_left(self, padding: u32) -> (r: Self)
        ensures
            r.spec_same_besides_props(&self),
            r.spec_props() == (ItemProps {
                geometry: Geometry { padding_left: Some(padding), ..self.spec_props().geometry },
                ..self.spec_props()
            }),
    {
        let (me, mut p) = self.take_props();
        p.geometry.padding_left = Some(padding);
        let r = me.put_props(p);
        proof {
            Self::lemma_same_besides_props_trans(r, me, self);
        }
        r
    }

    fn padding_right(self, padding: u32) -> (r: Self)
        ensures
            r.spec_same_besides_props(&self),
            r.spec_props() == (ItemProps {
                geometry: Geometry { padding_right: Some(padding), ..self.spec_props().geometry },
                ..self.spec_props()
            }),
    {
        let (me, mut p) = self.take_props();
        p.geometry.padding_right = Some(padding);
        let r = me.put_props(p);
        proof {
            Self::lemma_same_besides_props_trans(r, me, self);
        }
        r
    }

    fn scroll_texts(self, scroll: ToggleState) -> (r: Self)
        ensures
            r.spec_same_besides_props(&self),
            r.spec_props() == (ItemProps {
                geometry: Geometry { scroll_texts: Some(scroll), ..self.spec_props().geometry },
                ..self.spec_props()
            }),
    {
        let (me, mut p) = self.take_props();
        p.geometry.scroll_texts = Some(scroll);
        let r = me.put_props(p);
        proof {
            Self::lemma_same_besides_props_trans(r, me, self);
        }
        r
    }

    fn icon(self, icon: &str) -> (r: Self)
        ensures
            r.spec_same_besides_props(&self),
            r.spec_props() == (ItemProps {
                icon: crate::props::Icon { icon: r.spec_props().icon.icon, ..self.spec_props().icon },
                ..self.spec_props()
            }),
            r.spec_props().icon.icon matches Some(s) && s@ == icon@,
    {
        let (me, mut p) = self.take_props();
        p.icon.icon = Some(string_of(icon));
        let r = me.put_props(p);
        proof {
            Self::lemma_same_besides_props_trans(r, me, self);
        }
        r
    }

    /// Replaces the icon's text settings by `f` applied to the current ones.
    fn icon_props<F: FnOnce(Text) -> Text>(self, f: F) -> (r: Self)
        requires
            call_requires(f, (spec_or_empty_text(self.spec_props().icon.props),)),
        ensures
            r.spec_same_besides_props(&self),
            r.spec_props() == (ItemProps {
                icon: crate::props::Icon { props: r.spec_props().icon.props, ..self.spec_props().icon },
                ..self.spec_props()
            }),
            r.spec_props().icon.props matches Some(t) && call_ensures(
                f,
                (spec_or_empty_text(self.spec_props().icon.props),),
                t,
            ),
    {
        let (me, mut p) = self.take_props();
        let cur = match p.icon.props {
            Some(t) => t,
            None => Text::default(),
        };
        p.icon.props = Some(f(cur));
        let r = me.put_props(p);
        proof {
            Self::lemma_same_besides_props_trans(r, me, self);
        }
        r
    }

    fn label(self, label: &str) -> (r: Self)
        ensures
            r.spec_same_besides_props(&self),
            r.spec_props() == (ItemProps {
                label: crate::props::Label { label: r.spec_props().label.label, ..self.spec_props().label },
                ..self.spec_props()
            }),
            r.spec_props().label.label matches Some(s) && s@ == label@,
    {
        let (me, mut p) = self.take_props();
        p.label.label = Some(string_of(label));
        let r = me.put_props(p);
        proof {
            Self::lemma_same_besides_props_trans(r, me, self);
        }
        r
    }

    /// Replaces the label's text settings by `f` applied to the current ones.
    fn label_props<F: FnOnce(Text) -> Text>(self, f: F) -> (r: Self)
        requires
            call_requires(f, (spec_or_empty_text(self.spec_props().label.props),)),
        ensures
            r.spec_same_besides_props(&self),
            r.spec_props() == (ItemProps {
                label: crate::props::Label { props: r.spec_props().label.props, ..self.spec_props().label },
                ..self.spec_props()
            }),
            r.spec_props().label.props matches Some(t) && call_ensures(
                f,
                (spec_or_empty_text(self.spec_props().label.props),),
                t,
            ),
    {
        let (me, mut p) = self.take_props();
        let cur = match p.label.props {
            Some(t) => t,
            None => Text::default(),
        };
        p.label.props = Some(f(cur));
        let r = me.put_props(p);
        proof {
            Self::lemma_same_besides_props_trans(r, me, self);
        }
        r
    }

    /// An inline shell script run on the item's events.
    fn script(self, script: &str) -> (r: Self)
        ensures
            r.spec_same_besides_props(&self),
            r.spec_props() == (ItemProps {
                scripting: crate::props::Scripting {
                    script: r.spec_props().scripting.script,
                    ..self.spec_props().scripting
                },
                ..self.spec_props()
            }),
            r.spec_props().scripting.script matches Some(ScriptType::String(s)) && s@ == script@,
    {
        let (me, mut p) = self.take_props();
        p.scripting.script = Some(ScriptType::String(string_of(script)));
        let r = me.put_props(p);
        proof {
            Self::lemma_same_besides_props_trans(r, me, self);
        }
        r
    }

    /// An inline shell script run when the item is clicked.
    fn click_script(self, script: &str) -> (r: Self)
        ensures
            r.spec_same_besides_props(&self),
            r.spec_props() == (ItemProps {
                scripting: crate::props::Scripting {
                    click_script: r.spec_props().scripting.click_script,
                    ..self.spec_props().scripting
                },
                ..self.spec_props()
            }),
            r.spec_props().scripting.click_script matches Some(ScriptType::String(s)) && s@
                == script@,
    {
        let (me, mut p) = self.take_props();
        p.scripting.click_script = Some(ScriptType::String(string_of(script)));
        let r = me.put_props(p);
        proof {
            Self::lemma_same_besides_props_trans(r, me, self);
        }
        r
    }

    fn update_freq(self, freq: u32) -> (r: Self)
        ensures
            r.spec_same_besides_props(&self),
            r.spec_props() == (ItemProps {
                scripting: crate::props::Scripting {
                    update_freq: Some(freq),
                    ..self.spec_props().scripting
                },
                ..self.spec_props()
            }),
    {
        let (me, mut p) = self.take_props();
        p.scripting.update_freq = Some(freq);
        let r = me.put_props(p);
        proof {
            Self::lemma_same_besides_props_trans(r, me, self);
        }
        r
    }

    fn updates(self, mode: UpdateMode) -> (r: Self)
        ensures
            r.spec_same_besides_props(&self),
            r.spec_props() == (ItemProps {
                scripting: crate::props::Scripting {
                    updates: Some(mode),
                    ..self.spec_props().scripting
                },
                ..self.spec_props()
            }),
    {
        let (me, mut p) = self.take_props();
        p.scripting.updates = Some(mode);
        let r = me.put_props(p);
        proof {
            Self::lemma_same_besides_props_trans(r, me, self);
        }
        r
    }

    /// Replaces the background by `f` applied to the current one.
    fn background<F: FnOnce(BackgroundProps) -> BackgroundProps>(self, f: F) -> (r: Self)
        requires
            call_requires(
                f,
                (crate::props::spec_or_empty_background(self.spec_props().geometry.background),),
            ),
        ensures
            r.spec_same_besides_props(&self),
            r.spec_props() == (ItemProps {
                geometry: Geometry {
                    background: r.spec_props().geometry.background,
                    ..self.spec_props().geometry
                },
                ..self.spec_props()
            }),
            r.spec_props().geometry.background matches Some(b) && call_ensures(
                f,
                (crate::props::spec_or_empty_background(self.spec_props().geometry.background),),
                b,
            ),
    {
        let (me, mut p) = self.take_props();
        let cur = match p.geometry.background {
            Some(b) => b,
            None => BackgroundProps::default(),
        };
        p.geometry.background = Some(f(cur));
        let r = me.put_props(p);
        proof {
            Self::lemma_same_besides_props_trans(r, me, self);
        }
        r
    }

    /// Replaces the popup settings by `f` applied to the current ones.
    fn popup<F: FnOnce(PopupProps) -> PopupProps>(self, f: F) -> (r: Self)
        requires
            call_requires(f, (spec_or_empty_popup(self.spec_props().popup),)),
        ensures
            r.spec_same_besides_props(&self),
            r.spec_props() == (ItemProps { popup: r.spec_props().popup, ..self.spec_props() }),
            r.spec_props().popup matches Some(pp) && call_ensures(
                f,
                (spec_or_empty_popup(self.spec_props().popup),),
                pp,
            ),
    {
        let (me, mut p) = self.take_props();
        let cur = match p.popup {
            Some(pp) => pp,
            None => PopupProps::default(),
        };
        p.popup = Some(f(cur));
        let r = me.put_props(p);
        proof {
            Self::lemma_same_besides_props_trans(r, me, self);
        }
        r
    }

    /// Replaces the shared text settings by `f` applied to the current ones.
    fn text<F: FnOnce(Text) -> Text>(self, f: F) -> (r: Self)
        requires
            call_requires(f, (spec_or_empty_text(self.spec_props().text),)),
        ensures
            r.spec_same_besides_props(&self),
            r.spec_props() == (ItemProps { text: r.spec_props().text, ..self.spec_props() }),
            r.spec_props().text matches Some(t) && call_ensures(
                f,
                (spec_or_empty_text(self.spec_props().text),),
                t,
            ),
    {
        let (me, mut p) = self.take_props();
        let cur = match p.text {
            Some(t) => t,
            None => Text::default(),
        };
        p.text = Some(f(cur));
        let r = me.put_props(p);
        proof {
            Self::lemma_same_besides_props_trans(r, me, self);
        }
        r
    }
}

/// The popup settings that are set, or empty ones.
pub open spec fn spec_or_empty_popup(v: Option<PopupProps>) -> PopupProps {
    match v {
        Some(p) => p,
        None => PopupProps::spec_empty(),
    }
}

impl ItemBuilder for BarItem {
    open spec fn spec_props(&self) -> ItemProps {
        self.props
    }

    open spec fn spec_same_besides_props(&self, other: &Self) -> bool {
        self.name == other.name && self.children == other.children
    }

    proof fn lemma_same_besides_props_trans(a: Self, b: Self, c: Self) {
    }

    fn take_props(self) -> (r: (Self, ItemProps)) {
        let BarItem { name, props, children } = self;
        (BarItem { name, props: ItemProps::default(), children }, props)
    }

    fn put_props(self, props: ItemProps) -> (r: Self) {
        BarItem { props, ..self }
    }
}

impl ItemBuilder for Slider {
    open spec fn spec_props(&self) -> ItemProps {
        spec_or_empty_props(self.item)
    }

    open spec fn spec_same_besides_props(&self, other: &Self) -> bool {
        self == (Slider { item: self.item, ..*other })
    }

    proof fn lemma_same_besides_props_trans(a: Self, b: Self, c: Self) {
    }

    fn take_props(self) -> (r: (Self, ItemProps)) {
        let p = match self.item {
            Some(p) => p,
            None => ItemProps::default(),
        };
        (Slider { item: None, ..self }, p)
    }

    fn put_props(self, props: ItemProps) -> (r: Self) {
        Slider { item: Some(props), ..self }
    }
}

} // verus!

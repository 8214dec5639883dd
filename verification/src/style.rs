//! Shorthand setters for the nested settings of items and sliders: the
//! icon's and label's text, the background and its image, and the popup.

use vstd::prelude::*;
use crate::item::{spec_or_empty_popup, spec_or_empty_text, BarItem, ItemBuilder, Slider};
use crate::props::{
    spec_or_empty_background, spec_or_empty_image, BackgroundProps, Geometry, Icon, ImageProps,
    ImageType, ItemProps, Label, PopupProps, Text,
};
use crate::types::{Argb, Font, PopupAlign, TextAlignment, ToggleState};

verus! {

/// Setters for one nested setting each, on anything that carries item
/// properties. Each changes that setting and nothing else.
pub trait ItemStyle: ItemBuilder {

    /// Sets the icon's `color`.
    fn icon_color(self, color: Argb) -> (r: Self)
        ensures
            r.spec_same_besides_props(&self),
            r.spec_props() == (ItemProps { icon: Icon { props: Some(Text { color: Some(color), ..spec_or_empty_text(self.spec_props().icon.props) }), ..self.spec_props().icon }, ..self.spec_props() }),
    {
        let (me, mut p) = self.take_props();
        let cur = match p.icon.props { Some(t) => t, None => Text::default() };
        p.icon.props = Some(Text { color: Some(color), ..cur });
        let r = me.put_props(p);
        proof {
            Self::lemma_same_besides_props_trans(r, me, self);
        }
        r
    }

    /// Sets the icon's `font`.
    fn icon_font(self, font: Font) -> (r: Self)
        ensures
            r.spec_same_besides_props(&self),
            r.spec_props() == (ItemProps { icon: Icon { props: Some(Text { font: Some(font), ..spec_or_empty_text(self.spec_props().icon.props) }), ..self.spec_props().icon }, ..self.spec_props() }),
    {
        let (me, mut p) = self.take_props();
        let cur = match p.icon.props { Some(t) => t, None => Text::default() };
        p.icon.props = Some(Text { font: Some(font), ..cur });
        let r = me.put_props(p);
        proof {
            Self::lemma_same_besides_props_trans(r, me, self);
        }
        r
    }

    /// Sets the icon's `drawing`.
    fn icon_drawing(self, drawing: ToggleState) -> (r: Self)
        ensures
            r.spec_same_besides_props(&self),
            r.spec_props() == (ItemProps { icon: Icon { props: Some(Text { drawing: Some(drawing), ..spec_or_empty_text(self.spec_props().icon.props) }), ..self.spec_props().icon }, ..self.spec_props() }),
    {
        let (me, mut p) = self.take_props();
        let cur = match p.icon.props { Some(t) => t, None => Text::default() };
        p.icon.props = Some(Text { drawing: Some(drawing), ..cur });
        let r = me.put_props(p);
        proof {
            Self::lemma_same_besides_props_trans(r, me, self);
        }
        r
    }

    /// Sets the label's `color`.
    fn label_color(self, color: Argb) -> (r: Self)
        ensures
            r.spec_same_besides_props(&self),
            r.spec_props() == (ItemProps { label: Label { props: Some(Text { color: Some(color), ..spec_or_empty_text(self.spec_props().label.props) }), ..self.spec_props().label }, ..self.spec_props() }),
    {
        let (me, mut p) = self.take_props();
        let cur = match p.label.props { Some(t) => t, None => Text::default() };
        p.label.props = Some(Text { color: Some(color), ..cur });
        let r = me.put_props(p);
        proof {
            Self::lemma_same_besides_props_trans(r, me, self);
        }
        r
    }

    /// Sets the label's `font`.
    fn label_font(self, font: Font) -> (r: Self)
        ensures
            r.spec_same_besides_props(&self),
            r.spec_props() == (ItemProps { label: Label { props: Some(Text { font: Some(font), ..spec_or_empty_text(self.spec_props().label.props) }), ..self.spec_props().label }, ..self.spec_props() }),
    {
        let (me, mut p) = self.take_props();
        let cur = match p.label.props { Some(t) => t, None => Text::default() };
        p.label.props = Some(Text { font: Some(font), ..cur });
        let r = me.put_props(p);
        proof {
            Self::lemma_same_besides_props_trans(r, me, self);
        }
        r
    }

    /// Sets the label's `drawing`.
    fn label_drawing(self, drawing: ToggleState) -> (r: Self)
        ensures
            r.spec_same_besides_props(&self),
            r.spec_props() == (ItemProps { label: Label { props: Some(Text { drawing: Some(drawing), ..spec_or_empty_text(self.spec_props().label.props) }), ..self.spec_props().label }, ..self.spec_props() }),
    {
        let (me, mut p) = self.take_props();
        let cur = match p.label.props { Some(t) => t, None => Text::default() };
        p.label.props = Some(Text { drawing: Some(drawing), ..cur });
        let r = me.put_props(p);
        proof {
            Self::lemma_same_besides_props_trans(r, me, self);
        }
        r
    }

    /// Sets the label's `max_chars`.
    fn label_max_chars(self, max: u32) -> (r: Self)
        ensures
            r.spec_same_besides_props(&self),
            r.spec_props() == (ItemProps { label: Label { props: Some(Text { max_chars: Some(max), ..spec_or_empty_text(self.spec_props().label.props) }), ..self.spec_props().label }, ..self.spec_props() }),
    {
        let (me, mut p) = self.take_props();
        let cur = match p.label.props { Some(t) => t, None => Text::default() };
        p.label.props = Some(Text { max_chars: Some(max), ..cur });
        let r = me.put_props(p);
        proof {
            Self::lemma_same_besides_props_trans(r, me, self);
        }
        r
    }

    /// Sets the shared text `align`.
    fn text_align(self, align: TextAlignment) -> (r: Self)
        ensures
            r.spec_same_besides_props(&self),
            r.spec_props() == (ItemProps { text: Some(Text { align: Some(align), ..spec_or_empty_text(self.spec_props().text) }), ..self.spec_props() }),
    {
        let (me, mut p) = self.take_props();
        let cur = match p.text { Some(t) => t, None => Text::default() };
        p.text = Some(Text { align: Some(align), ..cur });
        let r = me.put_props(p);
        proof {
            Self::lemma_same_besides_props_trans(r, me, self);
        }
        r
    }

    /// Sets the background's `color`.
    fn background_color(self, color: Argb) -> (r: Self)
        ensures
            r.spec_same_besides_props(&self),
            r.spec_props() == (ItemProps { geometry: Geometry { background: Some(BackgroundProps { color: Some(color), ..spec_or_empty_background(self.spec_props().geometry.background) }), ..self.spec_props().geometry }, ..self.spec_props() }),
    {
        let (me, mut p) = self.take_props();
        let cur = match p.geometry.background { Some(b) => b, None => BackgroundProps::default() };
        p.geometry.background = Some(BackgroundProps { color: Some(color), ..cur });
        let r = me.put_props(p);
        proof {
            Self::lemma_same_besides_props_trans(r, me, self);
        }
        r
    }

    /// Sets the background's `drawing`.
    fn background_drawing(self, drawing: ToggleState) -> (r: Self)
        ensures
            r.spec_same_besides_props(&self),
            r.spec_props() == (ItemProps { geometry: Geometry { background: Some(BackgroundProps { drawing: Some(drawing), ..spec_or_empty_background(self.spec_props().geometry.background) }), ..self.spec_props().geometry }, ..self.spec_props() }),
    {
        let (me, mut p) = self.take_props();
        let cur = match p.geometry.background { Some(b) => b, None => BackgroundProps::default() };
        p.geometry.background = Some(BackgroundProps { drawing: Some(drawing), ..cur });
        let r = me.put_props(p);
        proof {
            Self::lemma_same_besides_props_trans(r, me, self);
        }
        r
    }

    /// Sets the background's `height`.
    fn background_height(self, height: u32) -> (r: Self)
        ensures
            r.spec_same_besides_props(&self),
            r.spec_props() == (ItemProps { geometry: Geometry { background: Some(BackgroundProps { height: Some(height), ..spec_or_empty_background(self.spec_props().geometry.background) }), ..self.spec_props().geometry }, ..self.spec_props() }),
    {
        let (me, mut p) = self.take_props();
        let cur = match p.geometry.background { Some(b) => b, None => BackgroundProps::default() };
        p.geometry.background = Some(BackgroundProps { height: Some(height), ..cur });
        let r = me.put_props(p);
        proof {
            Self::lemma_same_besides_props_trans(r, me, self);
        }
        r
    }

    /// Sets the background's `corner_radius`.
    fn background_corner_radius(self, radius: u32) -> (r: Self)
        ensures
            r.spec_same_besides_props(&self),
            r.spec_props() == (ItemProps { geometry: Geometry { background: Some(BackgroundProps { corner_radius: Some(radius), ..spec_or_empty_background(self.spec_props().geometry.background) }), ..self.spec_props().geometry }, ..self.spec_props() }),
    {
        let (me, mut p) = self.take_props();
        let cur = match p.geometry.background { Some(b) => b, None => BackgroundProps::default() };
        p.geometry.background = Some(BackgroundProps { corner_radius: Some(radius), ..cur });
        let r = me.put_props(p);
        proof {
            Self::lemma_same_besides_props_trans(r, me, self);
        }
        r
    }

    /// Sets the background image's `image`.
    fn background_image(self, image: ImageType) -> (r: Self)
        ensures
            r.spec_same_besides_props(&self),
            r.spec_props() == (ItemProps { geometry: Geometry { background: Some(BackgroundProps { image: Some(ImageProps { image: Some(image), ..spec_or_empty_image(spec_or_empty_background(self.spec_props().geometry.background).image) }), ..spec_or_empty_background(self.spec_props().geometry.background) }), ..self.spec_props().geometry }, ..self.spec_props() }),
    {
        let (me, mut p) = self.take_props();
        let bg = match p.geometry.background { Some(b) => b, None => BackgroundProps::default() };
        let img = match bg.image { Some(i) => i, None => ImageProps::default() };
        p.geometry.background = Some(BackgroundProps { image: Some(ImageProps { image: Some(image), ..img }), ..bg });
        let r = me.put_props(p);
        proof {
            Self::lemma_same_besides_props_trans(r, me, self);
        }
        r
    }

    /// Sets the background image's `drawing`.
    fn background_image_drawing(self, drawing: ToggleState) -> (r: Self)
        ensures
            r.spec_same_besides_props(&self),
            r.spec_props() == (ItemProps { geometry: Geometry { background: Some(BackgroundProps { image: Some(ImageProps { drawing: Some(drawing), ..spec_or_empty_image(spec_or_empty_background(self.spec_props().geometry.background).image) }), ..spec_or_empty_background(self.spec_props().geometry.background) }), ..self.spec_props().geometry }, ..self.spec_props() }),
    {
        let (me, mut p) = self.take_props();
        let bg = match p.geometry.background { Some(b) => b, None => BackgroundProps::default() };
        let img = match bg.image { Some(i) => i, None => ImageProps::default() };
        p.geometry.background = Some(BackgroundProps { image: Some(ImageProps { drawing: Some(drawing), ..img }), ..bg });
        let r = me.put_props(p);
        proof {
            Self::lemma_same_besides_props_trans(r, me, self);
        }
        r
    }

    /// Sets the background image's `scale`.
    fn background_image_scale(self, scale: String) -> (r: Self)
        ensures
            r.spec_same_besides_props(&self),
            r.spec_props() == (ItemProps { geometry: Geometry { background: Some(BackgroundProps { image: Some(ImageProps { scale: Some(scale), ..spec_or_empty_image(spec_or_empty_background(self.spec_props().geometry.background).image) }), ..spec_or_empty_background(self.spec_props().geometry.background) }), ..self.spec_props().geometry }, ..self.spec_props() }),
    {
        let (me, mut p) = self.take_props();
        let bg = match p.geometry.background { Some(b) => b, None => BackgroundProps::default() };
        let img = match bg.image { Some(i) => i, None => ImageProps::default() };
        p.geometry.background = Some(BackgroundProps { image: Some(ImageProps { scale: Some(scale), ..img }), ..bg });
        let r = me.put_props(p);
        proof {
            Self::lemma_same_besides_props_trans(r, me, self);
        }
        r
    }

    /// Sets the background image's `corner_radius`.
    fn background_image_corner_radius(self, radius: u32) -> (r: Self)
        ensures
            r.spec_same_besides_props(&self),
            r.spec_props() == (ItemProps { geometry: Geometry { background: Some(BackgroundProps { image: Some(ImageProps { corner_radius: Some(radius), ..spec_or_empty_image(spec_or_empty_background(self.spec_props().geometry.background).image) }), ..spec_or_empty_background(self.spec_props().geometry.background) }), ..self.spec_props().geometry }, ..self.spec_props() }),
    {
        let (me, mut p) = self.take_props();
        let bg = match p.geometry.background { Some(b) => b, None => BackgroundProps::default() };
        let img = match bg.image { Some(i) => i, None => ImageProps::default() };
        p.geometry.background = Some(BackgroundProps { image: Some(ImageProps { corner_radius: Some(radius), ..img }), ..bg });
        let r = me.put_props(p);
        proof {
            Self::lemma_same_besides_props_trans(r, me, self);
        }
        r
    }

    /// Sets the popup's `drawing`.
    fn popup_drawing(self, drawing: ToggleState) -> (r: Self)
        ensures
            r.spec_same_besides_props(&self),
            r.spec_props() == (ItemProps { popup: Some(PopupProps { drawing: Some(drawing), ..spec_or_empty_popup(self.spec_props().popup) }), ..self.spec_props() }),
    {
        let (me, mut p) = self.take_props();
        let cur = match p.popup { Some(q) => q, None => PopupProps::default() };
        p.popup = Some(PopupProps { drawing: Some(drawing), ..cur });
        let r = me.put_props(p);
        proof {
            Self::lemma_same_besides_props_trans(r, me, self);
        }
        r
    }

    /// Sets the popup's `align`.
    fn popup_align(self, align: PopupAlign) -> (r: Self)
        ensures
            r.spec_same_besides_props(&self),
            r.spec_props() == (ItemProps { popup: Some(PopupProps { align: Some(align), ..spec_or_empty_popup(self.spec_props().popup) }), ..self.spec_props() }),
    {
        let (me, mut p) = self.take_props();
        let cur = match p.popup { Some(q) => q, None => PopupProps::default() };
        p.popup = Some(PopupProps { align: Some(align), ..cur });
        let r = me.put_props(p);
        proof {
            Self::lemma_same_besides_props_trans(r, me, self);
        }
        r
    }

    /// Sets the popup background's `color`.
    fn popup_background_color(self, color: Argb) -> (r: Self)
        ensures
            r.spec_same_besides_props(&self),
            r.spec_props() == (ItemProps { popup: Some(PopupProps { background: Some(BackgroundProps { color: Some(color), ..spec_or_empty_background(spec_or_empty_popup(self.spec_props().popup).background) }), ..spec_or_empty_popup(self.spec_props().popup) }), ..self.spec_props() }),
    {
        let (me, mut p) = self.take_props();
        let pp = match p.popup { Some(q) => q, None => PopupProps::default() };
        let bg = match pp.background { Some(b) => b, None => BackgroundProps::default() };
        p.popup = Some(PopupProps { background: Some(BackgroundProps { color: Some(color), ..bg }), ..pp });
        let r = me.put_props(p);
        proof {
            Self::lemma_same_besides_props_trans(r, me, self);
        }
        r
    }

    /// Sets the popup background's `border_color`.
    fn popup_background_border_color(self, color: Argb) -> (r: Self)
        ensures
            r.spec_same_besides_props(&self),
            r.spec_props() == (ItemProps { popup: Some(PopupProps { background: Some(BackgroundProps { border_color: Some(color), ..spec_or_empty_background(spec_or_empty_popup(self.spec_props().popup).background) }), ..spec_or_empty_popup(self.spec_props().popup) }), ..self.spec_props() }),
    {
        let (me, mut p) = self.take_props();
        let pp = match p.popup { Some(q) => q, None => PopupProps::default() };
        let bg = match pp.background { Some(b) => b, None => BackgroundProps::default() };
        p.popup = Some(PopupProps { background: Some(BackgroundProps { border_color: Some(color), ..bg }), ..pp });
        let r = me.put_props(p);
        proof {
            Self::lemma_same_besides_props_trans(r, me, self);
        }
        r
    }

    /// Sets the popup background's `border_width`.
    fn popup_background_border_width(self, width: u32) -> (r: Self)
        ensures
            r.spec_same_besides_props(&self),
            r.spec_props() == (ItemProps { popup: Some(PopupProps { background: Some(BackgroundProps { border_width: Some(width), ..spec_or_empty_background(spec_or_empty_popup(self.spec_props().popup).background) }), ..spec_or_empty_popup(self.spec_props().popup) }), ..self.spec_props() }),
    {
        let (me, mut p) = self.take_props();
        let pp = match p.popup { Some(q) => q, None => PopupProps::default() };
        let bg = match pp.background { Some(b) => b, None => BackgroundProps::default() };
        p.popup = Some(PopupProps { background: Some(BackgroundProps { border_width: Some(width), ..bg }), ..pp });
        let r = me.put_props(p);
        proof {
            Self::lemma_same_besides_props_trans(r, me, self);
        }
        r
    }

    /// Sets the popup background's `corner_radius`.
    fn popup_background_corner_radius(self, radius: u32) -> (r: Self)
        ensures
            r.spec_same_besides_props(&self),
            r.spec_props() == (ItemProps { popup: Some(PopupProps { background: Some(BackgroundProps { corner_radius: Some(radius), ..spec_or_empty_background(spec_or_empty_popup(self.spec_props().popup).background) }), ..spec_or_empty_popup(self.spec_props().popup) }), ..self.spec_props() }),
    {
        let (me, mut p) = self.take_props();
        let pp = match p.popup { Some(q) => q, None => PopupProps::default() };
        let bg = match pp.background { Some(b) => b, None => BackgroundProps::default() };
        p.popup = Some(PopupProps { background: Some(BackgroundProps { corner_radius: Some(radius), ..bg }), ..pp });
        let r = me.put_props(p);
        proof {
            Self::lemma_same_besides_props_trans(r, me, self);
        }
        r
    }

    /// Sets the popup background image's `image`.
    fn popup_background_image(self, image: ImageType) -> (r: Self)
        ensures
            r.spec_same_besides_props(&self),
            r.spec_props() == (ItemProps { popup: Some(PopupProps { background: Some(BackgroundProps { image: Some(ImageProps { image: Some(image), ..spec_or_empty_image(spec_or_empty_background(spec_or_empty_popup(self.spec_props().popup).background).image) }), ..spec_or_empty_background(spec_or_empty_popup(self.spec_props().popup).background) }), ..spec_or_empty_popup(self.spec_props().popup) }), ..self.spec_props() }),
    {
        let (me, mut p) = self.take_props();
        let pp = match p.popup { Some(q) => q, None => PopupProps::default() };
        let bg = match pp.background { Some(b) => b, None => BackgroundProps::default() };
        let img = match bg.image { Some(i) => i, None => ImageProps::default() };
        p.popup = Some(PopupProps { background: Some(BackgroundProps { image: Some(ImageProps { image: Some(image), ..img }), ..bg }), ..pp });
        let r = me.put_props(p);
        proof {
            Self::lemma_same_besides_props_trans(r, me, self);
        }
        r
    }

    /// Sets the popup background image's `blur_radius`.
    fn popup_background_image_blur_radius(self, radius: u32) -> (r: Self)
        ensures
            r.spec_same_besides_props(&self),
            r.spec_props() == (ItemProps { popup: Some(PopupProps { background: Some(BackgroundProps { image: Some(ImageProps { blur_radius: Some(radius), ..spec_or_empty_image(spec_or_empty_background(spec_or_empty_popup(self.spec_props().popup).background).image) }), ..spec_or_empty_background(spec_or_empty_popup(self.spec_props().popup).background) }), ..spec_or_empty_popup(self.spec_props().popup) }), ..self.spec_props() }),
    {
        let (me, mut p) = self.take_props();
        let pp = match p.popup { Some(q) => q, None => PopupProps::default() };
        let bg = match pp.background { Some(b) => b, None => BackgroundProps::default() };
        let img = match bg.image { Some(i) => i, None => ImageProps::default() };
        p.popup = Some(PopupProps { background: Some(BackgroundProps { image: Some(ImageProps { blur_radius: Some(radius), ..img }), ..bg }), ..pp });
        let r = me.put_props(p);
        proof {
            Self::lemma_same_besides_props_trans(r, me, self);
        }
        r
    }

    /// Sets the popup background image's `drawing`.
    fn popup_background_image_drawing(self, drawing: ToggleState) -> (r: Self)
        ensures
            r.spec_same_besides_props(&self),
            r.spec_props() == (ItemProps { popup: Some(PopupProps { background: Some(BackgroundProps { image: Some(ImageProps { drawing: Some(drawing), ..spec_or_empty_image(spec_or_empty_background(spec_or_empty_popup(self.spec_props().popup).background).image) }), ..spec_or_empty_background(spec_or_empty_popup(self.spec_props().popup).background) }), ..spec_or_empty_popup(self.spec_props().popup) }), ..self.spec_props() }),
    {
        let (me, mut p) = self.take_props();
        let pp = match p.popup { Some(q) => q, None => PopupProps::default() };
        let bg = match pp.background { Some(b) => b, None => BackgroundProps::default() };
        let img = match bg.image { Some(i) => i, None => ImageProps::default() };
        p.popup = Some(PopupProps { background: Some(BackgroundProps { image: Some(ImageProps { drawing: Some(drawing), ..img }), ..bg }), ..pp });
        let r = me.put_props(p);
        proof {
            Self::lemma_same_besides_props_trans(r, me, self);
        }
        r
    }

}

impl ItemStyle for BarItem {}

impl ItemStyle for Slider {}

impl Slider {
    /// Sets the slider bar's background `height`.
    pub fn slider_background_height(self, height: u32) -> (r: Self)
        ensures
            r == (Slider { background: Some(BackgroundProps { height: Some(height), ..spec_or_empty_background(self.background) }), ..self }),
    {
        let Slider { name, position, width, percentage, highlight_color, knob, knob_props, background, item } = self;
        let cur = match background { Some(b) => b, None => BackgroundProps::default() };
        Slider { name, position, width, percentage, highlight_color, knob, knob_props, background: Some(BackgroundProps { height: Some(height), ..cur }), item }
    }

    /// Sets the slider bar's background `corner_radius`.
    pub fn slider_background_corner_radius(self, radius: u32) -> (r: Self)
        ensures
            r == (Slider { background: Some(BackgroundProps { corner_radius: Some(radius), ..spec_or_empty_background(self.background) }), ..self }),
    {
        let Slider { name, position, width, percentage, highlight_color, knob, knob_props, background, item } = self;
        let cur = match background { Some(b) => b, None => BackgroundProps::default() };
        Slider { name, position, width, percentage, highlight_color, knob, knob_props, background: Some(BackgroundProps { corner_radius: Some(radius), ..cur }), item }
    }

    /// Sets the slider bar's background `color`.
    pub fn slider_background_color(self, color: Argb) -> (r: Self)
        ensures
            r == (Slider { background: Some(BackgroundProps { color: Some(color), ..spec_or_empty_background(self.background) }), ..self }),
    {
        let Slider { name, position, width, percentage, highlight_color, knob, knob_props, background, item } = self;
        let cur = match background { Some(b) => b, None => BackgroundProps::default() };
        Slider { name, position, width, percentage, highlight_color, knob, knob_props, background: Some(BackgroundProps { color: Some(color), ..cur }), item }
    }

    /// Sets the slider bar's background `drawing`.
    pub fn slider_background_drawing(self, drawing: ToggleState) -> (r: Self)
        ensures
            r == (Slider { background: Some(BackgroundProps { drawing: Some(drawing), ..spec_or_empty_background(self.background) }), ..self }),
    {
        let Slider { name, position, width, percentage, highlight_color, knob, knob_props, background, item } = self;
        let cur = match background { Some(b) => b, None => BackgroundProps::default() };
        Slider { name, position, width, percentage, highlight_color, knob, knob_props, background: Some(BackgroundProps { drawing: Some(drawing), ..cur }), item }
    }

    /// Sets the knob's text `color`.
    pub fn knob_color(self, color: Argb) -> (r: Self)
        ensures
            r == (Slider { knob_props: Some(Text { color: Some(color), ..spec_or_empty_text(self.knob_props) }), ..self }),
    {
        let Slider { name, position, width, percentage, highlight_color, knob, knob_props, background, item } = self;
        let cur = match knob_props { Some(t) => t, None => Text::default() };
        Slider { name, position, width, percentage, highlight_color, knob, knob_props: Some(Text { color: Some(color), ..cur }), background, item }
    }

    /// Sets the knob's text `font`.
    pub fn knob_font(self, font: Font) -> (r: Self)
        ensures
            r == (Slider { knob_props: Some(Text { font: Some(font), ..spec_or_empty_text(self.knob_props) }), ..self }),
    {
        let Slider { name, position, width, percentage, highlight_color, knob, knob_props, background, item } = self;
        let cur = match knob_props { Some(t) => t, None => Text::default() };
        Slider { name, position, width, percentage, highlight_color, knob, knob_props: Some(Text { font: Some(font), ..cur }), background, item }
    }

}

} // verus!

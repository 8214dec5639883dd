//! The property groups of an item in the builder API (geometry, icon,
//! label, text, background, image, shadow, popup, scripting) and the
//! arguments each renders to; every setting is optional and rendered only
//! when set. The older item model, with its own defaults, is `item_model`.

use vstd::prelude::*;
use crate::pieces::{
    dec_u32, none_args, opt_argb, opt_bool, opt_i32, opt_prefixed, opt_args, opt_string,
    opt_toggle, opt_u32, spec_opt_argb, spec_opt_args, spec_opt_bool, spec_opt_i32,
    spec_opt_prefixed, spec_opt_string, spec_opt_toggle, spec_opt_u32, then,
};
use crate::text::{concat2, push_char, push_dec, spec_dec, string_of};
use crate::types::{
    props_view, single, Argb, ComponentPosition, Font, PopupAlign, Property, PropView,
    TextAlignment, ToSketchybarArgs, ToggleState, WidthMode,
};

verus! {

// ----- value enumerations -------------------------------------------------

/// A script: a path to run, or inline shell text.
#[derive(Debug, Clone, PartialEq, Eq)]
pub enum ScriptType {
    Path(String),
    String(String),
}

impl ScriptType {
    pub open spec fn spec_text(self) -> Seq<char> {
        match self {
            ScriptType::Path(p) => p@,
            ScriptType::String(s) => s@,
        }
    }

    pub fn render(&self) -> (r: String)
        ensures
            r@ == self.spec_text(),
    {
        match self {
            ScriptType::Path(p) => p.clone(),
            ScriptType::String(s) => s.clone(),
        }
    }
}

/// When an item's script runs.
#[derive(Debug, Clone, Copy, PartialEq, Eq, Structural)]
pub enum UpdateMode {
    Toggle(bool),
    WhenShown,
}

impl UpdateMode {
    pub open spec fn spec_text(self) -> Seq<char> {
        match self {
            UpdateMode::Toggle(b) => if b {
                "on"@
            } else {
                "off"@
            },
            UpdateMode::WhenShown => "when_shown"@,
        }
    }

    pub fn render(&self) -> (r: String)
        ensures
            r@ == self.spec_text(),
    {
        match self {
            UpdateMode::Toggle(b) => if *b {
                string_of("on")
            } else {
                string_of("off")
            },
            UpdateMode::WhenShown => string_of("when_shown"),
        }
    }
}

impl Default for UpdateMode {
    fn default() -> (r: Self)
        ensures
            r == UpdateMode::Toggle(true),
    {
        UpdateMode::Toggle(true)
    }
}

/// The source of an image.
#[derive(Debug, Clone, PartialEq, Eq)]
pub enum ImageType {
    Path(String),
    AppBundleId(String),
    AppName(String),
    MediaArtwork,
}

impl ImageType {
    pub open spec fn spec_text(self) -> Seq<char> {
        match self {
            ImageType::Path(p) => p@,
            ImageType::AppBundleId(b) => "app."@ + b@,
            ImageType::AppName(n) => "app."@ + n@,
            ImageType::MediaArtwork => "media.artwork"@,
        }
    }

    pub fn render(&self) -> (r: String)
        ensures
            r@ == self.spec_text(),
    {
        match self {
            ImageType::Path(p) => p.clone(),
            ImageType::AppBundleId(b) => concat2("app.", b.as_str()),
            ImageType::AppName(n) => concat2("app.", n.as_str()),
            ImageType::MediaArtwork => string_of("media.artwork"),
        }
    }

    /// Image properties showing this image and nothing else set.
    pub fn into_props(self) -> (r: ImageProps)
        ensures
            r == ImageProps::spec_empty().with_image(self),
    {
        let mut p = ImageProps::default();
        p.image = Some(self);
        p
    }
}

/// The displays an item is shown on.
#[derive(Debug, Clone, PartialEq, Eq)]
pub enum DisplayHandle {
    Id(Vec<u32>),
    Active,
}

/// Decimal numbers joined with commas.
pub open spec fn spec_join_dec(ids: Seq<u32>) -> Seq<char>
    decreases ids.len(),
{
    if ids.len() == 0 {
        seq![]
    } else if ids.len() == 1 {
        spec_dec(ids[0] as nat)
    } else {
        spec_join_dec(ids.drop_last()) + seq![','] + spec_dec(ids.last() as nat)
    }
}

/// Decimal numbers joined with commas.
pub fn join_dec(ids: &Vec<u32>) -> (r: String)
    ensures
        r@ == spec_join_dec(ids@),
{
    let mut s = String::new();
    let mut i: usize = 0;
    while i < ids.len()
        invariant
            i <= ids@.len(),
            s@ == spec_join_dec(ids@.subrange(0, i as int)),
        decreases ids@.len() - i,
    {
        if i > 0 {
            push_char(&mut s, ',');
        }
        push_dec(&mut s, ids[i] as u64);
        i = i + 1;
        let ghost sub = ids@.subrange(0, i as int);
        assert(sub.drop_last() =~= ids@.subrange(0, i - 1));
        assert(s@ =~= spec_join_dec(sub));
    }
    assert(ids@.subrange(0, i as int) =~= ids@);
    s
}

impl DisplayHandle {
    pub open spec fn spec_text(self) -> Seq<char> {
        match self {
            DisplayHandle::Id(ids) => spec_join_dec(ids@),
            DisplayHandle::Active => "active"@,
        }
    }

    pub fn render(&self) -> (r: String)
        ensures
            r@ == self.spec_text(),
    {
        match self {
            DisplayHandle::Id(ids) => join_dec(ids),
            DisplayHandle::Active => string_of("active"),
        }
    }
}

impl Default for DisplayHandle {
    fn default() -> (r: Self)
        ensures
            r matches DisplayHandle::Id(ids) && ids@ == seq![0u32],
    {
        let mut v = Vec::new();
        v.push(0u32);
        DisplayHandle::Id(v)
    }
}

// ----- shadow ---------------------------------------------------------------

/// Shadow settings.
#[derive(Debug, Clone, PartialEq, Eq, Structural)]
pub struct ShadowProps {
    pub drawing: Option<ToggleState>,
    pub color: Option<Argb>,
    pub angle: Option<u32>,
    pub distance: Option<u32>,
}

impl ShadowProps {
    pub open spec fn spec_empty() -> Self {
        ShadowProps { drawing: None, color: None, angle: None, distance: None }
    }

    pub fn drawing(self, drawing: ToggleState) -> (r: Self)
        ensures
            r == (ShadowProps { drawing: Some(drawing), ..self }),
    {
        ShadowProps { drawing: Some(drawing), ..self }
    }

    pub fn color(self, color: Argb) -> (r: Self)
        ensures
            r == (ShadowProps { color: Some(color), ..self }),
    {
        ShadowProps { color: Some(color), ..self }
    }

    pub fn angle(self, angle: u32) -> (r: Self)
        ensures
            r == (ShadowProps { angle: Some(angle), ..self }),
    {
        ShadowProps { angle: Some(angle), ..self }
    }

    pub fn distance(self, distance: u32) -> (r: Self)
        ensures
            r == (ShadowProps { distance: Some(distance), ..self }),
    {
        ShadowProps { distance: Some(distance), ..self }
    }
}

impl Default for ShadowProps {
    fn default() -> (r: Self)
        ensures
            r == ShadowProps::spec_empty(),
    {
        ShadowProps { drawing: None, color: None, angle: None, distance: None }
    }
}

impl ToSketchybarArgs for ShadowProps {
    open spec fn spec_args(&self) -> Seq<PropView> {
        spec_opt_toggle("shadow.drawing"@, self.drawing) + spec_opt_argb(
            "shadow.color"@,
            self.color,
        ) + spec_opt_u32("shadow.angle"@, self.angle) + spec_opt_u32(
            "shadow.distance"@,
            self.distance,
        )
    }

    fn to_sketchybar_args(&self) -> (r: Vec<Property>) {
        let a = opt_toggle("shadow.drawing", self.drawing);
        let a = then(a, opt_argb("shadow.color", self.color));
        let a = then(a, opt_u32("shadow.angle", self.angle));
        then(a, opt_u32("shadow.distance", self.distance))
    }
}

// ----- image ----------------------------------------------------------------

/// Image settings. The scale is held as the decimal text sketchybar receives.
#[derive(Debug, Clone, PartialEq, Eq)]
pub struct ImageProps {
    pub drawing: Option<ToggleState>,
    pub scale: Option<String>,
    pub blur_radius: Option<u32>,
    pub border_color: Option<Argb>,
    pub border_width: Option<u32>,
    pub corner_radius: Option<u32>,
    pub padding_left: Option<i32>,
    pub padding_right: Option<i32>,
    pub y_offset: Option<i32>,
    pub image: Option<ImageType>,
    pub shadow: Option<ShadowProps>,
}

/// The property naming the image itself has an empty name; the enclosing
/// group supplies it.
pub open spec fn spec_opt_image(v: Option<ImageType>) -> Seq<PropView> {
    match v {
        Some(i) => seq![(Seq::<char>::empty(), i.spec_text())],
        None => seq![],
    }
}

fn opt_image(v: &Option<ImageType>) -> (r: Vec<Property>)
    ensures
        props_view(r@) == spec_opt_image(*v),
{
    match v {
        Some(i) => {
            let r = single("", i.render());
            proof {
                reveal_strlit("");
            }
            assert(""@ =~= Seq::<char>::empty());
            r
        },
        None => none_args(),
    }
}

impl ImageProps {
    pub open spec fn spec_empty() -> Self {
        ImageProps {
            drawing: None,
            scale: None,
            blur_radius: None,
            border_color: None,
            border_width: None,
            corner_radius: None,
            padding_left: None,
            padding_right: None,
            y_offset: None,
            image: None,
            shadow: None,
        }
    }

    pub open spec fn with_image(self, image: ImageType) -> Self {
        ImageProps { image: Some(image), ..self }
    }

    pub fn drawing(self, drawing: ToggleState) -> (r: Self)
        ensures
            r == (ImageProps { drawing: Some(drawing), ..self }),
    {
        ImageProps { drawing: Some(drawing), ..self }
    }

    /// Sets the scale, given as its decimal text.
    pub fn scale(self, scale: String) -> (r: Self)
        ensures
            r == (ImageProps { scale: Some(scale), ..self }),
    {
        ImageProps { scale: Some(scale), ..self }
    }

    pub fn blur_radius(self, radius: u32) -> (r: Self)
        ensures
            r == (ImageProps { blur_radius: Some(radius), ..self }),
    {
        ImageProps { blur_radius: Some(radius), ..self }
    }

    pub fn border_color(self, color: Argb) -> (r: Self)
        ensures
            r == (ImageProps { border_color: Some(color), ..self }),
    {
        ImageProps { border_color: Some(color), ..self }
    }

    pub fn border_width(self, width: u32) -> (r: Self)
        ensures
            r == (ImageProps { border_width: Some(width), ..self }),
    {
        ImageProps { border_width: Some(width), ..self }
    }

    pub fn corner_radius(self, radius: u32) -> (r: Self)
        ensures
            r == (ImageProps { corner_radius: Some(radius), ..self }),
    {
        ImageProps { corner_radius: Some(radius), ..self }
    }

    pub fn padding_left(self, padding: i32) -> (r: Self)
        ensures
            r == (ImageProps { padding_left: Some(padding), ..self }),
    {
        ImageProps { padding_left: Some(padding), ..self }
    }

    pub fn padding_right(self, padding: i32) -> (r: Self)
        ensures
            r == (ImageProps { padding_right: Some(padding), ..self }),
    {
        ImageProps { padding_right: Some(padding), ..self }
    }

    pub fn y_offset(self, offset: i32) -> (r: Self)
        ensures
            r == (ImageProps { y_offset: Some(offset), ..self }),
    {
        ImageProps { y_offset: Some(offset), ..self }
    }

    pub fn image(self, image: ImageType) -> (r: Self)
        ensures
            r == (ImageProps { image: Some(image), ..self }),
    {
        ImageProps { image: Some(image), ..self }
    }

    pub fn shadow(self, shadow: ShadowProps) -> (r: Self)
        ensures
            r == (ImageProps { shadow: Some(shadow), ..self }),
    {
        ImageProps { shadow: Some(shadow), ..self }
    }
}

impl Default for ImageProps {
    fn default() -> (r: Self)
        ensures
            r == ImageProps::spec_empty(),
    {
        ImageProps {
            drawing: None,
            scale: None,
            blur_radius: None,
            border_color: None,
            border_width: None,
            corner_radius: None,
            padding_left: None,
            padding_right: None,
            y_offset: None,
            image: None,
            shadow: None,
        }
    }
}

impl ToSketchybarArgs for ImageProps {
    open spec fn spec_args(&self) -> Seq<PropView> {
        spec_opt_image(self.image) + spec_opt_toggle("drawing"@, self.drawing) + spec_opt_string(
            "scale"@,
            self.scale,
        ) + spec_opt_u32("blur_radius"@, self.blur_radius) + spec_opt_argb(
            "border_color"@,
            self.border_color,
        ) + spec_opt_u32("border_width"@, self.border_width) + spec_opt_u32(
            "corner_radius"@,
            self.corner_radius,
        ) + spec_opt_i32("padding_left"@, self.padding_left) + spec_opt_i32(
            "padding_right"@,
            self.padding_right,
        ) + spec_opt_i32("y_offset"@, self.y_offset) + spec_opt_prefixed(
            "shadow."@,
            self.shadow,
        )
    }

    fn to_sketchybar_args(&self) -> (r: Vec<Property>) {
        let a = opt_image(&self.image);
        let a = then(a, opt_toggle("drawing", self.drawing));
        let a = then(a, opt_string("scale", &self.scale));
        let a = then(a, opt_u32("blur_radius", self.blur_radius));
        let a = then(a, opt_argb("border_color", self.border_color));
        let a = then(a, opt_u32("border_width", self.border_width));
        let a = then(a, opt_u32("corner_radius", self.corner_radius));
        let a = then(a, opt_i32("padding_left", self.padding_left));
        let a = then(a, opt_i32("padding_right", self.padding_right));
        let a = then(a, opt_i32("y_offset", self.y_offset));
        then(a, opt_prefixed("shadow.", &self.shadow))
    }
}


// ----- background -----------------------------------------------------------

/// Background settings.
#[derive(Debug, Clone, PartialEq, Eq)]
pub struct BackgroundProps {
    pub drawing: Option<ToggleState>,
    pub color: Option<Argb>,
    pub border_color: Option<Argb>,
    pub border_width: Option<u32>,
    pub height: Option<u32>,
    pub corner_radius: Option<u32>,
    pub padding_left: Option<i32>,
    pub padding_right: Option<i32>,
    pub y_offset: Option<i32>,
    pub x_offset: Option<i32>,
    pub blur_radius: Option<u32>,
    pub clip: Option<bool>,
    pub image: Option<ImageProps>,
    pub shadow: Option<ShadowProps>,
}

/// The name an image property takes inside a background: the bare `image`
/// for the image itself, `image.<name>` for its settings.
pub open spec fn spec_image_name(name: Seq<char>) -> Seq<char> {
    if name.len() == 0 {
        "image"@
    } else {
        "image."@ + name
    }
}

pub open spec fn spec_opt_background_image(v: Option<ImageProps>) -> Seq<PropView> {
    match v {
        Some(i) => i.spec_args().map_values(|p: PropView| (spec_image_name(p.0), p.1)),
        None => seq![],
    }
}

fn opt_background_image(v: &Option<ImageProps>) -> (r: Vec<Property>)
    ensures
        props_view(r@) == spec_opt_background_image(*v),
{
    match v {
        Some(img) => {
            let inner = img.to_sketchybar_args();
            let mut out: Vec<Property> = Vec::new();
            let mut i: usize = 0;
            while i < inner.len()
                invariant
                    i <= inner@.len(),
                    out@.len() == i,
                    forall|k: int|
                        0 <= k < i ==> #[trigger] out@[k]@ == (
                            spec_image_name(inner@[k]@.0),
                            inner@[k]@.1,
                        ),
                decreases inner@.len() - i,
            {
                let p = &inner[i];
                let name = if p.property.as_str().is_empty() {
                    string_of("image")
                } else {
                    concat2("image.", p.property.as_str())
                };
                out.push(Property { property: name, value: p.value.clone() });
                i = i + 1;
            }
            assert(props_view(out@) =~= spec_opt_background_image(*v));
            out
        },
        None => none_args(),
    }
}

impl BackgroundProps {
    pub open spec fn spec_empty() -> Self {
        BackgroundProps {
            drawing: None,
            color: None,
            border_color: None,
            border_width: None,
            height: None,
            corner_radius: None,
            padding_left: None,
            padding_right: None,
            y_offset: None,
            x_offset: None,
            blur_radius: None,
            clip: None,
            image: None,
            shadow: None,
        }
    }

    /// A background with nothing set.
    pub fn new() -> (r: Self)
        ensures
            r == BackgroundProps::spec_empty(),
    {
        BackgroundProps::default()
    }

    pub fn drawing(self, drawing: ToggleState) -> (r: Self)
        ensures
            r == (BackgroundProps { drawing: Some(drawing), ..self }),
    {
        BackgroundProps { drawing: Some(drawing), ..self }
    }

    pub fn color(self, color: Argb) -> (r: Self)
        ensures
            r == (BackgroundProps { color: Some(color), ..self }),
    {
        BackgroundProps { color: Some(color), ..self }
    }

    pub fn border_color(self, color: Argb) -> (r: Self)
        ensures
            r == (BackgroundProps { border_color: Some(color), ..self }),
    {
        BackgroundProps { border_color: Some(color), ..self }
    }

    pub fn border_width(self, width: u32) -> (r: Self)
        ensures
            r == (BackgroundProps { border_width: Some(width), ..self }),
    {
        BackgroundProps { border_width: Some(width), ..self }
    }

    pub fn height(self, height: u32) -> (r: Self)
        ensures
            r == (BackgroundProps { height: Some(height), ..self }),
    {
        BackgroundProps { height: Some(height), ..self }
    }

    pub fn corner_radius(self, radius: u32) -> (r: Self)
        ensures
            r == (BackgroundProps { corner_radius: Some(radius), ..self }),
    {
        BackgroundProps { corner_radius: Some(radius), ..self }
    }

    pub fn padding_left(self, padding: i32) -> (r: Self)
        ensures
            r == (BackgroundProps { padding_left: Some(padding), ..self }),
    {
        BackgroundProps { padding_left: Some(padding), ..self }
    }

    pub fn padding_right(self, padding: i32) -> (r: Self)
        ensures
            r == (BackgroundProps { padding_right: Some(padding), ..self }),
    {
        BackgroundProps { padding_right: Some(padding), ..self }
    }

    pub fn y_offset(self, offset: i32) -> (r: Self)
        ensures
            r == (BackgroundProps { y_offset: Some(offset), ..self }),
    {
        BackgroundProps { y_offset: Some(offset), ..self }
    }

    pub fn x_offset(self, offset: i32) -> (r: Self)
        ensures
            r == (BackgroundProps { x_offset: Some(offset), ..self }),
    {
        BackgroundProps { x_offset: Some(offset), ..self }
    }

    pub fn blur_radius(self, radius: u32) -> (r: Self)
        ensures
            r == (BackgroundProps { blur_radius: Some(radius), ..self }),
    {
        BackgroundProps { blur_radius: Some(radius), ..self }
    }

    pub fn clip(self, clip: bool) -> (r: Self)
        ensures
            r == (BackgroundProps { clip: Some(clip), ..self }),
    {
        BackgroundProps { clip: Some(clip), ..self }
    }

    pub fn image(self, image: ImageProps) -> (r: Self)
        ensures
            r == (BackgroundProps { image: Some(image), ..self }),
    {
        BackgroundProps { image: Some(image), ..self }
    }

    pub fn shadow(self, shadow: ShadowProps) -> (r: Self)
        ensures
            r == (BackgroundProps { shadow: Some(shadow), ..self }),
    {
        BackgroundProps { shadow: Some(shadow), ..self }
    }
}

impl Default for BackgroundProps {
    fn default() -> (r: Self)
        ensures
            r == BackgroundProps::spec_empty(),
    {
        BackgroundProps {
            drawing: None,
            color: None,
            border_color: None,
            border_width: None,
            height: None,
            corner_radius: None,
            padding_left: None,
            padding_right: None,
            y_offset: None,
            x_offset: None,
            blur_radius: None,
            clip: None,
            image: None,
            shadow: None,
        }
    }
}

impl ToSketchybarArgs for BackgroundProps {
    open spec fn spec_args(&self) -> Seq<PropView> {
        spec_opt_toggle("drawing"@, self.drawing) + spec_opt_argb("color"@, self.color)
            + spec_opt_argb("border_color"@, self.border_color) + spec_opt_u32(
            "border_width"@,
            self.border_width,
        ) + spec_opt_u32("height"@, self.height) + spec_opt_u32(
            "corner_radius"@,
            self.corner_radius,
        ) + spec_opt_i32("padding_left"@, self.padding_left) + spec_opt_i32(
            "padding_right"@,
            self.padding_right,
        ) + spec_opt_i32("y_offset"@, self.y_offset) + spec_opt_i32("x_offset"@, self.x_offset)
            + spec_opt_u32("blur_radius"@, self.blur_radius) + spec_opt_bool("clip"@, self.clip)
            + spec_opt_background_image(self.image) + spec_opt_prefixed("shadow."@, self.shadow)
    }

    fn to_sketchybar_args(&self) -> (r: Vec<Property>) {
        let a = opt_toggle("drawing", self.drawing);
        let a = then(a, opt_argb("color", self.color));
        let a = then(a, opt_argb("border_color", self.border_color));
        let a = then(a, opt_u32("border_width", self.border_width));
        let a = then(a, opt_u32("height", self.height));
        let a = then(a, opt_u32("corner_radius", self.corner_radius));
        let a = then(a, opt_i32("padding_left", self.padding_left));
        let a = then(a, opt_i32("padding_right", self.padding_right));
        let a = then(a, opt_i32("y_offset", self.y_offset));
        let a = then(a, opt_i32("x_offset", self.x_offset));
        let a = then(a, opt_u32("blur_radius", self.blur_radius));
        let a = then(a, opt_bool("clip", self.clip));
        let a = then(a, opt_background_image(&self.image));
        then(a, opt_prefixed("shadow.", &self.shadow))
    }
}

// ----- text -----------------------------------------------------------------

/// Text settings shared by icons and labels. The scroll duration is held as
/// the decimal text sketchybar receives.
#[derive(Debug, Clone, PartialEq, Eq)]
pub struct Text {
    pub drawing: Option<ToggleState>,
    pub highlight: Option<ToggleState>,
    pub color: Option<Argb>,
    pub highlight_color: Option<Argb>,
    pub padding_left: Option<u32>,
    pub padding_right: Option<u32>,
    pub y_offset: Option<i32>,
    pub font: Option<Font>,
    pub scroll_duration: Option<String>,
    pub max_chars: Option<u32>,
    pub width: Option<WidthMode>,
    pub align: Option<TextAlignment>,
    pub background: Option<BackgroundProps>,
    pub shadow: Option<ShadowProps>,
}

pub open spec fn spec_opt_font(key: Seq<char>, v: Option<Font>) -> Seq<PropView> {
    match v {
        Some(f) => seq![(key, f.spec_text())],
        None => seq![],
    }
}

pub open spec fn spec_opt_width(key: Seq<char>, v: Option<WidthMode>) -> Seq<PropView> {
    match v {
        Some(w) => seq![(key, w.spec_text())],
        None => seq![],
    }
}

pub open spec fn spec_opt_align(key: Seq<char>, v: Option<TextAlignment>) -> Seq<PropView> {
    match v {
        Some(a) => seq![(key, a.spec_text())],
        None => seq![],
    }
}

fn opt_font(key: &str, v: &Option<Font>) -> (r: Vec<Property>)
    ensures
        props_view(r@) == spec_opt_font(key@, *v),
{
    match v {
        Some(f) => single(key, f.render()),
        None => none_args(),
    }
}

pub(crate) fn opt_width(key: &str, v: Option<WidthMode>) -> (r: Vec<Property>)
    ensures
        props_view(r@) == spec_opt_width(key@, v),
{
    match v {
        Some(w) => single(key, w.render()),
        None => none_args(),
    }
}

fn opt_align(key: &str, v: Option<TextAlignment>) -> (r: Vec<Property>)
    ensures
        props_view(r@) == spec_opt_align(key@, v),
{
    match v {
        Some(a) => single(key, a.render()),
        None => none_args(),
    }
}

impl Text {
    pub open spec fn spec_empty() -> Self {
        Text {
            drawing: None,
            highlight: None,
            color: None,
            highlight_color: None,
            padding_left: None,
            padding_right: None,
            y_offset: None,
            font: None,
            scroll_duration: None,
            max_chars: None,
            width: None,
            align: None,
            background: None,
            shadow: None,
        }
    }

    pub fn drawing(self, drawing: ToggleState) -> (r: Self)
        ensures
            r == (Text { drawing: Some(drawing), ..self }),
    {
        Text { drawing: Some(drawing), ..self }
    }

    pub fn highlight(self, highlight: ToggleState) -> (r: Self)
        ensures
            r == (Text { highlight: Some(highlight), ..self }),
    {
        Text { highlight: Some(highlight), ..self }
    }

    pub fn color(self, color: Argb) -> (r: Self)
        ensures
            r == (Text { color: Some(color), ..self }),
    {
        Text { color: Some(color), ..self }
    }

    pub fn highlight_color(self, color: Argb) -> (r: Self)
        ensures
            r == (Text { highlight_color: Some(color), ..self }),
    {
        Text { highlight_color: Some(color), ..self }
    }

    pub fn padding_left(self, padding: u32) -> (r: Self)
        ensures
            r == (Text { padding_left: Some(padding), ..self }),
    {
        Text { padding_left: Some(padding), ..self }
    }

    pub fn padding_right(self, padding: u32) -> (r: Self)
        ensures
            r == (Text { padding_right: Some(padding), ..self }),
    {
        Text { padding_right: Some(padding), ..self }
    }

    pub fn y_offset(self, offset: i32) -> (r: Self)
        ensures
            r == (Text { y_offset: Some(offset), ..self }),
    {
        Text { y_offset: Some(offset), ..self }
    }

    pub fn font(self, font: Font) -> (r: Self)
        ensures
            r == (Text { font: Some(font), ..self }),
    {
        Text { font: Some(font), ..self }
    }

    /// Sets the scroll duration, given as its decimal text.
    pub fn scroll_duration(self, duration: String) -> (r: Self)
        ensures
            r == (Text { scroll_duration: Some(duration), ..self }),
    {
        Text { scroll_duration: Some(duration), ..self }
    }

    pub fn max_chars(self, max: u32) -> (r: Self)
        ensures
            r == (Text { max_chars: Some(max), ..self }),
    {
        Text { max_chars: Some(max), ..self }
    }

    pub fn width(self, width: WidthMode) -> (r: Self)
        ensures
            r == (Text { width: Some(width), ..self }),
    {
        Text { width: Some(width), ..self }
    }

    pub fn align(self, align: TextAlignment) -> (r: Self)
        ensures
            r == (Text { align: Some(align), ..self }),
    {
        Text { align: Some(align), ..self }
    }

    pub fn background(self, background: BackgroundProps) -> (r: Self)
        ensures
            r == (Text { background: Some(background), ..self }),
    {
        Text { background: Some(background), ..self }
    }

    pub fn shadow(self, shadow: ShadowProps) -> (r: Self)
        ensures
            r == (Text { shadow: Some(shadow), ..self }),
    {
        Text { shadow: Some(shadow), ..self }
    }
}

impl Default for Text {
    fn default() -> (r: Self)
        ensures
            r == Text::spec_empty(),
    {
        Text {
            drawing: None,
            highlight: None,
            color: None,
            highlight_color: None,
            padding_left: None,
            padding_right: None,
            y_offset: None,
            font: None,
            scroll_duration: None,
            max_chars: None,
            width: None,
            align: None,
            background: None,
            shadow: None,
        }
    }
}

impl ToSketchybarArgs for Text {
    open spec fn spec_args(&self) -> Seq<PropView> {
        spec_opt_toggle("drawing"@, self.drawing) + spec_opt_toggle("highlight"@, self.highlight)
            + spec_opt_argb("color"@, self.color) + spec_opt_argb(
            "highlight_color"@,
            self.highlight_color,
        ) + spec_opt_u32("padding_left"@, self.padding_left) + spec_opt_u32(
            "padding_right"@,
            self.padding_right,
        ) + spec_opt_i32("y_offset"@, self.y_offset) + spec_opt_font("font"@, self.font)
            + spec_opt_string("scroll_duration"@, self.scroll_duration) + spec_opt_u32(
            "max_chars"@,
            self.max_chars,
        ) + spec_opt_width("width"@, self.width) + spec_opt_align("align"@, self.align)
            + spec_opt_prefixed("background."@, self.background) + spec_opt_prefixed(
            "shadow."@,
            self.shadow,
        )
    }

    fn to_sketchybar_args(&self) -> (r: Vec<Property>) {
        let a = opt_toggle("drawing", self.drawing);
        let a = then(a, opt_toggle("highlight", self.highlight));
        let a = then(a, opt_argb("color", self.color));
        let a = then(a, opt_argb("highlight_color", self.highlight_color));
        let a = then(a, opt_u32("padding_left", self.padding_left));
        let a = then(a, opt_u32("padding_right", self.padding_right));
        let a = then(a, opt_i32("y_offset", self.y_offset));
        let a = then(a, opt_font("font", &self.font));
        let a = then(a, opt_string("scroll_duration", &self.scroll_duration));
        let a = then(a, opt_u32("max_chars", self.max_chars));
        let a = then(a, opt_width("width", self.width));
        let a = then(a, opt_align("align", self.align));
        let a = then(a, opt_prefixed("background.", &self.background));
        then(a, opt_prefixed("shadow.", &self.shadow))
    }
}


// ----- geometry -------------------------------------------------------------

/// Placement and size of an item.
#[derive(Debug, Clone, PartialEq, Eq)]
pub struct Geometry {
    pub drawing: Option<ToggleState>,
    pub position: Option<ComponentPosition>,
    pub space: Option<u32>,
    pub display: Option<DisplayHandle>,
    pub ignore_association: Option<ToggleState>,
    pub y_offset: Option<i32>,
    pub padding_left: Option<u32>,
    pub padding_right: Option<u32>,
    pub width: Option<WidthMode>,
    pub blur_radius: Option<u32>,
    pub scroll_texts: Option<ToggleState>,
    pub background: Option<BackgroundProps>,
}

pub open spec fn spec_opt_position(key: Seq<char>, v: Option<ComponentPosition>) -> Seq<PropView> {
    match v {
        Some(p) => seq![(key, p.spec_text())],
        None => seq![],
    }
}

pub open spec fn spec_opt_display(key: Seq<char>, v: Option<DisplayHandle>) -> Seq<PropView> {
    match v {
        Some(d) => seq![(key, d.spec_text())],
        None => seq![],
    }
}

pub(crate) fn opt_position(key: &str, v: &Option<ComponentPosition>) -> (r: Vec<Property>)
    ensures
        props_view(r@) == spec_opt_position(key@, *v),
{
    match v {
        Some(p) => single(key, p.render()),
        None => none_args(),
    }
}

pub(crate) fn opt_display(key: &str, v: &Option<DisplayHandle>) -> (r: Vec<Property>)
    ensures
        props_view(r@) == spec_opt_display(key@, *v),
{
    match v {
        Some(d) => single(key, d.render()),
        None => none_args(),
    }
}

impl Geometry {
    pub open spec fn spec_empty() -> Self {
        Geometry {
            drawing: None,
            position: None,
            space: None,
            display: None,
            ignore_association: None,
            y_offset: None,
            padding_left: None,
            padding_right: None,
            width: None,
            blur_radius: None,
            scroll_texts: None,
            background: None,
        }
    }

    pub fn drawing(self, drawing: ToggleState) -> (r: Self)
        ensures
            r == (Geometry { drawing: Some(drawing), ..self }),
    {
        Geometry { drawing: Some(drawing), ..self }
    }

    pub fn position(self, position: ComponentPosition) -> (r: Self)
        ensures
            r == (Geometry { position: Some(position), ..self }),
    {
        Geometry { position: Some(position), ..self }
    }

    pub fn space(self, space: u32) -> (r: Self)
        ensures
            r == (Geometry { space: Some(space), ..self }),
    {
        Geometry { space: Some(space), ..self }
    }

    pub fn display(self, display: DisplayHandle) -> (r: Self)
        ensures
            r == (Geometry { display: Some(display), ..self }),
    {
        Geometry { display: Some(display), ..self }
    }

    pub fn ignore_association(self, ignore: ToggleState) -> (r: Self)
        ensures
            r == (Geometry { ignore_association: Some(ignore), ..self }),
    {
        Geometry { ignore_association: Some(ignore), ..self }
    }

    pub fn y_offset(self, offset: i32) -> (r: Self)
        ensures
            r == (Geometry { y_offset: Some(offset), ..self }),
    {
        Geometry { y_offset: Some(offset), ..self }
    }

    pub fn padding_left(self, padding: u32) -> (r: Self)
        ensures
            r == (Geometry { padding_left: Some(padding), ..self }),
    {
        Geometry { padding_left: Some(padding), ..self }
    }

    pub fn padding_right(self, padding: u32) -> (r: Self)
        ensures
            r == (Geometry { padding_right: Some(padding), ..self }),
    {
        Geometry { padding_right: Some(padding), ..self }
    }

    pub fn width(self, width: WidthMode) -> (r: Self)
        ensures
            r == (Geometry { width: Some(width), ..self }),
    {
        Geometry { width: Some(width), ..self }
    }

    pub fn blur_radius(self, radius: u32) -> (r: Self)
        ensures
            r == (Geometry { blur_radius: Some(radius), ..self }),
    {
        Geometry { blur_radius: Some(radius), ..self }
    }

    pub fn scroll_texts(self, scroll: ToggleState) -> (r: Self)
        ensures
            r == (Geometry { scroll_texts: Some(scroll), ..self }),
    {
        Geometry { scroll_texts: Some(scroll), ..self }
    }

    pub fn background(self, background: BackgroundProps) -> (r: Self)
        ensures
            r == (Geometry { background: Some(background), ..self }),
    {
        Geometry { background: Some(background), ..self }
    }
}

impl Default for Geometry {
    fn default() -> (r: Self)
        ensures
            r == Geometry::spec_empty(),
    {
        Geometry {
            drawing: None,
            position: None,
            space: None,
            display: None,
            ignore_association: None,
            y_offset: None,
            padding_left: None,
            padding_right: None,
            width: None,
            blur_radius: None,
            scroll_texts: None,
            background: None,
        }
    }
}

impl Geometry {
    /// The properties of this geometry when placed at `pos` instead of its own position.
    pub open spec fn spec_args_at(&self, pos: Option<ComponentPosition>) -> Seq<PropView> {
        spec_opt_toggle("drawing"@, self.drawing) + spec_opt_position("position"@, pos)
            + spec_opt_toggle("ignore_association"@, self.ignore_association) + spec_opt_toggle(
            "scroll_texts"@,
            self.scroll_texts,
        ) + spec_opt_i32("y_offset"@, self.y_offset) + spec_opt_u32(
            "padding_left"@,
            self.padding_left,
        ) + spec_opt_u32("padding_right"@, self.padding_right) + spec_opt_width(
            "width"@,
            self.width,
        ) + spec_opt_u32("blur_radius"@, self.blur_radius) + spec_opt_u32("space"@, self.space)
            + spec_opt_display("display"@, self.display) + spec_opt_prefixed(
            "background."@,
            self.background,
        )
    }

    /// The properties of this geometry when placed at `pos`.
    pub fn args_at(&self, pos: &Option<ComponentPosition>) -> (r: Vec<Property>)
        ensures
            props_view(r@) == self.spec_args_at(*pos),
    {
        let a = opt_toggle("drawing", self.drawing);
        let a = then(a, opt_position("position", pos));
        let a = then(a, opt_toggle("ignore_association", self.ignore_association));
        let a = then(a, opt_toggle("scroll_texts", self.scroll_texts));
        let a = then(a, opt_i32("y_offset", self.y_offset));
        let a = then(a, opt_u32("padding_left", self.padding_left));
        let a = then(a, opt_u32("padding_right", self.padding_right));
        let a = then(a, opt_width("width", self.width));
        let a = then(a, opt_u32("blur_radius", self.blur_radius));
        let a = then(a, opt_u32("space", self.space));
        let a = then(a, opt_display("display", &self.display));
        then(a, opt_prefixed("background.", &self.background))
    }
}

impl ToSketchybarArgs for Geometry {
    open spec fn spec_args(&self) -> Seq<PropView> {
        self.spec_args_at(self.position)
    }

    fn to_sketchybar_args(&self) -> (r: Vec<Property>) {
        self.args_at(&self.position)
    }
}

// ----- scripting ------------------------------------------------------------

/// The scripts attached to an item and when they run.
#[derive(Debug, Clone, PartialEq, Eq)]
pub struct Scripting {
    pub script: Option<ScriptType>,
    pub click_script: Option<ScriptType>,
    pub update_freq: Option<u32>,
    pub updates: Option<UpdateMode>,
    pub mach_helper: Option<String>,
}

pub open spec fn spec_opt_script(key: Seq<char>, v: Option<ScriptType>) -> Seq<PropView> {
    match v {
        Some(s) => seq![(key, s.spec_text())],
        None => seq![],
    }
}

pub open spec fn spec_opt_updates(key: Seq<char>, v: Option<UpdateMode>) -> Seq<PropView> {
    match v {
        Some(u) => seq![(key, u.spec_text())],
        None => seq![],
    }
}

pub(crate) fn opt_script(key: &str, v: &Option<ScriptType>) -> (r: Vec<Property>)
    ensures
        props_view(r@) == spec_opt_script(key@, *v),
{
    match v {
        Some(s) => single(key, s.render()),
        None => none_args(),
    }
}

fn opt_updates(key: &str, v: Option<UpdateMode>) -> (r: Vec<Property>)
    ensures
        props_view(r@) == spec_opt_updates(key@, v),
{
    match v {
        Some(u) => single(key, u.render()),
        None => none_args(),
    }
}

impl Scripting {
    pub open spec fn spec_empty() -> Self {
        Scripting { script: None, click_script: None, update_freq: None, updates: None, mach_helper: None }
    }

}

impl Default for Scripting {
    fn default() -> (r: Self)
        ensures
            r == Scripting::spec_empty(),
    {
        Scripting { script: None, click_script: None, update_freq: None, updates: None, mach_helper: None }
    }
}

impl ToSketchybarArgs for Scripting {
    open spec fn spec_args(&self) -> Seq<PropView> {
        spec_opt_u32("update_freq"@, self.update_freq) + spec_opt_updates(
            "updates"@,
            self.updates,
        ) + spec_opt_script("script"@, self.script) + spec_opt_script(
            "click_script"@,
            self.click_script,
        ) + spec_opt_string("mach_helper"@, self.mach_helper)
    }

    fn to_sketchybar_args(&self) -> (r: Vec<Property>) {
        let a = opt_u32("update_freq", self.update_freq);
        let a = then(a, opt_updates("updates", self.updates));
        let a = then(a, opt_script("script", &self.script));
        let a = then(a, opt_script("click_script", &self.click_script));
        then(a, opt_string("mach_helper", &self.mach_helper))
    }
}

// ----- icon and label ---------------------------------------------------------

/// An item's icon: its text and its text settings.
#[derive(Debug, Clone, PartialEq, Eq)]
pub struct Icon {
    pub icon: Option<String>,
    pub props: Option<Text>,
}

impl Icon {
    pub open spec fn spec_empty() -> Self {
        Icon { icon: None, props: None }
    }

    /// No text and no settings.
    pub fn new() -> (r: Self)
        ensures
            r == Icon::spec_empty(),
    {
        Icon { icon: None, props: None }
    }
}

impl Default for Icon {
    fn default() -> (r: Self)
        ensures
            r == Icon::spec_empty(),
    {
        Icon { icon: None, props: None }
    }
}

impl ToSketchybarArgs for Icon {
    open spec fn spec_args(&self) -> Seq<PropView> {
        spec_opt_string("icon"@, self.icon) + spec_opt_prefixed("icon."@, self.props)
    }

    fn to_sketchybar_args(&self) -> (r: Vec<Property>) {
        then(opt_string("icon", &self.icon), opt_prefixed("icon.", &self.props))
    }
}

/// An item's label: its text and its text settings.
#[derive(Debug, Clone, PartialEq, Eq)]
pub struct Label {
    pub label: Option<String>,
    pub props: Option<Text>,
}

impl Label {
    pub open spec fn spec_empty() -> Self {
        Label { label: None, props: None }
    }

    /// No text and no settings.
    pub fn new() -> (r: Self)
        ensures
            r == Label::spec_empty(),
    {
        Label { label: None, props: None }
    }
}

impl Default for Label {
    fn default() -> (r: Self)
        ensures
            r == Label::spec_empty(),
    {
        Label { label: None, props: None }
    }
}

impl ToSketchybarArgs for Label {
    open spec fn spec_args(&self) -> Seq<PropView> {
        spec_opt_string("label"@, self.label) + spec_opt_prefixed("label."@, self.props)
    }

    fn to_sketchybar_args(&self) -> (r: Vec<Property>) {
        then(opt_string("label", &self.label), opt_prefixed("label.", &self.props))
    }
}

// ----- popup ------------------------------------------------------------------

/// Settings of an item's popup.
#[derive(Debug, Clone, PartialEq, Eq)]
pub struct PopupProps {
    pub drawing: Option<ToggleState>,
    pub horizontal: Option<ToggleState>,
    pub topmost: Option<ToggleState>,
    pub height: Option<u32>,
    pub blur_radius: Option<u32>,
    pub y_offset: Option<i32>,
    pub align: Option<PopupAlign>,
    pub background: Option<BackgroundProps>,
}

pub open spec fn spec_opt_popup_align(key: Seq<char>, v: Option<PopupAlign>) -> Seq<PropView> {
    match v {
        Some(a) => seq![(key, a.spec_text())],
        None => seq![],
    }
}

fn opt_popup_align(key: &str, v: Option<PopupAlign>) -> (r: Vec<Property>)
    ensures
        props_view(r@) == spec_opt_popup_align(key@, v),
{
    match v {
        Some(a) => single(key, a.render()),
        None => none_args(),
    }
}

impl PopupProps {
    pub open spec fn spec_empty() -> Self {
        PopupProps {
            drawing: None,
            horizontal: None,
            topmost: None,
            height: None,
            blur_radius: None,
            y_offset: None,
            align: None,
            background: None,
        }
    }

    pub fn drawing(self, drawing: ToggleState) -> (r: Self)
        ensures
            r == (PopupProps { drawing: Some(drawing), ..self }),
    {
        PopupProps { drawing: Some(drawing), ..self }
    }

    pub fn horizontal(self, horizontal: ToggleState) -> (r: Self)
        ensures
            r == (PopupProps { horizontal: Some(horizontal), ..self }),
    {
        PopupProps { horizontal: Some(horizontal), ..self }
    }

    pub fn topmost(self, topmost: ToggleState) -> (r: Self)
        ensures
            r == (PopupProps { topmost: Some(topmost), ..self }),
    {
        PopupProps { topmost: Some(topmost), ..self }
    }

    pub fn height(self, height: u32) -> (r: Self)
        ensures
            r == (PopupProps { height: Some(height), ..self }),
    {
        PopupProps { height: Some(height), ..self }
    }

    pub fn blur_radius(self, radius: u32) -> (r: Self)
        ensures
            r == (PopupProps { blur_radius: Some(radius), ..self }),
    {
        PopupProps { blur_radius: Some(radius), ..self }
    }

    pub fn y_offset(self, offset: i32) -> (r: Self)
        ensures
            r == (PopupProps { y_offset: Some(offset), ..self }),
    {
        PopupProps { y_offset: Some(offset), ..self }
    }

    pub fn align(self, align: PopupAlign) -> (r: Self)
        ensures
            r == (PopupProps { align: Some(align), ..self }),
    {
        PopupProps { align: Some(align), ..self }
    }

    /// Replaces the background by `f` applied to the current one (or to an
    /// empty background when none is set).
    pub fn background<F: FnOnce(BackgroundProps) -> BackgroundProps>(self, f: F) -> (r: Self)
        requires
            call_requires(f, (spec_or_empty_background(self.background),)),
        ensures
            r.background matches Some(b) && call_ensures(
                f,
                (spec_or_empty_background(self.background),),
                b,
            ),
            r == (PopupProps { background: r.background, ..self }),
    {
        let cur = match self.background {
            Some(b) => b,
            None => BackgroundProps::default(),
        };
        PopupProps { background: Some(f(cur)), ..self }
    }
}

/// The background that is set, or an empty one.
/// The image settings that are set, or empty ones.
pub open spec fn spec_or_empty_image(v: Option<ImageProps>) -> ImageProps {
    match v {
        Some(i) => i,
        None => ImageProps::spec_empty(),
    }
}

pub open spec fn spec_or_empty_background(v: Option<BackgroundProps>) -> BackgroundProps {
    match v {
        Some(b) => b,
        None => BackgroundProps::spec_empty(),
    }
}

impl Default for PopupProps {
    fn default() -> (r: Self)
        ensures
            r == PopupProps::spec_empty(),
    {
        PopupProps {
            drawing: None,
            horizontal: None,
            topmost: None,
            height: None,
            blur_radius: None,
            y_offset: None,
            align: None,
            background: None,
        }
    }
}

impl ToSketchybarArgs for PopupProps {
    open spec fn spec_args(&self) -> Seq<PropView> {
        spec_opt_toggle("popup.topmost"@, self.topmost) + spec_opt_popup_align(
            "popup.align"@,
            self.align,
        ) + spec_opt_toggle("popup.drawing"@, self.drawing) + spec_opt_i32(
            "popup.y_offset"@,
            self.y_offset,
        ) + spec_opt_u32("popup.blur_radius"@, self.blur_radius) + spec_opt_toggle(
            "popup.horizontal"@,
            self.horizontal,
        ) + spec_opt_prefixed("popup.background."@, self.background)
    }

    fn to_sketchybar_args(&self) -> (r: Vec<Property>) {
        let a = opt_toggle("popup.topmost", self.topmost);
        let a = then(a, opt_popup_align("popup.align", self.align));
        let a = then(a, opt_toggle("popup.drawing", self.drawing));
        let a = then(a, opt_i32("popup.y_offset", self.y_offset));
        let a = then(a, opt_u32("popup.blur_radius", self.blur_radius));
        let a = then(a, opt_toggle("popup.horizontal", self.horizontal));
        then(a, opt_prefixed("popup.background.", &self.background))
    }
}

/// Popup settings in the older form: the alignment is always given, the
/// drawing state as its word.
#[derive(Debug, Clone, PartialEq, Eq)]
pub struct PopupProperties {
    pub align: PopupAlign,
    pub background: Option<BackgroundProps>,
    pub drawing: Option<String>,
    pub blur_radius: Option<u32>,
    pub horizontal: Option<bool>,
}

impl PopupProperties {
    pub open spec fn spec_default() -> Self {
        PopupProperties {
            align: PopupAlign::Center,
            background: None,
            drawing: None,
            blur_radius: None,
            horizontal: None,
        }
    }
}

impl Default for PopupProperties {
    fn default() -> (r: Self)
        ensures
            r == PopupProperties::spec_default(),
    {
        PopupProperties {
            align: PopupAlign::Center,
            background: None,
            drawing: None,
            blur_radius: None,
            horizontal: None,
        }
    }
}

impl ToSketchybarArgs for PopupProperties {
    open spec fn spec_args(&self) -> Seq<PropView> {
        seq![("popup.align"@, self.align.spec_text())] + spec_opt_string(
            "popup.drawing"@,
            self.drawing,
        ) + spec_opt_u32("popup.blur_radius"@, self.blur_radius) + spec_opt_bool(
            "popup.horizontal"@,
            self.horizontal,
        ) + spec_opt_prefixed("popup.background."@, self.background)
    }

    fn to_sketchybar_args(&self) -> (r: Vec<Property>) {
        let a = single("popup.align", self.align.render());
        let a = then(a, opt_string("popup.drawing", &self.drawing));
        let a = then(a, opt_u32("popup.blur_radius", self.blur_radius));
        let a = then(a, opt_bool("popup.horizontal", self.horizontal));
        then(a, opt_prefixed("popup.background.", &self.background))
    }
}

impl Argb {
    /// A background of this color and nothing else set.
    pub fn into_background(self) -> (r: BackgroundProps)
        ensures
            r == (BackgroundProps { color: Some(self), ..BackgroundProps::spec_empty() }),
    {
        BackgroundProps::default().color(self)
    }

    /// Text settings of this color and nothing else set.
    pub fn into_text(self) -> (r: Text)
        ensures
            r == (Text { color: Some(self), ..Text::spec_empty() }),
    {
        Text::default().color(self)
    }
}

// ----- item -------------------------------------------------------------------

/// Everything that can be set on an item.
#[derive(Debug, Clone, PartialEq, Eq)]
pub struct ItemProps {
    pub geometry: Geometry,
    pub icon: Icon,
    pub label: Label,
    pub scripting: Scripting,
    pub text: Option<Text>,
    pub popup: Option<PopupProps>,
}

impl ItemProps {
    pub open spec fn spec_empty() -> Self {
        ItemProps {
            geometry: Geometry::spec_empty(),
            icon: Icon::spec_empty(),
            label: Label::spec_empty(),
            scripting: Scripting::spec_empty(),
            text: None,
            popup: None,
        }
    }
}

impl Default for ItemProps {
    fn default() -> (r: Self)
        ensures
            r == ItemProps::spec_empty(),
    {
        ItemProps {
            geometry: Geometry::default(),
            icon: Icon::default(),
            label: Label::default(),
            scripting: Scripting::default(),
            text: None,
            popup: None,
        }
    }
}

impl ItemProps {
    /// The properties of an item placed at `pos` instead of its own position.
    #[verifier::opaque]
    pub open spec fn spec_args_at(&self, pos: Option<ComponentPosition>) -> Seq<PropView> {
        self.geometry.spec_args_at(pos) + self.icon.spec_args() + self.label.spec_args()
            + self.scripting.spec_args() + spec_opt_args(self.text) + spec_opt_args(self.popup)
    }

    /// The properties of an item placed at `pos`.
    pub fn args_at(&self, pos: &Option<ComponentPosition>) -> (r: Vec<Property>)
        ensures
            props_view(r@) == self.spec_args_at(*pos),
    {
        reveal(ItemProps::spec_args_at);
        let a = self.geometry.args_at(pos);
        let a = then(a, self.icon.to_sketchybar_args());
        let a = then(a, self.label.to_sketchybar_args());
        let a = then(a, self.scripting.to_sketchybar_args());
        let a = then(a, opt_args(&self.text));
        then(a, opt_args(&self.popup))
    }
}

impl ToSketchybarArgs for ItemProps {
    open spec fn spec_args(&self) -> Seq<PropView> {
        self.spec_args_at(self.geometry.position)
    }

    fn to_sketchybar_args(&self) -> (r: Vec<Property>) {
        self.args_at(&self.geometry.position)
    }
}

/// Item properties in which only the icon text and the label text may be set.
pub open spec fn spec_texts_only(p: ItemProps) -> bool {
    &&& p.geometry == Geometry::spec_empty()
    &&& p.icon.props is None
    &&& p.label.props is None
    &&& p.scripting == Scripting::spec_empty()
    &&& p.text is None
    &&& p.popup is None
}

/// The settings of an item with only an icon text and a label text are
/// those two, in that order.
pub proof fn lemma_texts_only_args(p: ItemProps)
    requires
        spec_texts_only(p),
    ensures
        p.spec_args() == spec_opt_string("icon"@, p.icon.icon) + spec_opt_string(
            "label"@,
            p.label.label,
        ),
{
    reveal(ItemProps::spec_args_at);
    assert(p.geometry.spec_args_at(None) =~= Seq::<PropView>::empty());
    assert(p.scripting.spec_args() =~= Seq::<PropView>::empty());
    assert(p.icon.spec_args() =~= spec_opt_string("icon"@, p.icon.icon));
    assert(p.label.spec_args() =~= spec_opt_string("label"@, p.label.label));
    assert(p.spec_args() =~= spec_opt_string("icon"@, p.icon.icon) + spec_opt_string(
        "label"@,
        p.label.label,
    ));
}

/// Shadow settings with every value given.
#[derive(Debug, Clone, PartialEq, Eq, Structural)]
pub struct ShadowProperties {
    pub drawing: bool,
    pub color: Argb,
    pub angle: u32,
    pub distance: u32,
}

impl Default for ShadowProperties {
    /// No shadow, black, at 30 degrees and 5 points away.
    fn default() -> (r: Self)
        ensures
            r == (ShadowProperties {
                drawing: false,
                color: Argb { a: 255, r: 0, g: 0, b: 0 },
                angle: 30,
                distance: 5,
            }),
    {
        ShadowProperties { drawing: false, color: Argb::black(), angle: 30, distance: 5 }
    }
}

impl ToSketchybarArgs for ShadowProperties {
    open spec fn spec_args(&self) -> Seq<PropView> {
        seq![
            ("drawing"@, crate::types::spec_bool_text(self.drawing)),
            ("color"@, crate::types::spec_argb_text(self.color)),
            ("angle"@, spec_dec(self.angle as nat)),
            ("distance"@, spec_dec(self.distance as nat)),
        ]
    }

    fn to_sketchybar_args(&self) -> (r: Vec<Property>) {
        let a = single("drawing", crate::types::SketchyBool::to_on_off(&self.drawing));
        let a = then(a, single("color", self.color.render()));
        let a = then(a, single("angle", crate::pieces::dec_u32(self.angle)));
        let r = then(a, single("distance", crate::pieces::dec_u32(self.distance)));
        assert(props_view(r@) =~= self.spec_args());
        r
    }
}

} // verus!

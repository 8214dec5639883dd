//! Core value types: properties, colors, fonts and the small enumerations
//! that sketchybar accepts as property values.

use vstd::prelude::*;
use crate::text::{chars_of, concat2, push_char, push_dec, push_hex2, spec_dec, spec_hex2, spec_hex_digit, string_of};

verus! {

/// The abstract value of a property: its name and its value.
pub type PropView = (Seq<char>, Seq<char>);

/// A single `name=value` setting passed to sketchybar.
pub struct Property {
    pub property: String,
    pub value: String,
}

impl View for Property {
    type V = PropView;

    open spec fn view(&self) -> PropView {
        (self.property@, self.value@)
    }
}

/// The abstract values of a sequence of properties.
pub open spec fn props_view(s: Seq<Property>) -> Seq<PropView> {
    s.map_values(|p: Property| p@)
}

/// The command-line form of a property: `name=value`.
pub open spec fn spec_render_prop(p: PropView) -> Seq<char> {
    p.0 + seq!['='] + p.1
}

/// Every property name in `s` prefixed with `pre`.
pub open spec fn spec_prefixed(pre: Seq<char>, s: Seq<PropView>) -> Seq<PropView> {
    s.map_values(|p: PropView| (pre + p.0, p.1))
}

/// The command-line forms of a sequence of properties.
pub open spec fn spec_render_props(s: Seq<PropView>) -> Seq<Seq<char>> {
    s.map_values(|p: PropView| spec_render_prop(p))
}

/// The view of the concatenation of two property sequences is the
/// concatenation of their views.
pub proof fn lemma_props_view_add(a: Seq<Property>, b: Seq<Property>)
    ensures
        props_view(a + b) == props_view(a) + props_view(b),
{
    assert(props_view(a + b) =~= props_view(a) + props_view(b));
}

impl Property {
    pub fn new(property: &str, value: &str) -> (r: Self)
        ensures
            r@ == (property@, value@),
    {
        Property { property: string_of(property), value: string_of(value) }
    }

    /// A property from an owned value.
    pub fn with_value(property: &str, value: String) -> (r: Self)
        ensures
            r@ == (property@, value@),
    {
        Property { property: string_of(property), value }
    }

    /// The command-line form `name=value`.
    pub fn render(&self) -> (r: String)
        ensures
            r@ == spec_render_prop(self@),
    {
        let mut s = self.property.clone();
        push_char(&mut s, '=');
        s.append(self.value.as_str());
        assert(s@ =~= spec_render_prop(self@));
        s
    }
}

/// A list holding exactly one property.
pub fn single(property: &str, value: String) -> (r: Vec<Property>)
    ensures
        props_view(r@) == seq![(property@, value@)],
{
    let mut v = Vec::new();
    v.push(Property::with_value(property, value));
    assert(props_view(v@) =~= seq![(property@, value@)]);
    v
}

/// Appends `other` to `args`.
pub fn extend_args(args: &mut Vec<Property>, other: Vec<Property>)
    ensures
        props_view(final(args)@) == props_view(old(args)@) + props_view(other@),
{
    let mut o = other;
    proof {
        lemma_props_view_add(args@, o@);
    }
    args.append(&mut o);
}

/// The properties of `v`, each name prefixed with `pre`.
pub fn prefixed(pre: &str, v: Vec<Property>) -> (r: Vec<Property>)
    ensures
        props_view(r@) == spec_prefixed(pre@, props_view(v@)),
{
    let mut out: Vec<Property> = Vec::new();
    let mut i: usize = 0;
    while i < v.len()
        invariant
            i <= v@.len(),
            out@.len() == i,
            forall|k: int| 0 <= k < i ==> #[trigger] out@[k]@ == (pre@ + v@[k]@.0, v@[k]@.1),
        decreases v@.len() - i,
    {
        let p = &v[i];
        let name = concat2(pre, p.property.as_str());
        out.push(Property { property: name, value: p.value.clone() });
        i = i + 1;
    }
    assert(props_view(out@) =~= spec_prefixed(pre@, props_view(v@)));
    out
}

/// The command-line forms of a list of properties.
pub fn render_props(v: &Vec<Property>) -> (r: Vec<String>)
    ensures
        r@.map_values(|s: String| s@) == spec_render_props(props_view(v@)),
{
    let mut out: Vec<String> = Vec::new();
    let mut i: usize = 0;
    while i < v.len()
        invariant
            i <= v@.len(),
            out@.len() == i,
            forall|k: int| 0 <= k < i ==> #[trigger] out@[k]@ == spec_render_prop(v@[k]@),
        decreases v@.len() - i,
    {
        out.push(v[i].render());
        i = i + 1;
    }
    assert(out@.map_values(|s: String| s@) =~= spec_render_props(props_view(v@)));
    out
}

/// Anything that renders to a list of sketchybar properties.
pub trait ToSketchybarArgs {
    /// The properties this value renders to.
    spec fn spec_args(&self) -> Seq<PropView>;

    fn to_sketchybar_args(&self) -> (r: Vec<Property>)
        ensures
            props_view(r@) == self.spec_args(),
    ;
}

/// Values rendered as sketchybar's `on` / `off` words.
pub trait SketchyBool {
    spec fn spec_on_off(&self) -> Seq<char>;

    fn to_on_off(&self) -> (r: String)
        ensures
            r@ == self.spec_on_off(),
    ;
}

/// `on` for true, `off` for false.
pub open spec fn spec_bool_text(b: bool) -> Seq<char> {
    if b {
        "on"@
    } else {
        "off"@
    }
}

impl SketchyBool for bool {
    open spec fn spec_on_off(&self) -> Seq<char> {
        spec_bool_text(*self)
    }

    fn to_on_off(&self) -> (r: String) {
        if *self {
            string_of("on")
        } else {
            string_of("off")
        }
    }
}

/// A three-way switch: on, off, or flip the current state.
#[derive(Debug, Clone, Copy, PartialEq, Eq, Structural)]
pub enum ToggleState {
    On,
    Off,
    Toggle,
}

impl ToggleState {
    pub open spec fn spec_text(self) -> Seq<char> {
        match self {
            ToggleState::On => "on"@,
            ToggleState::Off => "off"@,
            ToggleState::Toggle => "toggle"@,
        }
    }

    /// The word sketchybar uses for this state.
    pub fn render(&self) -> (r: String)
        ensures
            r@ == self.spec_text(),
    {
        match self {
            ToggleState::On => string_of("on"),
            ToggleState::Off => string_of("off"),
            ToggleState::Toggle => string_of("toggle"),
        }
    }
}

impl SketchyBool for ToggleState {
    open spec fn spec_on_off(&self) -> Seq<char> {
        self.spec_text()
    }

    fn to_on_off(&self) -> (r: String) {
        self.render()
    }
}


/// A color with alpha, red, green and blue channels.
#[derive(Debug, Clone, Copy, PartialEq, Eq, Structural)]
pub struct Argb {
    pub a: u8,
    pub r: u8,
    pub g: u8,
    pub b: u8,
}

/// The value of a hexadecimal digit, if the character is one.
pub open spec fn spec_hex_value(c: char) -> Option<nat> {
    if '0' <= c && c <= '9' {
        Some((c as nat - 48) as nat)
    } else if 'a' <= c && c <= 'f' {
        Some((c as nat - 87) as nat)
    } else if 'A' <= c && c <= 'F' {
        Some((c as nat - 55) as nat)
    } else {
        None
    }
}

/// How a two-character field parses as a base-16 byte: an optional leading
/// `+` sign is accepted, as `u8::from_str_radix` does.
pub open spec fn spec_parse_byte(c1: char, c2: char) -> Option<u8> {
    if c1 == '+' {
        match spec_hex_value(c2) {
            Some(v) => Some(v as u8),
            None => None,
        }
    } else {
        match (spec_hex_value(c1), spec_hex_value(c2)) {
            (Some(h), Some(l)) => Some((16 * h + l) as u8),
            _ => None,
        }
    }
}

/// The message of a rejected color that does not start with `0x`.
pub open spec fn spec_prefix_error() -> Seq<char> {
    "ARGB must start with 0x"@
}

/// The message of a rejected color with a character that is not a hex digit.
pub open spec fn spec_digit_error() -> Seq<char> {
    "invalid digit found in string"@
}

/// A character below 128.
pub open spec fn is_ascii_char(c: char) -> bool {
    (c as u32) < 128
}

/// The characters of `s` from `lo` up to `hi` are ASCII.
pub open spec fn ascii_range(s: Seq<char>, lo: int, hi: int) -> bool {
    forall|i: int| lo <= i < hi ==> is_ascii_char(#[trigger] s[i])
}

/// The inputs on which parsing a color does not slice a string out of
/// bounds or inside a character.
pub open spec fn argb_parse_defined(s: Seq<char>) -> bool {
    &&& s.len() >= 2
    &&& ascii_range(s, 0, 2)
    &&& (s[0] == '0' && s[1] == 'x') ==> (s.len() >= 10 && ascii_range(s, 2, 10))
}

/// The outcome of parsing `0xAARRGGBB` (only the first ten characters count).
pub open spec fn spec_parse_argb(s: Seq<char>) -> Result<(u8, u8, u8, u8), Seq<char>> {
    if !(s[0] == '0' && s[1] == 'x') {
        Err(spec_prefix_error())
    } else {
        match (
            spec_parse_byte(s[2], s[3]),
            spec_parse_byte(s[4], s[5]),
            spec_parse_byte(s[6], s[7]),
            spec_parse_byte(s[8], s[9]),
        ) {
            (Some(a), Some(r), Some(g), Some(b)) => Ok((a, r, g, b)),
            _ => Err(spec_digit_error()),
        }
    }
}

fn hex_value(c: char) -> (r: Option<u8>)
    ensures
        r matches Some(v) ==> spec_hex_value(c) == Some(v as nat),
        r is None ==> spec_hex_value(c) is None,
{
    if '0' <= c && c <= '9' {
        Some((c as u32 - 48) as u8)
    } else if 'a' <= c && c <= 'f' {
        Some((c as u32 - 87) as u8)
    } else if 'A' <= c && c <= 'F' {
        Some((c as u32 - 55) as u8)
    } else {
        None
    }
}

fn parse_byte(c1: char, c2: char) -> (r: Option<u8>)
    ensures
        r == spec_parse_byte(c1, c2),
{
    if c1 == '+' {
        hex_value(c2)
    } else {
        match (hex_value(c1), hex_value(c2)) {
            (Some(h), Some(l)) => Some(16 * h + l),
            _ => None,
        }
    }
}

/// The `0xaarrggbb` rendering of a color, lowercase.
pub open spec fn spec_argb_text(c: Argb) -> Seq<char> {
    seq!['0', 'x'] + spec_hex2(c.a) + spec_hex2(c.r) + spec_hex2(c.g) + spec_hex2(c.b)
}

impl Argb {
    pub fn new(a: u8, r: u8, g: u8, b: u8) -> (c: Self)
        ensures
            c == (Argb { a, r, g, b }),
    {
        Argb { a, r, g, b }
    }

    /// Fully transparent black.
    pub fn transparent() -> (c: Self)
        ensures
            c == (Argb { a: 0, r: 0, g: 0, b: 0 }),
    {
        Argb { a: 0, r: 0, g: 0, b: 0 }
    }

    /// Opaque black.
    pub fn black() -> (c: Self)
        ensures
            c == (Argb { a: 255, r: 0, g: 0, b: 0 }),
    {
        Argb { a: 255, r: 0, g: 0, b: 0 }
    }

    /// The color whose channels are the bytes of `0xAARRGGBB`.
    pub fn from_u32(hex: u32) -> (c: Self)
        ensures
            c == spec_argb_of_u32(hex),
            c.a == hex / 0x1000000,
            c.r == (hex / 0x10000) % 256,
            c.g == (hex / 0x100) % 256,
            c.b == hex % 256,
    {
        let a = ((hex >> 24u32) & 0xff) as u8;
        let r = ((hex >> 16u32) & 0xff) as u8;
        let g = ((hex >> 8u32) & 0xff) as u8;
        let b = (hex & 0xff) as u8;
        assert(((hex >> 24u32) & 0xff) == hex / 0x1000000) by (bit_vector);
        assert(((hex >> 16u32) & 0xff) == (hex / 0x10000) % 256) by (bit_vector);
        assert(((hex >> 8u32) & 0xff) == (hex / 0x100) % 256) by (bit_vector);
        assert((hex & 0xff) == hex % 256) by (bit_vector);
        Argb { a, r, g, b }
    }

    /// Parses `0xAARRGGBB`.
    pub fn parse(s: &str) -> (r: Result<Argb, String>)
        requires
            argb_parse_defined(s@),
        ensures
            match spec_parse_argb(s@) {
                Ok((a, rr, g, b)) => r == Ok::<Argb, String>(Argb { a, r: rr, g, b }),
                Err(e) => r matches Err(m) && m@ == e,
            },
    {
        let c = chars_of(s);
        if !(c[0] == '0' && c[1] == 'x') {
            return Err(string_of("ARGB must start with 0x"));
        }
        let a = parse_byte(c[2], c[3]);
        let r = parse_byte(c[4], c[5]);
        let g = parse_byte(c[6], c[7]);
        let b = parse_byte(c[8], c[9]);
        match (a, r, g, b) {
            (Some(a), Some(r), Some(g), Some(b)) => Ok(Argb { a, r, g, b }),
            _ => Err(string_of("invalid digit found in string")),
        }
    }

    /// The `0xaarrggbb` form sketchybar reads.
    pub fn render(&self) -> (s: String)
        ensures
            s@ == spec_argb_text(*self),
    {
        let mut s = string_of("0x");
        proof {
            reveal_strlit("0x");
        }
        push_hex2(&mut s, self.a);
        push_hex2(&mut s, self.r);
        push_hex2(&mut s, self.g);
        push_hex2(&mut s, self.b);
        assert(s@ =~= spec_argb_text(*self));
        s
    }
}

proof fn lemma_hex_digit_value(d: nat)
    requires
        d < 16,
    ensures
        spec_hex_value(spec_hex_digit(d)) == Some(d),
        is_ascii_char(spec_hex_digit(d)),
        spec_hex_digit(d) != '+',
{
}

proof fn lemma_parse_hex2(b: u8)
    ensures
        spec_parse_byte(spec_hex2(b)[0], spec_hex2(b)[1]) == Some(b),
        is_ascii_char(spec_hex2(b)[0]),
        is_ascii_char(spec_hex2(b)[1]),
{
    lemma_hex_digit_value((b / 16) as nat);
    lemma_hex_digit_value((b % 16) as nat);
}

/// The color whose channels are the bytes of the word `0xAARRGGBB`.
pub open spec fn spec_argb_of_u32(h: u32) -> Argb {
    Argb {
        a: (h / 0x1000000) as u8,
        r: ((h / 0x10000) % 256) as u8,
        g: ((h / 0x100) % 256) as u8,
        b: (h % 256) as u8,
    }
}

/// `0x` and the eight lowercase hexadecimal digits of `h`, most significant
/// first (`format!("0x{:08x}", h)`).
pub open spec fn spec_hex_word(h: u32) -> Seq<char> {
    seq![
        '0',
        'x',
        spec_hex_digit(((h / 0x10000000) % 16) as nat),
        spec_hex_digit(((h / 0x1000000) % 16) as nat),
        spec_hex_digit(((h / 0x100000) % 16) as nat),
        spec_hex_digit(((h / 0x10000) % 16) as nat),
        spec_hex_digit(((h / 0x1000) % 16) as nat),
        spec_hex_digit(((h / 0x100) % 16) as nat),
        spec_hex_digit(((h / 0x10) % 16) as nat),
        spec_hex_digit((h % 16) as nat),
    ]
}

/// The color of a word renders as the word in hexadecimal, and parsing that
/// text gives back the word's four bytes.
pub proof fn lemma_argb_of_u32_text(h: u32)
    ensures
        spec_argb_text(spec_argb_of_u32(h)) == spec_hex_word(h),
        spec_parse_argb(spec_hex_word(h)) == Ok::<(u8, u8, u8, u8), Seq<char>>(
            (
                (h / 0x1000000) as u8,
                ((h / 0x10000) % 256) as u8,
                ((h / 0x100) % 256) as u8,
                (h % 256) as u8,
            ),
        ),
{
    let c = spec_argb_of_u32(h);
    assert(h / 0x1000000 < 256) by (bit_vector);
    assert((h / 0x1000000) / 16 == (h / 0x10000000) % 16) by (bit_vector);
    assert((h / 0x1000000) % 16 == (h / 0x1000000) % 16) by (bit_vector);
    assert(((h / 0x10000) % 256) / 16 == (h / 0x100000) % 16) by (bit_vector);
    assert(((h / 0x10000) % 256) % 16 == (h / 0x10000) % 16) by (bit_vector);
    assert(((h / 0x100) % 256) / 16 == (h / 0x1000) % 16) by (bit_vector);
    assert(((h / 0x100) % 256) % 16 == (h / 0x100) % 16) by (bit_vector);
    assert((h % 256) / 16 == (h / 0x10) % 16) by (bit_vector);
    assert((h % 256) % 16 == h % 16) by (bit_vector);
    assert(c.a == h / 0x1000000);
    assert(spec_argb_text(c) =~= spec_hex_word(h));
    lemma_parse_render_argb(c);
}

/// Parsing the rendering of a color gives the color back.
pub proof fn lemma_parse_render_argb(c: Argb)
    ensures
        argb_parse_defined(spec_argb_text(c)),
        spec_parse_argb(spec_argb_text(c)) == Ok::<(u8, u8, u8, u8), Seq<char>>((c.a, c.r, c.g, c.b)),
{
    let t = spec_argb_text(c);
    lemma_parse_hex2(c.a);
    lemma_parse_hex2(c.r);
    lemma_parse_hex2(c.g);
    lemma_parse_hex2(c.b);
    assert(t.len() == 10);
    assert(t[2] == spec_hex2(c.a)[0] && t[3] == spec_hex2(c.a)[1]);
    assert(t[4] == spec_hex2(c.r)[0] && t[5] == spec_hex2(c.r)[1]);
    assert(t[6] == spec_hex2(c.g)[0] && t[7] == spec_hex2(c.g)[1]);
    assert(t[8] == spec_hex2(c.b)[0] && t[9] == spec_hex2(c.b)[1]);
    assert(ascii_range(t, 0, 10));
}

impl Default for Argb {
    fn default() -> (c: Self)
        ensures
            c == (Argb { a: 0, r: 0, g: 0, b: 0 }),
    {
        Argb::transparent()
    }
}

/// Font weights and slants.
#[derive(Debug, Clone, Copy, PartialEq, Eq, Structural)]
pub enum FontStyle {
    Regular,
    Bold,
    Italic,
    BoldItalic,
}

impl FontStyle {
    pub open spec fn spec_text(self) -> Seq<char> {
        match self {
            FontStyle::Regular => "Regular"@,
            FontStyle::Bold => "Bold"@,
            FontStyle::Italic => "Italic"@,
            FontStyle::BoldItalic => "BoldItalic"@,
        }
    }

    pub fn render(&self) -> (r: String)
        ensures
            r@ == self.spec_text(),
    {
        match self {
            FontStyle::Regular => string_of("Regular"),
            FontStyle::Bold => string_of("Bold"),
            FontStyle::Italic => string_of("Italic"),
            FontStyle::BoldItalic => string_of("BoldItalic"),
        }
    }
}

/// A font: family, style and size. The size is held as the decimal text
/// sketchybar receives (for instance `14` or `12.5`).
#[derive(Debug, Clone, PartialEq, Eq)]
pub struct Font {
    pub family: String,
    pub style: FontStyle,
    pub size: String,
}

impl Font {
    /// `family:style:size`.
    pub open spec fn spec_text(self) -> Seq<char> {
        self.family@ + seq![':'] + self.style.spec_text() + seq![':'] + self.size@
    }

    pub fn render(&self) -> (r: String)
        ensures
            r@ == self.spec_text(),
    {
        let mut s = self.family.clone();
        push_char(&mut s, ':');
        s.append(self.style.render().as_str());
        push_char(&mut s, ':');
        s.append(self.size.as_str());
        assert(s@ =~= self.spec_text());
        s
    }
}

/// The text of a JetBrainsMono Nerd Font of the given style and size.
pub open spec fn spec_nerd_font_text(style: FontStyle, size: Seq<char>) -> Seq<char> {
    "JetBrainsMono Nerd Font"@ + seq![':'] + style.spec_text() + seq![':'] + size
}

/// A JetBrainsMono Nerd Font of the given style and size.
pub fn nerd_font(style: FontStyle, size: &str) -> (f: Font)
    ensures
        f.family@ == "JetBrainsMono Nerd Font"@,
        f.style == style,
        f.size@ == size@,
        f.spec_text() == spec_nerd_font_text(style, size@),
{
    Font { family: string_of("JetBrainsMono Nerd Font"), style, size: string_of(size) }
}

impl Default for Font {
    fn default() -> (f: Self)
        ensures
            f.family@ == "JetBrainsMono Nerd Font"@,
            f.style == FontStyle::Regular,
            f.size@ == "14"@,
    {
        Font {
            family: string_of("JetBrainsMono Nerd Font"),
            style: FontStyle::Regular,
            size: string_of("14"),
        }
    }
}

/// Horizontal text alignment.
#[derive(Debug, Clone, Copy, PartialEq, Eq, Structural)]
pub enum TextAlignment {
    Left,
    Center,
    Right,
}

impl TextAlignment {
    pub open spec fn spec_text(self) -> Seq<char> {
        match self {
            TextAlignment::Left => "left"@,
            TextAlignment::Center => "center"@,
            TextAlignment::Right => "right"@,
        }
    }

    pub fn render(&self) -> (r: String)
        ensures
            r@ == self.spec_text(),
    {
        match self {
            TextAlignment::Left => string_of("left"),
            TextAlignment::Center => string_of("center"),
            TextAlignment::Right => string_of("right"),
        }
    }
}

/// Where a component sits: in one of the bar's three regions, or in the
/// popup of a named item.
#[derive(Debug, Clone, PartialEq, Eq)]
pub enum ComponentPosition {
    Left,
    Right,
    Center,
    Popup(String),
}

impl ComponentPosition {
    pub open spec fn spec_text(self) -> Seq<char> {
        match self {
            ComponentPosition::Left => "left"@,
            ComponentPosition::Right => "right"@,
            ComponentPosition::Center => "center"@,
            ComponentPosition::Popup(name) => "popup."@ + name@,
        }
    }

    pub fn render(&self) -> (r: String)
        ensures
            r@ == self.spec_text(),
    {
        match self {
            ComponentPosition::Left => string_of("left"),
            ComponentPosition::Right => string_of("right"),
            ComponentPosition::Center => string_of("center"),
            ComponentPosition::Popup(name) => concat2("popup.", name.as_str()),
        }
    }

    /// A copy of this position.
    pub fn duplicate(&self) -> (r: Self)
        ensures
            r == *self,
    {
        match self {
            ComponentPosition::Left => ComponentPosition::Left,
            ComponentPosition::Right => ComponentPosition::Right,
            ComponentPosition::Center => ComponentPosition::Center,
            ComponentPosition::Popup(name) => ComponentPosition::Popup(name.clone()),
        }
    }
}

impl Default for ComponentPosition {
    fn default() -> (r: Self)
        ensures
            r == ComponentPosition::Left,
    {
        ComponentPosition::Left
    }
}

/// Alignment of a popup relative to its item.
#[derive(Debug, Clone, Copy, PartialEq, Eq, Structural)]
pub enum PopupAlign {
    Left,
    Right,
    Center,
}

impl PopupAlign {
    pub open spec fn spec_text(self) -> Seq<char> {
        match self {
            PopupAlign::Left => "left"@,
            PopupAlign::Right => "right"@,
            PopupAlign::Center => "center"@,
        }
    }

    pub fn render(&self) -> (r: String)
        ensures
            r@ == self.spec_text(),
    {
        match self {
            PopupAlign::Left => string_of("left"),
            PopupAlign::Right => string_of("right"),
            PopupAlign::Center => string_of("center"),
        }
    }
}

impl Default for PopupAlign {
    fn default() -> (r: Self)
        ensures
            r == PopupAlign::Left,
    {
        PopupAlign::Left
    }
}

/// A width: a fixed number of points, or sized to the content.
#[derive(Debug, Clone, Copy, PartialEq, Eq, Structural)]
pub enum WidthMode {
    Value(u32),
    Dyanmic,
}

impl WidthMode {
    pub open spec fn spec_text(self) -> Seq<char> {
        match self {
            WidthMode::Value(v) => spec_dec(v as nat),
            WidthMode::Dyanmic => "dynamic"@,
        }
    }

    pub fn render(&self) -> (r: String)
        ensures
            r@ == self.spec_text(),
    {
        match self {
            WidthMode::Value(v) => {
                let mut s = String::new();
                push_dec(&mut s, *v as u64);
                assert(s@ =~= spec_dec(*v as nat));
                s
            },
            WidthMode::Dyanmic => string_of("dynamic"),
        }
    }
}

impl Default for WidthMode {
    fn default() -> (r: Self)
        ensures
            r == WidthMode::Dyanmic,
    {
        WidthMode::Dyanmic
    }
}

/// Where a clone is placed relative to the item it copies.
#[derive(Debug, Clone, Copy, PartialEq, Eq, Structural)]
pub enum RelativePosition {
    Before,
    After,
}

impl RelativePosition {
    pub open spec fn spec_text(self) -> Seq<char> {
        match self {
            RelativePosition::Before => "before"@,
            RelativePosition::After => "after"@,
        }
    }

    pub fn render(&self) -> (r: String)
        ensures
            r@ == self.spec_text(),
    {
        match self {
            RelativePosition::Before => string_of("before"),
            RelativePosition::After => string_of("after"),
        }
    }
}

impl Default for RelativePosition {
    fn default() -> (r: Self)
        ensures
            r == RelativePosition::After,
    {
        RelativePosition::After
    }
}

/// Where an item sits in the bar, including the notch sides.
#[derive(Debug, Clone, Copy, PartialEq, Eq, Structural)]
pub enum ItemPosition {
    Left,
    Right,
    Center,
    Q,
    E,
}

impl ItemPosition {
    pub open spec fn spec_text(self) -> Seq<char> {
        match self {
            ItemPosition::Left => "left"@,
            ItemPosition::Right => "right"@,
            ItemPosition::Center => "center"@,
            ItemPosition::Q => "q"@,
            ItemPosition::E => "e"@,
        }
    }

    pub fn render(&self) -> (r: String)
        ensures
            r@ == self.spec_text(),
    {
        match self {
            ItemPosition::Left => string_of("left"),
            ItemPosition::Right => string_of("right"),
            ItemPosition::Center => string_of("center"),
            ItemPosition::Q => string_of("q"),
            ItemPosition::E => string_of("e"),
        }
    }
}

} // verus!

//! Special bar components: spaces, brackets, aliases and graphs.

use vstd::prelude::*;
use crate::pieces::{none_args, opt_argb, opt_prefixed, opt_string, opt_u32, spec_opt_argb,
    spec_opt_prefixed, spec_opt_string, spec_opt_u32, then};
use crate::props::BackgroundProps;
use crate::text::{push_char, string_of};
use crate::types::{props_view, single, Argb, ComponentPosition, Property, PropView, ToSketchybarArgs};

verus! {

/// A mission-control space indicator.
#[derive(Debug, Clone, PartialEq, Eq)]
pub struct Space {
    pub name: String,
    pub position: ComponentPosition,
    pub space: Option<u32>,
    pub display: Option<u32>,
}

impl Space {
    /// A space with no name, on the left, bound to no space or display.
    pub fn new() -> (r: Self)
        ensures
            r.name@ == Seq::<char>::empty(),
            r.position == ComponentPosition::Left,
            r.space is None,
            r.display is None,
    {
        Space { name: String::new(), position: ComponentPosition::Left, space: None, display: None }
    }
}

impl ToSketchybarArgs for Space {
    open spec fn spec_args(&self) -> Seq<PropView> {
        spec_opt_u32("space"@, self.space) + spec_opt_u32("display"@, self.display)
    }

    fn to_sketchybar_args(&self) -> (r: Vec<Property>) {
        then(opt_u32("space", self.space), opt_u32("display", self.display))
    }
}

/// A background drawn around a group of items.
#[derive(Debug, Clone, PartialEq, Eq)]
pub struct Bracket {
    pub name: String,
    pub members: Vec<String>,
    pub background: Option<BackgroundProps>,
}

impl Bracket {
    /// A bracket around `members`, with no name and no background yet.
    pub fn new(members: Vec<String>) -> (r: Self)
        ensures
            r.name@ == Seq::<char>::empty(),
            r.members == members,
            r.background is None,
    {
        Bracket { name: String::new(), members, background: None }
    }
}

impl ToSketchybarArgs for Bracket {
    /// The members are given when the bracket is created; only the
    /// background is set afterwards.
    open spec fn spec_args(&self) -> Seq<PropView> {
        spec_opt_prefixed("background."@, self.background)
    }

    fn to_sketchybar_args(&self) -> (r: Vec<Property>) {
        opt_prefixed("background.", &self.background)
    }
}

/// A mirrored menu-bar item. The scale is held as the decimal text
/// sketchybar receives.
#[derive(Debug, Clone, PartialEq, Eq)]
pub struct Alias {
    pub color: Option<Argb>,
    pub scale: Option<String>,
}

impl Alias {
    pub fn new() -> (r: Self)
        ensures
            r.color is None,
            r.scale is None,
    {
        Alias { color: None, scale: None }
    }
}

impl ToSketchybarArgs for Alias {
    open spec fn spec_args(&self) -> Seq<PropView> {
        spec_opt_argb("alias.color"@, self.color) + spec_opt_string("alias.scale"@, self.scale)
    }

    fn to_sketchybar_args(&self) -> (r: Vec<Property>) {
        then(opt_argb("alias.color", self.color), opt_string("alias.scale", &self.scale))
    }
}

/// Texts joined with commas.
pub open spec fn spec_join_texts(v: Seq<Seq<char>>) -> Seq<char>
    decreases v.len(),
{
    if v.len() == 0 {
        seq![]
    } else if v.len() == 1 {
        v[0]
    } else {
        spec_join_texts(v.drop_last()) + seq![','] + v.last()
    }
}

/// A graph of data points. The values are held as the decimal texts
/// sketchybar receives.
#[derive(Debug, Clone, PartialEq, Eq)]
pub struct Graph {
    pub color: Option<Argb>,
    pub fill_color: Option<Argb>,
    pub line_width: Option<String>,
    pub data_points: Vec<String>,
}

impl Graph {
    /// The data points pushed so far, in order.
    pub open spec fn spec_points(&self) -> Seq<Seq<char>> {
        self.data_points@.map_values(|s: String| s@)
    }

    pub fn new() -> (r: Self)
        ensures
            r.color is None,
            r.fill_color is None,
            r.line_width is None,
            r.spec_points() == Seq::<Seq<char>>::empty(),
    {
        let g = Graph { color: None, fill_color: None, line_width: None, data_points: Vec::new() };
        assert(g.spec_points() =~= Seq::<Seq<char>>::empty());
        g
    }

    pub fn push_data_point(&mut self, value: String)
        ensures
            final(self).color == old(self).color,
            final(self).fill_color == old(self).fill_color,
            final(self).line_width == old(self).line_width,
            final(self).spec_points() == old(self).spec_points().push(value@),
    {
        self.data_points.push(value);
        assert(self.spec_points() =~= old(self).spec_points().push(value@));
    }

    pub fn push_data_points(&mut self, data_points: &[String])
        ensures
            final(self).color == old(self).color,
            final(self).fill_color == old(self).fill_color,
            final(self).line_width == old(self).line_width,
            final(self).spec_points() == old(self).spec_points() + data_points@.map_values(
                |s: String| s@,
            ),
    {
        let mut i: usize = 0;
        while i < data_points.len()
            invariant
                i <= data_points@.len(),
                self.color == old(self).color,
                self.fill_color == old(self).fill_color,
                self.line_width == old(self).line_width,
                self.spec_points() == old(self).spec_points() + data_points@.subrange(
                    0,
                    i as int,
                ).map_values(|s: String| s@),
            decreases data_points@.len() - i,
        {
            let ghost before = self.spec_points();
            self.data_points.push(data_points[i].clone());
            assert(self.spec_points() =~= before.push(data_points@[i as int]@));
            i = i + 1;
            assert(data_points@.subrange(0, i as int).map_values(|s: String| s@)
                =~= data_points@.subrange(0, i - 1).map_values(|s: String| s@).push(
                data_points@[i - 1]@,
            ));
        }
        assert(data_points@.subrange(0, i as int) =~= data_points@);
    }

    fn joined_points(&self) -> (r: String)
        ensures
            r@ == spec_join_texts(self.spec_points()),
    {
        let mut s = String::new();
        let mut i: usize = 0;
        while i < self.data_points.len()
            invariant
                i <= self.data_points@.len(),
                s@ == spec_join_texts(self.spec_points().subrange(0, i as int)),
            decreases self.data_points@.len() - i,
        {
            if i > 0 {
                push_char(&mut s, ',');
            }
            s.append(self.data_points[i].as_str());
            i = i + 1;
            let ghost sub = self.spec_points().subrange(0, i as int);
            assert(sub.drop_last() =~= self.spec_points().subrange(0, i - 1));
            assert(s@ =~= spec_join_texts(sub));
        }
        assert(self.spec_points().subrange(0, i as int) =~= self.spec_points());
        s
    }
}

impl Default for Graph {
    fn default() -> (r: Self)
        ensures
            r.color is None,
            r.fill_color is None,
            r.line_width is None,
            r.spec_points() == Seq::<Seq<char>>::empty(),
    {
        Graph::new()
    }
}

impl ToSketchybarArgs for Graph {
    open spec fn spec_args(&self) -> Seq<PropView> {
        spec_opt_argb("graph.color"@, self.color) + spec_opt_argb(
            "graph.fill_color"@,
            self.fill_color,
        ) + spec_opt_string("graph.line_width"@, self.line_width) + if self.spec_points().len()
            == 0 {
            Seq::<PropView>::empty()
        } else {
            seq![("graph.data_points"@, spec_join_texts(self.spec_points()))]
        }
    }

    fn to_sketchybar_args(&self) -> (r: Vec<Property>) {
        let a = opt_argb("graph.color", self.color);
        let a = then(a, opt_argb("graph.fill_color", self.fill_color));
        let a = then(a, opt_string("graph.line_width", &self.line_width));
        if self.data_points.len() == 0 {
            then(a, none_args())
        } else {
            then(a, single("graph.data_points", self.joined_points()))
        }
    }
}

} // verus!

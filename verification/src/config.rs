//! The bar this program sets up, and the defaults every item starts from.

use vstd::prelude::*;
use crate::api::{words_view};
use crate::bar::{Bar, BarPosition};
use crate::text::{concat2, string_of};
use crate::themes::{catppuccin_mocha, spec_catppuccin_mocha};
use crate::types::spec_argb_text;

verus! {

/// The bar: Catppuccin Mocha's base with a surface border, 28 points high,
/// floating 8 points from the edges and 4 below the top, with rounded corners.
pub open spec fn spec_main_bar() -> Bar {
    let mocha = spec_catppuccin_mocha();
    Bar {
        color: mocha.base,
        position: BarPosition::Top,
        height: 28,
        margin: 8,
        y_offset: 4,
        corner_radius: 21,
        border_width: 2,
        border_color: mocha.surface1,
        padding_left: 8,
        padding_right: 8,
        notch_width: 200,
        ..Bar::spec_new()
    }
}

/// The bar this program sets up.
pub fn main_bar() -> (r: Bar)
    ensures
        r == spec_main_bar(),
{
    let mocha = catppuccin_mocha();
    Bar {
        color: mocha.base,
        position: BarPosition::Top,
        height: 28,
        margin: 8,
        y_offset: 4,
        corner_radius: 21,
        border_width: 2,
        border_color: mocha.surface1,
        padding_left: 8,
        padding_right: 8,
        notch_width: 200,
        ..Bar::new()
    }
}

/// The settings every item starts from: fonts, colors and paddings.
pub open spec fn spec_default_args() -> Seq<Seq<char>> {
    let mocha = spec_catppuccin_mocha();
    seq![
        "icon.font=JetBrainsMono Nerd Font:Regular:14.0"@,
        "icon.color="@ + spec_argb_text(mocha.text),
        "label.font=JetBrainsMono Nerd Font:Regular:12.0"@,
        "label.color="@ + spec_argb_text(mocha.text),
        "padding_left=4"@,
        "padding_right=4"@,
        "icon.padding_left=6"@,
        "icon.padding_right=6"@,
        "label.padding_left=6"@,
        "label.padding_right=6"@,
        "background.color="@ + spec_argb_text(mocha.surface0),
        "background.corner_radius=9"@,
        "background.height=20"@,
        "icon.highlight_color="@ + spec_argb_text(mocha.mauve),
        "label.highlight_color="@ + spec_argb_text(mocha.mauve),
    ]
}

/// The settings every item starts from, for `--default`.
pub fn default_args() -> (r: Vec<String>)
    ensures
        words_view(r@) == spec_default_args(),
{
    let mocha = catppuccin_mocha();
    let mut v: Vec<String> = Vec::new();
    v.push(string_of("icon.font=JetBrainsMono Nerd Font:Regular:14.0"));
    v.push(concat2("icon.color=", mocha.text.render().as_str()));
    v.push(string_of("label.font=JetBrainsMono Nerd Font:Regular:12.0"));
    v.push(concat2("label.color=", mocha.text.render().as_str()));
    v.push(string_of("padding_left=4"));
    v.push(string_of("padding_right=4"));
    v.push(string_of("icon.padding_left=6"));
    v.push(string_of("icon.padding_right=6"));
    v.push(string_of("label.padding_left=6"));
    v.push(string_of("label.padding_right=6"));
    v.push(concat2("background.color=", mocha.surface0.render().as_str()));
    v.push(string_of("background.corner_radius=9"));
    v.push(string_of("background.height=20"));
    v.push(concat2("icon.highlight_color=", mocha.mauve.render().as_str()));
    v.push(concat2("label.highlight_color=", mocha.mauve.render().as_str()));
    assert(words_view(v@) =~= spec_default_args());
    v
}

} // verus!

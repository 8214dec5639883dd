//! Color themes.

use vstd::prelude::*;
use crate::types::Argb;

verus! {

/// A palette of named colors.
#[derive(Debug, Clone, Copy, PartialEq, Eq, Structural)]
pub struct Theme {
    pub rosewater: Argb,
    pub flamingo: Argb,
    pub pink: Argb,
    pub mauve: Argb,
    pub red: Argb,
    pub maroon: Argb,
    pub peach: Argb,
    pub yellow: Argb,
    pub green: Argb,
    pub teal: Argb,
    pub sky: Argb,
    pub sapphire: Argb,
    pub blue: Argb,
    pub lavender: Argb,
    pub text: Argb,
    pub subtext1: Argb,
    pub subtext0: Argb,
    pub overlay2: Argb,
    pub overlay1: Argb,
    pub overlay0: Argb,
    pub surface2: Argb,
    pub surface1: Argb,
    pub surface0: Argb,
    pub base: Argb,
    pub mantle: Argb,
    pub crust: Argb,
    pub transparent: Argb,
}

/// The Catppuccin Mocha palette.
pub open spec fn spec_catppuccin_mocha() -> Theme {
    Theme {
        rosewater: Argb { a: 255, r: 245, g: 224, b: 220 },
        flamingo: Argb { a: 255, r: 242, g: 205, b: 205 },
        pink: Argb { a: 255, r: 245, g: 194, b: 231 },
        mauve: Argb { a: 255, r: 203, g: 166, b: 247 },
        red: Argb { a: 255, r: 243, g: 139, b: 168 },
        maroon: Argb { a: 255, r: 235, g: 160, b: 172 },
        peach: Argb { a: 255, r: 250, g: 179, b: 135 },
        yellow: Argb { a: 255, r: 249, g: 226, b: 175 },
        green: Argb { a: 255, r: 166, g: 227, b: 161 },
        teal: Argb { a: 255, r: 148, g: 226, b: 213 },
        sky: Argb { a: 255, r: 137, g: 220, b: 235 },
        sapphire: Argb { a: 255, r: 116, g: 199, b: 236 },
        blue: Argb { a: 255, r: 140, g: 170, b: 238 },
        lavender: Argb { a: 255, r: 180, g: 190, b: 254 },
        text: Argb { a: 255, r: 205, g: 214, b: 244 },
        subtext1: Argb { a: 255, r: 186, g: 194, b: 222 },
        subtext0: Argb { a: 255, r: 166, g: 173, b: 200 },
        overlay2: Argb { a: 255, r: 147, g: 153, b: 178 },
        overlay1: Argb { a: 255, r: 127, g: 132, b: 156 },
        overlay0: Argb { a: 255, r: 108, g: 112, b: 134 },
        surface2: Argb { a: 255, r: 88, g: 91, b: 112 },
        surface1: Argb { a: 255, r: 69, g: 71, b: 90 },
        surface0: Argb { a: 255, r: 49, g: 50, b: 68 },
        base: Argb { a: 255, r: 30, g: 30, b: 46 },
        mantle: Argb { a: 255, r: 24, g: 24, b: 37 },
        crust: Argb { a: 255, r: 17, g: 17, b: 27 },
        transparent: Argb { a: 0, r: 0, g: 0, b: 0 },
    }
}

/// The Catppuccin Mocha palette.
pub fn catppuccin_mocha() -> (t: Theme)
    ensures
        t == spec_catppuccin_mocha(),
{
    Theme {
        rosewater: Argb { a: 255, r: 245, g: 224, b: 220 },
        flamingo: Argb { a: 255, r: 242, g: 205, b: 205 },
        pink: Argb { a: 255, r: 245, g: 194, b: 231 },
        mauve: Argb { a: 255, r: 203, g: 166, b: 247 },
        red: Argb { a: 255, r: 243, g: 139, b: 168 },
        maroon: Argb { a: 255, r: 235, g: 160, b: 172 },
        peach: Argb { a: 255, r: 250, g: 179, b: 135 },
        yellow: Argb { a: 255, r: 249, g: 226, b: 175 },
        green: Argb { a: 255, r: 166, g: 227, b: 161 },
        teal: Argb { a: 255, r: 148, g: 226, b: 213 },
        sky: Argb { a: 255, r: 137, g: 220, b: 235 },
        sapphire: Argb { a: 255, r: 116, g: 199, b: 236 },
        blue: Argb { a: 255, r: 140, g: 170, b: 238 },
        lavender: Argb { a: 255, r: 180, g: 190, b: 254 },
        text: Argb { a: 255, r: 205, g: 214, b: 244 },
        subtext1: Argb { a: 255, r: 186, g: 194, b: 222 },
        subtext0: Argb { a: 255, r: 166, g: 173, b: 200 },
        overlay2: Argb { a: 255, r: 147, g: 153, b: 178 },
        overlay1: Argb { a: 255, r: 127, g: 132, b: 156 },
        overlay0: Argb { a: 255, r: 108, g: 112, b: 134 },
        surface2: Argb { a: 255, r: 88, g: 91, b: 112 },
        surface1: Argb { a: 255, r: 69, g: 71, b: 90 },
        surface0: Argb { a: 255, r: 49, g: 50, b: 68 },
        base: Argb { a: 255, r: 30, g: 30, b: 46 },
        mantle: Argb { a: 255, r: 24, g: 24, b: 37 },
        crust: Argb { a: 255, r: 17, g: 17, b: 27 },
        transparent: Argb { a: 0, r: 0, g: 0, b: 0 },
    }
}

} // verus!

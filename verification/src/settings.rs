//! Icon settings.

use vstd::prelude::*;
use crate::text::string_of;

verus! {

/// The settings of the bar.
pub struct Settings {
    icons: Icons,
}

/// The glyphs used by the items.
pub struct Icons {
    pub apple: String,
    pub workspace: String,
    pub workspace_active: String,
    pub clock: String,
    pub cpu: String,
    pub wifi: String,
    pub wifi_off: String,
    pub bluetooth: String,
    pub weather: String,
}

impl Default for Icons {
    fn default() -> (r: Self)
        ensures
            r.apple@ == "\u{f8ff}"@,
            r.workspace@ == "\u{f111}"@,
            r.workspace_active@ == "\u{f192}"@,
            r.clock@ == "\u{f017}"@,
            r.cpu@ == "\u{f4bc}"@,
            r.wifi@ == "\u{f1eb}"@,
            r.wifi_off@ == "󰖪"@,
            r.bluetooth@ == "\u{f294}"@,
            r.weather@ == "\u{f0c2}"@,
    {
        Icons {
            apple: string_of("\u{f8ff}"),
            workspace: string_of("\u{f111}"),
            workspace_active: string_of("\u{f192}"),
            clock: string_of("\u{f017}"),
            cpu: string_of("\u{f4bc}"),
            wifi: string_of("\u{f1eb}"),
            wifi_off: string_of("󰖪"),
            bluetooth: string_of("\u{f294}"),
            weather: string_of("\u{f0c2}"),
        }
    }
}

} // verus!

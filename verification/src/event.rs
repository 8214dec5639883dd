//! The events sketchybar can deliver to items, and their names.

use vstd::prelude::*;
use crate::text::{str_eq, string_of};

verus! {

/// An event an item can subscribe to.
#[derive(Debug, Clone, PartialEq, Eq)]
pub enum BarEvent {
    /// Triggered when an update frequency is set for an item
    Routine,
    /// Triggered when the bar is forced to update
    Forced,
    /// Triggered when the mouse enters over a specific item
    MouseEntered,
    /// Triggered when the mouse leaves a specific item
    MouseExited,
    /// Triggered when the mouse enters over any part of the bar
    MouseEnteredGlobal,
    /// Triggered when the mouse leaves all parts of the bar
    MouseExitedGlobal,
    /// Triggered when an item is clicked
    MouseClicked,
    /// Triggered when the mouse is scrolled over an item
    MouseScrolled,
    /// Triggered when the mouse is scrolled over an empty region of the bar
    MouseScrolledGlobal,
    /// Triggered when the front application changes
    FrontAppSwitched,
    /// Triggered when the active mission control space changes
    SpaceChange,
    /// Triggered when a window is created or destroyed on a space
    SpaceWindowsChange,
    /// Triggered when the active display is changed
    DisplayChange,
    /// Triggered when the system audio volume is changed
    VolumeChange,
    /// Triggered when a display's brightness is changed
    BrightnessChange,
    /// Triggered when the device's power source is changed (AC or BATTERY)
    PowerSourceChange,
    /// Triggered when the device connects to or disconnects from Wi-Fi
    WifiChange,
    /// Triggered when a change in "now playing" media is performed
    MediaChange,
    /// Triggered when the system prepares to sleep
    SystemWillSleep,
    /// Triggered when the system has awakened from sleep
    SystemWoke,
    /// A user-defined custom event
    Custom(String),
}

/// The name sketchybar uses for an event.
pub open spec fn spec_event_name(e: BarEvent) -> Seq<char> {
    match e {
        BarEvent::Routine => "routine"@,
        BarEvent::Forced => "forced"@,
        BarEvent::MouseEntered => "mouse.entered"@,
        BarEvent::MouseExited => "mouse.exited"@,
        BarEvent::MouseEnteredGlobal => "mouse.entered.global"@,
        BarEvent::MouseExitedGlobal => "mouse.exited.global"@,
        BarEvent::MouseClicked => "mouse.clicked"@,
        BarEvent::MouseScrolled => "mouse.scrolled"@,
        BarEvent::MouseScrolledGlobal => "mouse.scrolled.global"@,
        BarEvent::FrontAppSwitched => "front_app_switched"@,
        BarEvent::SpaceChange => "space_change"@,
        BarEvent::SpaceWindowsChange => "space_windows_change"@,
        BarEvent::DisplayChange => "display_change"@,
        BarEvent::VolumeChange => "volume_change"@,
        BarEvent::BrightnessChange => "brightness_change"@,
        BarEvent::PowerSourceChange => "power_source_change"@,
        BarEvent::WifiChange => "wifi_change"@,
        BarEvent::MediaChange => "media_change"@,
        BarEvent::SystemWillSleep => "system_will_sleep"@,
        BarEvent::SystemWoke => "system_woke"@,
        BarEvent::Custom(name) => name@,
    }
}

/// The built-in event a name denotes, if any.
pub open spec fn spec_builtin_event(s: Seq<char>) -> Option<BarEvent> {
    if s == "routine"@ {
        Some(BarEvent::Routine)
    } else if s == "forced"@ {
        Some(BarEvent::Forced)
    } else if s == "mouse.entered"@ {
        Some(BarEvent::MouseEntered)
    } else if s == "mouse.exited"@ {
        Some(BarEvent::MouseExited)
    } else if s == "mouse.entered.global"@ {
        Some(BarEvent::MouseEnteredGlobal)
    } else if s == "mouse.exited.global"@ {
        Some(BarEvent::MouseExitedGlobal)
    } else if s == "mouse.clicked"@ {
        Some(BarEvent::MouseClicked)
    } else if s == "mouse.scrolled"@ {
        Some(BarEvent::MouseScrolled)
    } else if s == "mouse.scrolled.global"@ {
        Some(BarEvent::MouseScrolledGlobal)
    } else if s == "front_app_switched"@ {
        Some(BarEvent::FrontAppSwitched)
    } else if s == "space_change"@ {
        Some(BarEvent::SpaceChange)
    } else if s == "space_windows_change"@ {
        Some(BarEvent::SpaceWindowsChange)
    } else if s == "display_change"@ {
        Some(BarEvent::DisplayChange)
    } else if s == "volume_change"@ {
        Some(BarEvent::VolumeChange)
    } else if s == "brightness_change"@ {
        Some(BarEvent::BrightnessChange)
    } else if s == "power_source_change"@ {
        Some(BarEvent::PowerSourceChange)
    } else if s == "wifi_change"@ {
        Some(BarEvent::WifiChange)
    } else if s == "media_change"@ {
        Some(BarEvent::MediaChange)
    } else if s == "system_will_sleep"@ {
        Some(BarEvent::SystemWillSleep)
    } else if s == "system_woke"@ {
        Some(BarEvent::SystemWoke)
    } else {
        None
    }
}

/// `e` is the event the name `s` denotes: the built-in event of that name,
/// or else a custom event carrying the name.
pub open spec fn spec_event_of_name(s: Seq<char>, e: BarEvent) -> bool {
    match spec_builtin_event(s) {
        Some(b) => e == b,
        None => e matches BarEvent::Custom(n) && n@ == s,
    }
}

impl BarEvent {
    /// The name sketchybar uses for this event.
    pub fn name(&self) -> (r: String)
        ensures
            r@ == spec_event_name(*self),
    {
        match self {
            BarEvent::Routine => string_of("routine"),
            BarEvent::Forced => string_of("forced"),
            BarEvent::MouseEntered => string_of("mouse.entered"),
            BarEvent::MouseExited => string_of("mouse.exited"),
            BarEvent::MouseEnteredGlobal => string_of("mouse.entered.global"),
            BarEvent::MouseExitedGlobal => string_of("mouse.exited.global"),
            BarEvent::MouseClicked => string_of("mouse.clicked"),
            BarEvent::MouseScrolled => string_of("mouse.scrolled"),
            BarEvent::MouseScrolledGlobal => string_of("mouse.scrolled.global"),
            BarEvent::FrontAppSwitched => string_of("front_app_switched"),
            BarEvent::SpaceChange => string_of("space_change"),
            BarEvent::SpaceWindowsChange => string_of("space_windows_change"),
            BarEvent::DisplayChange => string_of("display_change"),
            BarEvent::VolumeChange => string_of("volume_change"),
            BarEvent::BrightnessChange => string_of("brightness_change"),
            BarEvent::PowerSourceChange => string_of("power_source_change"),
            BarEvent::WifiChange => string_of("wifi_change"),
            BarEvent::MediaChange => string_of("media_change"),
            BarEvent::SystemWillSleep => string_of("system_will_sleep"),
            BarEvent::SystemWoke => string_of("system_woke"),
            BarEvent::Custom(name) => name.clone(),
        }
    }

    /// The event a name denotes: a built-in event, or a custom one.
    pub fn from(s: &str) -> (r: BarEvent)
        ensures
            spec_event_of_name(s@, r),
    {
        if str_eq(s, "routine") {
            BarEvent::Routine
        } else if str_eq(s, "forced") {
            BarEvent::Forced
        } else if str_eq(s, "mouse.entered") {
            BarEvent::MouseEntered
        } else if str_eq(s, "mouse.exited") {
            BarEvent::MouseExited
        } else if str_eq(s, "mouse.entered.global") {
            BarEvent::MouseEnteredGlobal
        } else if str_eq(s, "mouse.exited.global") {
            BarEvent::MouseExitedGlobal
        } else if str_eq(s, "mouse.clicked") {
            BarEvent::MouseClicked
        } else if str_eq(s, "mouse.scrolled") {
            BarEvent::MouseScrolled
        } else if str_eq(s, "mouse.scrolled.global") {
            BarEvent::MouseScrolledGlobal
        } else if str_eq(s, "front_app_switched") {
            BarEvent::FrontAppSwitched
        } else if str_eq(s, "space_change") {
            BarEvent::SpaceChange
        } else if str_eq(s, "space_windows_change") {
            BarEvent::SpaceWindowsChange
        } else if str_eq(s, "display_change") {
            BarEvent::DisplayChange
        } else if str_eq(s, "volume_change") {
            BarEvent::VolumeChange
        } else if str_eq(s, "brightness_change") {
            BarEvent::BrightnessChange
        } else if str_eq(s, "power_source_change") {
            BarEvent::PowerSourceChange
        } else if str_eq(s, "wifi_change") {
            BarEvent::WifiChange
        } else if str_eq(s, "media_change") {
            BarEvent::MediaChange
        } else if str_eq(s, "system_will_sleep") {
            BarEvent::SystemWillSleep
        } else if str_eq(s, "system_woke") {
            BarEvent::SystemWoke
        } else {
            BarEvent::Custom(string_of(s))
        }
    }

    /// The event an owned name denotes.
    pub fn from_string(s: String) -> (r: BarEvent)
        ensures
            spec_event_of_name(s@, r),
    {
        BarEvent::from(s.as_str())
    }
}

/// The lengths and the characters that tell the built-in names apart.
proof fn lemma_builtin_names_apart()
    ensures
        "routine"@.len() == 7 && "routine"@[0] == 'r',
        "forced"@.len() == 6 && "forced"@[0] == 'f',
        "mouse.entered"@.len() == 13 && "mouse.entered"@[0] == 'm',
        "mouse.entered"@[6] == 'e' && "mouse.entered"@[7] == 'n',
        "mouse.exited"@.len() == 12 && "mouse.exited"@[0] == 'm',
        "mouse.exited"@[6] == 'e' && "mouse.exited"@[7] == 'x',
        "mouse.entered.global"@.len() == 20 && "mouse.entered.global"@[0] == 'm',
        "mouse.entered.global"@[6] == 'e' && "mouse.entered.global"@[7] == 'n',
        "mouse.exited.global"@.len() == 19 && "mouse.exited.global"@[0] == 'm',
        "mouse.exited.global"@[6] == 'e' && "mouse.exited.global"@[7] == 'x',
        "mouse.clicked"@.len() == 13 && "mouse.clicked"@[0] == 'm',
        "mouse.clicked"@[6] == 'c' && "mouse.clicked"@[7] == 'l',
        "mouse.scrolled"@.len() == 14 && "mouse.scrolled"@[0] == 'm',
        "mouse.scrolled"@[6] == 's' && "mouse.scrolled"@[7] == 'c',
        "mouse.scrolled.global"@.len() == 21 && "mouse.scrolled.global"@[0] == 'm',
        "mouse.scrolled.global"@[6] == 's' && "mouse.scrolled.global"@[7] == 'c',
        "front_app_switched"@.len() == 18 && "front_app_switched"@[0] == 'f',
        "space_change"@.len() == 12 && "space_change"@[0] == 's',
        "space_windows_change"@.len() == 20 && "space_windows_change"@[0] == 's',
        "display_change"@.len() == 14 && "display_change"@[0] == 'd',
        "volume_change"@.len() == 13 && "volume_change"@[0] == 'v',
        "brightness_change"@.len() == 17 && "brightness_change"@[0] == 'b',
        "power_source_change"@.len() == 19 && "power_source_change"@[0] == 'p',
        "wifi_change"@.len() == 11 && "wifi_change"@[0] == 'w',
        "media_change"@.len() == 12 && "media_change"@[0] == 'm',
        "system_will_sleep"@.len() == 17 && "system_will_sleep"@[0] == 's',
        "system_will_sleep"@[6] == '_' && "system_will_sleep"@[7] == 'w',
        "system_woke"@.len() == 11 && "system_woke"@[0] == 's',
        "system_woke"@[6] == '_' && "system_woke"@[7] == 'w',
{
    reveal_strlit("routine");
    reveal_strlit("forced");
    reveal_strlit("mouse.entered");
    reveal_strlit("mouse.exited");
    reveal_strlit("mouse.entered.global");
    reveal_strlit("mouse.exited.global");
    reveal_strlit("mouse.clicked");
    reveal_strlit("mouse.scrolled");
    reveal_strlit("mouse.scrolled.global");
    reveal_strlit("front_app_switched");
    reveal_strlit("space_change");
    reveal_strlit("space_windows_change");
    reveal_strlit("display_change");
    reveal_strlit("volume_change");
    reveal_strlit("brightness_change");
    reveal_strlit("power_source_change");
    reveal_strlit("wifi_change");
    reveal_strlit("media_change");
    reveal_strlit("system_will_sleep");
    reveal_strlit("system_woke");
}

/// Naming the event that a name denotes gives that name back, for every name:
/// `BarEvent::from(s).name()` is `s`.
pub proof fn lemma_name_of_event_of_name(s: Seq<char>, e: BarEvent)
    requires
        spec_event_of_name(s, e),
    ensures
        spec_event_name(e) == s,
{
}

/// Reading back the name of an event gives the event (`BarEvent::from(&e.name())`
/// is `e`), except for a custom event that carries the name of a built-in one.
pub proof fn lemma_event_of_name_of_event(e: BarEvent)
    requires
        !(e matches BarEvent::Custom(n) && spec_builtin_event(n@) is Some),
    ensures
        spec_event_of_name(spec_event_name(e), e),
{
    lemma_builtin_names_apart();
    reveal_strlit("routine");
    reveal_strlit("forced");
    reveal_strlit("mouse.entered");
    reveal_strlit("mouse.exited");
    reveal_strlit("mouse.entered.global");
    reveal_strlit("mouse.exited.global");
    reveal_strlit("mouse.clicked");
    reveal_strlit("mouse.scrolled");
    reveal_strlit("mouse.scrolled.global");
    reveal_strlit("front_app_switched");
    reveal_strlit("space_change");
    reveal_strlit("space_windows_change");
    reveal_strlit("display_change");
    reveal_strlit("volume_change");
    reveal_strlit("brightness_change");
    reveal_strlit("power_source_change");
    reveal_strlit("wifi_change");
    reveal_strlit("media_change");
    reveal_strlit("system_will_sleep");
    reveal_strlit("system_woke");
    let n = spec_event_name(e);
    match e {
        BarEvent::Custom(_) => {},
        _ => {
            assert(spec_builtin_event(n) == Some(e));
        },
    }
}

/// The names of the built-in events are sketchybar's own: `routine`,
/// `forced`, the `mouse.*` events, and the snake-case system events such as
/// `display_change` and `brightness_change`. A custom event is named by the
/// text it carries.
pub proof fn lemma_builtin_event_names(custom: String)
    ensures
        spec_event_name(BarEvent::Routine) == "routine"@,
        spec_event_name(BarEvent::Forced) == "forced"@,
        spec_event_name(BarEvent::MouseEntered) == "mouse.entered"@,
        spec_event_name(BarEvent::MouseExited) == "mouse.exited"@,
        spec_event_name(BarEvent::MouseEnteredGlobal) == "mouse.entered.global"@,
        spec_event_name(BarEvent::MouseExitedGlobal) == "mouse.exited.global"@,
        spec_event_name(BarEvent::MouseClicked) == "mouse.clicked"@,
        spec_event_name(BarEvent::MouseScrolled) == "mouse.scrolled"@,
        spec_event_name(BarEvent::MouseScrolledGlobal) == "mouse.scrolled.global"@,
        spec_event_name(BarEvent::FrontAppSwitched) == "front_app_switched"@,
        spec_event_name(BarEvent::SpaceChange) == "space_change"@,
        spec_event_name(BarEvent::SpaceWindowsChange) == "space_windows_change"@,
        spec_event_name(BarEvent::DisplayChange) == "display_change"@,
        spec_event_name(BarEvent::VolumeChange) == "volume_change"@,
        spec_event_name(BarEvent::BrightnessChange) == "brightness_change"@,
        spec_event_name(BarEvent::PowerSourceChange) == "power_source_change"@,
        spec_event_name(BarEvent::WifiChange) == "wifi_change"@,
        spec_event_name(BarEvent::MediaChange) == "media_change"@,
        spec_event_name(BarEvent::SystemWillSleep) == "system_will_sleep"@,
        spec_event_name(BarEvent::SystemWoke) == "system_woke"@,
        spec_event_name(BarEvent::Custom(custom)) == custom@,
{
}

/// Each of sketchybar's event names denotes its own built-in event, and only
/// that one: `BarEvent::from("display_change")` is `DisplayChange`.
pub proof fn lemma_builtin_events_of_names(e: BarEvent)
    ensures
        spec_event_of_name("routine"@, e) <==> e == BarEvent::Routine,
        spec_event_of_name("forced"@, e) <==> e == BarEvent::Forced,
        spec_event_of_name("mouse.entered"@, e) <==> e == BarEvent::MouseEntered,
        spec_event_of_name("mouse.exited"@, e) <==> e == BarEvent::MouseExited,
        spec_event_of_name("mouse.entered.global"@, e) <==> e == BarEvent::MouseEnteredGlobal,
        spec_event_of_name("mouse.exited.global"@, e) <==> e == BarEvent::MouseExitedGlobal,
        spec_event_of_name("mouse.clicked"@, e) <==> e == BarEvent::MouseClicked,
        spec_event_of_name("mouse.scrolled"@, e) <==> e == BarEvent::MouseScrolled,
        spec_event_of_name("mouse.scrolled.global"@, e) <==> e == BarEvent::MouseScrolledGlobal,
        spec_event_of_name("front_app_switched"@, e) <==> e == BarEvent::FrontAppSwitched,
        spec_event_of_name("space_change"@, e) <==> e == BarEvent::SpaceChange,
        spec_event_of_name("space_windows_change"@, e) <==> e == BarEvent::SpaceWindowsChange,
        spec_event_of_name("display_change"@, e) <==> e == BarEvent::DisplayChange,
        spec_event_of_name("volume_change"@, e) <==> e == BarEvent::VolumeChange,
        spec_event_of_name("brightness_change"@, e) <==> e == BarEvent::BrightnessChange,
        spec_event_of_name("power_source_change"@, e) <==> e == BarEvent::PowerSourceChange,
        spec_event_of_name("wifi_change"@, e) <==> e == BarEvent::WifiChange,
        spec_event_of_name("media_change"@, e) <==> e == BarEvent::MediaChange,
        spec_event_of_name("system_will_sleep"@, e) <==> e == BarEvent::SystemWillSleep,
        spec_event_of_name("system_woke"@, e) <==> e == BarEvent::SystemWoke,
{
    lemma_builtin_names_apart();
    reveal_strlit("routine");
    reveal_strlit("forced");
    reveal_strlit("mouse.entered");
    reveal_strlit("mouse.exited");
    reveal_strlit("mouse.entered.global");
    reveal_strlit("mouse.exited.global");
    reveal_strlit("mouse.clicked");
    reveal_strlit("mouse.scrolled");
    reveal_strlit("mouse.scrolled.global");
    reveal_strlit("front_app_switched");
    reveal_strlit("space_change");
    reveal_strlit("space_windows_change");
    reveal_strlit("display_change");
    reveal_strlit("volume_change");
    reveal_strlit("brightness_change");
    reveal_strlit("power_source_change");
    reveal_strlit("wifi_change");
    reveal_strlit("media_change");
    reveal_strlit("system_will_sleep");
    reveal_strlit("system_woke");
}

} // verus!

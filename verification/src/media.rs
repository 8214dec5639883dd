//! The media item: what is playing, the controls in its popup, and the
//! media-remote commands.

use vstd::prelude::*;
use crate::api::{add_event, cmd_view, cmds_view, spec_event_names, spec_item_cmds, spec_set_cmd};
use crate::event::BarEvent;
use crate::item::{BarItem, ItemBuilder, PopupChild};
use crate::pieces::dec_u32;
use crate::props::{
    BackgroundProps, Geometry, Icon, ImageProps, ImageType, ItemProps, Label, PopupProps, Scripting,
    ScriptType, Text,
};
use crate::style::ItemStyle;
use crate::text::{concat2, dec_u64, push_char, spec_dec, str_eq, string_of};
use crate::themes::{catppuccin_mocha, spec_catppuccin_mocha};
use crate::types::{
    nerd_font, spec_nerd_font_text, Argb, ComponentPosition, Font, FontStyle, PopupAlign,
    TextAlignment, ToSketchybarArgs, ToggleState, WidthMode,
};

verus! {

/// A command of the MediaRemote framework, numbered as the framework numbers them.
#[derive(Debug, Clone, Copy, PartialEq, Eq, Structural)]
pub enum MediaRemoteCommand {
    Play,
    Pause,
    TogglePlayPause,
    Stop,
    NextTrack,
    PreviousTrack,
}

impl MediaRemoteCommand {
    /// The framework's number of the command.
    pub open spec fn spec_code(self) -> u32 {
        match self {
            MediaRemoteCommand::Play => 0,
            MediaRemoteCommand::Pause => 1,
            MediaRemoteCommand::TogglePlayPause => 2,
            MediaRemoteCommand::Stop => 3,
            MediaRemoteCommand::NextTrack => 4,
            MediaRemoteCommand::PreviousTrack => 5,
        }
    }

    pub fn code(&self) -> (r: u32)
        ensures
            r == self.spec_code(),
    {
        match self {
            MediaRemoteCommand::Play => 0,
            MediaRemoteCommand::Pause => 1,
            MediaRemoteCommand::TogglePlayPause => 2,
            MediaRemoteCommand::Stop => 3,
            MediaRemoteCommand::NextTrack => 4,
            MediaRemoteCommand::PreviousTrack => 5,
        }
    }
}

/// A number shown with at least two digits.
pub open spec fn spec_pad2(s: Seq<char>) -> Seq<char> {
    if s.len() < 2 {
        seq!['0'] + s
    } else {
        s
    }
}

/// `MM:SS` for a number of whole seconds; the minutes are not capped at 59.
pub open spec fn spec_format_time(seconds: nat) -> Seq<char> {
    spec_pad2(spec_dec(seconds / 60)) + seq![':'] + spec_pad2(spec_dec(seconds % 60))
}

fn pad2(n: u64) -> (r: String)
    ensures
        r@ == spec_pad2(spec_dec(n as nat)),
{
    let d = dec_u64(n);
    if d.as_str().unicode_len() < 2 {
        let mut s = string_of("0");
        s.append(d.as_str());
        proof {
            reveal_strlit("0");
        }
        assert(s@ =~= spec_pad2(spec_dec(n as nat)));
        s
    } else {
        d
    }
}

/// Formats whole seconds as `MM:SS`.
pub fn format_time(seconds: u64) -> (r: String)
    ensures
        r@ == spec_format_time(seconds as nat),
{
    let mut s = pad2(seconds / 60);
    push_char(&mut s, ':');
    s.append(pad2(seconds % 60).as_str());
    s
}

/// What is playing. Times are whole seconds.
#[derive(Debug, Clone, PartialEq, Eq)]
pub struct MediaData {
    pub title: String,
    pub artist: String,
    pub album: String,
    pub duration: u64,
    pub elapsed_time: u64,
    pub is_playing: bool,
}

impl MediaData {
    /// Nothing playing.
    pub fn empty() -> (r: Self)
        ensures
            r.title@.len() == 0 && r.artist@.len() == 0 && r.album@.len() == 0,
            r.duration == 0 && r.elapsed_time == 0 && !r.is_playing,
    {
        MediaData {
            title: String::new(),
            artist: String::new(),
            album: String::new(),
            duration: 0,
            elapsed_time: 0,
            is_playing: false,
        }
    }

    /// What is playing from the now-playing information: an unknown title
    /// or artist reads `Unknown`, an unknown album is empty.
    pub fn from_info(
        title: Option<String>,
        artist: Option<String>,
        album: Option<String>,
        duration: u64,
        elapsed_time: u64,
        is_playing: bool,
    ) -> (r: Self)
        ensures
            r.title@ == (match title {
                Some(t) => t@,
                None => "Unknown"@,
            }),
            r.artist@ == (match artist {
                Some(a) => a@,
                None => "Unknown"@,
            }),
            r.album@ == (match album {
                Some(a) => a@,
                None => Seq::<char>::empty(),
            }),
            r.duration == duration,
            r.elapsed_time == elapsed_time,
            r.is_playing == is_playing,
    {
        MediaData {
            title: match title {
                Some(t) => t,
                None => string_of("Unknown"),
            },
            artist: match artist {
                Some(a) => a,
                None => string_of("Unknown"),
            },
            album: match album {
                Some(a) => a,
                None => String::new(),
            },
            duration,
            elapsed_time,
            is_playing,
        }
    }

    /// Whether a track is known: a title or an artist. Only then is the
    /// popup filled and the artwork saved.
    pub fn has_track(&self) -> (r: bool)
        ensures
            r == !(self.title@.len() == 0 && self.artist@.len() == 0),
    {
        !(self.title.as_str().unicode_len() == 0 && self.artist.as_str().unicode_len() == 0)
    }

    /// `elapsed / duration`, each as `MM:SS`.
    pub fn formatted_progress(&self) -> (r: String)
        ensures
            r@ == spec_format_time(self.elapsed_time as nat) + " / "@ + spec_format_time(
                self.duration as nat,
            ),
    {
        let mut s = format_time(self.elapsed_time);
        s.append(" / ");
        s.append(format_time(self.duration).as_str());
        s
    }
}

/// A control clicked in the popup.
#[derive(Debug, Clone, Copy, PartialEq, Eq, Structural)]
pub enum MediaAction {
    Previous,
    Next,
    Toggle,
}

/// The control a click on an item of the popup asks for.
pub open spec fn spec_click_action(sender: Seq<char>, name: Seq<char>) -> Option<MediaAction> {
    if sender == "mouse.clicked"@ {
        if name == "media.prev"@ {
            Some(MediaAction::Previous)
        } else if name == "media.next"@ {
            Some(MediaAction::Next)
        } else if name == "media.play"@ {
            Some(MediaAction::Toggle)
        } else {
            None
        }
    } else {
        None
    }
}

/// The play-state icon: pause while stopped, play-pause while playing.
pub open spec fn spec_play_icon(is_playing: bool) -> Seq<char> {
    if !is_playing {
        "\u{f03e4}"@
    } else {
        "\u{f040e}"@
    }
}

/// The width of the bar item when nothing is playing.
pub const MINIMIZED_WIDTH: u32 = 25;

/// The bar item when nothing is playing: narrow, without a label.
pub open spec fn spec_minimized_props(p: ItemProps) -> bool {
    &&& p.geometry == (Geometry { width: Some(WidthMode::Value(25)), ..Geometry::spec_empty() })
    &&& p.icon == crate::props::Icon::spec_empty()
    &&& p.label.label is None
    &&& p.label.props == Some(Text { drawing: Some(ToggleState::Off), ..Text::spec_empty() })
    &&& p.scripting == crate::props::Scripting::spec_empty()
    &&& p.text is None
    &&& p.popup is None
}

/// The bar item while something plays: wide, with the scrolling title.
pub open spec fn spec_playing_props(p: ItemProps, title: Seq<char>) -> bool {
    &&& p.geometry == (Geometry {
        drawing: Some(ToggleState::On),
        width: Some(WidthMode::Value(240)),
        scroll_texts: Some(ToggleState::On),
        ..Geometry::spec_empty()
    })
    &&& p.icon.icon is None
    &&& p.icon.props == Some(Text { drawing: Some(ToggleState::On), ..Text::spec_empty() })
    &&& (p.label.label matches Some(s) && s@ == title)
    &&& p.label.props == Some(
        Text { max_chars: Some(28), drawing: Some(ToggleState::On), ..Text::spec_empty() },
    )
    &&& p.scripting == crate::props::Scripting::spec_empty()
    &&& p.text is None
    &&& p.popup is None
}

/// The cover in the popup, showing the saved artwork.
pub open spec fn spec_cover_props(p: ItemProps, path: Seq<char>) -> bool {
    &&& p.geometry.drawing == Some(ToggleState::On)
    &&& p.geometry.background is Some
    &&& p.geometry == (Geometry {
        drawing: Some(ToggleState::On),
        background: p.geometry.background,
        ..Geometry::spec_empty()
    })
    &&& p.geometry.background.unwrap() == (crate::props::BackgroundProps {
        image: p.geometry.background.unwrap().image,
        ..crate::props::BackgroundProps::spec_empty()
    })
    &&& p.geometry.background.unwrap().image is Some
    &&& p.geometry.background.unwrap().image.unwrap() == (crate::props::ImageProps {
        drawing: Some(ToggleState::On),
        image: p.geometry.background.unwrap().image.unwrap().image,
        ..crate::props::ImageProps::spec_empty()
    })
    &&& (p.geometry.background.unwrap().image.unwrap().image matches Some(ImageType::Path(s))
        && s@ == path)
    &&& p.icon == crate::props::Icon::spec_empty()
    &&& p.label == crate::props::Label::spec_empty()
    &&& p.scripting == crate::props::Scripting::spec_empty()
    &&& p.text is None
    &&& p.popup is None
}

/// A popup row showing a text as its label.
pub open spec fn spec_text_row_props(p: ItemProps, text: Seq<char>) -> bool {
    &&& p.geometry == Geometry::spec_empty()
    &&& p.icon == crate::props::Icon::spec_empty()
    &&& (p.label.label matches Some(s) && s@ == text)
    &&& p.label.props == Some(Text { drawing: Some(ToggleState::On), ..Text::spec_empty() })
    &&& p.scripting == crate::props::Scripting::spec_empty()
    &&& p.text is None
    &&& p.popup is None
}

/// The play control showing the play state.
pub open spec fn spec_play_props(p: ItemProps, is_playing: bool) -> bool {
    &&& p.geometry == Geometry::spec_empty()
    &&& (p.icon.icon matches Some(s) && s@ == spec_play_icon(is_playing))
    &&& p.icon.props == Some(Text { drawing: Some(ToggleState::On), ..Text::spec_empty() })
    &&& p.label == crate::props::Label::spec_empty()
    &&& p.scripting == crate::props::Scripting::spec_empty()
    &&& p.text is None
    &&& p.popup is None
}

/// The commands that show `data`: with nothing playing (no title and no
/// artist) the bar item shrinks; otherwise the bar item, the cover, the
/// title, the artist, the progress and the play control are set in turn.
pub open spec fn spec_media_update(data: MediaData, artwork_path: Seq<char>, r: Seq<Seq<Seq<char>>>) -> bool {
    if data.title@.len() == 0 && data.artist@.len() == 0 {
        exists|p: ItemProps| spec_minimized_props(p) && r == seq![spec_set_cmd("media"@, p.spec_args())]
    } else {
        &&& r.len() == 6
        &&& exists|p: ItemProps| spec_playing_props(p, data.title@) && r[0] == spec_set_cmd("media"@, p.spec_args())
        &&& exists|p: ItemProps| spec_cover_props(p, artwork_path) && r[1] == spec_set_cmd("media.cover"@, p.spec_args())
        &&& exists|p: ItemProps| spec_text_row_props(p, data.title@) && r[2] == spec_set_cmd("media.title"@, p.spec_args())
        &&& exists|p: ItemProps| spec_text_row_props(p, data.artist@) && r[3] == spec_set_cmd("media.artist"@, p.spec_args())
        &&& exists|p: ItemProps|
            spec_text_row_props(
                p,
                spec_format_time(data.elapsed_time as nat) + " / "@ + spec_format_time(
                    data.duration as nat,
                ),
            ) && r[4] == spec_set_cmd("media.progress"@, p.spec_args())
        &&& exists|p: ItemProps| spec_play_props(p, data.is_playing) && r[5] == spec_set_cmd("media.play"@, p.spec_args())
    }
}

fn text_row(name: &str, text: &str) -> (r: Vec<String>)
    ensures
        exists|p: ItemProps| spec_text_row_props(p, text@) && cmd_view(r) == spec_set_cmd(name@, p.spec_args()),
{
    let item = BarItem::new(name).label(text).label_drawing(ToggleState::On);
    assert(spec_text_row_props(item.props, text@));
    item.set()
}

/// The bar item.
pub struct Media;

impl Media {
    /// The control a click asks for, given the event's sender and the
    /// clicked item's name.
    pub fn click_action(sender: &str, name: &str) -> (r: Option<MediaAction>)
        ensures
            r == spec_click_action(sender@, name@),
    {
        if str_eq(sender, "mouse.clicked") {
            if str_eq(name, "media.prev") {
                Some(MediaAction::Previous)
            } else if str_eq(name, "media.next") {
                Some(MediaAction::Next)
            } else if str_eq(name, "media.play") {
                Some(MediaAction::Toggle)
            } else {
                None
            }
        } else {
            None
        }
    }

    /// The commands that show what is playing; the artwork was saved at
    /// `artwork_path`.
    pub fn update_command(data: &MediaData, artwork_path: &str) -> (r: Vec<Vec<String>>)
        ensures
            spec_media_update(*data, artwork_path@, cmds_view(r@)),
    {
        let mut cmds: Vec<Vec<String>> = Vec::new();
        if data.title.as_str().unicode_len() == 0 && data.artist.as_str().unicode_len() == 0 {
            let item = BarItem::new("media").width(MINIMIZED_WIDTH).label_drawing(ToggleState::Off);
            assert(spec_minimized_props(item.props));
            let c = item.set();
            cmds.push(c);
            assert(cmds_view(cmds@) =~= seq![cmd_view(c)]);
            return cmds;
        }
        let main = BarItem::new("media").drawing(ToggleState::On).width(240).label(
            data.title.as_str(),
        ).label_max_chars(28).scroll_texts(ToggleState::On).label_drawing(
            ToggleState::On,
        ).icon_drawing(ToggleState::On);
        assert(spec_playing_props(main.props, data.title@));
        let c0 = main.set();
        let cover = BarItem::new("media.cover").drawing(ToggleState::On).background_image(
            ImageType::Path(string_of(artwork_path)),
        ).background_image_drawing(ToggleState::On);
        assert(spec_cover_props(cover.props, artwork_path@));
        let c1 = cover.set();
        let c2 = text_row("media.title", data.title.as_str());
        let c3 = text_row("media.artist", data.artist.as_str());
        let progress = data.formatted_progress();
        let c4 = text_row("media.progress", progress.as_str());
        let icon = if !data.is_playing {
            "\u{f03e4}"
        } else {
            "\u{f040e}"
        };
        let play = BarItem::new("media.play").icon(icon).icon_drawing(ToggleState::On);
        assert(spec_play_props(play.props, data.is_playing));
        let c5 = play.set();
        cmds.push(c0);
        cmds.push(c1);
        cmds.push(c2);
        cmds.push(c3);
        cmds.push(c4);
        cmds.push(c5);
        assert(cmds_view(cmds@)[0] == cmd_view(c0));
        assert(cmds_view(cmds@)[1] == cmd_view(c1));
        assert(cmds_view(cmds@)[2] == cmd_view(c2));
        assert(cmds_view(cmds@)[3] == cmd_view(c3));
        assert(cmds_view(cmds@)[4] == cmd_view(c4));
        assert(cmds_view(cmds@)[5] == cmd_view(c5));
        cmds
    }
}

/// A font of the given style and size, as sketchybar receives it.
pub open spec fn spec_font_is(f: Option<Font>, style: FontStyle, size: Seq<char>) -> bool {
    f matches Some(x) && x.spec_text() == spec_nerd_font_text(style, size)
}

/// Text settings that only center the text.
pub open spec fn spec_centered() -> Option<Text> {
    Some(Text { align: Some(TextAlignment::Center), ..Text::spec_empty() })
}

/// The popup's cover: 240 wide with paddings of 10, a 140-high background
/// showing the artwork at half scale with rounded corners, centered.
pub open spec fn spec_setup_cover(b: BarItem) -> bool {
    let img = b.props.geometry.background.unwrap().image.unwrap();
    &&& b.name@ == "media.cover"@
    &&& b.children@.len() == 0
    &&& b.props == (ItemProps {
        geometry: Geometry {
            padding_left: Some(10),
            padding_right: Some(10),
            width: Some(WidthMode::Value(240)),
            background: Some(
                BackgroundProps {
                    height: Some(140),
                    image: Some(
                        ImageProps {
                            image: Some(ImageType::MediaArtwork),
                            drawing: Some(ToggleState::On),
                            scale: img.scale,
                            corner_radius: Some(12),
                            ..ImageProps::spec_empty()
                        },
                    ),
                    ..BackgroundProps::spec_empty()
                },
            ),
            ..Geometry::spec_empty()
        },
        text: spec_centered(),
        ..ItemProps::spec_empty()
    })
    &&& (img.scale matches Some(x) && x@ == "0.5"@)
}

/// A centered popup row, 240 wide, whose label has the given font and
/// further settings `extra` (max chars, color) and whose geometry scrolls
/// when `scroll`.
pub open spec fn spec_setup_row(
    b: BarItem,
    name: Seq<char>,
    style: FontStyle,
    size: Seq<char>,
    max_chars: Option<u32>,
    color: Option<Argb>,
    scroll: bool,
) -> bool {
    let t = b.props.label.props.unwrap();
    &&& b.name@ == name
    &&& b.children@.len() == 0
    &&& b.props == (ItemProps {
        geometry: Geometry {
            width: Some(WidthMode::Value(240)),
            scroll_texts: if scroll {
                Some(ToggleState::On)
            } else {
                None
            },
            ..Geometry::spec_empty()
        },
        label: Label {
            label: None,
            props: Some(Text { font: t.font, max_chars, color, ..Text::spec_empty() }),
        },
        text: spec_centered(),
        ..ItemProps::spec_empty()
    })
    &&& spec_font_is(t.font, style, size)
}

/// A centered control, 80 wide, showing `icon` in a regular font of `size`,
/// running `script` when clicked.
pub open spec fn spec_setup_control(
    b: BarItem,
    name: Seq<char>,
    icon: Seq<char>,
    size: Seq<char>,
    script: Seq<char>,
) -> bool {
    let t = b.props.icon.props.unwrap();
    &&& b.name@ == name
    &&& b.children@.len() == 0
    &&& b.props == (ItemProps {
        geometry: Geometry { width: Some(WidthMode::Value(80)), ..Geometry::spec_empty() },
        icon: Icon {
            icon: b.props.icon.icon,
            props: Some(Text { font: t.font, ..Text::spec_empty() }),
        },
        scripting: Scripting {
            click_script: b.props.scripting.click_script,
            ..Scripting::spec_empty()
        },
        text: spec_centered(),
        ..ItemProps::spec_empty()
    })
    &&& (b.props.icon.icon matches Some(x) && x@ == icon)
    &&& spec_font_is(t.font, FontStyle::Regular, size)
    &&& (b.props.scripting.click_script matches Some(ScriptType::String(x)) && x@ == script)
}

/// The popup child is the item `b`.
pub open spec fn spec_child_is(c: PopupChild, pred: spec_fn(BarItem) -> bool) -> bool {
    c matches PopupChild::Item(b) && pred(*b)
}

/// The settings of the media bar item.
pub open spec fn spec_media_props(p: ItemProps, exe_path: Seq<char>) -> bool {
    let mocha = spec_catppuccin_mocha();
    let img = p.geometry.background.unwrap().image.unwrap();
    &&& p == (ItemProps {
        geometry: Geometry {
            position: Some(ComponentPosition::Left),
            width: Some(WidthMode::Value(25)),
            padding_left: Some(10),
            padding_right: Some(10),
            background: Some(
                BackgroundProps {
                    color: Some(mocha.surface0),
                    drawing: Some(ToggleState::On),
                    image: Some(
                        ImageProps {
                            image: Some(ImageType::MediaArtwork),
                            drawing: Some(ToggleState::On),
                            scale: img.scale,
                            corner_radius: Some(4),
                            ..ImageProps::spec_empty()
                        },
                    ),
                    ..BackgroundProps::spec_empty()
                },
            ),
            ..Geometry::spec_empty()
        },
        icon: Icon {
            icon: p.icon.icon,
            props: Some(Text { color: Some(mocha.green), ..Text::spec_empty() }),
        },
        scripting: Scripting {
            update_freq: Some(0),
            script: p.scripting.script,
            click_script: p.scripting.click_script,
            ..Scripting::spec_empty()
        },
        popup: Some(
            PopupProps {
                align: Some(PopupAlign::Center),
                background: Some(
                    BackgroundProps {
                        color: Some(mocha.base),
                        image: Some(
                            ImageProps {
                                image: Some(ImageType::MediaArtwork),
                                blur_radius: Some(50),
                                drawing: Some(ToggleState::On),
                                ..ImageProps::spec_empty()
                            },
                        ),
                        corner_radius: Some(12),
                        border_width: Some(2),
                        border_color: Some(mocha.surface1),
                        ..BackgroundProps::spec_empty()
                    },
                ),
                ..PopupProps::spec_empty()
            },
        ),
        ..ItemProps::spec_empty()
    })
    &&& (img.scale matches Some(x) && x@ == "0.15"@)
    &&& (p.icon.icon matches Some(s) && s@ == "\u{f0386}"@)
    &&& (p.scripting.script matches Some(ScriptType::String(s)) && s@ == exe_path + " --update-media"@)
    &&& (p.scripting.click_script matches Some(ScriptType::String(s)) && s@
        == "sketchybar --set media popup.drawing=toggle"@)
}

/// The media bar item: on the left, updated by `<exe> --update-media`, its
/// click toggling the popup, whose items are, in order, the cover, the
/// title, the artist, the progress, and the previous, play and next
/// controls (each running `<exe> --update-media` when clicked); none of
/// them has popup children of its own.
pub open spec fn spec_media_item(item: BarItem, exe_path: Seq<char>) -> bool {
    let update = exe_path + " --update-media"@;
    let c = item.children@;
    &&& item.name@ == "media"@
    &&& spec_media_props(item.props, exe_path)
    &&& c.len() == 7
    &&& spec_child_is(c[0], |b: BarItem| spec_setup_cover(b))
    &&& spec_child_is(
        c[1],
        |b: BarItem| spec_setup_row(b, "media.title"@, FontStyle::Bold, "14"@, Some(25u32), None, true),
    )
    &&& spec_child_is(
        c[2],
        |b: BarItem|
            spec_setup_row(
                b,
                "media.artist"@,
                FontStyle::Regular,
                "13"@,
                None,
                Some(Argb { a: 0xff, r: 0xba, g: 0xc2, b: 0xde }),
                false,
            ),
    )
    &&& spec_child_is(
        c[3],
        |b: BarItem| spec_setup_row(b, "media.progress"@, FontStyle::Regular, "12"@, None, None, false),
    )
    &&& spec_child_is(c[4], |b: BarItem| spec_setup_control(b, "media.prev"@, "\u{f04ae}"@, "20"@, update))
    &&& spec_child_is(c[5], |b: BarItem| spec_setup_control(b, "media.play"@, "\u{f040e}"@, "24"@, update))
    &&& spec_child_is(c[6], |b: BarItem| spec_setup_control(b, "media.next"@, "\u{f04ad}"@, "20"@, update))
}

fn label_font_row(name: &str, style: FontStyle, size: &str) -> (r: BarItem)
    ensures
        r.name@ == name@,
        r.children@.len() == 0,
        r.props == (ItemProps {
            geometry: Geometry { width: Some(WidthMode::Value(240)), ..Geometry::spec_empty() },
            label: Label {
                label: None,
                props: Some(Text { font: r.props.label.props.unwrap().font, ..Text::spec_empty() }),
            },
            text: spec_centered(),
            ..ItemProps::spec_empty()
        }),
        spec_font_is(r.props.label.props.unwrap().font, style, size@),
{
    BarItem::new(name).label_font(nerd_font(style, size)).width(240).text_align(
        TextAlignment::Center,
    )
}

fn control(name: &str, icon: &str, size: &str, script: &str) -> (r: BarItem)
    ensures
        spec_setup_control(r, name@, icon@, size@, script@),
{
    BarItem::new(name).icon(icon).icon_font(nerd_font(FontStyle::Regular, size)).width(
        80,
    ).text_align(TextAlignment::Center).click_script(script)
}

impl Media {
    /// The commands that register the media-update event, add the media item
    /// with its popup, and subscribe it to media changes and clicks.
    pub fn setup(exe_path: &str) -> (r: Vec<Vec<String>>)
        ensures
            exists|item: BarItem|
                spec_media_item(item, exe_path@) && cmds_view(r@) == seq![
                    seq!["--add"@, "event"@, "media_update"@],
                ] + spec_item_cmds(item, item.props.geometry.position) + seq![
                    seq![
                        "--subscribe"@,
                        "media"@,
                        "media_change"@,
                        "media_update"@,
                        "mouse.clicked"@,
                    ],
                ],
    {
        let theme = catppuccin_mocha();
        let update = concat2(exe_path, " --update-media");
        let cover = BarItem::new("media.cover").background_image(
            ImageType::MediaArtwork,
        ).background_image_drawing(ToggleState::On).background_image_scale(
            string_of("0.5"),
        ).background_image_corner_radius(12).background_height(140).padding_left(
            10,
        ).padding_right(10).width(240).text_align(TextAlignment::Center);
        let title = BarItem::new("media.title").label_font(nerd_font(FontStyle::Bold, "14"))
            .label_max_chars(25).scroll_texts(ToggleState::On).width(240).text_align(
            TextAlignment::Center,
        );
        let artist = label_font_row("media.artist", FontStyle::Regular, "13").label_color(
            Argb::from_u32(0xffbac2de),
        );
        let progress = label_font_row("media.progress", FontStyle::Regular, "12");
        let prev = control("media.prev", "\u{f04ae}", "20", update.as_str());
        let play = control("media.play", "\u{f040e}", "24", update.as_str());
        let next = control("media.next", "\u{f04ad}", "20", update.as_str());
        let item = BarItem::new("media").position(ComponentPosition::Left).update_freq(0).script(
            update.as_str(),
        ).click_script("sketchybar --set media popup.drawing=toggle").icon(
            "\u{f0386}",
        ).icon_color(theme.green).width(MINIMIZED_WIDTH).background_color(
            theme.surface0,
        ).background_drawing(ToggleState::On).background_image(
            ImageType::MediaArtwork,
        ).background_image_drawing(ToggleState::On).background_image_scale(
            string_of("0.15"),
        ).background_image_corner_radius(4).padding_left(10).padding_right(10).popup_align(
            PopupAlign::Center,
        ).popup_background_color(theme.base).popup_background_image(
            ImageType::MediaArtwork,
        ).popup_background_image_blur_radius(50).popup_background_image_drawing(
            ToggleState::On,
        ).popup_background_corner_radius(12).popup_background_border_width(
            2,
        ).popup_background_border_color(theme.surface1);
        let item = item.add_item(cover).add_item(title).add_item(artist).add_item(
            progress,
        ).add_item(prev).add_item(play).add_item(next);
        assert(spec_media_item(item, exe_path@));
        let mut cmds: Vec<Vec<String>> = Vec::new();
        let ev = add_event("media_update");
        cmds.push(ev);
        let mut added = item.add();
        let ghost va = cmds_view(added@);
        cmds.append(&mut added);
        let mut events: Vec<BarEvent> = Vec::new();
        events.push(BarEvent::MediaChange);
        events.push(BarEvent::Custom(string_of("media_update")));
        events.push(BarEvent::MouseClicked);
        let sub = item.subscribe(events);
        assert(spec_event_names(events@) =~= seq!["media_change"@, "media_update"@, "mouse.clicked"@]);
        cmds.push(sub);
        assert(cmd_view(sub) =~= seq![
            "--subscribe"@,
            "media"@,
            "media_change"@,
            "media_update"@,
            "mouse.clicked"@,
        ]);
        assert(cmds_view(cmds@) =~= seq![cmd_view(ev)] + va + seq![cmd_view(sub)]);
        cmds
    }
}

} // verus!

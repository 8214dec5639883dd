use sketchybarrc::media::{format_time, MediaData, MediaRemoteCommand};

#[test]
fn test_media_remote_command_enum() {
    assert_eq!(MediaRemoteCommand::Play as u32, 0);
    assert_eq!(MediaRemoteCommand::Pause as u32, 1);
    assert_eq!(MediaRemoteCommand::TogglePlayPause as u32, 2);
}

#[test]
fn test_format_time() {
    assert_eq!(format_time(0), "00:00");
    assert_eq!(format_time(60), "01:00");
    assert_eq!(format_time(65), "01:05");
    assert_eq!(format_time(3600), "60:00");
}

#[test]
fn media_remote_command_codes() {
    assert_eq!(MediaRemoteCommand::Play.code(), 0);
    assert_eq!(MediaRemoteCommand::Stop.code(), 3);
    assert_eq!(MediaRemoteCommand::NextTrack.code(), 4);
    assert_eq!(MediaRemoteCommand::PreviousTrack.code(), 5);
}

#[test]
fn formatted_progress_shows_elapsed_over_duration() {
    let data = MediaData::from_info(Some("Song".to_string()), None, None, 245, 7, true);
    assert_eq!(data.artist, "Unknown");
    assert_eq!(data.album, "");
    assert_eq!(data.formatted_progress(), "00:07 / 04:05");
    assert_eq!(format_time(6000), "100:00");
}

use sketchybarrc::media::{Media, MediaAction};
use sketchybarrc::volume::{LevelSource, Volume, VolumeInput};

#[test]
fn media_clicks() {
    assert_eq!(Media::click_action("mouse.clicked", "media.prev"), Some(MediaAction::Previous));
    assert_eq!(Media::click_action("mouse.clicked", "media.next"), Some(MediaAction::Next));
    assert_eq!(Media::click_action("mouse.clicked", "media.play"), Some(MediaAction::Toggle));
    assert_eq!(Media::click_action("mouse.clicked", "media"), None);
    assert_eq!(Media::click_action("media_change", "media.play"), None);
}

#[test]
fn nothing_playing_shrinks_the_item() {
    let cmds = Media::update_command(&MediaData::empty(), "/tmp/a.jpeg");
    assert_eq!(cmds, vec![vec!["--set", "media", "width=25", "label.drawing=off"]]);
}

#[test]
fn playing_shows_title_cover_and_controls() {
    let data = MediaData::from_info(Some("Song".into()), Some("Band".into()), None, 125, 61, false);
    let cmds = Media::update_command(&data, "/tmp/a.jpeg");
    assert_eq!(cmds.len(), 6);
    assert_eq!(
        cmds[0],
        vec![
            "--set",
            "media",
            "drawing=on",
            "scroll_texts=on",
            "width=240",
            "icon.drawing=on",
            "label=Song",
            "label.drawing=on",
            "label.max_chars=28",
        ]
    );
    assert_eq!(
        cmds[1],
        vec!["--set", "media.cover", "drawing=on", "background.image=/tmp/a.jpeg", "background.image.drawing=on"]
    );
    assert_eq!(cmds[4], vec!["--set", "media.progress", "label=01:01 / 02:05", "label.drawing=on"]);
    assert_eq!(cmds[5], vec!["--set", "media.play", "icon=\u{f03e4}", "icon.drawing=on"]);
    let playing = MediaData::from_info(Some("S".into()), None, None, 1, 0, true);
    let cmds = Media::update_command(&playing, "/p");
    assert_eq!(cmds[5], vec!["--set", "media.play", "icon=\u{f040e}", "icon.drawing=on"]);
}

#[test]
fn media_setup() {
    let cmds = Media::setup("/bin/rc");
    assert_eq!(cmds[0], vec!["--add", "event", "media_update"]);
    assert_eq!(cmds.len(), 1 + 2 * 8 + 1);
    assert_eq!(cmds[cmds.len() - 1], vec!["--subscribe", "media", "media_change", "media_update", "mouse.clicked"]);
    assert_eq!(cmds[4][3], "popup.media");
    assert!(cmds[12].contains(&"click_script=/bin/rc --update-media".to_string()));
}

#[test]
fn volume_events() {
    assert_eq!(Volume::input("", "volume.slider", "40"), VolumeInput::SetFromSlider);
    assert_eq!(Volume::input("mouse.scrolled", "volume", ""), VolumeInput::Scroll);
    assert_eq!(Volume::input("mouse.clicked", "volume", ""), VolumeInput::TogglePopup);
    assert_eq!(Volume::input("mouse.clicked", "volume.slider", ""), VolumeInput::Nothing);
    assert_eq!(Volume::level_source("volume_change", "volume", "33", ""), LevelSource::Info);
    assert_eq!(Volume::level_source("volume_change", "volume", "", ""), LevelSource::Query);
    assert_eq!(Volume::level_source("mouse.clicked", "volume.slider", "", "70"), LevelSource::Percentage);
}

#[test]
fn volume_icons_and_update() {
    assert_eq!(Volume::icon(0, false), "\u{f075f}");
    assert_eq!(Volume::icon(80, true), "\u{f075f}");
    assert_eq!(Volume::icon(33, false), "\u{f057f}");
    assert_eq!(Volume::icon(34, false), "\u{f0580}");
    assert_eq!(Volume::icon(67, false), "\u{f057e}");
    assert_eq!(
        Volume::update_command(50, false),
        vec![
            vec!["--set", "volume", "icon=\u{f0580}", "label=50%"],
            vec!["--set", "volume.slider", "slider.percentage=50"],
        ]
    );
    assert_eq!(Volume::popup_toggle(), vec!["--animate", "sin", "15", "--set", "volume", "popup.drawing=toggle"]);
    let cmds = Volume::setup("/bin/rc", 42);
    assert_eq!(cmds[2], vec!["--remove", "volume.slider"]);
    assert_eq!(cmds[3][..4].to_vec(), vec!["--add", "slider", "volume.slider", "popup.volume"]);
    assert!(cmds[3].contains(&"slider.percentage=42".to_string()));
    assert_eq!(cmds[5], vec!["--subscribe", "volume.slider", "mouse.clicked"]);
}

#[test]
fn a_track_needs_a_title_or_an_artist() {
    assert!(!MediaData::empty().has_track());
    assert!(MediaData::from_info(None, None, None, 0, 0, false).has_track());
    let mut d = MediaData::empty();
    d.artist = "Band".to_string();
    assert!(d.has_track());
}

use owo_colors::OwoColorize;

use fmmd::errors::FmmdError;
use fmmd::numfmt::{decimal_string, pad_track};
use fmmd::report::{error_line, preview_line};

#[test]
fn preview_line_joins_with_an_arrow() {
    assert_eq!(
        preview_line("song.mp3", "05-Alright.mp3"),
        "song.mp3 -> 05-Alright.mp3"
    );
}

#[test]
fn error_line_colorizes_message_and_path() {
    assert_eq!(
        error_line(&FmmdError::FileRename, "locked.mp3"),
        "\u{1b}[31mCould not rename the file\u{1b}[39m: \"\u{1b}[31mlocked.mp3\u{1b}[39m\""
    );
}

#[test]
fn error_line_matches_owo_colors_output() {
    for (e, path) in [
        (FmmdError::FileParse, "bad.mp3"),
        (FmmdError::FileRename, "locked.mp3"),
        (FmmdError::NotEnoughMetadata, "track.mp3"),
        (FmmdError::InvalidPath, "song"),
    ] {
        let expected = format!("{}: \"{}\"", e.message().red(), path.red());
        assert_eq!(error_line(&e, path), expected);
    }
}

#[test]
fn decimal_string_prints_base_ten() {
    assert_eq!(decimal_string(0), "0");
    assert_eq!(decimal_string(9), "9");
    assert_eq!(decimal_string(10), "10");
    assert_eq!(decimal_string(4294967295), "4294967295");
}

#[test]
fn pad_track_pads_to_width_two() {
    assert_eq!(pad_track(0), "00");
    assert_eq!(pad_track(5), "05");
    assert_eq!(pad_track(10), "10");
    assert_eq!(pad_track(99), "99");
    assert_eq!(pad_track(100), "100");
    assert_eq!(pad_track(123), "123");
}

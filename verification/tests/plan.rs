use fmmd::errors::FmmdError;
use fmmd::plan::{process_file, rename_plan, CliOptions, FileOutcome};
use fmmd::tag::Tag;

fn tag(title: &str, track: u32) -> Tag {
    Tag::new(title.to_string(), track)
}

fn opts(dry_run: bool, verbose: bool) -> CliOptions {
    CliOptions { files: vec!["song.mp3".to_string()], dry_run, verbose }
}

#[test]
fn dry_run_previews_and_never_renames() {
    let t = tag("Alright", 5);
    let plan = rename_plan(Some(&t), "song.mp3", true, false).unwrap();
    assert_eq!(plan.preview.unwrap(), "song.mp3 -> 05-Alright.mp3");
    assert!(plan.target.is_none());
}

#[test]
fn dry_run_with_verbose_still_never_renames() {
    let t = tag("Alright", 5);
    let plan = rename_plan(Some(&t), "song.mp3", true, true).unwrap();
    assert_eq!(plan.preview.unwrap(), "song.mp3 -> 05-Alright.mp3");
    assert!(plan.target.is_none());
}

#[test]
fn verbose_previews_and_renames() {
    let t = tag("Alright", 5);
    let plan = rename_plan(Some(&t), "song.mp3", false, true).unwrap();
    assert_eq!(plan.preview.unwrap(), "song.mp3 -> 05-Alright.mp3");
    assert_eq!(plan.target.unwrap(), "05-Alright.mp3");
}

#[test]
fn quiet_mode_renames_without_preview() {
    let t = tag("Alright", 5);
    let plan = rename_plan(Some(&t), "song.mp3", false, false).unwrap();
    assert!(plan.preview.is_none());
    assert_eq!(plan.target.unwrap(), "05-Alright.mp3");
}

#[test]
fn unparsable_tag_is_a_parse_error() {
    let r = rename_plan(None, "bad.mp3", false, false);
    assert_eq!(r.unwrap_err(), FmmdError::FileParse);
}

#[test]
fn missing_metadata_is_propagated() {
    let t = tag("", 0);
    let r = rename_plan(Some(&t), "track.mp3", false, false);
    assert_eq!(r.unwrap_err(), FmmdError::NotEnoughMetadata);
}

#[test]
fn nonexistent_file_is_skipped_silently() {
    let t = tag("Alright", 5);
    let outcome = process_file(false, Some(&t), "song.mp3", &opts(false, true));
    assert!(matches!(outcome, FileOutcome::Skipped));
}

#[test]
fn parse_failure_reports_a_red_line() {
    let outcome = process_file(true, None, "bad.mp3", &opts(false, false));
    match outcome {
        FileOutcome::Failed { error, report } => {
            assert_eq!(error, FmmdError::FileParse);
            assert_eq!(
                report,
                "\u{1b}[31mCould not parse the file\u{1b}[39m: \"\u{1b}[31mbad.mp3\u{1b}[39m\""
            );
        }
        _ => panic!("expected a failure"),
    }
}

#[test]
fn missing_metadata_reports_a_red_line() {
    let t = tag("", 0);
    let outcome = process_file(true, Some(&t), "track.mp3", &opts(false, false));
    match outcome {
        FileOutcome::Failed { error, report } => {
            assert_eq!(error, FmmdError::NotEnoughMetadata);
            assert_eq!(
                report,
                "\u{1b}[31mCould not find enough information in the file to rename it\u{1b}[39m: \"\u{1b}[31mtrack.mp3\u{1b}[39m\""
            );
        }
        _ => panic!("expected a failure"),
    }
}

#[test]
fn successful_file_yields_its_plan() {
    let t = tag("Alright", 5);
    let outcome = process_file(true, Some(&t), "song.mp3", &opts(true, false));
    match outcome {
        FileOutcome::Proceed(plan) => {
            assert_eq!(plan.preview.unwrap(), "song.mp3 -> 05-Alright.mp3");
            assert!(plan.target.is_none());
        }
        _ => panic!("expected a plan"),
    }
}

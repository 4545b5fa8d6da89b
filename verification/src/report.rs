use vstd::prelude::*;
use vstd::string::StringExecFns;
use owo_colors::OwoColorize;
use crate::errors::FmmdError;
use crate::errors::spec_message;

verus! {

/// The escape sequence that switches the foreground color to red.
pub open spec fn red_prefix() -> Seq<char> {
    seq!['\u{1b}', '[', '3', '1', 'm']
}

/// The escape sequence that switches the foreground color back to the
/// terminal's default.
pub open spec fn red_suffix() -> Seq<char> {
    seq!['\u{1b}', '[', '3', '9', 'm']
}

/// `s` wrapped in the ANSI codes for red foreground text.
pub open spec fn ansi_red(s: Seq<char>) -> Seq<char> {
    red_prefix() + s + red_suffix()
}

/// Relies on owo_colors' `OwoColorize::red`: displaying the returned
/// `FgColorDisplay` writes `Red::ANSI_FG` (`ESC [ 3 1 m`), the text itself,
/// and then `ESC [ 3 9 m`, unconditionally.
#[verifier::external_body]
fn red(s: &str) -> (r: String)
    ensures
        r@ == ansi_red(s@),
{
    format!("{}", s.red())
}

/// The preview line printed before a rename: `"{original} -> {new}"`.
pub open spec fn preview_line_spec(original: Seq<char>, new: Seq<char>) -> Seq<char> {
    original + " -> "@ + new
}

/// Builds the preview line for a rename of `original` to `new`.
pub fn preview_line(original: &str, new: &str) -> (r: String)
    ensures
        r@ == preview_line_spec(original@, new@),
{
    let mut out = original.to_owned();
    out.append(" -> ");
    out.append(new);
    out
}

/// The report line for standard error: the error's message and the quoted
/// path, each in red: `"{message}: \"{path}\""`.
pub open spec fn error_line_spec(e: FmmdError, path: Seq<char>) -> Seq<char> {
    ansi_red(spec_message(e)) + ": \""@ + ansi_red(path) + "\""@
}

/// Builds the colorized report line for one failed file.
pub fn error_line(e: &FmmdError, path: &str) -> (r: String)
    ensures
        r@ == error_line_spec(*e, path@),
{
    let mut out = red(e.message().as_str());
    out.append(": \"");
    out.append(red(path).as_str());
    out.append("\"");
    out
}

} // verus!

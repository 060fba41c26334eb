//! Declarations of the outside types this library carries, and the calls it
//! makes into indicatif, log4rs, crossterm, atty and std.
use vstd::prelude::*;
use indicatif::{MultiProgress, ProgressBar, ProgressDrawTarget, ProgressStyle};
use log4rs::encode::pattern::PatternEncoder;
use std::fmt::Write;

verus! {

#[verifier::external_type_specification]
#[verifier::external_body]
pub struct ExProgressBar(ProgressBar);

#[verifier::external_type_specification]
#[verifier::external_body]
pub struct ExMultiProgress(MultiProgress);

#[verifier::external_type_specification]
#[verifier::external_body]
pub struct ExProgressStyle(ProgressStyle);

#[verifier::external_type_specification]
#[verifier::external_body]
pub struct ExProgressDrawTarget(ProgressDrawTarget);

#[verifier::external_type_specification]
#[verifier::external_body]
pub struct ExPatternEncoder(PatternEncoder);

#[verifier::external_type_specification]
#[verifier::external_body]
pub struct ExIoError(std::io::Error);

/// Relies on indicatif's derived `Clone` for `ProgressBar`, which clones the
/// inner `Arc`: a second handle to the same shared bar.
pub assume_specification[ <ProgressBar as Clone>::clone ](pb: &ProgressBar) -> (r: ProgressBar)
    ensures
        r == *pb,
;

/// Relies on indicatif's `ProgressBar::set_draw_target`.
pub assume_specification[ ProgressBar::set_draw_target ](pb: &ProgressBar, target: ProgressDrawTarget);

/// Relies on indicatif's `ProgressDrawTarget::stderr`: a target that draws to
/// the error stream.
pub assume_specification[ ProgressDrawTarget::stderr ]() -> ProgressDrawTarget;

/// Relies on indicatif's `ProgressStyle::default_bar`.
pub assume_specification[ ProgressStyle::default_bar ]() -> ProgressStyle;

/// Relies on indicatif's derived `Clone` for `ProgressStyle`, a plain value
/// with no shared state: an equal style.
pub assume_specification[ <ProgressStyle as Clone>::clone ](style: &ProgressStyle) -> (r: ProgressStyle)
    ensures
        r == *style,
;

/// Relies on indicatif's `MultiProgress::new`: a display with no bars.
pub assume_specification[ MultiProgress::new ]() -> MultiProgress;

/// Relies on log4rs's `PatternEncoder::new`: an encoder for the given pattern.
pub assume_specification[ PatternEncoder::new ](pattern: &str) -> PatternEncoder;

/// Relies on log4rs's `Default` for `PatternEncoder`.
#[verifier::external_body]
pub(crate) fn default_pattern_encoder() -> PatternEncoder {
    PatternEncoder::default()
}

/// Relies on atty's `is(Stream::Stderr)`: whether the error stream is an
/// interactive terminal. The answer depends on the process's environment.
#[verifier::external_body]
pub(crate) fn stderr_is_terminal() -> bool {
    atty::is(atty::Stream::Stderr)
}

/// The control sequence that erases the cursor's line on an ANSI terminal.
pub open spec fn clear_line_ansi() -> Seq<char> {
    seq!['\x1b', '[', '2', 'K']
}

/// Relies on crossterm's `Display` for `Clear(ClearType::CurrentLine)`, which
/// writes the ANSI sequence, or nothing where crossterm clears the line through
/// the Windows console API instead (a failure there is dropped).
#[verifier::external_body]
pub(crate) fn clear_line_code() -> (r: String)
    ensures
        r@ == clear_line_ansi() || r@.len() == 0,
{
    let mut s = String::new();
    let _ = write!(s, "{}", crossterm::terminal::Clear(crossterm::terminal::ClearType::CurrentLine));
    s
}

/// Relies on std's `str::from_utf8`: the text that the bytes encode, or an
/// error where they are not valid UTF-8.
#[verifier::external_body]
pub(crate) fn decode_text(buf: &[u8]) -> (r: Option<&str>)
    ensures
        r.is_some() == vstd::utf8::valid_utf8(buf@),
        r matches Some(s) ==> s@ == vstd::utf8::decode_utf8(buf@),
{
    std::str::from_utf8(buf).ok()
}

} // verus!

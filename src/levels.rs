//! The choices behind the console log: which severities it shows, how a
//! record is rendered, and the lines that a demonstration logs.
use vstd::prelude::*;

verus! {

/// The severity of a log record, from the most to the least severe.
#[derive(Debug, Clone, Copy, PartialEq, Eq, Structural)]
pub enum Severity {
    Error,
    Warn,
    Info,
    Debug,
    Trace,
}

/// The least severe records that the console shows at a verbosity: none but
/// errors at 0 or below, one more severity per step, everything from 4 on.
pub open spec fn threshold_for(verbosity: int) -> Severity {
    if verbosity <= 0 {
        Severity::Error
    } else if verbosity == 1 {
        Severity::Warn
    } else if verbosity == 2 {
        Severity::Info
    } else if verbosity == 3 {
        Severity::Debug
    } else {
        Severity::Trace
    }
}

pub fn console_threshold(verbosity: i32) -> (r: Severity)
    ensures
        r == threshold_for(verbosity as int),
{
    let v: i32 = if verbosity < 0 { 0 } else { verbosity };
    match v {
        0 => Severity::Error,
        1 => Severity::Warn,
        2 => Severity::Info,
        3 => Severity::Debug,
        _ => Severity::Trace,
    }
}

/// The console pattern that names the source file and line of each record.
pub const PATTERN_WITH_LINES: &'static str = "{h({l})} {f}:{L} - {m}\n";

/// The console pattern without the source location.
pub const PATTERN_PLAIN: &'static str = "{h({l})} - {m}\n";

/// The pattern of the console's records.
pub fn console_pattern(show_line_numbers: bool) -> (r: &'static str)
    ensures
        show_line_numbers ==> r@ == PATTERN_WITH_LINES@,
        !show_line_numbers ==> r@ == PATTERN_PLAIN@,
{
    if show_line_numbers {
        PATTERN_WITH_LINES
    } else {
        PATTERN_PLAIN
    }
}

/// The message `word msg`.
fn tagged(word: &str, msg: &str) -> (r: String)
    ensures
        r@ == word@ + msg@,
{
    let mut s = word.to_string();
    s.append(msg);
    s
}

/// The records that a demonstration logs for one message: one each at error,
/// warning, information and debug severity, the message led by the severity's
/// name.
pub fn logall(msg: &str) -> (r: Vec<(Severity, String)>)
    ensures
        r@.len() == 4,
        r@[0].0 == Severity::Error && r@[0].1@ == "error "@ + msg@,
        r@[1].0 == Severity::Warn && r@[1].1@ == "warn "@ + msg@,
        r@[2].0 == Severity::Info && r@[2].1@ == "info "@ + msg@,
        r@[3].0 == Severity::Debug && r@[3].1@ == "debug "@ + msg@,
{
    let mut r: Vec<(Severity, String)> = Vec::new();
    r.push((Severity::Error, tagged("error ", msg)));
    r.push((Severity::Warn, tagged("warn ", msg)));
    r.push((Severity::Info, tagged("info ", msg)));
    r.push((Severity::Debug, tagged("debug ", msg)));
    r
}

} // verus!

//! The log sink that prints each rendered record above the live bars, or
//! straight to the error stream where that is no terminal.
use vstd::prelude::*;
use indicatif::ProgressBar;
use log4rs::encode::pattern::PatternEncoder;
use crate::bars::{BarBook, BarState};
use crate::outside::{clear_line_ansi, clear_line_code, decode_text, default_pattern_encoder, stderr_is_terminal};

verus! {

/// Why a log record could not be emitted.
#[derive(Debug, Clone, Copy, PartialEq, Eq)]
pub enum EmitError {
    /// The encoder failed to render the record.
    Encode,
    /// The rendered bytes were not valid UTF-8.
    InvalidEncoding,
}

/// A scratch buffer that collects the text of one rendered record.
pub struct StringWriter {
    pub buffer: String,
}

impl StringWriter {
    pub fn new() -> (r: StringWriter)
        ensures
            r.buffer@ == Seq::<char>::empty(),
    {
        StringWriter { buffer: String::new() }
    }

    /// Appends the text that `buf` encodes; bytes that are not valid UTF-8 are
    /// refused and leave the buffer as it was.
    pub fn write(&mut self, buf: &[u8]) -> (r: Result<usize, EmitError>)
        ensures
            vstd::utf8::valid_utf8(buf@) ==> r == Ok::<usize, EmitError>(buf@.len() as usize)
                && final(self).buffer@ == old(self).buffer@ + vstd::utf8::decode_utf8(buf@),
            !vstd::utf8::valid_utf8(buf@) ==> r == Err::<usize, EmitError>(EmitError::InvalidEncoding)
                && final(self).buffer@ == old(self).buffer@,
    {
        match decode_text(buf) {
            Some(s) => {
                self.buffer.append(s);
                Ok(buf.len())
            },
            None => Err(EmitError::InvalidEncoding),
        }
    }

    /// Nothing is held back, so there is nothing to flush.
    pub fn flush(&mut self) -> (r: Result<(), EmitError>)
        ensures
            r is Ok,
            final(self).buffer@ == old(self).buffer@,
    {
        Ok(())
    }
}

/// How one rendered record left the sink.
pub enum Emission {
    /// Printed above the live bars, through the log slot's bar, as this line.
    AboveBars(String),
    /// Not printed: the caller writes this line, with a line break, to the
    /// error stream.
    Direct(String),
}

/// The line printed above the bars for a rendered record: the record after the
/// control sequence that erases the cursor's line, where the terminal takes one.
pub open spec fn above_bars_line(line: Seq<char>, text: Seq<char>) -> bool {
    line == clear_line_ansi() + text || line == text
}

/// A log sink that routes each rendered record around the live bars.
pub struct ProgressAppender {
    encoder: Box<PatternEncoder>,
    progress_bar: ProgressBar,
    is_a_tty: bool,
    printed: Ghost<Seq<Seq<char>>>,
    made: BarBook,
}

impl ProgressAppender {
    pub fn builder() -> (r: ProgressAppenderBuilder)
        ensures
            r.encoder_of() is None,
            r.progress_bar_of() is None,
    {
        ProgressAppenderBuilder { encoder: None, progress_bar: None }
    }

    /// Whether records go above the bars rather than straight to the stream.
    pub closed spec fn interactive(&self) -> bool {
        self.is_a_tty
    }

    /// The bar through which records are printed.
    pub closed spec fn bar(&self) -> ProgressBar {
        self.progress_bar
    }

    /// The encoder that renders each record.
    pub closed spec fn encoder_of(&self) -> Box<PatternEncoder> {
        self.encoder
    }

    /// The bar that the sink made itself, where none was given, with its state.
    pub closed spec fn made_bars(&self) -> Map<ProgressBar, BarState> {
        self.made.states()
    }

    /// The lines handed to the bar's `println` so far, oldest first. indicatif
    /// draws nothing for them while the bar is hidden from the terminal.
    pub closed spec fn printed(&self) -> Seq<Seq<char>> {
        self.printed@
    }

    /// Relies on indicatif's `ProgressBar::println`: prints the line above the
    /// bars of the display that the sink's bar belongs to.
    #[verifier::external_body]
    fn print_above(&mut self, line: String)
        ensures
            final(self).printed() == old(self).printed().push(line@),
            final(self).interactive() == old(self).interactive(),
            final(self).bar() == old(self).bar(),
            final(self).encoder_of() == old(self).encoder_of(),
            final(self).made_bars() == old(self).made_bars(),
    {
        self.progress_bar.println(line)
    }

    pub fn is_interactive(&self) -> (r: bool)
        ensures
            r == self.interactive(),
    {
        self.is_a_tty
    }

    /// The encoder that renders each record before it is emitted.
    pub fn pattern_encoder(&self) -> &PatternEncoder {
        &self.encoder
    }

    /// What becomes of a rendered record, decided without printing anything.
    pub fn route(&self, text: &str) -> (r: Emission)
        ensures
            self.interactive() ==> (r matches Emission::AboveBars(line) && above_bars_line(line@, text@)),
            !self.interactive() ==> (r matches Emission::Direct(line) && line@ == text@),
    {
        if self.is_a_tty {
            let mut line = clear_line_code();
            line.append(text);
            Emission::AboveBars(line)
        } else {
            Emission::Direct(text.to_string())
        }
    }

    /// Emits one rendered record. On a terminal the record is printed above the
    /// live bars through the log slot's bar; elsewhere nothing is printed
    /// through the bar and the record is handed back for a direct write.
    pub fn emit(&mut self, text: &str) -> (r: Emission)
        ensures
            final(self).interactive() == old(self).interactive(),
            final(self).bar() == old(self).bar(),
            final(self).encoder_of() == old(self).encoder_of(),
            final(self).made_bars() == old(self).made_bars(),
            old(self).interactive() ==> (r matches Emission::AboveBars(line)
                && above_bars_line(line@, text@)
                && final(self).printed() == old(self).printed().push(line@)),
            !old(self).interactive() ==> (r matches Emission::Direct(line)
                && line@ == text@
                && final(self).printed() == old(self).printed()),
    {
        match self.route(text) {
            Emission::AboveBars(line) => {
                self.print_above(line.clone());
                Emission::AboveBars(line)
            },
            Emission::Direct(line) => Emission::Direct(line),
        }
    }
}

/// Collects the parts of a `ProgressAppender`.
pub struct ProgressAppenderBuilder {
    encoder: Option<Box<PatternEncoder>>,
    progress_bar: Option<ProgressBar>,
}

impl ProgressAppenderBuilder {
    pub closed spec fn encoder_of(&self) -> Option<Box<PatternEncoder>> {
        self.encoder
    }

    pub closed spec fn progress_bar_of(&self) -> Option<ProgressBar> {
        self.progress_bar
    }

    pub fn encoder(self, encoder: Box<PatternEncoder>) -> (r: ProgressAppenderBuilder)
        ensures
            r.encoder_of() == Some(encoder),
            r.progress_bar_of() == self.progress_bar_of(),
    {
        ProgressAppenderBuilder { encoder: Some(encoder), ..self }
    }

    pub fn progress_bar(self, progress_bar: ProgressBar) -> (r: ProgressAppenderBuilder)
        ensures
            r.encoder_of() == self.encoder_of(),
            r.progress_bar_of() == Some(progress_bar),
    {
        ProgressAppenderBuilder { progress_bar: Some(progress_bar), ..self }
    }

    /// Builds the sink for an error stream that is, or is not, a terminal.
    /// Parts not given are a default pattern encoder and a bar of its own that
    /// draws to the error stream.
    pub fn build_for(self, is_a_tty: bool) -> (r: ProgressAppender)
        ensures
            r.interactive() == is_a_tty,
            r.printed() == Seq::<Seq<char>>::empty(),
            self.progress_bar_of() matches Some(pb) ==> r.bar() == pb,
            self.encoder_of() matches Some(e) ==> r.encoder_of() == e,
            self.progress_bar_of() is Some ==> r.made_bars() == Map::<ProgressBar, BarState>::empty(),
            self.progress_bar_of() is None ==> r.made_bars() == Map::<ProgressBar, BarState>::empty().insert(r.bar(), BarState::fresh(0)),
    {
        let mut made = BarBook::new();
        let encoder = match self.encoder {
            Some(e) => e,
            None => Box::new(default_pattern_encoder()),
        };
        let progress_bar = match self.progress_bar {
            Some(pb) => pb,
            None => {
                let pb = made.new_bar(0);
                pb.set_draw_target(indicatif::ProgressDrawTarget::stderr());
                pb
            },
        };
        ProgressAppender { encoder, progress_bar, is_a_tty, printed: Ghost(Seq::empty()), made }
    }

    /// Builds the sink, asking once whether the error stream is a terminal.
    pub fn build(self) -> (r: ProgressAppender)
        ensures
            r.printed() == Seq::<Seq<char>>::empty(),
            self.progress_bar_of() matches Some(pb) ==> r.bar() == pb,
            self.encoder_of() matches Some(e) ==> r.encoder_of() == e,
            self.progress_bar_of() is None ==> r.made_bars() == Map::<ProgressBar, BarState>::empty().insert(r.bar(), BarState::fresh(0)),
    {
        let is_a_tty = stderr_is_terminal();
        self.build_for(is_a_tty)
    }
}

} // verus!

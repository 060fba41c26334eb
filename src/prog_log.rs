//! The coordinator: owns the multiplexed display, hands out progress bars, and
//! drains the display at each barrier.
use vstd::prelude::*;
use indicatif::{ProgressBar, ProgressDrawTarget, ProgressStyle};
use log4rs::encode::pattern::PatternEncoder;
use crate::appender::ProgressAppender;
use crate::bars::{BarBook, BarState, StyleState};
use crate::display::{Barrier, Display};
use crate::session::{lemma_add_wf, Session};

verus! {

/// The pattern that renders log records when no encoder is given.
pub const DEFAULT_ENCODER_PATTERN: &'static str = "{h({l})} {f}:{L} - {m}\n";

/// Collects the optional parts of a `ProgLog`.
pub struct ProgLogBuilder {
    style: Option<ProgressStyle>,
    encoder: Option<Box<PatternEncoder>>,
}

impl ProgLogBuilder {
    pub closed spec fn style_of(&self) -> Option<ProgressStyle> {
        self.style
    }

    pub closed spec fn encoder_of(&self) -> Option<Box<PatternEncoder>> {
        self.encoder
    }

    fn new() -> (r: ProgLogBuilder)
        ensures
            r.style_of() is None,
            r.encoder_of() is None,
    {
        ProgLogBuilder { style: None, encoder: None }
    }

    pub fn style(self, value: ProgressStyle) -> (r: ProgLogBuilder)
        ensures
            r.style_of() == Some(value),
            r.encoder_of() == self.encoder_of(),
    {
        ProgLogBuilder { style: Some(value), ..self }
    }

    pub fn encoder(self, value: Box<PatternEncoder>) -> (r: ProgLogBuilder)
        ensures
            r.style_of() == self.style_of(),
            r.encoder_of() == Some(value),
    {
        ProgLogBuilder { encoder: Some(value), ..self }
    }

    /// A coordinator in a fresh session, and the log sink that prints through
    /// its log slot.
    pub fn build(self) -> (r: (ProgLog, ProgressAppender))
        ensures
            r.0.wf(),
            r.0@ == Session::fresh(),
            self.style_of() matches Some(s) ==> r.0.style_of() == s,
            r.0.display_rows() == seq![r.0.log_slot()],
            r.0.bars() == Map::<ProgressBar, BarState>::empty().insert(r.0.log_slot(), BarState::idle_slot()),
            r.1.bar() == r.0.log_slot(),
            r.1.printed() == Seq::<Seq<char>>::empty(),
            self.encoder_of() matches Some(e) ==> r.1.encoder_of() == e,
    {
        ProgLog::from_builder(self)
    }
}

/// Hands out progress bars that share one display with log output. The first
/// bar of each session is the log slot itself; later ones get rows of their own.
pub struct ProgLog {
    style: ProgressStyle,
    logger_progress_bar: ProgressBar,
    is_first_pb: bool,
    display: Display,
    previous: Ghost<Option<Display>>,
    bars: BarBook,
    model: Ghost<Session>,
    handed: Ghost<Seq<ProgressBar>>,
}

impl View for ProgLog {
    type V = Session;

    closed spec fn view(&self) -> Session {
        self.model@
    }
}

impl ProgLog {
    pub closed spec fn wf(&self) -> bool {
        &&& self.model@.wf()
        &&& self.is_first_pb == self.model@.first_pending
        &&& self.handed@.len() == self.model@.widgets.len()
        &&& self.display.rows().len() >= 1
        &&& self.display.rows()[0] == self.logger_progress_bar
        &&& self.display.rows().no_duplicates()
        &&& self.model@.first_pending ==> self.display.rows() == seq![self.logger_progress_bar]
        &&& !self.model@.first_pending ==> self.display.rows() == self.handed@
        &&& self.model@.move_cursor == self.display.move_cursor()
        &&& self.model@.spent == self.display.failed()
        &&& forall|i: int| 0 <= i < self.display.rows().len()
            ==> self.bars.states().contains_key(#[trigger] self.display.rows()[i])
        &&& self.model@.first_pending && !self.model@.move_cursor
            ==> self.bars.states()[self.logger_progress_bar] == BarState::idle_slot()
    }

    /// The state of each bar as the coordinator last set it.
    pub closed spec fn bars(&self) -> Map<ProgressBar, BarState> {
        self.bars.states()
    }

    /// The bar that stands first in the display and carries log output.
    pub closed spec fn log_slot(&self) -> ProgressBar {
        self.logger_progress_bar
    }

    /// The bars handed out in the current session, in order.
    pub closed spec fn handed(&self) -> Seq<ProgressBar> {
        self.handed@
    }

    /// The rows of the current session's display, top first.
    pub closed spec fn display_rows(&self) -> Seq<ProgressBar> {
        self.display.rows()
    }

    /// The current session's display.
    pub closed spec fn display(&self) -> Display {
        self.display
    }

    /// The display of the session that the last successful barrier ended.
    pub closed spec fn previous(&self) -> Option<Display> {
        self.previous@
    }

    /// The style given to every bar handed out.
    pub closed spec fn style_of(&self) -> ProgressStyle {
        self.style
    }

    pub fn builder() -> (r: ProgLogBuilder)
        ensures
            r.style_of() is None,
            r.encoder_of() is None,
    {
        ProgLogBuilder::new()
    }

    fn from_builder(builder: ProgLogBuilder) -> (r: (ProgLog, ProgressAppender))
        ensures
            r.0.wf(),
            r.0@ == Session::fresh(),
            builder.style_of() matches Some(s) ==> r.0.style_of() == s,
            r.0.display_rows() == seq![r.0.log_slot()],
            r.0.bars() == Map::<ProgressBar, BarState>::empty().insert(r.0.log_slot(), BarState::idle_slot()),
            r.1.bar() == r.0.log_slot(),
            r.1.printed() == Seq::<Seq<char>>::empty(),
            builder.encoder_of() matches Some(e) ==> r.1.encoder_of() == e,
    {
        let style = match builder.style {
            Some(s) => s,
            None => ProgressStyle::default_bar(),
        };

        let mut bars = BarBook::new();
        let logger_progress_bar = new_progress_bar(&mut bars);
        hide_progress_bar(&mut bars, &logger_progress_bar);
        let mut display = Display::new();
        display.add(logger_progress_bar.clone());
        assert(display.rows() =~= seq![logger_progress_bar]);
        assert(bars.states() =~= Map::<ProgressBar, BarState>::empty().insert(logger_progress_bar, BarState::idle_slot()));

        let encoder = match builder.encoder {
            Some(e) => e,
            None => Box::new(PatternEncoder::new(DEFAULT_ENCODER_PATTERN)),
        };
        let progress_appender = ProgressAppender::builder()
            .encoder(encoder)
            .progress_bar(logger_progress_bar.clone())
            .build();

        (
            ProgLog {
                style,
                display,
                previous: Ghost(None),
                bars,
                logger_progress_bar,
                is_first_pb: true,
                model: Ghost(Session::fresh()),
                handed: Ghost(Seq::empty()),
            },
            progress_appender,
        )
    }

    /// A bar of the given length in the session's style. The first request of
    /// a session takes over the log slot, set back to position 0 with fresh
    /// timings; every later one is a new bar registered below the others.
    pub fn add_with_length(&mut self, len: u64) -> (r: ProgressBar)
        requires
            old(self).wf(),
        ensures
            final(self).wf(),
            final(self)@ == old(self)@.add(len),
            final(self).style_of() == old(self).style_of(),
            final(self).log_slot() == old(self).log_slot(),
            final(self).previous() == old(self).previous(),
            final(self).handed() == old(self).handed().push(r),
            old(self)@.first_pending ==> r == old(self).log_slot()
                && final(self).display_rows() == old(self).display_rows(),
            !old(self)@.first_pending ==> !old(self).display_rows().contains(r)
                && final(self).display_rows() == old(self).display_rows().push(r),
            final(self).bars().contains_key(r),
            final(self).bars()[r].position == 0,
            final(self).bars()[r].length == len,
            final(self).bars()[r].style == StyleState::Given(old(self).style_of()),
            final(self).bars()[r].eta_restarted,
            final(self).bars()[r].clock_restarted,
            !old(self)@.move_cursor ==> !final(self).bars()[r].finished,
    {
        proof {
            lemma_add_wf(self.model@, len);
        }
        let pb = if self.is_first_pb {
            self.is_first_pb = false;

            let pb = self.logger_progress_bar.clone();
            self.bars.set_position(&pb, 0);
            self.bars.set_length(&pb, len);
            self.bars.reset_eta(&pb);
            self.bars.reset_elapsed(&pb);

            proof {
                assert(self.display.rows() =~= self.handed@.push(pb));
            }
            pb
        } else {
            let fresh = self.bars.new_bar(len);
            proof {
                if self.display.rows().contains(fresh) {
                    let i = choose|i: int| 0 <= i < self.display.rows().len() && self.display.rows()[i] == fresh;
                    assert(old(self).bars.states().contains_key(self.display.rows()[i]));
                }
            }
            self.display.add(fresh)
        };
        self.model = Ghost(self.model@.add(len));
        self.handed = Ghost(self.handed@.push(pb));

        let style = self.style.clone();
        self.bars.set_style(&pb, style);
        pb
    }

    /// A bar of length 1.
    pub fn add(&mut self) -> (r: ProgressBar)
        requires
            old(self).wf(),
        ensures
            final(self).wf(),
            final(self)@ == old(self)@.add(1),
            final(self).style_of() == old(self).style_of(),
            final(self).log_slot() == old(self).log_slot(),
            final(self).previous() == old(self).previous(),
            final(self).handed() == old(self).handed().push(r),
            old(self)@.first_pending ==> r == old(self).log_slot()
                && final(self).display_rows() == old(self).display_rows(),
            !old(self)@.first_pending ==> !old(self).display_rows().contains(r)
                && final(self).display_rows() == old(self).display_rows().push(r),
            final(self).bars().contains_key(r),
            final(self).bars()[r].position == 0,
            final(self).bars()[r].length == 1,
            final(self).bars()[r].style == StyleState::Given(old(self).style_of()),
            final(self).bars()[r].eta_restarted,
            final(self).bars()[r].clock_restarted,
            !old(self)@.move_cursor ==> !final(self).bars()[r].finished,
    {
        self.add_with_length(1)
    }

    /// Stops the log slot where no bar took it over, and has the display leave
    /// finished bars in place.
    fn pre_join(&mut self)
        requires
            old(self).wf(),
        ensures
            final(self).wf(),
            final(self)@ == old(self)@.before_join(),
            final(self).style_of() == old(self).style_of(),
            final(self).log_slot() == old(self).log_slot(),
            final(self).handed() == old(self).handed(),
            final(self).previous() == old(self).previous(),
            final(self).display_rows() == old(self).display_rows(),
            final(self).display().move_cursor(),
            final(self).display().failed() == old(self).display().failed(),
            old(self)@.first_pending ==> final(self).bars() == old(self).bars().insert(old(self).log_slot(), BarState {
                position: old(self).bars()[old(self).log_slot()].length,
                finished: true,
                eta_restarted: old(self).bars()[old(self).log_slot()].eta_restarted
                    && old(self).bars()[old(self).log_slot()].length == old(self).bars()[old(self).log_slot()].position,
                ..old(self).bars()[old(self).log_slot()]
            }),
            !old(self)@.first_pending ==> final(self).bars() == old(self).bars(),
    {
        if self.is_first_pb {
            self.bars.finish(&self.logger_progress_bar);
        }
        self.display.set_move_cursor(true);
        self.model = Ghost(self.model@.before_join());
    }

    /// Begins a new session: the log slot is blanked, set back to length 1, and
    /// is the only row of a new display; the drained display is kept as the
    /// previous one.
    fn reset(&mut self)
        requires
            old(self).bars().contains_key(old(self).log_slot()),
        ensures
            final(self).bars() == old(self).bars().insert(old(self).log_slot(), BarState::idle_slot()),
            final(self).wf(),
            final(self)@ == Session::fresh(),
            final(self).style_of() == old(self).style_of(),
            final(self).log_slot() == old(self).log_slot(),
            final(self).display_rows() == seq![old(self).log_slot()],
            final(self).previous() == Some(old(self).display()),
    {
        self.is_first_pb = true;
        self.bars.reset(&self.logger_progress_bar);
        self.bars.reset_eta(&self.logger_progress_bar);
        self.bars.set_length(&self.logger_progress_bar, 1);
        hide_progress_bar(&mut self.bars, &self.logger_progress_bar);
        let mut display = Display::new();
        display.add(self.logger_progress_bar.clone());
        assert(display.rows() =~= seq![self.logger_progress_bar]);
        std::mem::swap(&mut self.display, &mut display);
        self.previous = Ghost(Some(display));
        self.model = Ghost(Session::fresh());
        self.handed = Ghost(Seq::empty());
    }

    /// Waits until every bar of the session is finished or dropped, leaving
    /// finished bars on screen, then begins a new session. A failed write to the
    /// terminal is handed back, nothing is reset, and the display can then not
    /// be joined again.
    pub fn join(&mut self) -> (r: Result<(), std::io::Error>)
        requires
            old(self).wf(),
            !old(self)@.spent,
        ensures
            final(self).wf(),
            final(self).style_of() == old(self).style_of(),
            final(self).log_slot() == old(self).log_slot(),
            r is Ok ==> final(self)@ == Session::fresh()
                && final(self).display_rows() == seq![old(self).log_slot()]
                && final(self).bars()[old(self).log_slot()] == BarState::idle_slot()
                && (final(self).previous() matches Some(d)
                    && d.drained() == Some(Barrier::Keep)
                    && d.rows() == old(self).display_rows()
                    && d.move_cursor()),
            r is Err ==> final(self)@ == (Session { spent: true, ..old(self)@.before_join() })
                && final(self).display().failed()
                && final(self).display_rows() == old(self).display_rows()
                && final(self).handed() == old(self).handed()
                && final(self).previous() == old(self).previous(),
    {
        self.pre_join();
        match self.display.join() {
            Ok(()) => {
                self.reset();
                Ok(())
            },
            Err(e) => {
                self.model = Ghost(Session { spent: true, ..self.model@ });
                Err(e)
            },
        }
    }

    /// As `join`, but the display's region is erased instead of left on screen.
    pub fn join_and_clear(&mut self) -> (r: Result<(), std::io::Error>)
        requires
            old(self).wf(),
            !old(self)@.spent,
        ensures
            final(self).wf(),
            final(self).style_of() == old(self).style_of(),
            final(self).log_slot() == old(self).log_slot(),
            r is Ok ==> final(self)@ == Session::fresh()
                && final(self).display_rows() == seq![old(self).log_slot()]
                && final(self).bars()[old(self).log_slot()] == BarState::idle_slot()
                && (final(self).previous() matches Some(d)
                    && d.drained() == Some(Barrier::Clear)
                    && d.rows() == old(self).display_rows()
                    && d.move_cursor()),
            r is Err ==> final(self)@ == (Session { spent: true, ..old(self)@.before_join() })
                && final(self).display().failed()
                && final(self).display_rows() == old(self).display_rows()
                && final(self).handed() == old(self).handed()
                && final(self).previous() == old(self).previous(),
    {
        self.pre_join();
        match self.display.join_and_clear() {
            Ok(()) => {
                self.reset();
                Ok(())
            },
            Err(e) => {
                self.model = Ghost(Session { spent: true, ..self.model@ });
                Err(e)
            },
        }
    }
}

/// Every bar handed out in a session is a bar of the display: the first is
/// the log slot, no later one is, and no two are the same bar.
pub proof fn lemma_handed_bars_distinct(plog: &ProgLog)
    requires
        plog.wf(),
    ensures
        plog.handed().len() == plog@.widgets.len(),
        plog.handed().len() > 0 ==> plog.handed()[0] == plog.log_slot(),
        forall|i: int| 0 < i < plog.handed().len() ==> #[trigger] plog.handed()[i] != plog.log_slot(),
        forall|i: int, j: int| 0 <= i < j < plog.handed().len() ==>
            #[trigger] plog.handed()[i] != #[trigger] plog.handed()[j],
{
}

/// A new bar of length 1 that draws to the error stream.
fn new_progress_bar(bars: &mut BarBook) -> (r: ProgressBar)
    ensures
        !old(bars).states().contains_key(r),
        final(bars).states() == old(bars).states().insert(r, BarState::fresh(1)),
{
    let pb = bars.new_bar(1);
    pb.set_draw_target(ProgressDrawTarget::stderr());
    pb
}

/// Gives the bar a blank template, so that it takes no visible space.
fn hide_progress_bar(bars: &mut BarBook, pb: &ProgressBar)
    requires
        old(bars).states().contains_key(*pb),
    ensures
        final(bars).states() == old(bars).states().insert(*pb, BarState { style: BarState::blank(), ..old(bars).states()[*pb] }),
{
    let blank: &str = " ";
    proof {
        reveal_strlit(" ");
        assert(blank@ =~= seq![' ']);
    }
    bars.set_template(pb, blank);
}

} // verus!

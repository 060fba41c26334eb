//! The multiplexed display: indicatif's `MultiProgress`, with the rows it
//! holds, its cursor mode and how it was drained recorded beside it.
use vstd::prelude::*;
use indicatif::{MultiProgress, ProgressBar};

verus! {

/// The barrier that drained a display.
#[derive(Debug, Clone, Copy, PartialEq, Eq, Structural)]
pub enum Barrier {
    /// Finished bars were left on screen.
    Keep,
    /// The display's region was erased.
    Clear,
}

/// One terminal region that draws many bars. Only the methods below that make
/// the outside calls change what is recorded of it.
pub struct Display {
    multi: MultiProgress,
    rows: Ghost<Seq<ProgressBar>>,
    move_cursor: Ghost<bool>,
    drained: Ghost<Option<Barrier>>,
    failed: Ghost<bool>,
}

impl Display {
    /// The bars registered, top row first.
    pub closed spec fn rows(&self) -> Seq<ProgressBar> {
        self.rows@
    }

    /// Finished bars stay where they are rather than being cleared and redrawn.
    pub closed spec fn move_cursor(&self) -> bool {
        self.move_cursor@
    }

    /// The barrier that has drained the display, if one has.
    pub closed spec fn drained(&self) -> Option<Barrier> {
        self.drained@
    }

    /// A barrier failed on it; it may not be joined again.
    pub closed spec fn failed(&self) -> bool {
        self.failed@
    }

    /// A display with no rows that draws to the error stream.
    pub fn new() -> (r: Display)
        ensures
            r.rows() == Seq::<ProgressBar>::empty(),
            !r.move_cursor(),
            r.drained() is None,
            !r.failed(),
    {
        Display {
            multi: MultiProgress::new(),
            rows: Ghost(Seq::empty()),
            move_cursor: Ghost(false),
            drained: Ghost(None),
            failed: Ghost(false),
        }
    }

    /// Relies on indicatif's `MultiProgress::add`: registers the bar as the last
    /// row and hands back the same bar.
    #[verifier::external_body]
    pub fn add(&mut self, pb: ProgressBar) -> (r: ProgressBar)
        ensures
            r == pb,
            final(self).rows() == old(self).rows().push(pb),
            final(self).move_cursor() == old(self).move_cursor(),
            final(self).drained() == old(self).drained(),
            final(self).failed() == old(self).failed(),
    {
        self.multi.add(pb)
    }

    /// Relies on indicatif's `MultiProgress::set_move_cursor`.
    #[verifier::external_body]
    pub fn set_move_cursor(&mut self, move_cursor: bool)
        ensures
            final(self).rows() == old(self).rows(),
            final(self).move_cursor() == move_cursor,
            final(self).drained() == old(self).drained(),
            final(self).failed() == old(self).failed(),
    {
        self.multi.set_move_cursor(move_cursor)
    }

    /// Relies on indicatif's `MultiProgress::join`: waits until every row is
    /// finished or dropped, leaving finished bars on screen, and hands back a
    /// failed terminal write. It panics on a display whose earlier join failed,
    /// which `requires` leaves out.
    #[verifier::external_body]
    pub fn join(&mut self) -> (r: std::io::Result<()>)
        requires
            !old(self).failed(),
        ensures
            final(self).rows() == old(self).rows(),
            final(self).move_cursor() == old(self).move_cursor(),
            final(self).failed() == (r is Err),
            r is Ok ==> final(self).drained() == Some(Barrier::Keep),
            r is Err ==> final(self).drained() == old(self).drained(),
    {
        self.multi.join()
    }

    /// Relies on indicatif's `MultiProgress::join_and_clear`: as `join`, then
    /// erases the display's region. It panics on a display whose earlier join
    /// failed, which `requires` leaves out.
    #[verifier::external_body]
    pub fn join_and_clear(&mut self) -> (r: std::io::Result<()>)
        requires
            !old(self).failed(),
        ensures
            final(self).rows() == old(self).rows(),
            final(self).move_cursor() == old(self).move_cursor(),
            final(self).failed() == (r is Err),
            r is Ok ==> final(self).drained() == Some(Barrier::Clear),
            r is Err ==> final(self).drained() == old(self).drained(),
    {
        self.multi.join_and_clear()
    }
}

} // verus!

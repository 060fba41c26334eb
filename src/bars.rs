//! What the library knows of each progress bar it works on: the state that its
//! own calls into indicatif left the bar in.
use vstd::prelude::*;
use indicatif::{ProgressBar, ProgressStyle};

verus! {

/// The style a bar draws with.
pub ghost enum StyleState {
    /// indicatif's default bar style.
    Default,
    /// The default bar style with this template.
    Template(Seq<char>),
    /// A style handed in by the caller.
    Given(ProgressStyle),
}

/// The state of a bar as last set through the library.
pub ghost struct BarState {
    pub position: u64,
    pub length: u64,
    pub finished: bool,
    pub style: StyleState,
    /// The time estimate has been restarted and no step recorded since.
    pub eta_restarted: bool,
    /// The elapsed-time clock has been restarted.
    pub clock_restarted: bool,
}

impl BarState {
    /// A bar just made with the given length.
    pub open spec fn fresh(len: u64) -> BarState {
        BarState {
            position: 0,
            length: len,
            finished: false,
            style: StyleState::Default,
            eta_restarted: true,
            clock_restarted: true,
        }
    }

    /// The style with a blank template, which takes no visible space.
    pub open spec fn blank() -> StyleState {
        StyleState::Template(seq![' '])
    }

    pub open spec fn hidden(self) -> bool {
        self.style == Self::blank()
    }

    /// The log slot while no task holds it: hidden, unfinished, at position 0
    /// of length 1, with its timings restarted.
    pub open spec fn idle_slot() -> BarState {
        BarState { style: Self::blank(), ..Self::fresh(1) }
    }
}

/// The bars made or changed through the library, with their states.
pub struct BarBook {
    states: Ghost<Map<ProgressBar, BarState>>,
}

impl BarBook {
    pub closed spec fn states(&self) -> Map<ProgressBar, BarState> {
        self.states@
    }

    pub fn new() -> (r: BarBook)
        ensures
            r.states() == Map::<ProgressBar, BarState>::empty(),
    {
        BarBook { states: Ghost(Map::empty()) }
    }

    /// Relies on indicatif's `ProgressBar::new`: a bar at position 0 of the
    /// given length, in the default style, unfinished, with shared state of its
    /// own, so none of the bars already recorded.
    #[verifier::external_body]
    pub fn new_bar(&mut self, len: u64) -> (r: ProgressBar)
        ensures
            !old(self).states().contains_key(r),
            final(self).states() == old(self).states().insert(r, BarState::fresh(len)),
    {
        ProgressBar::new(len)
    }

    /// Relies on indicatif's `ProgressBar::set_position`: a changed position
    /// records a step in the estimate.
    #[verifier::external_body]
    pub fn set_position(&mut self, pb: &ProgressBar, pos: u64)
        requires
            old(self).states().contains_key(*pb),
        ensures
            final(self).states() == old(self).states().insert(*pb, BarState {
                position: pos,
                eta_restarted: old(self).states()[*pb].eta_restarted && pos == old(self).states()[*pb].position,
                ..old(self).states()[*pb]
            }),
    {
        pb.set_position(pos)
    }

    /// Relies on indicatif's `ProgressBar::set_length`.
    #[verifier::external_body]
    pub fn set_length(&mut self, pb: &ProgressBar, len: u64)
        requires
            old(self).states().contains_key(*pb),
        ensures
            final(self).states() == old(self).states().insert(*pb, BarState { length: len, ..old(self).states()[*pb] }),
    {
        pb.set_length(len)
    }

    /// Relies on indicatif's `ProgressBar::reset_eta`.
    #[verifier::external_body]
    pub fn reset_eta(&mut self, pb: &ProgressBar)
        requires
            old(self).states().contains_key(*pb),
        ensures
            final(self).states() == old(self).states().insert(*pb, BarState { eta_restarted: true, ..old(self).states()[*pb] }),
    {
        pb.reset_eta()
    }

    /// Relies on indicatif's `ProgressBar::reset_elapsed`.
    #[verifier::external_body]
    pub fn reset_elapsed(&mut self, pb: &ProgressBar)
        requires
            old(self).states().contains_key(*pb),
        ensures
            final(self).states() == old(self).states().insert(*pb, BarState { clock_restarted: true, ..old(self).states()[*pb] }),
    {
        pb.reset_elapsed()
    }

    /// Relies on indicatif's `ProgressBar::reset`: both timings restarted, then
    /// position 0 and unfinished; moving to 0 records a step in the estimate.
    #[verifier::external_body]
    pub fn reset(&mut self, pb: &ProgressBar)
        requires
            old(self).states().contains_key(*pb),
        ensures
            final(self).states() == old(self).states().insert(*pb, BarState {
                position: 0,
                finished: false,
                eta_restarted: old(self).states()[*pb].position == 0,
                clock_restarted: true,
                ..old(self).states()[*pb]
            }),
    {
        pb.reset()
    }

    /// Relies on indicatif's `ProgressBar::finish`: the position moves to the
    /// length and the bar is done.
    #[verifier::external_body]
    pub fn finish(&mut self, pb: &ProgressBar)
        requires
            old(self).states().contains_key(*pb),
        ensures
            final(self).states() == old(self).states().insert(*pb, BarState {
                position: old(self).states()[*pb].length,
                finished: true,
                eta_restarted: old(self).states()[*pb].eta_restarted
                    && old(self).states()[*pb].length == old(self).states()[*pb].position,
                ..old(self).states()[*pb]
            }),
    {
        pb.finish()
    }

    /// Relies on indicatif's `ProgressBar::set_style`.
    #[verifier::external_body]
    pub fn set_style(&mut self, pb: &ProgressBar, style: ProgressStyle)
        requires
            old(self).states().contains_key(*pb),
        ensures
            final(self).states() == old(self).states().insert(*pb, BarState { style: StyleState::Given(style), ..old(self).states()[*pb] }),
    {
        pb.set_style(style)
    }

    /// Relies on indicatif's `ProgressStyle::default_bar`, `ProgressStyle::template`
    /// and `ProgressBar::set_style`: the bar draws with the default style under
    /// the given template.
    #[verifier::external_body]
    pub fn set_template(&mut self, pb: &ProgressBar, template: &str)
        requires
            old(self).states().contains_key(*pb),
        ensures
            final(self).states() == old(self).states().insert(*pb, BarState { style: StyleState::Template(template@), ..old(self).states()[*pb] }),
    {
        pb.set_style(ProgressStyle::default_bar().template(template))
    }
}

} // verus!

//! The coordinator's state as a mathematical value: which widgets a session has
//! handed out, in which display rows, and how a barrier resets it.
use vstd::prelude::*;

verus! {

/// A widget handed out in the current session: the display row it stands in
/// (row 0 is the log slot) and the length it was given.
pub ghost struct Widget {
    pub row: nat,
    pub length: u64,
}

/// The state of a coordinator.
pub ghost struct Session {
    /// The next widget request takes over the log slot.
    pub first_pending: bool,
    /// The widgets handed out since the session began, in order.
    pub widgets: Seq<Widget>,
    /// How many rows the display holds, the log slot included.
    pub rows: nat,
    /// The display was switched to leave finished bars in place.
    pub move_cursor: bool,
    /// A barrier failed on the display, which may not be joined again.
    pub spent: bool,
}

impl Session {
    /// A session that has just begun: only the log slot is registered.
    pub open spec fn fresh() -> Session {
        Session { first_pending: true, widgets: Seq::empty(), rows: 1, move_cursor: false, spent: false }
    }

    pub open spec fn wf(self) -> bool {
        &&& self.first_pending ==> self.widgets.len() == 0 && self.rows == 1
        &&& !self.first_pending ==> self.widgets.len() >= 1 && self.rows == self.widgets.len()
        &&& forall|i: int| 0 <= i < self.widgets.len() ==> (#[trigger] self.widgets[i]).row == i
    }

    /// The row that the next widget request is given.
    pub open spec fn next_row(self) -> nat {
        if self.first_pending { 0 } else { self.rows }
    }

    /// A widget request of the given length.
    pub open spec fn add(self, len: u64) -> Session {
        Session {
            first_pending: false,
            widgets: self.widgets.push(Widget { row: self.next_row(), length: len }),
            rows: if self.first_pending { self.rows } else { self.rows + 1 },
            ..self
        }
    }

    /// Widget requests of the given lengths, one after the other.
    pub open spec fn add_all(self, lens: Seq<u64>) -> Session
        decreases lens.len(),
    {
        if lens.len() == 0 {
            self
        } else {
            self.add_all(lens.drop_last()).add(lens.last())
        }
    }

    /// What the first half of a barrier does: the display keeps finished bars.
    pub open spec fn before_join(self) -> Session {
        Session { move_cursor: true, ..self }
    }
}

/// A widget request keeps a session well formed.
pub proof fn lemma_add_wf(s: Session, len: u64)
    requires
        s.wf(),
    ensures
        s.add(len).wf(),
{
    let t = s.add(len);
    assert forall|i: int| 0 <= i < t.widgets.len() implies (#[trigger] t.widgets[i]).row == i by {
        if i < s.widgets.len() {
            assert(t.widgets[i] == s.widgets[i]);
        }
    }
}

/// From a fresh session, any run of widget requests followed by nothing else
/// hands the log slot to the first request only, and every later request its
/// own row, each distinct from all others; the lengths are those requested.
pub proof fn lemma_log_slot_taken_once(lens: Seq<u64>)
    ensures
        Session::fresh().add_all(lens).wf(),
        Session::fresh().add_all(lens).widgets.len() == lens.len(),
        lens.len() > 0 ==> Session::fresh().add_all(lens).widgets[0].row == 0,
        forall|i: int| 0 < i < lens.len() ==> (#[trigger] Session::fresh().add_all(lens).widgets[i]).row != 0,
        forall|i: int, j: int| 0 <= i < j < lens.len() ==>
            (#[trigger] Session::fresh().add_all(lens).widgets[i]).row
                != (#[trigger] Session::fresh().add_all(lens).widgets[j]).row,
        forall|i: int| 0 <= i < lens.len() ==> (#[trigger] Session::fresh().add_all(lens).widgets[i]).length == lens[i],
    decreases lens.len(),
{
    if lens.len() > 0 {
        let init = lens.drop_last();
        lemma_log_slot_taken_once(init);
        let s = Session::fresh().add_all(init);
        lemma_add_wf(s, lens.last());
        let t = s.add(lens.last());
        assert(t == Session::fresh().add_all(lens));
        assert forall|i: int| 0 <= i < lens.len() implies (#[trigger] t.widgets[i]).length == lens[i] by {
            if i < init.len() {
                assert(t.widgets[i] == s.widgets[i]);
                assert(init[i] == lens[i]);
            }
        }
    }
}

/// A successful barrier leaves a coordinator in the state of a new one (both
/// are `Session::fresh()`), so the next request again takes the log slot, with
/// the length it asks for, and no other row is in use.
pub proof fn lemma_barrier_restarts_session(len: u64)
    ensures
        Session::fresh().wf(),
        Session::fresh().add(len).widgets =~= seq![Widget { row: 0, length: len }],
        Session::fresh().add(len).rows == 1,
        Session::fresh().add(len).wf(),
        !Session::fresh().add(len).first_pending,
{
    lemma_add_wf(Session::fresh(), len);
}

} // verus!

//! Bounded fan-out: a batch of independent items is worked on with at most a
//! fixed number of them in flight, and results leave in the order in which
//! the items complete.
//!
//! The scheduler only keeps the books. Its driver asks for the next turn,
//! starts the item it is told to start, waits when told to wait, and reports
//! each completion.

use vstd::prelude::*;

verus! {

/// What the driver does next.
#[derive(Clone, Copy, Debug, PartialEq, Eq, Structural)]
pub enum Turn {
    /// Start the item with this index.
    Start(usize),
    /// Nothing can be started: wait for an item in flight to complete.
    Wait,
    /// Every item has been started and has completed.
    Finished,
}

/// One thing that can happen to a fan-out.
pub enum Move {
    Start,
    Complete(usize),
}

/// The books of a fan-out.
pub struct FanOutView {
    /// The most items that may be in flight at once.
    pub ceiling: usize,
    /// The number of items in the batch.
    pub total: usize,
    /// Items `0..started` have been started, in that order.
    pub started: usize,
    /// The items in flight, in the order in which they were started.
    pub in_flight: Seq<usize>,
    /// The items that completed, in the order in which they completed.
    pub finished: Seq<usize>,
}

impl FanOutView {
    pub open spec fn initial(total: usize, ceiling: usize) -> FanOutView {
        FanOutView { ceiling, total, started: 0, in_flight: Seq::empty(), finished: Seq::empty() }
    }

    /// Item `i` has been started: it is in flight or has completed.
    pub open spec fn seen(self, i: usize) -> bool {
        self.in_flight.contains(i) || self.finished.contains(i)
    }

    pub open spec fn valid(self) -> bool {
        &&& self.ceiling >= 1
        &&& self.started <= self.total
        &&& self.in_flight.len() <= self.ceiling
        &&& self.in_flight.len() + self.finished.len() == self.started
        &&& self.in_flight.no_duplicates()
        &&& self.finished.no_duplicates()
        &&& forall|i: usize| i < self.started <==> #[trigger] self.seen(i)
        &&& forall|i: usize| #[trigger]
            self.seen(i) ==> !(self.in_flight.contains(i) && self.finished.contains(i))
    }

    pub open spec fn can_start(self) -> bool {
        self.started < self.total && self.in_flight.len() < self.ceiling
    }

    pub open spec fn is_finished(self) -> bool {
        self.started == self.total && self.in_flight.len() == 0
    }

    pub open spec fn turn(self) -> Turn {
        if self.can_start() {
            Turn::Start(self.started)
        } else if self.in_flight.len() > 0 {
            Turn::Wait
        } else {
            Turn::Finished
        }
    }

    pub open spec fn after_start(self) -> FanOutView {
        FanOutView {
            started: (self.started + 1) as usize,
            in_flight: self.in_flight.push(self.started),
            ..self
        }
    }

    pub open spec fn after_complete(self, i: usize) -> FanOutView {
        FanOutView {
            in_flight: self.in_flight.remove(self.in_flight.index_of(i)),
            finished: self.finished.push(i),
            ..self
        }
    }

    /// A move that does not apply leaves the books as they are.
    pub open spec fn apply(self, m: Move) -> FanOutView {
        match m {
            Move::Start => if self.can_start() {
                self.after_start()
            } else {
                self
            },
            Move::Complete(i) => if self.in_flight.contains(i) {
                self.after_complete(i)
            } else {
                self
            },
        }
    }

    pub open spec fn run(self, moves: Seq<Move>) -> FanOutView
        decreases moves.len(),
    {
        if moves.len() == 0 {
            self
        } else {
            self.run(moves.drop_last()).apply(moves.last())
        }
    }
}

/// Starting an item keeps the books valid.
pub proof fn lemma_start_valid(v: FanOutView)
    requires
        v.valid(),
        v.can_start(),
    ensures
        v.after_start().valid(),
{
    let w = v.after_start();
    assert(!v.seen(v.started));
    assert forall|x: usize| w.in_flight.contains(x) <==> (v.in_flight.contains(x) || x
        == v.started) by {
        if w.in_flight.contains(x) {
            let k = choose|k: int| 0 <= k < w.in_flight.len() && w.in_flight[k] == x;
            if k < v.in_flight.len() {
                assert(v.in_flight[k] == x);
            }
        }
        if v.in_flight.contains(x) {
            let k = choose|k: int| 0 <= k < v.in_flight.len() && v.in_flight[k] == x;
            assert(w.in_flight[k] == x);
        }
        if x == v.started {
            assert(w.in_flight[v.in_flight.len() as int] == x);
        }
    }
    assert forall|x: usize| x < w.started <==> #[trigger] w.seen(x) by {
        assert(x < v.started <==> v.seen(x));
    }
    assert forall|x: usize| #[trigger]
        w.seen(x) implies !(w.in_flight.contains(x) && w.finished.contains(x)) by {
        assert(v.seen(x) ==> !(v.in_flight.contains(x) && v.finished.contains(x)));
    }
    assert forall|a: int, b: int|
        0 <= a < w.in_flight.len() && 0 <= b < w.in_flight.len() && a != b implies w.in_flight[a]
        != w.in_flight[b] by {
        if a < v.in_flight.len() {
            assert(v.in_flight.contains(v.in_flight[a]));
        }
        if b < v.in_flight.len() {
            assert(v.in_flight.contains(v.in_flight[b]));
        }
    }
}

/// Completing an item in flight keeps the books valid and frees one place.
pub proof fn lemma_complete_valid(v: FanOutView, i: usize)
    requires
        v.valid(),
        v.in_flight.contains(i),
    ensures
        v.after_complete(i).valid(),
        v.after_complete(i).in_flight.len() == v.in_flight.len() - 1,
        !v.after_complete(i).in_flight.contains(i),
{
    let w = v.after_complete(i);
    let k = v.in_flight.index_of(i);
    assert(0 <= k < v.in_flight.len() && v.in_flight[k] == i);
    assert forall|x: usize| w.in_flight.contains(x) <==> (v.in_flight.contains(x) && x != i) by {
        if w.in_flight.contains(x) {
            let j = choose|j: int| 0 <= j < w.in_flight.len() && w.in_flight[j] == x;
            let j0 = if j < k {
                j
            } else {
                j + 1
            };
            assert(v.in_flight[j0] == x);
        }
        if v.in_flight.contains(x) && x != i {
            let j = choose|j: int| 0 <= j < v.in_flight.len() && v.in_flight[j] == x;
            let j1 = if j < k {
                j
            } else {
                j - 1
            };
            assert(w.in_flight[j1] == x);
        }
    }
    assert forall|x: usize| w.finished.contains(x) <==> (v.finished.contains(x) || x == i) by {
        if w.finished.contains(x) {
            let j = choose|j: int| 0 <= j < w.finished.len() && w.finished[j] == x;
            if j < v.finished.len() {
                assert(v.finished[j] == x);
            }
        }
        if v.finished.contains(x) {
            let j = choose|j: int| 0 <= j < v.finished.len() && v.finished[j] == x;
            assert(w.finished[j] == x);
        }
        if x == i {
            assert(w.finished[v.finished.len() as int] == x);
        }
    }
    assert(v.seen(i));
    assert(!v.finished.contains(i));
    assert forall|a: int, b: int|
        0 <= a < w.finished.len() && 0 <= b < w.finished.len() && a != b implies w.finished[a]
        != w.finished[b] by {
        if a < v.finished.len() {
            assert(v.finished.contains(v.finished[a]));
        }
        if b < v.finished.len() {
            assert(v.finished.contains(v.finished[b]));
        }
    }
    assert forall|a: int, b: int|
        0 <= a < w.in_flight.len() && 0 <= b < w.in_flight.len() && a != b implies w.in_flight[a]
        != w.in_flight[b] by {}
    assert forall|x: usize| x < w.started <==> #[trigger] w.seen(x) by {
        assert(x < v.started <==> v.seen(x));
    }
    assert forall|x: usize| #[trigger]
        w.seen(x) implies !(w.in_flight.contains(x) && w.finished.contains(x)) by {
        assert(v.seen(x) ==> !(v.in_flight.contains(x) && v.finished.contains(x)));
    }
}

/// Whatever happens to valid books, they stay valid.
pub proof fn lemma_apply_valid(v: FanOutView, m: Move)
    requires
        v.valid(),
    ensures
        v.apply(m).valid(),
{
    match m {
        Move::Start => {
            if v.can_start() {
                lemma_start_valid(v);
            }
        },
        Move::Complete(i) => {
            if v.in_flight.contains(i) {
                lemma_complete_valid(v, i);
            }
        },
    }
}

/// The ceiling is respected: after any sequence of starts and completions,
/// in any order, no more than `ceiling` items are in flight.
pub proof fn lemma_ceiling_respected(total: usize, ceiling: usize, moves: Seq<Move>)
    requires
        ceiling >= 1,
    ensures
        FanOutView::initial(total, ceiling).run(moves).valid(),
        FanOutView::initial(total, ceiling).run(moves).in_flight.len() <= ceiling,
        FanOutView::initial(total, ceiling).run(moves).ceiling == ceiling,
        FanOutView::initial(total, ceiling).run(moves).total == total,
    decreases moves.len(),
{
    let start = FanOutView::initial(total, ceiling);
    if moves.len() == 0 {
        assert forall|i: usize| !(#[trigger] start.seen(i)) by {}
    } else {
        lemma_ceiling_respected(total, ceiling, moves.drop_last());
        lemma_apply_valid(start.run(moves.drop_last()), moves.last());
    }
}

/// Once the fan-out is finished, each item has completed exactly once: the
/// completion order lists `total` distinct items, and every item of the batch
/// is among them.
pub proof fn lemma_finished_covers_batch(v: FanOutView)
    requires
        v.valid(),
        v.is_finished(),
    ensures
        v.finished.len() == v.total,
        v.finished.no_duplicates(),
        forall|i: usize| i < v.total <==> v.finished.contains(i),
{
    assert forall|i: usize| i < v.total <==> v.finished.contains(i) by {
        assert(i < v.started <==> v.seen(i));
        if v.in_flight.contains(i) {
            let k = choose|k: int| 0 <= k < v.in_flight.len() && v.in_flight[k] == i;
        }
    }
}

/// A fan-out that is not finished can always move on: either an item can be
/// started, or an item is in flight whose completion is awaited.
pub proof fn lemma_never_stuck(v: FanOutView)
    requires
        v.valid(),
    ensures
        v.turn() is Finished <==> v.is_finished(),
        v.turn() is Wait ==> v.in_flight.len() > 0,
        v.turn() is Start ==> v.can_start(),
{
}

/// The scheduler.
pub struct FanOut {
    ceiling: usize,
    total: usize,
    started: usize,
    in_flight: Vec<usize>,
    finished: Vec<usize>,
}

impl View for FanOut {
    type V = FanOutView;

    closed spec fn view(&self) -> FanOutView {
        FanOutView {
            ceiling: self.ceiling,
            total: self.total,
            started: self.started,
            in_flight: self.in_flight@,
            finished: self.finished@,
        }
    }
}

impl FanOut {
    pub open spec fn wf(&self) -> bool {
        self@.valid()
    }

    /// A fan-out over `total` items with at most `ceiling` in flight.
    pub fn new(total: usize, ceiling: usize) -> (s: FanOut)
        requires
            ceiling >= 1,
        ensures
            s.wf(),
            s@ == FanOutView::initial(total, ceiling),
    {
        let s = FanOut { ceiling, total, started: 0, in_flight: Vec::new(), finished: Vec::new() };
        proof {
            lemma_ceiling_respected(total, ceiling, Seq::empty());
        }
        s
    }

    pub fn ceiling(&self) -> (n: usize)
        ensures
            n == self@.ceiling,
    {
        self.ceiling
    }

    pub fn total(&self) -> (n: usize)
        ensures
            n == self@.total,
    {
        self.total
    }

    /// The number of items in flight.
    pub fn in_flight(&self) -> (n: usize)
        ensures
            n == self@.in_flight.len(),
    {
        self.in_flight.len()
    }

    /// The number of items that completed.
    pub fn completed(&self) -> (n: usize)
        ensures
            n == self@.finished.len(),
    {
        self.finished.len()
    }

    pub fn is_in_flight(&self, i: usize) -> (b: bool)
        ensures
            b == self@.in_flight.contains(i),
    {
        self.position(i).is_some()
    }

    pub fn turn(&self) -> (t: Turn)
        ensures
            t == self@.turn(),
    {
        if self.started < self.total && self.in_flight.len() < self.ceiling {
            Turn::Start(self.started)
        } else if self.in_flight.len() > 0 {
            Turn::Wait
        } else {
            Turn::Finished
        }
    }

    /// Starts the next item if one may be started, and says which.
    pub fn start(&mut self) -> (i: Option<usize>)
        requires
            old(self).wf(),
        ensures
            final(self).wf(),
            old(self)@.can_start() ==> i == Some(old(self)@.started) && final(self)@ == old(
                self,
            )@.after_start(),
            !old(self)@.can_start() ==> i.is_none() && final(self)@ == old(self)@,
    {
        if self.started < self.total && self.in_flight.len() < self.ceiling {
            let i: usize = self.started;
            proof {
                lemma_start_valid(self@);
            }
            self.in_flight.push(i);
            self.started = i + 1;
            Some(i)
        } else {
            None
        }
    }

    /// Records that item `i` completed. Says whether it was in flight; if it
    /// was not, nothing changes.
    pub fn complete(&mut self, i: usize) -> (was_in_flight: bool)
        requires
            old(self).wf(),
        ensures
            final(self).wf(),
            was_in_flight == old(self)@.in_flight.contains(i),
            was_in_flight ==> final(self)@ == old(self)@.after_complete(i),
            !was_in_flight ==> final(self)@ == old(self)@,
    {
        match self.position(i) {
            Some(k) => {
                proof {
                    lemma_complete_valid(self@, i);
                    assert(self@.in_flight.index_of(i) == k);
                }
                self.in_flight.remove(k);
                self.finished.push(i);
                true
            },
            None => false,
        }
    }

    fn position(&self, i: usize) -> (k: Option<usize>)
        ensures
            k.is_some() == self.in_flight@.contains(i),
            k matches Some(k) ==> k < self.in_flight@.len() && self.in_flight@[k as int] == i,
    {
        let mut k: usize = 0;
        while k < self.in_flight.len()
            invariant
                k <= self.in_flight@.len(),
                forall|j: int| 0 <= j < k ==> self.in_flight@[j] != i,
            decreases self.in_flight@.len() - k,
        {
            if self.in_flight[k] == i {
                return Some(k);
            }
            k = k + 1;
        }
        None
    }
}

} // verus!

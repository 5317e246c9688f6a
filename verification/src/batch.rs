//! A batch of tree fetches: the request is checked once, then its keys are
//! fetched with a bounded number in flight, and each outcome becomes one
//! record of the response stream, in the order in which the fetches end.

use vstd::prelude::*;
use crate::errors::outcome_view;
use crate::errors::record_view;
use crate::errors::ErrorKindView;
use crate::errors::FetchError;
use crate::errors::FetchErrorView;
use crate::errors::ServerError;
use crate::errors::ServerErrorView;
use crate::fanout::lemma_complete_valid;
use crate::fanout::lemma_finished_covers_batch;
use crate::fanout::lemma_start_valid;
use crate::fanout::FanOut;
use crate::fanout::FanOutView;
use crate::fanout::Turn;
use crate::fetch::fetch_tree;
use crate::fetch::TreeFetch;
use crate::fetch::TreeFetchView;
use crate::model::Key;
use crate::model::KeyView;
use crate::model::TreeAttributes;
use crate::model::TreeEntry;
use crate::model::TreeEntryView;
use crate::validate::conflicting_attributes_text;
use crate::validate::validate_attributes;

verus! {

/// The most tree fetches in flight for one request.
pub const MAX_CONCURRENT_TREE_FETCHES_PER_REQUEST: usize = 128;

/// The parameters of the route: the repository that the request names.
#[derive(Clone, Debug, PartialEq, Eq)]
pub struct TreeParams {
    repo: String,
}

impl View for TreeParams {
    type V = Seq<char>;

    closed spec fn view(&self) -> Seq<char> {
        self.repo@
    }
}

impl TreeParams {
    pub fn new(repo: String) -> (p: TreeParams)
        ensures
            p@ == repo@,
    {
        TreeParams { repo }
    }

    pub fn repo(&self) -> (r: &String)
        ensures
            r@ == self@,
    {
        &self.repo
    }
}

/// A batch request: the keys to fetch and the attributes asked for.
#[derive(Clone, Debug, PartialEq, Eq)]
pub struct TreeRequest {
    pub keys: Vec<Key>,
    pub attributes: TreeAttributes,
}

/// The keys of a request, as contracts see them.
pub open spec fn keys_view(s: Seq<Key>) -> Seq<KeyView> {
    s.map_values(|k: Key| k@)
}

/// The record for one key: the entry as it is, or the failure tagged with
/// the key.
pub open spec fn record_of(key: KeyView, outcome: Result<TreeEntryView, FetchErrorView>) -> Result<
    TreeEntryView,
    ServerErrorView,
> {
    match outcome {
        Ok(e) => Ok(e),
        Err(e) => Err(ServerErrorView::with_key(key, e)),
    }
}

/// The number of entries among the records of a stream.
pub open spec fn successes(stream: Seq<Result<TreeEntryView, ServerErrorView>>) -> nat
    decreases stream.len(),
{
    if stream.len() == 0 {
        0
    } else {
        successes(stream.drop_last()) + if stream.last() is Ok {
            1nat
        } else {
            0nat
        }
    }
}

/// What the driver of a batch does next.
pub enum BatchTurn {
    /// Run this fetch, which is the fetch for the key with this index.
    Fetch(usize, TreeFetch),
    /// Wait for a fetch in flight to end.
    Wait,
    /// Every key has its record.
    Finished,
}

pub enum BatchTurnView {
    Fetch(usize, TreeFetchView),
    Wait,
    Finished,
}

impl View for BatchTurn {
    type V = BatchTurnView;

    open spec fn view(&self) -> BatchTurnView {
        match self {
            BatchTurn::Fetch(i, f) => BatchTurnView::Fetch(*i, f@),
            BatchTurn::Wait => BatchTurnView::Wait,
            BatchTurn::Finished => BatchTurnView::Finished,
        }
    }
}

/// The state of a batch.
pub struct BatchView {
    pub keys: Seq<KeyView>,
    pub attributes: TreeAttributes,
    /// Which keys have been started and which are done.
    pub sched: FanOutView,
    /// How the fetch of each key that is done ended.
    pub outcomes: Map<usize, Result<TreeEntryView, FetchErrorView>>,
    /// The records that left so far, in the order in which they left.
    pub stream: Seq<Result<TreeEntryView, ServerErrorView>>,
    /// The number of entries that left so far.
    pub loads: nat,
}

impl BatchView {
    pub open spec fn initial(keys: Seq<KeyView>, attributes: TreeAttributes) -> BatchView {
        BatchView {
            keys,
            attributes,
            sched: FanOutView::initial(
                keys.len() as usize,
                MAX_CONCURRENT_TREE_FETCHES_PER_REQUEST,
            ),
            outcomes: Map::empty(),
            stream: Seq::empty(),
            loads: 0,
        }
    }

    pub open spec fn valid(self) -> bool {
        &&& self.sched.valid()
        &&& self.sched.total == self.keys.len()
        &&& self.sched.ceiling == MAX_CONCURRENT_TREE_FETCHES_PER_REQUEST
        &&& self.stream.len() == self.sched.finished.len()
        &&& forall|j: int|
            0 <= j < self.stream.len() ==> self.outcomes.contains_key(self.sched.finished[j])
                && #[trigger] self.stream[j] == record_of(
                self.keys[self.sched.finished[j] as int],
                self.outcomes[self.sched.finished[j]],
            )
        &&& self.loads == successes(self.stream)
    }

    /// The next turn: the fetch for the next key if one may be started.
    pub open spec fn next(self) -> (BatchView, BatchTurnView) {
        match self.sched.turn() {
            Turn::Start(i) => (
                BatchView { sched: self.sched.after_start(), ..self },
                BatchTurnView::Fetch(i, TreeFetchView::initial(self.keys[i as int], self.attributes)),
            ),
            Turn::Wait => (self, BatchTurnView::Wait),
            Turn::Finished => (self, BatchTurnView::Finished),
        }
    }

    /// The state after the fetch for key `index` ended. An outcome for a key
    /// that is not in flight is ignored.
    pub open spec fn after_outcome(
        self,
        index: usize,
        outcome: Result<TreeEntryView, FetchErrorView>,
    ) -> BatchView {
        if !self.sched.in_flight.contains(index) {
            self
        } else {
            BatchView {
                sched: self.sched.after_complete(index),
                outcomes: self.outcomes.insert(index, outcome),
                stream: self.stream.push(record_of(self.keys[index as int], outcome)),
                loads: self.loads + if outcome is Ok {
                    1nat
                } else {
                    0nat
                },
                ..self
            }
        }
    }
}

/// A stream holds no more entries than records.
pub proof fn lemma_successes_bounded(stream: Seq<Result<TreeEntryView, ServerErrorView>>)
    ensures
        successes(stream) <= stream.len(),
    decreases stream.len(),
{
    if stream.len() > 0 {
        lemma_successes_bounded(stream.drop_last());
    }
}

/// A fresh batch is valid.
pub proof fn lemma_initial_valid(keys: Seq<KeyView>, attributes: TreeAttributes)
    requires
        keys.len() <= usize::MAX,
    ensures
        BatchView::initial(keys, attributes).valid(),
{
    crate::fanout::lemma_ceiling_respected(
        keys.len() as usize,
        MAX_CONCURRENT_TREE_FETCHES_PER_REQUEST,
        Seq::empty(),
    );
}

/// A turn keeps the batch valid.
pub proof fn lemma_next_valid(v: BatchView)
    requires
        v.valid(),
    ensures
        v.next().0.valid(),
        v.next().1 matches BatchTurnView::Fetch(i, f) ==> v.next().0.sched.in_flight.contains(i)
            && i < v.keys.len(),
{
    if v.sched.can_start() {
        lemma_start_valid(v.sched);
        let s1 = v.sched.after_start();
        assert(s1.in_flight[v.sched.in_flight.len() as int] == v.sched.started);
    }
}

/// An outcome keeps the batch valid.
pub proof fn lemma_outcome_valid(
    v: BatchView,
    index: usize,
    outcome: Result<TreeEntryView, FetchErrorView>,
)
    requires
        v.valid(),
    ensures
        v.after_outcome(index, outcome).valid(),
        v.sched.in_flight.contains(index) ==> index < v.keys.len(),
{
    if v.sched.in_flight.contains(index) {
        lemma_complete_valid(v.sched, index);
        assert(v.sched.seen(index));
        let w = v.after_outcome(index, outcome);
        assert forall|j: int| 0 <= j < w.stream.len() implies w.outcomes.contains_key(
            w.sched.finished[j],
        ) && #[trigger] w.stream[j] == record_of(
            w.keys[w.sched.finished[j] as int],
            w.outcomes[w.sched.finished[j]],
        ) by {
            if j < v.stream.len() {
                assert(w.sched.finished[j] == v.sched.finished[j]);
                assert(v.sched.finished.contains(v.sched.finished[j]));
                assert(v.sched.finished[j] != index);
                assert(w.stream[j] == v.stream[j]);
            }
        }
        assert(w.stream.drop_last() =~= v.stream);
    }
}

/// Once a batch is finished, its stream holds one record for each key: as
/// many records as keys, and record `j` is the record of key `finished[j]`,
/// where `finished` lists every key once.
pub proof fn lemma_one_record_per_key(v: BatchView)
    requires
        v.valid(),
        v.sched.is_finished(),
    ensures
        v.stream.len() == v.keys.len(),
        v.sched.finished.no_duplicates(),
        forall|i: usize| i < v.keys.len() <==> v.sched.finished.contains(i),
        forall|j: int|
            0 <= j < v.stream.len() ==> #[trigger] v.stream[j] == record_of(
                v.keys[v.sched.finished[j] as int],
                v.outcomes[v.sched.finished[j]],
            ),
{
    lemma_finished_covers_batch(v.sched);
}

/// A stream in which every record but the one at `at` is an entry holds one
/// entry less than records.
pub proof fn lemma_all_but_one_succeed(
    stream: Seq<Result<TreeEntryView, ServerErrorView>>,
    at: int,
)
    requires
        0 <= at < stream.len(),
        stream[at] is Err,
        forall|j: int| 0 <= j < stream.len() && j != at ==> (#[trigger] stream[j]) is Ok,
    ensures
        successes(stream) == stream.len() - 1,
    decreases stream.len(),
{
    let front = stream.drop_last();
    if at == stream.len() - 1 {
        lemma_all_succeed(front);
    } else {
        lemma_all_but_one_succeed(front, at);
    }
}

/// A stream of entries only holds as many entries as records.
pub proof fn lemma_all_succeed(stream: Seq<Result<TreeEntryView, ServerErrorView>>)
    requires
        forall|j: int| 0 <= j < stream.len() ==> (#[trigger] stream[j]) is Ok,
    ensures
        successes(stream) == stream.len(),
    decreases stream.len(),
{
    if stream.len() > 0 {
        lemma_all_succeed(stream.drop_last());
    }
}

/// In a finished batch of N keys in which the fetch of key `missing` ended
/// with "key does not exist" and every other fetch ended with an entry, the
/// stream holds N records, whatever the order of arrival: one of them is the
/// "key does not exist" record for that key, and the other N - 1 are
/// entries.
pub proof fn lemma_one_missing_key(v: BatchView, missing: usize)
    requires
        v.valid(),
        v.sched.is_finished(),
        missing < v.keys.len(),
        v.outcomes[missing] == Err::<TreeEntryView, FetchErrorView>(
            FetchErrorView {
                kind: ErrorKindView::KeyDoesNotExist(v.keys[missing as int]),
                cause: None,
            },
        ),
        forall|i: usize| i < v.keys.len() && i != missing ==> (#[trigger] v.outcomes[i]) is Ok,
    ensures
        v.stream.len() == v.keys.len(),
        v.loads == v.keys.len() - 1,
        exists|at: int|
            #![trigger v.stream[at]]
            0 <= at < v.stream.len() && v.stream[at] == Err::<TreeEntryView, ServerErrorView>(
                ServerErrorView::with_key(
                    v.keys[missing as int],
                    FetchErrorView {
                        kind: ErrorKindView::KeyDoesNotExist(v.keys[missing as int]),
                        cause: None,
                    },
                ),
            ) && (forall|j: int|
                0 <= j < v.stream.len() && j != at ==> (#[trigger] v.stream[j]) is Ok),
{
    lemma_one_record_per_key(v);
    assert(v.sched.finished.contains(missing));
    let at = choose|at: int| 0 <= at < v.sched.finished.len() && v.sched.finished[at] == missing;
    assert(v.stream[at] == record_of(v.keys[missing as int], v.outcomes[missing]));
    assert forall|j: int| 0 <= j < v.stream.len() && j != at implies (#[trigger] v.stream[j]) is Ok by {
        let i = v.sched.finished[j];
        assert(v.sched.finished.contains(i));
        assert(i != missing);
        assert(v.outcomes[i] is Ok);
    }
    lemma_all_but_one_succeed(v.stream, at);
}

/// A batch of tree fetches under way.
pub struct BatchFetch {
    keys: Vec<Key>,
    attributes: TreeAttributes,
    sched: FanOut,
    loads: usize,
    outcomes: Ghost<Map<usize, Result<TreeEntryView, FetchErrorView>>>,
    stream: Ghost<Seq<Result<TreeEntryView, ServerErrorView>>>,
}

impl View for BatchFetch {
    type V = BatchView;

    closed spec fn view(&self) -> BatchView {
        BatchView {
            keys: keys_view(self.keys@),
            attributes: self.attributes,
            sched: self.sched@,
            outcomes: self.outcomes@,
            stream: self.stream@,
            loads: self.loads as nat,
        }
    }
}

/// Sets up the fetches for all keys of a request.
pub fn fetch_all_trees(request: TreeRequest) -> (batch: BatchFetch)
    ensures
        batch.wf(),
        batch@ == BatchView::initial(keys_view(request.keys@), request.attributes),
{
    let sched = FanOut::new(request.keys.len(), MAX_CONCURRENT_TREE_FETCHES_PER_REQUEST);
    proof {
        lemma_initial_valid(keys_view(request.keys@), request.attributes);
    }
    BatchFetch {
        keys: request.keys,
        attributes: request.attributes,
        sched,
        loads: 0,
        outcomes: Ghost(Map::empty()),
        stream: Ghost(Seq::empty()),
    }
}

/// Serves a batch request. A request that asks for child metadata and
/// augmented trees together is rejected as a whole, with one error and
/// before any key is looked at; any other request gets its batch.
pub fn trees(request: TreeRequest) -> (r: Result<BatchFetch, ServerError>)
    ensures
        request.attributes.consistent() ==> r is Ok && r->Ok_0.wf() && r->Ok_0@
            == BatchView::initial(keys_view(request.keys@), request.attributes),
        !request.attributes.consistent() ==> r is Err && r->Err_0@ == ServerErrorView::general(
            FetchErrorView {
                kind: ErrorKindView::InvalidRequest(conflicting_attributes_text()),
                cause: None,
            },
        ),
{
    match validate_attributes(request.attributes) {
        Err(kind) => Err(ServerError::new(FetchError::new(kind, None))),
        Ok(_) => Ok(fetch_all_trees(request)),
    }
}

impl BatchFetch {
    pub open spec fn wf(&self) -> bool {
        self@.valid()
    }

    /// The number of keys in the batch.
    pub fn len(&self) -> (n: usize)
        ensures
            n == self@.keys.len(),
    {
        self.keys.len()
    }

    /// The number of fetches in flight.
    pub fn in_flight(&self) -> (n: usize)
        ensures
            n == self@.sched.in_flight.len(),
    {
        self.sched.in_flight()
    }

    /// The number of records that left.
    pub fn emitted(&self) -> (n: usize)
        requires
            self.wf(),
        ensures
            n == self@.stream.len(),
    {
        self.sched.completed()
    }

    /// The number of entries that left: what the load counter is bumped by.
    pub fn loads(&self) -> (n: usize)
        ensures
            n == self@.loads,
    {
        self.loads
    }

    pub fn is_finished(&self) -> (b: bool)
        requires
            self.wf(),
        ensures
            b == self@.sched.is_finished(),
    {
        proof {
            crate::fanout::lemma_never_stuck(self@.sched);
        }
        match self.sched.turn() {
            Turn::Finished => true,
            _ => false,
        }
    }

    /// Takes the next turn.
    pub fn next(&mut self) -> (turn: BatchTurn)
        requires
            old(self).wf(),
        ensures
            final(self).wf(),
            (final(self)@, turn@) == old(self)@.next(),
    {
        proof {
            lemma_next_valid(self@);
        }
        match self.sched.turn() {
            Turn::Start(_) => {
                match self.sched.start() {
                    Some(i) => {
                        let key = self.keys[i].clone();
                        BatchTurn::Fetch(i, fetch_tree(key, self.attributes))
                    },
                    None => BatchTurn::Wait,
                }
            },
            Turn::Wait => BatchTurn::Wait,
            Turn::Finished => BatchTurn::Finished,
        }
    }

    /// Takes the outcome of the fetch for key `index` and returns the record
    /// that leaves for it. Nothing leaves for a key that is not in flight.
    pub fn complete(&mut self, index: usize, outcome: Result<TreeEntry, FetchError>) -> (record:
        Option<Result<TreeEntry, ServerError>>)
        requires
            old(self).wf(),
        ensures
            final(self).wf(),
            final(self)@ == old(self)@.after_outcome(index, outcome_view(outcome)),
            record is Some <==> old(self)@.sched.in_flight.contains(index),
            record matches Some(r) ==> record_view(r) == record_of(
                old(self)@.keys[index as int],
                outcome_view(outcome),
            ),
    {
        proof {
            lemma_outcome_valid(self@, index, outcome_view(outcome));
        }
        if !self.sched.is_in_flight(index) {
            return None;
        }
        proof {
            lemma_successes_bounded(self@.stream);
            lemma_complete_valid(self@.sched, index);
        }
        let ghost before = self@;
        self.sched.complete(index);
        proof {
            self.outcomes@ = before.outcomes.insert(index, outcome_view(outcome));
            self.stream@ = before.stream.push(
                record_of(before.keys[index as int], outcome_view(outcome)),
            );
        }
        match outcome {
            Ok(entry) => {
                self.loads = self.loads + 1;
                Some(Ok(entry))
            },
            Err(e) => {
                let key = self.keys[index].clone();
                Some(Err(ServerError::with_key(key, e)))
            },
        }
    }
}

} // verus!

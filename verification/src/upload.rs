//! Upload of tree blobs: each item is written through to the backing store,
//! which is its sole owner from then on, and answered with a token that
//! refers to it.

use vstd::prelude::*;
use bytes::Bytes;
use crate::blob::bytes_contents;
use crate::blob::bytes_from_vec;
use crate::errors::answer_view;
use crate::fanout::lemma_complete_valid;
use crate::fanout::lemma_start_valid;
use crate::fanout::FanOut;
use crate::fanout::FanOutView;
use crate::fanout::Turn;
use crate::model::HgId;
use crate::model::Parents;

verus! {

/// The most uploads in flight for one request.
pub const MAX_CONCURRENT_UPLOAD_TREES_PER_REQUEST: usize = 100;

/// A list of items sent as one request.
#[derive(Clone, Debug, PartialEq, Eq)]
pub struct Batch<T> {
    pub batch: Vec<T>,
}

/// A tree blob to upload.
#[derive(Clone, Debug, PartialEq, Eq)]
pub struct UploadTreeEntry {
    pub node_id: HgId,
    pub data: Vec<u8>,
    pub parents: Parents,
}

#[derive(Clone, Debug, PartialEq, Eq)]
pub struct UploadTreeRequest {
    pub entry: UploadTreeEntry,
}

pub struct UploadTreeEntryView {
    pub node_id: HgId,
    pub data: Seq<u8>,
    pub parents: Parents,
}

impl View for UploadTreeRequest {
    type V = UploadTreeEntryView;

    open spec fn view(&self) -> UploadTreeEntryView {
        UploadTreeEntryView {
            node_id: self.entry.node_id,
            data: self.entry.data@,
            parents: self.entry.parents,
        }
    }
}

/// What a token refers to.
#[derive(Clone, Copy, Debug, PartialEq, Eq)]
pub enum AnyId {
    HgFilenodeId(HgId),
    HgTreeId(HgId),
    HgChangesetId(HgId),
}

/// A reference to uploaded content. At this layer it is not signed and does
/// not expire.
#[derive(Clone, Copy, Debug, PartialEq, Eq)]
pub struct UploadToken {
    pub id: AnyId,
    pub bubble_id: Option<u64>,
}

impl UploadToken {
    pub fn new_fake_token(id: AnyId, bubble_id: Option<u64>) -> (t: UploadToken)
        ensures
            t == (UploadToken { id, bubble_id }),
    {
        UploadToken { id, bubble_id }
    }
}

#[derive(Clone, Copy, Debug, PartialEq, Eq)]
pub struct UploadTreeResponse {
    pub token: UploadToken,
}

/// The failure of one upload.
#[derive(Clone, Debug, PartialEq, Eq)]
pub struct UploadError {
    pub node_id: HgId,
    pub message: String,
}

pub struct UploadErrorView {
    pub node_id: HgId,
    pub message: Seq<char>,
}

impl View for UploadError {
    type V = UploadErrorView;

    open spec fn view(&self) -> UploadErrorView {
        UploadErrorView { node_id: self.node_id, message: self.message@ }
    }
}

/// What is handed to the store: the identifier to write under, the parents,
/// and the bytes.
#[derive(Clone, Debug, PartialEq, Eq)]
pub struct TreeWrite {
    pub node_id: HgId,
    pub p1: Option<HgId>,
    pub p2: Option<HgId>,
    pub contents: Bytes,
}

pub struct TreeWriteView {
    pub node_id: HgId,
    pub p1: Option<HgId>,
    pub p2: Option<HgId>,
    pub contents: Seq<u8>,
}

impl View for TreeWrite {
    type V = TreeWriteView;

    open spec fn view(&self) -> TreeWriteView {
        TreeWriteView {
            node_id: self.node_id,
            p1: self.p1,
            p2: self.p2,
            contents: bytes_contents(self.contents),
        }
    }
}

impl UploadTreeEntryView {
    /// The write for this item: under the item's identifier, with the item's
    /// parents and exactly the item's bytes.
    pub open spec fn write(self) -> TreeWriteView {
        TreeWriteView {
            node_id: self.node_id,
            p1: self.parents.first(),
            p2: self.parents.second(),
            contents: self.data,
        }
    }
}

/// The token for the tree with this identifier.
pub open spec fn token_for(node_id: HgId) -> UploadTreeResponse {
    UploadTreeResponse { token: UploadToken { id: AnyId::HgTreeId(node_id), bubble_id: None } }
}

/// What the upload of the tree `node_id` comes to, given what the store said
/// of the write.
pub open spec fn upload_outcome(node_id: HgId, written: Result<(), Seq<char>>) -> Result<
    UploadTreeResponse,
    UploadErrorView,
> {
    match written {
        Ok(_) => Ok(token_for(node_id)),
        Err(m) => Err(UploadErrorView { node_id, message: m }),
    }
}

pub open spec fn upload_result_view(r: Result<UploadTreeResponse, UploadError>) -> Result<
    UploadTreeResponse,
    UploadErrorView,
> {
    match r {
        Ok(t) => Ok(t),
        Err(e) => Err(e@),
    }
}

/// Prepares the write of one tree.
pub fn store_tree(item: UploadTreeRequest) -> (write: TreeWrite)
    ensures
        write@ == item@.write(),
{
    let upload_node_id = item.entry.node_id;
    let p1 = item.entry.parents.p1();
    let p2 = item.entry.parents.p2();
    let contents = bytes_from_vec(item.entry.data);
    TreeWrite { node_id: upload_node_id, p1, p2, contents }
}

/// Answers one upload once the store has spoken.
pub fn upload_response(node_id: HgId, written: Result<(), String>) -> (r: Result<
    UploadTreeResponse,
    UploadError,
>)
    ensures
        upload_result_view(r) == upload_outcome(node_id, answer_view(written)),
{
    match written {
        Ok(_) => Ok(
            UploadTreeResponse { token: UploadToken::new_fake_token(AnyId::HgTreeId(node_id), None) },
        ),
        Err(message) => Err(UploadError { node_id, message }),
    }
}

/// What the driver of an upload batch does next.
#[derive(Clone, Debug, PartialEq, Eq)]
pub enum UploadTurn {
    /// Hand this write, which is the write for the item with this index, to
    /// the store.
    Write(usize, TreeWrite),
    /// Wait for a write in flight to be answered.
    Wait,
    /// Every item has been answered.
    Finished,
}

pub enum UploadTurnView {
    Write(usize, TreeWriteView),
    Wait,
    Finished,
}

impl View for UploadTurn {
    type V = UploadTurnView;

    open spec fn view(&self) -> UploadTurnView {
        match self {
            UploadTurn::Write(i, w) => UploadTurnView::Write(*i, w@),
            UploadTurn::Wait => UploadTurnView::Wait,
            UploadTurn::Finished => UploadTurnView::Finished,
        }
    }
}

/// The state of an upload batch.
pub struct UploadBatchView {
    /// The write of each item, in the order of the request.
    pub writes: Seq<TreeWriteView>,
    /// Which items have been started and which are answered.
    pub sched: FanOutView,
}

impl UploadBatchView {
    pub open spec fn initial(items: Seq<UploadTreeEntryView>) -> UploadBatchView {
        UploadBatchView {
            writes: items.map_values(|i: UploadTreeEntryView| i.write()),
            sched: FanOutView::initial(
                items.len() as usize,
                MAX_CONCURRENT_UPLOAD_TREES_PER_REQUEST,
            ),
        }
    }

    pub open spec fn valid(self) -> bool {
        &&& self.sched.valid()
        &&& self.sched.total == self.writes.len()
        &&& self.sched.ceiling == MAX_CONCURRENT_UPLOAD_TREES_PER_REQUEST
    }

    pub open spec fn next(self) -> (UploadBatchView, UploadTurnView) {
        match self.sched.turn() {
            Turn::Start(i) => (
                UploadBatchView { sched: self.sched.after_start(), ..self },
                UploadTurnView::Write(i, self.writes[i as int]),
            ),
            Turn::Wait => (self, UploadTurnView::Wait),
            Turn::Finished => (self, UploadTurnView::Finished),
        }
    }

    /// The state after the store answered the write for item `index`. An
    /// answer for an item that is not in flight is ignored.
    pub open spec fn after_answer(self, index: usize) -> UploadBatchView {
        if self.sched.in_flight.contains(index) {
            UploadBatchView { sched: self.sched.after_complete(index), ..self }
        } else {
            self
        }
    }
}

/// The items of a request, as contracts see them.
pub open spec fn items_view(s: Seq<UploadTreeRequest>) -> Seq<UploadTreeEntryView> {
    s.map_values(|i: UploadTreeRequest| i@)
}

pub open spec fn writes_view(s: Seq<TreeWrite>) -> Seq<TreeWriteView> {
    s.map_values(|w: TreeWrite| w@)
}

/// A batch of uploads under way.
pub struct UploadBatch {
    writes: Vec<TreeWrite>,
    sched: FanOut,
}

impl View for UploadBatch {
    type V = UploadBatchView;

    closed spec fn view(&self) -> UploadBatchView {
        UploadBatchView { writes: writes_view(self.writes@), sched: self.sched@ }
    }
}

/// Uploads the trees of a batch request.
pub struct UploadTreesHandler;

impl UploadTreesHandler {
    /// Sets up the uploads for all items of a request.
    pub fn handler(request: Batch<UploadTreeRequest>) -> (uploads: UploadBatch)
        ensures
            uploads.wf(),
            uploads@ == UploadBatchView::initial(items_view(request.batch@)),
    {
        let ghost items = items_view(request.batch@);
        let total = request.batch.len();
        let mut writes: Vec<TreeWrite> = Vec::new();
        for item in it: request.batch
            invariant
                writes@.len() == it.index(),
                it.seq() == request.batch@,
                forall|j: int| 0 <= j < writes@.len() ==> (#[trigger] writes@[j])@ == it.seq()[j]@.write(),
        {
            writes.push(store_tree(item));
        }
        let sched = FanOut::new(total, MAX_CONCURRENT_UPLOAD_TREES_PER_REQUEST);
        let uploads = UploadBatch { writes, sched };
        assert(uploads@.writes =~= UploadBatchView::initial(items).writes);
        uploads
    }
}

impl UploadBatch {
    pub open spec fn wf(&self) -> bool {
        self@.valid()
    }

    /// The number of items in the batch.
    pub fn len(&self) -> (n: usize)
        ensures
            n == self@.writes.len(),
    {
        self.writes.len()
    }

    /// The number of writes in flight.
    pub fn in_flight(&self) -> (n: usize)
        ensures
            n == self@.sched.in_flight.len(),
    {
        self.sched.in_flight()
    }

    /// The number of items that have been answered.
    pub fn answered(&self) -> (n: usize)
        ensures
            n == self@.sched.finished.len(),
    {
        self.sched.completed()
    }

    /// Takes the next turn.
    pub fn next(&mut self) -> (turn: UploadTurn)
        requires
            old(self).wf(),
        ensures
            final(self).wf(),
            (final(self)@, turn@) == old(self)@.next(),
    {
        match self.sched.turn() {
            Turn::Start(_) => {
                proof {
                    lemma_start_valid(self@.sched);
                }
                match self.sched.start() {
                    Some(i) => {
                        let w = &self.writes[i];
                        let write = TreeWrite {
                            node_id: w.node_id,
                            p1: w.p1,
                            p2: w.p2,
                            contents: w.contents.clone(),
                        };
                        UploadTurn::Write(i, write)
                    },
                    None => UploadTurn::Wait,
                }
            },
            Turn::Wait => UploadTurn::Wait,
            Turn::Finished => UploadTurn::Finished,
        }
    }

    /// Takes the store's answer for the write of item `index` and returns
    /// what is answered for the item. Nothing is answered for an item that
    /// is not in flight.
    pub fn complete(&mut self, index: usize, written: Result<(), String>) -> (answer: Option<
        Result<UploadTreeResponse, UploadError>,
    >)
        requires
            old(self).wf(),
        ensures
            final(self).wf(),
            final(self)@ == old(self)@.after_answer(index),
            answer is Some <==> old(self)@.sched.in_flight.contains(index),
            answer matches Some(r) ==> upload_result_view(r) == upload_outcome(
                old(self)@.writes[index as int].node_id,
                answer_view(written),
            ),
    {
        if !self.sched.is_in_flight(index) {
            return None;
        }
        proof {
            lemma_complete_valid(self@.sched, index);
            assert(self@.sched.seen(index));
        }
        self.sched.complete(index);
        let node_id = self.writes[index].node_id;
        Some(upload_response(node_id, written))
    }
}

} // verus!

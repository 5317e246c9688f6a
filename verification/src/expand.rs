//! Child metadata expansion for classic manifests: every immediate child
//! becomes a child entry, and file children get their content hashes and
//! size from the store, with a bounded number of fetches in flight.

use vstd::prelude::*;
use crate::errors::answer_view;
use crate::errors::ErrorKind;
use crate::errors::ErrorKindView;
use crate::errors::FetchError;
use crate::errors::FetchErrorView;
use crate::fanout::lemma_complete_valid;
use crate::fanout::lemma_finished_covers_batch;
use crate::fanout::lemma_start_valid;
use crate::fanout::FanOut;
use crate::fanout::FanOutView;
use crate::model::children_view;
use crate::model::Blake3;
use crate::model::DirectoryMetadata;
use crate::model::FileAuxData;
use crate::model::FileAuxDataView;
use crate::model::HgId;
use crate::model::Key;
use crate::model::KeyView;
use crate::model::Sha1;
use crate::model::TreeChildEntry;
use crate::model::TreeChildView;

verus! {

/// A directory with more entries than this gets no child list.
pub const LARGE_TREE_METADATA_LIMIT: usize = 25000;

/// The most metadata fetches in flight for one tree.
pub const MAX_CONCURRENT_METADATA_FETCHES_PER_TREE_FETCH: usize = 100;

/// Whether a manifest entry is a file or a directory.
#[derive(Clone, Copy, Debug, PartialEq, Eq, Structural)]
pub enum EntryKind {
    File,
    Directory,
}

/// One entry of a classic manifest.
#[derive(Clone, Debug, PartialEq, Eq)]
pub struct ManifestChild {
    pub name: String,
    pub kind: EntryKind,
    pub id: HgId,
}

pub struct ManifestChildView {
    pub name: Seq<char>,
    pub kind: EntryKind,
    pub id: HgId,
}

impl View for ManifestChild {
    type V = ManifestChildView;

    open spec fn view(&self) -> ManifestChildView {
        ManifestChildView { name: self.name@, kind: self.kind, id: self.id }
    }
}

impl ManifestChildView {
    /// The key of the child: its name bound to its identifier.
    pub open spec fn key(self) -> KeyView {
        KeyView { path: self.name, hgid: self.id }
    }

    /// The entry of a directory child. It carries no metadata.
    pub open spec fn directory_entry(self) -> TreeChildView {
        TreeChildView::Directory(self.key(), DirectoryMetadata::empty())
    }

    /// `e` is an entry for this child: of the child's kind, under the
    /// child's key, and without header metadata.
    pub open spec fn is_entry(self, e: TreeChildView) -> bool {
        match self.kind {
            EntryKind::Directory => e == self.directory_entry(),
            EntryKind::File => e matches TreeChildView::File(k, aux) && k == self.key()
                && aux.file_header_metadata is None,
        }
    }
}

impl ManifestChild {
    pub fn key(&self) -> (k: Key)
        ensures
            k@ == self@.key(),
    {
        Key::new(self.name.clone(), self.id)
    }
}

/// The entries of a listing, as contracts see them.
pub open spec fn listing_view(s: Seq<ManifestChild>) -> Seq<ManifestChildView> {
    s.map_values(|c: ManifestChild| c@)
}

/// What the store knows of a file's content.
#[derive(Clone, Copy, Debug, PartialEq, Eq)]
pub struct FileMetadata {
    pub total_size: u64,
    pub sha1: Sha1,
    pub seeded_blake3: Blake3,
}

/// The auxiliary data of a file child, from the store's metadata.
pub open spec fn file_aux(m: FileMetadata) -> FileAuxDataView {
    FileAuxDataView {
        total_size: m.total_size,
        sha1: m.sha1,
        blake3: m.seeded_blake3,
        file_header_metadata: None,
    }
}

/// What becomes of a file child: its entry when the store has its metadata,
/// a failure under the child's key when the store has none or fails.
pub open spec fn file_child_outcome(
    key: KeyView,
    answer: Result<Option<FileMetadata>, Seq<char>>,
) -> Result<TreeChildView, FetchErrorView> {
    match answer {
        Ok(Some(m)) => Ok(TreeChildView::File(key, file_aux(m))),
        Ok(None) => Err(FetchErrorView { kind: ErrorKindView::FileFetchFailed(key), cause: None }),
        Err(c) => Err(
            FetchErrorView { kind: ErrorKindView::FileFetchFailed(key), cause: Some(c) },
        ),
    }
}

pub open spec fn child_outcome_view(r: Result<TreeChildEntry, FetchError>) -> Result<
    TreeChildView,
    FetchErrorView,
> {
    match r {
        Ok(c) => Ok(c@),
        Err(e) => Err(e@),
    }
}

/// Turns the store's answer for one file child into the child's entry.
pub fn fetch_child_file_metadata(
    child_key: Key,
    answer: Result<Option<FileMetadata>, String>,
) -> (r: Result<TreeChildEntry, FetchError>)
    ensures
        child_outcome_view(r) == file_child_outcome(child_key@, answer_view(answer)),
{
    match answer {
        Ok(Some(metadata)) => Ok(
            TreeChildEntry::new_file_entry(
                child_key,
                FileAuxData {
                    total_size: metadata.total_size,
                    sha1: metadata.sha1,
                    blake3: metadata.seeded_blake3,
                    file_header_metadata: None,
                },
            ),
        ),
        Ok(None) => Err(FetchError::new(ErrorKind::FileFetchFailed(child_key), None)),
        Err(cause) => Err(FetchError::new(ErrorKind::FileFetchFailed(child_key), Some(cause))),
    }
}

/// What the driver of an expansion does next.
#[derive(Clone, Debug, PartialEq, Eq)]
pub enum ExpandTurn {
    /// Fetch the content metadata of the file child with this index and key.
    Fetch(usize, Key),
    /// Wait for a fetch in flight to be answered.
    Wait,
    /// The expansion is over: ask for its outcome.
    Finished,
}

pub enum ExpandTurnView {
    Fetch(usize, KeyView),
    Wait,
    Finished,
}

impl View for ExpandTurn {
    type V = ExpandTurnView;

    open spec fn view(&self) -> ExpandTurnView {
        match self {
            ExpandTurn::Fetch(i, k) => ExpandTurnView::Fetch(*i, k@),
            ExpandTurn::Wait => ExpandTurnView::Wait,
            ExpandTurn::Finished => ExpandTurnView::Finished,
        }
    }
}

/// The state of an expansion.
pub struct ExpansionView {
    /// The manifest's entries, in the manifest's order.
    pub children: Seq<ManifestChildView>,
    /// Which entries have been started and which are done.
    pub sched: FanOutView,
    /// The child entries made so far, in the order in which they were made.
    pub done: Seq<TreeChildView>,
    /// The first failure, once there is one.
    pub failed: Option<FetchErrorView>,
}

impl ExpansionView {
    pub open spec fn initial(children: Seq<ManifestChildView>) -> ExpansionView {
        ExpansionView {
            children,
            sched: FanOutView::initial(
                children.len() as usize,
                MAX_CONCURRENT_METADATA_FETCHES_PER_TREE_FETCH,
            ),
            done: Seq::empty(),
            failed: None,
        }
    }

    pub open spec fn valid(self) -> bool {
        &&& self.sched.valid()
        &&& self.sched.total == self.children.len()
        &&& self.sched.ceiling == MAX_CONCURRENT_METADATA_FETCHES_PER_TREE_FETCH
        &&& self.done.len() == self.sched.finished.len()
        &&& forall|j: int|
            0 <= j < self.done.len() ==> self.children[self.sched.finished[j] as int].is_entry(
                #[trigger] self.done[j],
            )
        &&& forall|j: int|
            0 <= j < self.sched.in_flight.len() ==> self.children[(
            #[trigger] self.sched.in_flight[j]) as int].kind is File
    }

    /// Nothing is left to do: a fetch failed, or every child has its entry.
    pub open spec fn is_over(self) -> bool {
        self.failed is Some || self.sched.is_finished()
    }

    /// The next turn. Directory children are given their entries on the
    /// way; the turn stops at the first file child that may be started, or
    /// when nothing may be started.
    pub open spec fn advance(self) -> (ExpansionView, ExpandTurnView)
        decreases self.sched.total - self.sched.started,
    {
        if self.failed is Some {
            (self, ExpandTurnView::Finished)
        } else if self.sched.can_start() {
            let i = self.sched.started;
            let child = self.children[i as int];
            if child.kind is Directory {
                (ExpansionView {
                    sched: self.sched.after_start().after_complete(i),
                    done: self.done.push(child.directory_entry()),
                    ..self
                }).advance()
            } else {
                (
                    ExpansionView { sched: self.sched.after_start(), ..self },
                    ExpandTurnView::Fetch(i, child.key()),
                )
            }
        } else if self.sched.in_flight.len() > 0 {
            (self, ExpandTurnView::Wait)
        } else {
            (self, ExpandTurnView::Finished)
        }
    }

    /// The state after the store answered the fetch for child `index`. An
    /// answer for a child that is not in flight, or after a failure, is
    /// ignored.
    pub open spec fn after_answer(
        self,
        index: usize,
        answer: Result<Option<FileMetadata>, Seq<char>>,
    ) -> ExpansionView {
        if self.failed is Some || !self.sched.in_flight.contains(index) {
            self
        } else {
            match file_child_outcome(self.children[index as int].key(), answer) {
                Ok(c) => ExpansionView {
                    sched: self.sched.after_complete(index),
                    done: self.done.push(c),
                    ..self
                },
                Err(e) => ExpansionView { failed: Some(e), ..self },
            }
        }
    }
}

/// A fresh expansion is valid.
pub proof fn lemma_initial_valid(children: Seq<ManifestChildView>)
    requires
        children.len() <= usize::MAX,
    ensures
        ExpansionView::initial(children).valid(),
{
    crate::fanout::lemma_ceiling_respected(
        children.len() as usize,
        MAX_CONCURRENT_METADATA_FETCHES_PER_TREE_FETCH,
        Seq::empty(),
    );
}

/// Giving the next directory child its entry keeps the expansion valid.
pub proof fn lemma_directory_step_valid(v: ExpansionView)
    requires
        v.valid(),
        v.sched.can_start(),
        v.children[v.sched.started as int].kind is Directory,
    ensures
        (ExpansionView {
            sched: v.sched.after_start().after_complete(v.sched.started),
            done: v.done.push(v.children[v.sched.started as int].directory_entry()),
            ..v
        }).valid(),
        v.sched.after_start().in_flight.contains(v.sched.started),
{
    let i = v.sched.started;
    let s1 = v.sched.after_start();
    lemma_start_valid(v.sched);
    assert(s1.in_flight[v.sched.in_flight.len() as int] == i);
    assert(s1.in_flight.contains(i));
    lemma_complete_valid(s1, i);
    let s2 = s1.after_complete(i);
    let k = s1.in_flight.index_of(i);
    assert(0 <= k < s1.in_flight.len() && s1.in_flight[k] == i);
    assert(k == v.sched.in_flight.len());
    assert(s2.in_flight =~= v.sched.in_flight);
    let w = ExpansionView {
        sched: s2,
        done: v.done.push(v.children[i as int].directory_entry()),
        ..v
    };
    assert forall|j: int| 0 <= j < w.done.len() implies w.children[w.sched.finished[j] as int].is_entry(
    #[trigger] w.done[j]) by {
        if j < v.done.len() {
            assert(w.done[j] == v.done[j]);
            assert(w.sched.finished[j] == v.sched.finished[j]);
        }
    }
}

/// Starting the fetch for the next file child keeps the expansion valid.
pub proof fn lemma_file_step_valid(v: ExpansionView)
    requires
        v.valid(),
        v.sched.can_start(),
        v.children[v.sched.started as int].kind is File,
    ensures
        (ExpansionView { sched: v.sched.after_start(), ..v }).valid(),
{
    lemma_start_valid(v.sched);
    let w = ExpansionView { sched: v.sched.after_start(), ..v };
    assert forall|j: int| 0 <= j < w.sched.in_flight.len() implies w.children[(
    #[trigger] w.sched.in_flight[j]) as int].kind is File by {
        if j < v.sched.in_flight.len() {
            assert(w.sched.in_flight[j] == v.sched.in_flight[j]);
        }
    }
}

/// A turn keeps the expansion valid, and it only ends the expansion when
/// the expansion is over.
pub proof fn lemma_advance_valid(v: ExpansionView)
    requires
        v.valid(),
    ensures
        v.advance().0.valid(),
        v.advance().0.children == v.children,
        v.advance().0.failed == v.failed,
        v.advance().1 is Finished <==> v.advance().0.is_over(),
        v.advance().1 is Wait ==> v.advance().0.sched.in_flight.len() > 0,
        v.advance().1 matches ExpandTurnView::Fetch(i, k) ==> v.advance().0.sched.in_flight.contains(
            i,
        ) && i < v.children.len() && k == v.children[i as int].key(),
    decreases v.sched.total - v.sched.started,
{
    if v.failed is Some {
    } else if v.sched.can_start() {
        let i = v.sched.started;
        if v.children[i as int].kind is Directory {
            lemma_directory_step_valid(v);
            let w = ExpansionView {
                sched: v.sched.after_start().after_complete(i),
                done: v.done.push(v.children[i as int].directory_entry()),
                ..v
            };
            lemma_advance_valid(w);
        } else {
            lemma_file_step_valid(v);
            let s1 = v.sched.after_start();
            assert(s1.in_flight[v.sched.in_flight.len() as int] == i);
        }
    } else {
    }
}

/// An answer keeps the expansion valid.
pub proof fn lemma_answer_valid(
    v: ExpansionView,
    index: usize,
    answer: Result<Option<FileMetadata>, Seq<char>>,
)
    requires
        v.valid(),
    ensures
        v.after_answer(index, answer).valid(),
{
    if v.failed is Some || !v.sched.in_flight.contains(index) {
    } else {
        let k = v.sched.in_flight.index_of(index);
        assert(0 <= k < v.sched.in_flight.len() && v.sched.in_flight[k] == index);
        assert(v.children[index as int].kind is File);
        match file_child_outcome(v.children[index as int].key(), answer) {
            Ok(c) => {
                lemma_complete_valid(v.sched, index);
                let w = v.after_answer(index, answer);
                assert forall|j: int| 0 <= j < w.done.len() implies w.children[w.sched.finished[j] as int].is_entry(
                #[trigger] w.done[j]) by {
                    if j < v.done.len() {
                        assert(w.done[j] == v.done[j]);
                        assert(w.sched.finished[j] == v.sched.finished[j]);
                    }
                }
                assert forall|j: int| 0 <= j < w.sched.in_flight.len() implies w.children[(
                #[trigger] w.sched.in_flight[j]) as int].kind is File by {
                    let j0 = if j < k {
                        j
                    } else {
                        j + 1
                    };
                    assert(w.sched.in_flight[j] == v.sched.in_flight[j0]);
                }
            },
            Err(e) => {},
        }
    }
}

/// When an expansion ends without a failure, every child of the manifest
/// has exactly one entry, of the child's own kind and under the child's own
/// key: `done[j]` is the entry of child `finished[j]`, and `finished` lists
/// every child once.
pub proof fn lemma_every_child_has_its_entry(v: ExpansionView)
    requires
        v.valid(),
        v.failed is None,
        v.sched.is_finished(),
    ensures
        v.done.len() == v.children.len(),
        v.sched.finished.len() == v.children.len(),
        v.sched.finished.no_duplicates(),
        forall|i: usize| i < v.children.len() <==> v.sched.finished.contains(i),
        forall|j: int|
            0 <= j < v.done.len() ==> v.children[v.sched.finished[j] as int].is_entry(
                #[trigger] v.done[j],
            ),
        forall|j: int|
            0 <= j < v.done.len() ==> ((#[trigger] v.done[j]) is Directory
                <==> v.children[v.sched.finished[j] as int].kind is Directory),
{
    lemma_finished_covers_batch(v.sched);
    assert forall|j: int| 0 <= j < v.done.len() implies ((#[trigger] v.done[j]) is Directory
        <==> v.children[v.sched.finished[j] as int].kind is Directory) by {
        assert(v.children[v.sched.finished[j] as int].is_entry(v.done[j]));
    }
}

/// The expansion of one classic manifest.
pub struct ChildExpansion {
    children: Vec<ManifestChild>,
    sched: FanOut,
    done: Vec<TreeChildEntry>,
    failed: Option<FetchError>,
}

impl View for ChildExpansion {
    type V = ExpansionView;

    closed spec fn view(&self) -> ExpansionView {
        ExpansionView {
            children: listing_view(self.children@),
            sched: self.sched@,
            done: children_view(self.done@),
            failed: match self.failed {
                Some(e) => Some(e@),
                None => None,
            },
        }
    }
}

pub open spec fn expansion_outcome_view(r: Result<Vec<TreeChildEntry>, FetchError>) -> Result<
    Seq<TreeChildView>,
    FetchErrorView,
> {
    match r {
        Ok(list) => Ok(children_view(list@)),
        Err(e) => Err(e@),
    }
}

/// Plans the expansion of a manifest with these entries. A manifest with
/// more than `LARGE_TREE_METADATA_LIMIT` entries is not expanded.
pub fn fetch_child_metadata_entries(listing: Vec<ManifestChild>) -> (r: Option<ChildExpansion>)
    ensures
        r is None <==> listing@.len() > LARGE_TREE_METADATA_LIMIT,
        r matches Some(e) ==> e.wf() && e@ == ExpansionView::initial(listing_view(listing@)),
{
    if listing.len() > LARGE_TREE_METADATA_LIMIT {
        return None;
    }
    let sched = FanOut::new(listing.len(), MAX_CONCURRENT_METADATA_FETCHES_PER_TREE_FETCH);
    proof {
        lemma_initial_valid(listing_view(listing@));
    }
    let e = ChildExpansion { children: listing, sched, done: Vec::new(), failed: None };
    assert(e@.done =~= Seq::<TreeChildView>::empty());
    Some(e)
}

impl ChildExpansion {
    pub open spec fn wf(&self) -> bool {
        self@.valid()
    }

    pub fn is_over(&self) -> (b: bool)
        requires
            self.wf(),
        ensures
            b == self@.is_over(),
    {
        self.failed.is_some() || (self.sched.in_flight() == 0 && self.sched.completed()
            == self.sched.total())
    }

    /// Takes the next turn.
    pub fn next(&mut self) -> (turn: ExpandTurn)
        requires
            old(self).wf(),
        ensures
            final(self).wf(),
            (final(self)@, turn@) == old(self)@.advance(),
    {
        if self.failed.is_some() {
            return ExpandTurn::Finished;
        }
        proof {
            lemma_advance_valid(self@);
        }
        loop
            invariant
                self.wf(),
                self@.failed is None,
                self@.advance() == old(self)@.advance(),
            decreases self@.sched.total - self@.sched.started,
        {
            let ghost before = self@;
            match self.sched.start() {
                Some(i) => {
                    let kind = self.children[i].kind;
                    let key = self.children[i].key();
                    match kind {
                        EntryKind::Directory => {
                            proof {
                                lemma_directory_step_valid(before);
                            }
                            let entry = TreeChildEntry::new_directory_entry(
                                key,
                                DirectoryMetadata::default(),
                            );
                            self.done.push(entry);
                            self.sched.complete(i);
                            assert(self@.done =~= before.done.push(
                                before.children[i as int].directory_entry(),
                            ));
                        },
                        EntryKind::File => {
                            proof {
                                lemma_file_step_valid(before);
                            }
                            return ExpandTurn::Fetch(i, key);
                        },
                    }
                },
                None => {
                    if self.sched.in_flight() > 0 {
                        return ExpandTurn::Wait;
                    } else {
                        return ExpandTurn::Finished;
                    }
                },
            }
        }
    }

    /// Takes the store's answer for the file child `index`. Says whether the
    /// answer was awaited.
    pub fn answer(&mut self, index: usize, answer: Result<Option<FileMetadata>, String>) -> (awaited:
        bool)
        requires
            old(self).wf(),
        ensures
            final(self).wf(),
            awaited == (old(self)@.failed is None && old(self)@.sched.in_flight.contains(index)),
            final(self)@ == old(self)@.after_answer(index, answer_view(answer)),
    {
        proof {
            lemma_answer_valid(self@, index, answer_view(answer));
        }
        if self.failed.is_some() || !self.sched.is_in_flight(index) {
            return false;
        }
        let ghost before = self@;
        proof {
            assert(before.sched.seen(index));
        }
        let key = self.children[index].key();
        match fetch_child_file_metadata(key, answer) {
            Ok(entry) => {
                self.done.push(entry);
                self.sched.complete(index);
                assert(self@.done =~= before.done.push(entry@));
            },
            Err(e) => {
                self.failed = Some(e);
            },
        }
        true
    }

    /// The outcome, once the expansion is over: the first failure, or the
    /// child entries in the order in which they were made.
    pub fn outcome(self) -> (r: Option<Result<Vec<TreeChildEntry>, FetchError>>)
        requires
            self.wf(),
        ensures
            r is None <==> !self@.is_over(),
            r matches Some(o) ==> expansion_outcome_view(o) == (match self@.failed {
                Some(e) => Err::<Seq<TreeChildView>, FetchErrorView>(e),
                None => Ok(self@.done),
            }),
    {
        if !self.is_over() {
            return None;
        }
        match self.failed {
            Some(e) => Some(Err(e)),
            None => Some(Ok(self.done)),
        }
    }
}

} // verus!

//! The fetch of one tree: which manifest to load, what to ask of the store
//! after that, and how the answers become the response entry.
//!
//! A `TreeFetch` never waits. Each step takes the store's answer to the
//! last question and returns the next question, or the outcome.

use vstd::prelude::*;
use vstd::string::StringExecFns;
use bytes::Bytes;
use crate::blob::bytes_contents;
use crate::blob::empty_bytes;
use crate::blob::optional_contents;
use crate::errors::outcome_view;
use crate::errors::ErrorKind;
use crate::errors::ErrorKindView;
use crate::errors::FetchError;
use crate::errors::FetchErrorView;
use crate::expand::expansion_outcome_view;
use crate::expand::fetch_child_metadata_entries;
use crate::expand::listing_view;
use crate::expand::ChildExpansion;
use crate::expand::ExpansionView;
use crate::expand::ManifestChild;
use crate::expand::ManifestChildView;
use crate::expand::LARGE_TREE_METADATA_LIMIT;
use crate::model::children_view;
use crate::model::optional_children_view;
use crate::model::Blake3;
use crate::model::DirectoryMetadata;
use crate::model::FileAuxData;
use crate::model::FileAuxDataView;
use crate::model::HgId;
use crate::model::Key;
use crate::model::KeyView;
use crate::model::Parents;
use crate::model::Sha1;
use crate::model::TreeAttributes;
use crate::model::TreeChildEntry;
use crate::model::TreeChildView;
use crate::model::TreeEntry;
use crate::model::TreeEntryView;

verus! {

/// A file entry of an augmented manifest.
#[derive(Clone, Debug, PartialEq, Eq)]
pub struct AugmentedFile {
    pub filenode: HgId,
    pub content_blake3: Blake3,
    pub content_sha1: Sha1,
    pub total_size: u64,
    pub file_header_metadata: Option<Bytes>,
}

/// A directory entry of an augmented manifest.
#[derive(Clone, Copy, Debug, PartialEq, Eq)]
pub struct AugmentedDirectory {
    pub treenode: HgId,
    pub augmented_manifest_id: Blake3,
    pub augmented_manifest_size: u64,
}

/// An entry of an augmented manifest.
#[derive(Clone, Debug, PartialEq, Eq)]
pub enum AugmentedEntry {
    FileNode(AugmentedFile),
    DirectoryNode(AugmentedDirectory),
}

pub struct AugmentedFileView {
    pub filenode: HgId,
    pub content_blake3: Blake3,
    pub content_sha1: Sha1,
    pub total_size: u64,
    pub file_header_metadata: Option<Seq<u8>>,
}

pub enum AugmentedEntryView {
    FileNode(AugmentedFileView),
    DirectoryNode(AugmentedDirectory),
}

impl View for AugmentedFile {
    type V = AugmentedFileView;

    open spec fn view(&self) -> AugmentedFileView {
        AugmentedFileView {
            filenode: self.filenode,
            content_blake3: self.content_blake3,
            content_sha1: self.content_sha1,
            total_size: self.total_size,
            file_header_metadata: optional_contents(self.file_header_metadata),
        }
    }
}

impl View for AugmentedEntry {
    type V = AugmentedEntryView;

    open spec fn view(&self) -> AugmentedEntryView {
        match self {
            AugmentedEntry::FileNode(f) => AugmentedEntryView::FileNode(f@),
            AugmentedEntry::DirectoryNode(d) => AugmentedEntryView::DirectoryNode(*d),
        }
    }
}

/// A loaded augmented manifest: it describes itself and all its children.
#[derive(Clone, Debug, PartialEq, Eq)]
pub struct AugmentedManifest {
    pub parents: Parents,
    pub augmented_manifest_id: Blake3,
    pub augmented_manifest_size: u64,
    pub entries: Vec<AugmentedEntry>,
}

pub struct AugmentedManifestView {
    pub parents: Parents,
    pub augmented_manifest_id: Blake3,
    pub augmented_manifest_size: u64,
    pub entries: Seq<AugmentedEntryView>,
}

impl View for AugmentedManifest {
    type V = AugmentedManifestView;

    open spec fn view(&self) -> AugmentedManifestView {
        AugmentedManifestView {
            parents: self.parents,
            augmented_manifest_id: self.augmented_manifest_id,
            augmented_manifest_size: self.augmented_manifest_size,
            entries: self.entries@.map_values(|e: AugmentedEntry| e@),
        }
    }
}

impl AugmentedManifestView {
    /// The metadata of the directory that the manifest describes.
    pub open spec fn directory_metadata(self) -> DirectoryMetadata {
        DirectoryMetadata {
            augmented_manifest_id: self.augmented_manifest_id,
            augmented_manifest_size: self.augmented_manifest_size,
        }
    }

    /// The child list: one child per entry, in the manifest's order.
    pub open spec fn children(self) -> Seq<TreeChildView> {
        self.entries.map_values(|e: AugmentedEntryView| augmented_child(e))
    }
}

/// A loaded classic manifest. Its entries are listed on demand.
#[derive(Clone, Copy, Debug, PartialEq, Eq)]
pub struct ClassicManifest {
    pub parents: Parents,
}

/// The child that an augmented entry stands for. A file child carries the
/// hashes and size that the entry embeds, and header metadata that is empty
/// where the entry has none; a directory child carries the identifier and
/// size of its own augmented manifest. Either is addressed by identifier
/// alone.
pub open spec fn augmented_child(e: AugmentedEntryView) -> TreeChildView {
    match e {
        AugmentedEntryView::FileNode(f) => TreeChildView::File(
            KeyView { path: Seq::empty(), hgid: f.filenode },
            FileAuxDataView {
                total_size: f.total_size,
                sha1: f.content_sha1,
                blake3: f.content_blake3,
                file_header_metadata: Some(
                    match f.file_header_metadata {
                        Some(b) => b,
                        None => Seq::empty(),
                    },
                ),
            },
        ),
        AugmentedEntryView::DirectoryNode(d) => TreeChildView::Directory(
            KeyView { path: Seq::empty(), hgid: d.treenode },
            DirectoryMetadata {
                augmented_manifest_id: d.augmented_manifest_id,
                augmented_manifest_size: d.augmented_manifest_size,
            },
        ),
    }
}

pub fn augmented_child_entry(entry: &AugmentedEntry) -> (c: TreeChildEntry)
    ensures
        c@ == augmented_child(entry@),
{
    match entry {
        AugmentedEntry::FileNode(file) => {
            let header = match &file.file_header_metadata {
                Some(b) => b.clone(),
                None => empty_bytes(),
            };
            TreeChildEntry::new_file_entry(
                Key::bare(file.filenode),
                FileAuxData {
                    total_size: file.total_size,
                    sha1: file.content_sha1,
                    blake3: file.content_blake3,
                    file_header_metadata: Some(header),
                },
            )
        },
        AugmentedEntry::DirectoryNode(tree) => TreeChildEntry::new_directory_entry(
            Key::bare(tree.treenode),
            DirectoryMetadata {
                augmented_manifest_id: tree.augmented_manifest_id,
                augmented_manifest_size: tree.augmented_manifest_size,
            },
        ),
    }
}

/// The child list of an augmented manifest, read off its entries.
pub fn augmented_children(manifest: &AugmentedManifest) -> (list: Vec<TreeChildEntry>)
    ensures
        children_view(list@) == manifest@.children(),
{
    let mut list: Vec<TreeChildEntry> = Vec::new();
    let mut i: usize = 0;
    while i < manifest.entries.len()
        invariant
            i <= manifest.entries@.len(),
            list@.len() == i,
            forall|j: int| 0 <= j < i ==> (#[trigger] list@[j])@ == augmented_child(
                manifest.entries@[j]@,
            ),
        decreases manifest.entries@.len() - i,
    {
        let child = augmented_child_entry(&manifest.entries[i]);
        list.push(child);
        i = i + 1;
    }
    assert(children_view(list@) =~= manifest@.children());
    list
}

/// Merges a base entry with a child list, if there is one. The base keeps
/// its key, bytes, parents and directory metadata.
pub fn assemble(base: TreeEntry, children: Option<Vec<TreeChildEntry>>) -> (entry: TreeEntry)
    ensures
        entry@ == (TreeEntryView { children: optional_children_view(children), ..base@ }),
{
    let mut entry = base;
    entry.with_children(children);
    entry
}

/// Where a fetch stands.
#[derive(Clone, Copy, Debug, PartialEq, Eq, Structural)]
pub enum Phase {
    /// Nothing has been asked yet.
    Idle,
    /// The augmented manifest was asked for.
    LoadingAugmented,
    /// The bytes of the augmented manifest were asked for.
    AugmentedContent,
    /// The classic manifest was asked for.
    LoadingClassic,
    /// The bytes of the classic manifest were asked for.
    ClassicContent,
    /// The entries of the classic manifest were asked for.
    Listing,
    /// The expansion of the entries is under way.
    Expanding,
}

/// A question to the store.
pub enum FetchAction {
    /// Load the augmented manifest with this identifier.
    LoadAugmented(HgId),
    /// Load the classic manifest with this identifier.
    LoadClassic(HgId),
    /// Fetch the raw bytes of the manifest that was loaded.
    FetchContent(HgId),
    /// List the entries of the classic manifest that was loaded.
    ListChildren(HgId),
    /// Run this expansion to its end.
    Expand(ChildExpansion),
}

pub enum FetchActionView {
    LoadAugmented(HgId),
    LoadClassic(HgId),
    FetchContent(HgId),
    ListChildren(HgId),
    Expand(ExpansionView),
}

impl View for FetchAction {
    type V = FetchActionView;

    open spec fn view(&self) -> FetchActionView {
        match self {
            FetchAction::LoadAugmented(id) => FetchActionView::LoadAugmented(*id),
            FetchAction::LoadClassic(id) => FetchActionView::LoadClassic(*id),
            FetchAction::FetchContent(id) => FetchActionView::FetchContent(*id),
            FetchAction::ListChildren(id) => FetchActionView::ListChildren(*id),
            FetchAction::Expand(e) => FetchActionView::Expand(e@),
        }
    }
}

/// An answer of the store, or the signal to begin.
pub enum FetchEvent {
    Begin,
    /// The augmented manifest, nothing if the identifier resolves to
    /// nothing, or the store's failure.
    Augmented(Result<Option<AugmentedManifest>, String>),
    /// The classic manifest, likewise.
    Classic(Result<Option<ClassicManifest>, String>),
    /// The manifest's raw bytes.
    Content(Result<Bytes, String>),
    /// The classic manifest's entries.
    Listed(Result<Vec<ManifestChild>, String>),
    /// The outcome of the expansion.
    Expanded(Result<Vec<TreeChildEntry>, FetchError>),
}

pub enum FetchEventView {
    Begin,
    Augmented(Result<Option<AugmentedManifestView>, Seq<char>>),
    Classic(Result<Option<ClassicManifest>, Seq<char>>),
    Content(Result<Seq<u8>, Seq<char>>),
    Listed(Result<Seq<ManifestChildView>, Seq<char>>),
    Expanded(Result<Seq<TreeChildView>, FetchErrorView>),
}

impl View for FetchEvent {
    type V = FetchEventView;

    open spec fn view(&self) -> FetchEventView {
        match self {
            FetchEvent::Begin => FetchEventView::Begin,
            FetchEvent::Augmented(a) => FetchEventView::Augmented(
                match a {
                    Ok(Some(m)) => Ok(Some(m@)),
                    Ok(None) => Ok(None),
                    Err(c) => Err(c@),
                },
            ),
            FetchEvent::Classic(a) => FetchEventView::Classic(
                match a {
                    Ok(m) => Ok(*m),
                    Err(c) => Err(c@),
                },
            ),
            FetchEvent::Content(a) => FetchEventView::Content(
                match a {
                    Ok(b) => Ok(bytes_contents(*b)),
                    Err(c) => Err(c@),
                },
            ),
            FetchEvent::Listed(a) => FetchEventView::Listed(
                match a {
                    Ok(l) => Ok(listing_view(l@)),
                    Err(c) => Err(c@),
                },
            ),
            FetchEvent::Expanded(a) => FetchEventView::Expanded(expansion_outcome_view(*a)),
        }
    }
}

/// What a fetch says when it is handed an answer to a question that it did
/// not ask.
pub open spec fn unexpected_answer_text() -> Seq<char> {
    "unexpected answer"@
}

/// The state of the fetch of one tree.
pub struct TreeFetchView {
    pub attributes: TreeAttributes,
    pub phase: Phase,
    /// The entry as far as it has been put together.
    pub entry: TreeEntryView,
}

/// What a step of a fetch comes to.
pub enum FetchStepView {
    /// The fetch goes on: ask the store this.
    Ask(TreeFetchView, FetchActionView),
    /// The fetch is over.
    Done(Result<TreeEntryView, FetchErrorView>),
}

impl TreeFetchView {
    pub open spec fn initial(key: KeyView, attributes: TreeAttributes) -> TreeFetchView {
        TreeFetchView { attributes, phase: Phase::Idle, entry: TreeEntryView::bare(key) }
    }

    /// The manifest could not be loaded or read.
    pub open spec fn failed(self, cause: Seq<char>) -> FetchStepView {
        FetchStepView::Done(
            Err(
                FetchErrorView {
                    kind: ErrorKindView::TreeFetchFailed(self.entry.key),
                    cause: Some(cause),
                },
            ),
        )
    }

    /// The identifier resolves to nothing.
    pub open spec fn missing(self) -> FetchStepView {
        FetchStepView::Done(
            Err(FetchErrorView { kind: ErrorKindView::KeyDoesNotExist(self.entry.key), cause: None }),
        )
    }

    /// After bytes and parents of a classic manifest are settled: list the
    /// children if child metadata was asked for, else the entry is done.
    pub open spec fn to_children(self) -> FetchStepView {
        if self.attributes.child_metadata {
            FetchStepView::Ask(
                TreeFetchView { phase: Phase::Listing, ..self },
                FetchActionView::ListChildren(self.entry.key.hgid),
            )
        } else {
            FetchStepView::Done(Ok(self.entry))
        }
    }

    pub open spec fn step(self, event: FetchEventView) -> FetchStepView {
        match (self.phase, event) {
            (Phase::Idle, FetchEventView::Begin) => {
                if self.attributes.augmented_trees {
                    FetchStepView::Ask(
                        TreeFetchView { phase: Phase::LoadingAugmented, ..self },
                        FetchActionView::LoadAugmented(self.entry.key.hgid),
                    )
                } else {
                    FetchStepView::Ask(
                        TreeFetchView { phase: Phase::LoadingClassic, ..self },
                        FetchActionView::LoadClassic(self.entry.key.hgid),
                    )
                }
            },
            (Phase::LoadingAugmented, FetchEventView::Augmented(answer)) => match answer {
                Err(c) => self.failed(c),
                Ok(None) => self.missing(),
                Ok(Some(m)) => FetchStepView::Ask(
                    TreeFetchView {
                        phase: Phase::AugmentedContent,
                        entry: TreeEntryView {
                            parents: Some(m.parents),
                            tree_aux_data: Some(m.directory_metadata()),
                            children: Some(m.children()),
                            ..self.entry
                        },
                        ..self
                    },
                    FetchActionView::FetchContent(self.entry.key.hgid),
                ),
            },
            (Phase::AugmentedContent, FetchEventView::Content(answer)) => match answer {
                Err(c) => self.failed(c),
                Ok(b) => FetchStepView::Done(Ok(TreeEntryView { data: Some(b), ..self.entry })),
            },
            (Phase::LoadingClassic, FetchEventView::Classic(answer)) => match answer {
                Err(c) => self.failed(c),
                Ok(None) => self.missing(),
                Ok(Some(m)) => {
                    let loaded = if self.attributes.parents {
                        TreeFetchView {
                            entry: TreeEntryView { parents: Some(m.parents), ..self.entry },
                            ..self
                        }
                    } else {
                        self
                    };
                    if self.attributes.manifest_blob {
                        FetchStepView::Ask(
                            TreeFetchView { phase: Phase::ClassicContent, ..loaded },
                            FetchActionView::FetchContent(self.entry.key.hgid),
                        )
                    } else {
                        loaded.to_children()
                    }
                },
            },
            (Phase::ClassicContent, FetchEventView::Content(answer)) => match answer {
                Err(c) => self.failed(c),
                Ok(b) => (TreeFetchView {
                    entry: TreeEntryView { data: Some(b), ..self.entry },
                    ..self
                }).to_children(),
            },
            (Phase::Listing, FetchEventView::Listed(answer)) => match answer {
                Err(c) => self.failed(c),
                Ok(listing) => {
                    if listing.len() > LARGE_TREE_METADATA_LIMIT {
                        FetchStepView::Done(Ok(self.entry))
                    } else {
                        FetchStepView::Ask(
                            TreeFetchView { phase: Phase::Expanding, ..self },
                            FetchActionView::Expand(ExpansionView::initial(listing)),
                        )
                    }
                },
            },
            (Phase::Expanding, FetchEventView::Expanded(answer)) => match answer {
                Err(e) => FetchStepView::Done(Err(e)),
                Ok(list) => FetchStepView::Done(
                    Ok(TreeEntryView { children: Some(list), ..self.entry }),
                ),
            },
            _ => self.failed(unexpected_answer_text()),
        }
    }
}

/// The fetch of one tree.
pub struct TreeFetch {
    attributes: TreeAttributes,
    phase: Phase,
    entry: TreeEntry,
}

impl View for TreeFetch {
    type V = TreeFetchView;

    closed spec fn view(&self) -> TreeFetchView {
        TreeFetchView { attributes: self.attributes, phase: self.phase, entry: self.entry@ }
    }
}

/// What a step of a fetch comes to.
pub enum FetchStep {
    /// The fetch goes on: ask the store this, and hand the answer to the
    /// fetch.
    Ask(TreeFetch, FetchAction),
    /// The fetch is over.
    Done(Result<TreeEntry, FetchError>),
}

impl View for FetchStep {
    type V = FetchStepView;

    open spec fn view(&self) -> FetchStepView {
        match self {
            FetchStep::Ask(s, a) => FetchStepView::Ask(s@, a@),
            FetchStep::Done(r) => FetchStepView::Done(outcome_view(*r)),
        }
    }
}

/// Sets up the fetch of the tree under `key`.
pub fn fetch_tree(key: Key, attributes: TreeAttributes) -> (fetch: TreeFetch)
    ensures
        fetch@ == TreeFetchView::initial(key@, attributes),
{
    TreeFetch { attributes, phase: Phase::Idle, entry: TreeEntry::new(key) }
}

impl TreeFetch {
    pub fn phase(&self) -> (p: Phase)
        ensures
            p == self@.phase,
    {
        self.phase
    }

    pub fn key(&self) -> (k: &Key)
        ensures
            k@ == self@.entry.key,
    {
        &self.entry.key
    }

    fn failed(self, cause: String) -> (r: FetchStep)
        ensures
            r@ == self@.failed(cause@),
    {
        FetchStep::Done(
            Err(FetchError::new(ErrorKind::TreeFetchFailed(self.entry.key), Some(cause))),
        )
    }

    fn missing(self) -> (r: FetchStep)
        ensures
            r@ == self@.missing(),
    {
        FetchStep::Done(Err(FetchError::new(ErrorKind::KeyDoesNotExist(self.entry.key), None)))
    }

    fn unexpected(self) -> (r: FetchStep)
        ensures
            r@ == self@.failed(unexpected_answer_text()),
    {
        self.failed(String::from_str("unexpected answer"))
    }

    fn to_children(self) -> (r: FetchStep)
        ensures
            r@ == self@.to_children(),
    {
        if self.attributes.child_metadata {
            let id = self.entry.key.hgid;
            FetchStep::Ask(
                TreeFetch { attributes: self.attributes, phase: Phase::Listing, entry: self.entry },
                FetchAction::ListChildren(id),
            )
        } else {
            FetchStep::Done(Ok(self.entry))
        }
    }

    /// Takes the answer to the question asked last and moves on.
    pub fn step(self, event: FetchEvent) -> (r: FetchStep)
        ensures
            r@ == self@.step(event@),
            r matches FetchStep::Ask(_, FetchAction::Expand(e)) ==> e.wf(),
    {
        let id = self.entry.key.hgid;
        let attributes = self.attributes;
        match event {
            FetchEvent::Begin => match self.phase {
                Phase::Idle => {
                    if attributes.augmented_trees {
                        FetchStep::Ask(
                            TreeFetch {
                                attributes,
                                phase: Phase::LoadingAugmented,
                                entry: self.entry,
                            },
                            FetchAction::LoadAugmented(id),
                        )
                    } else {
                        FetchStep::Ask(
                            TreeFetch { attributes, phase: Phase::LoadingClassic, entry: self.entry },
                            FetchAction::LoadClassic(id),
                        )
                    }
                },
                _ => self.unexpected(),
            },
            FetchEvent::Augmented(answer) => match self.phase {
                Phase::LoadingAugmented => match answer {
                    Err(cause) => self.failed(cause),
                    Ok(None) => self.missing(),
                    Ok(Some(manifest)) => {
                        let mut entry = self.entry;
                        entry.with_parents(Some(manifest.parents));
                        entry.with_directory_metadata(
                            DirectoryMetadata {
                                augmented_manifest_id: manifest.augmented_manifest_id,
                                augmented_manifest_size: manifest.augmented_manifest_size,
                            },
                        );
                        let children = augmented_children(&manifest);
                        let entry = assemble(entry, Some(children));
                        FetchStep::Ask(
                            TreeFetch { attributes, phase: Phase::AugmentedContent, entry },
                            FetchAction::FetchContent(id),
                        )
                    },
                },
                _ => self.unexpected(),
            },
            FetchEvent::Classic(answer) => match self.phase {
                Phase::LoadingClassic => match answer {
                    Err(cause) => self.failed(cause),
                    Ok(None) => self.missing(),
                    Ok(Some(manifest)) => {
                        let mut entry = self.entry;
                        if attributes.parents {
                            entry.with_parents(Some(manifest.parents));
                        }
                        if attributes.manifest_blob {
                            FetchStep::Ask(
                                TreeFetch { attributes, phase: Phase::ClassicContent, entry },
                                FetchAction::FetchContent(id),
                            )
                        } else {
                            let loaded = TreeFetch { attributes, phase: self.phase, entry };
                            loaded.to_children()
                        }
                    },
                },
                _ => self.unexpected(),
            },
            FetchEvent::Content(answer) => match self.phase {
                Phase::AugmentedContent => match answer {
                    Err(cause) => self.failed(cause),
                    Ok(data) => {
                        let mut entry = self.entry;
                        entry.with_data(Some(data));
                        FetchStep::Done(Ok(entry))
                    },
                },
                Phase::ClassicContent => match answer {
                    Err(cause) => self.failed(cause),
                    Ok(data) => {
                        let mut entry = self.entry;
                        entry.with_data(Some(data));
                        let loaded = TreeFetch { attributes, phase: self.phase, entry };
                        loaded.to_children()
                    },
                },
                _ => self.unexpected(),
            },
            FetchEvent::Listed(answer) => match self.phase {
                Phase::Listing => match answer {
                    Err(cause) => self.failed(cause),
                    Ok(listing) => {
                        match fetch_child_metadata_entries(listing) {
                            None => FetchStep::Done(Ok(self.entry)),
                            Some(expansion) => FetchStep::Ask(
                                TreeFetch { attributes, phase: Phase::Expanding, entry: self.entry },
                                FetchAction::Expand(expansion),
                            ),
                        }
                    },
                },
                _ => self.unexpected(),
            },
            FetchEvent::Expanded(answer) => match self.phase {
                Phase::Expanding => match answer {
                    Err(e) => FetchStep::Done(Err(e)),
                    Ok(list) => FetchStep::Done(Ok(assemble(self.entry, Some(list)))),
                },
                _ => self.unexpected(),
            },
        }
    }
}

} // verus!

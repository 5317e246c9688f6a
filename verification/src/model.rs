//! The vocabulary of requests and responses.

use vstd::prelude::*;
use bytes::Bytes;
use crate::blob::optional_contents;

verus! {

/// A fixed-width revision identifier.
#[derive(Clone, Copy, Debug, PartialEq, Eq, Hash)]
pub struct HgId(pub [u8; 20]);

/// A SHA-1 content hash.
#[derive(Clone, Copy, Debug, PartialEq, Eq, Hash)]
pub struct Sha1(pub [u8; 20]);

/// A BLAKE3 content hash.
#[derive(Clone, Copy, Debug, PartialEq, Eq, Hash)]
pub struct Blake3(pub [u8; 32]);

impl HgId {
    /// The identifier whose bytes are all zero.
    pub fn null() -> (id: HgId)
        ensures
            id.0@ == Seq::new(20, |i: int| 0u8),
    {
        let id = HgId([0u8; 20]);
        assert(id.0@ =~= Seq::new(20, |i: int| 0u8));
        id
    }
}

impl Blake3 {
    /// The hash whose bytes are all zero.
    pub fn null() -> (id: Blake3)
        ensures
            id.0@ == Seq::new(32, |i: int| 0u8),
    {
        let id = Blake3([0u8; 32]);
        assert(id.0@ =~= Seq::new(32, |i: int| 0u8));
        id
    }
}

/// A path bound to a revision identifier. The path may be empty when the
/// identifier alone addresses the entry.
#[derive(Debug, PartialEq, Eq, Hash)]
pub struct Key {
    pub path: String,
    pub hgid: HgId,
}

/// What a `Key` stands for in contracts.
pub struct KeyView {
    pub path: Seq<char>,
    pub hgid: HgId,
}

impl View for Key {
    type V = KeyView;

    open spec fn view(&self) -> KeyView {
        KeyView { path: self.path@, hgid: self.hgid }
    }
}

impl Clone for Key {
    fn clone(&self) -> (k: Key)
        ensures
            k@ == self@,
    {
        Key { path: self.path.clone(), hgid: self.hgid }
    }
}

impl Key {
    pub fn new(path: String, hgid: HgId) -> (k: Key)
        ensures
            k@ == (KeyView { path: path@, hgid }),
    {
        Key { path, hgid }
    }

    /// A key with an empty path.
    pub fn bare(hgid: HgId) -> (k: Key)
        ensures
            k@ == (KeyView { path: Seq::empty(), hgid }),
    {
        Key { path: String::new(), hgid }
    }
}

/// The flags a batch is requested with.
#[derive(Clone, Copy, Debug, PartialEq, Eq, Structural)]
pub struct TreeAttributes {
    /// Include the raw serialized manifest.
    pub manifest_blob: bool,
    /// Include the parent identifiers.
    pub parents: bool,
    /// Include auxiliary data for every child.
    pub child_metadata: bool,
    /// Read the self-describing manifest format.
    pub augmented_trees: bool,
}

impl TreeAttributes {
    /// Child metadata and augmented trees exclude each other.
    pub open spec fn consistent(self) -> bool {
        !(self.child_metadata && self.augmented_trees)
    }

    pub fn is_consistent(&self) -> (b: bool)
        ensures
            b == self.consistent(),
    {
        !(self.child_metadata && self.augmented_trees)
    }
}

/// The parents of a revision: none, one or two.
#[derive(Clone, Copy, Debug, PartialEq, Eq)]
pub enum Parents {
    Zero,
    One(HgId),
    Two(HgId, HgId),
}

impl Parents {
    pub open spec fn first(self) -> Option<HgId> {
        match self {
            Parents::Zero => None,
            Parents::One(a) => Some(a),
            Parents::Two(a, _) => Some(a),
        }
    }

    pub open spec fn second(self) -> Option<HgId> {
        match self {
            Parents::Two(_, b) => Some(b),
            _ => None,
        }
    }

    pub fn p1(&self) -> (p: Option<HgId>)
        ensures
            p == self.first(),
    {
        match self {
            Parents::Zero => None,
            Parents::One(a) => Some(*a),
            Parents::Two(a, _) => Some(*a),
        }
    }

    pub fn p2(&self) -> (p: Option<HgId>)
        ensures
            p == self.second(),
    {
        match self {
            Parents::Two(_, b) => Some(*b),
            _ => None,
        }
    }
}

/// Identifier and size of a directory's augmented manifest.
#[derive(Clone, Copy, Debug, PartialEq, Eq)]
pub struct DirectoryMetadata {
    pub augmented_manifest_id: Blake3,
    pub augmented_manifest_size: u64,
}

impl DirectoryMetadata {
    /// Says nothing: a zero identifier and size zero.
    pub open spec fn is_empty(self) -> bool {
        &&& self.augmented_manifest_id.0@ == Seq::new(32, |i: int| 0u8)
        &&& self.augmented_manifest_size == 0
    }

    /// The metadata that says nothing.
    pub open spec fn empty() -> DirectoryMetadata {
        choose|m: DirectoryMetadata| m.is_empty()
    }

    /// There is one metadata value that says nothing.
    pub proof fn lemma_empty_is_unique(m: DirectoryMetadata)
        requires
            m.is_empty(),
        ensures
            m == DirectoryMetadata::empty(),
    {
        let n = DirectoryMetadata::empty();
        assert(n.is_empty());
        assert(m.augmented_manifest_id.0@ =~= n.augmented_manifest_id.0@);
        assert(m.augmented_manifest_id.0 =~= n.augmented_manifest_id.0);
        assert(m.augmented_manifest_id == n.augmented_manifest_id);
    }
}

impl Default for DirectoryMetadata {
    fn default() -> (m: DirectoryMetadata)
        ensures
            m.is_empty(),
            m == DirectoryMetadata::empty(),
    {
        let m = DirectoryMetadata {
            augmented_manifest_id: Blake3::null(),
            augmented_manifest_size: 0,
        };
        proof {
            DirectoryMetadata::lemma_empty_is_unique(m);
        }
        m
    }
}

/// Content hashes and size of a file.
#[derive(Clone, Debug, PartialEq, Eq)]
pub struct FileAuxData {
    pub total_size: u64,
    pub sha1: Sha1,
    pub blake3: Blake3,
    pub file_header_metadata: Option<Bytes>,
}

pub struct FileAuxDataView {
    pub total_size: u64,
    pub sha1: Sha1,
    pub blake3: Blake3,
    pub file_header_metadata: Option<Seq<u8>>,
}

impl View for FileAuxData {
    type V = FileAuxDataView;

    open spec fn view(&self) -> FileAuxDataView {
        FileAuxDataView {
            total_size: self.total_size,
            sha1: self.sha1,
            blake3: self.blake3,
            file_header_metadata: optional_contents(self.file_header_metadata),
        }
    }
}

/// One immediate child of a tree.
#[derive(Clone, Debug, PartialEq, Eq)]
pub enum TreeChildEntry {
    File(Key, FileAuxData),
    Directory(Key, DirectoryMetadata),
}

pub enum TreeChildView {
    File(KeyView, FileAuxDataView),
    Directory(KeyView, DirectoryMetadata),
}

impl View for TreeChildEntry {
    type V = TreeChildView;

    open spec fn view(&self) -> TreeChildView {
        match self {
            TreeChildEntry::File(k, aux) => TreeChildView::File(k@, aux@),
            TreeChildEntry::Directory(k, m) => TreeChildView::Directory(k@, *m),
        }
    }
}

impl TreeChildEntry {
    pub fn new_file_entry(key: Key, aux: FileAuxData) -> (c: TreeChildEntry)
        ensures
            c@ == TreeChildView::File(key@, aux@),
    {
        TreeChildEntry::File(key, aux)
    }

    pub fn new_directory_entry(key: Key, metadata: DirectoryMetadata) -> (c: TreeChildEntry)
        ensures
            c@ == TreeChildView::Directory(key@, metadata),
    {
        TreeChildEntry::Directory(key, metadata)
    }
}

/// The views of a list of children, in the list's order.
pub open spec fn children_view(s: Seq<TreeChildEntry>) -> Seq<TreeChildView> {
    s.map_values(|c: TreeChildEntry| c@)
}

pub open spec fn optional_children_view(c: Option<Vec<TreeChildEntry>>) -> Option<Seq<
    TreeChildView,
>> {
    match c {
        Some(v) => Some(children_view(v@)),
        None => None,
    }
}

/// The response for one requested key. A field that is absent was not asked
/// for; it is not an empty value.
#[derive(Clone, Debug, PartialEq, Eq)]
pub struct TreeEntry {
    pub key: Key,
    pub data: Option<Bytes>,
    pub parents: Option<Parents>,
    pub children: Option<Vec<TreeChildEntry>>,
    pub tree_aux_data: Option<DirectoryMetadata>,
}

pub struct TreeEntryView {
    pub key: KeyView,
    pub data: Option<Seq<u8>>,
    pub parents: Option<Parents>,
    pub children: Option<Seq<TreeChildView>>,
    pub tree_aux_data: Option<DirectoryMetadata>,
}

impl View for TreeEntry {
    type V = TreeEntryView;

    open spec fn view(&self) -> TreeEntryView {
        TreeEntryView {
            key: self.key@,
            data: optional_contents(self.data),
            parents: self.parents,
            children: optional_children_view(self.children),
            tree_aux_data: self.tree_aux_data,
        }
    }
}

impl TreeEntryView {
    /// The entry for `key` with every optional field absent.
    pub open spec fn bare(key: KeyView) -> TreeEntryView {
        TreeEntryView { key, data: None, parents: None, children: None, tree_aux_data: None }
    }
}

impl TreeEntry {
    pub fn new(key: Key) -> (e: TreeEntry)
        ensures
            e@ == TreeEntryView::bare(key@),
    {
        TreeEntry { key, data: None, parents: None, children: None, tree_aux_data: None }
    }

    pub fn with_data(&mut self, data: Option<Bytes>)
        ensures
            final(self)@ == (TreeEntryView { data: optional_contents(data), ..old(self)@ }),
    {
        self.data = data;
    }

    pub fn with_parents(&mut self, parents: Option<Parents>)
        ensures
            final(self)@ == (TreeEntryView { parents, ..old(self)@ }),
    {
        self.parents = parents;
    }

    pub fn with_children(&mut self, children: Option<Vec<TreeChildEntry>>)
        ensures
            final(self)@ == (TreeEntryView {
                children: optional_children_view(children),
                ..old(self)@
            }),
    {
        self.children = children;
    }

    pub fn with_directory_metadata(&mut self, metadata: DirectoryMetadata)
        ensures
            final(self)@ == (TreeEntryView { tree_aux_data: Some(metadata), ..old(self)@ }),
    {
        self.tree_aux_data = Some(metadata);
    }
}

} // verus!

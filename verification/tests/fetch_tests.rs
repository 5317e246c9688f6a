use std::collections::HashMap;

use bytes::Bytes;
use tree_service::errors::ErrorKind;
use tree_service::errors::FetchError;
use tree_service::expand::fetch_child_file_metadata;
use tree_service::expand::fetch_child_metadata_entries;
use tree_service::expand::ChildExpansion;
use tree_service::expand::EntryKind;
use tree_service::expand::ExpandTurn;
use tree_service::expand::FileMetadata;
use tree_service::expand::ManifestChild;
use tree_service::expand::LARGE_TREE_METADATA_LIMIT;
use tree_service::expand::MAX_CONCURRENT_METADATA_FETCHES_PER_TREE_FETCH;
use tree_service::fetch::assemble;
use tree_service::fetch::augmented_child_entry;
use tree_service::fetch::augmented_children;
use tree_service::fetch::fetch_tree;
use tree_service::fetch::AugmentedDirectory;
use tree_service::fetch::AugmentedEntry;
use tree_service::fetch::AugmentedFile;
use tree_service::fetch::AugmentedManifest;
use tree_service::fetch::ClassicManifest;
use tree_service::fetch::FetchAction;
use tree_service::fetch::FetchEvent;
use tree_service::fetch::FetchStep;
use tree_service::fetch::Phase;
use tree_service::model::Blake3;
use tree_service::model::DirectoryMetadata;
use tree_service::model::FileAuxData;
use tree_service::model::HgId;
use tree_service::model::Key;
use tree_service::model::Parents;
use tree_service::model::Sha1;
use tree_service::model::TreeAttributes;
use tree_service::model::TreeChildEntry;
use tree_service::model::TreeEntry;

struct Classic {
    parents: Parents,
    data: Vec<u8>,
    children: Vec<ManifestChild>,
}

#[derive(Default)]
struct MemStore {
    classic: HashMap<HgId, Classic>,
    augmented: HashMap<HgId, (AugmentedManifest, Vec<u8>)>,
    files: HashMap<HgId, FileMetadata>,
    broken: Vec<HgId>,
    calls: usize,
}

fn id(b: u8) -> HgId {
    HgId([b; 20])
}

fn key(path: &str, b: u8) -> Key {
    Key::new(path.to_string(), id(b))
}

fn attrs(manifest_blob: bool, parents: bool, child_metadata: bool, augmented_trees: bool) -> TreeAttributes {
    TreeAttributes { manifest_blob, parents, child_metadata, augmented_trees }
}

fn meta(b: u8) -> FileMetadata {
    FileMetadata { total_size: b as u64 * 10, sha1: Sha1([b; 20]), seeded_blake3: Blake3([b; 32]) }
}

fn child(name: &str, kind: EntryKind, b: u8) -> ManifestChild {
    ManifestChild { name: name.to_string(), kind, id: id(b) }
}

impl MemStore {
    fn file_metadata(&mut self, id: HgId) -> Result<Option<FileMetadata>, String> {
        self.calls += 1;
        if self.broken.contains(&id) {
            return Err("metadata store down".to_string());
        }
        Ok(self.files.get(&id).copied())
    }

    fn answer(&mut self, action: FetchAction) -> FetchEvent {
        match action {
            FetchAction::LoadAugmented(id) => {
                self.calls += 1;
                if self.broken.contains(&id) {
                    return FetchEvent::Augmented(Err("load failed".to_string()));
                }
                FetchEvent::Augmented(Ok(self.augmented.get(&id).map(|(m, _)| m.clone())))
            }
            FetchAction::LoadClassic(id) => {
                self.calls += 1;
                if self.broken.contains(&id) {
                    return FetchEvent::Classic(Err("load failed".to_string()));
                }
                FetchEvent::Classic(Ok(self.classic.get(&id).map(|c| ClassicManifest { parents: c.parents })))
            }
            FetchAction::FetchContent(id) => {
                self.calls += 1;
                if let Some(c) = self.classic.get(&id) {
                    return FetchEvent::Content(Ok(Bytes::from(c.data.clone())));
                }
                match self.augmented.get(&id) {
                    Some((_, data)) => FetchEvent::Content(Ok(Bytes::from(data.clone()))),
                    None => FetchEvent::Content(Err("no content".to_string())),
                }
            }
            FetchAction::ListChildren(id) => {
                self.calls += 1;
                match self.classic.get(&id) {
                    Some(c) => FetchEvent::Listed(Ok(c.children.clone())),
                    None => FetchEvent::Listed(Err("no listing".to_string())),
                }
            }
            FetchAction::Expand(expansion) => FetchEvent::Expanded(self.expand(expansion)),
        }
    }

    /// Answers metadata fetches newest first, so that completion order
    /// differs from request order.
    fn expand(&mut self, mut expansion: ChildExpansion) -> Result<Vec<TreeChildEntry>, FetchError> {
        let mut pending: Vec<(usize, Key)> = Vec::new();
        loop {
            match expansion.next() {
                ExpandTurn::Fetch(i, key) => pending.push((i, key)),
                ExpandTurn::Wait => {
                    assert!(pending.len() <= MAX_CONCURRENT_METADATA_FETCHES_PER_TREE_FETCH);
                    let (i, key) = pending.pop().unwrap();
                    let answer = self.file_metadata(key.hgid);
                    assert!(expansion.answer(i, answer));
                }
                ExpandTurn::Finished => return expansion.outcome().unwrap(),
            }
        }
    }

    fn fetch(&mut self, key: Key, attributes: TreeAttributes) -> Result<TreeEntry, FetchError> {
        let mut step = fetch_tree(key, attributes).step(FetchEvent::Begin);
        loop {
            match step {
                FetchStep::Done(outcome) => return outcome,
                FetchStep::Ask(fetch, action) => {
                    let event = self.answer(action);
                    step = fetch.step(event);
                }
            }
        }
    }
}

fn sample_store() -> MemStore {
    let mut store = MemStore::default();
    store.classic.insert(
        id(1),
        Classic {
            parents: Parents::Two(id(8), id(9)),
            data: b"raw manifest".to_vec(),
            children: vec![
                child("a.txt", EntryKind::File, 21),
                child("sub", EntryKind::Directory, 22),
                child("b.txt", EntryKind::File, 23),
            ],
        },
    );
    store.files.insert(id(21), meta(21));
    store.files.insert(id(23), meta(23));
    let manifest = AugmentedManifest {
        parents: Parents::One(id(7)),
        augmented_manifest_id: Blake3([40; 32]),
        augmented_manifest_size: 400,
        entries: vec![
            AugmentedEntry::FileNode(AugmentedFile {
                filenode: id(31),
                content_blake3: Blake3([31; 32]),
                content_sha1: Sha1([31; 20]),
                total_size: 310,
                file_header_metadata: Some(Bytes::from_static(b"hdr")),
            }),
            AugmentedEntry::DirectoryNode(AugmentedDirectory {
                treenode: id(32),
                augmented_manifest_id: Blake3([32; 32]),
                augmented_manifest_size: 320,
            }),
            AugmentedEntry::FileNode(AugmentedFile {
                filenode: id(33),
                content_blake3: Blake3([33; 32]),
                content_sha1: Sha1([33; 20]),
                total_size: 330,
                file_header_metadata: None,
            }),
        ],
    };
    store.augmented.insert(id(2), (manifest, b"augmented blob".to_vec()));
    store
}

#[test]
fn augmented_entry_is_always_complete() {
    for bits in 0..4u8 {
        let mut store = sample_store();
        let e = store.fetch(key("dir", 2), attrs(bits & 1 != 0, bits & 2 != 0, false, true)).unwrap();
        assert_eq!(e.key, key("dir", 2));
        assert_eq!(e.parents, Some(Parents::One(id(7))));
        assert_eq!(
            e.tree_aux_data,
            Some(DirectoryMetadata { augmented_manifest_id: Blake3([40; 32]), augmented_manifest_size: 400 })
        );
        assert_eq!(e.data, Some(Bytes::from_static(b"augmented blob")));
        let children = e.children.unwrap();
        assert_eq!(children.len(), 3);
        assert_eq!(
            children[0],
            TreeChildEntry::File(
                Key::bare(id(31)),
                FileAuxData {
                    total_size: 310,
                    sha1: Sha1([31; 20]),
                    blake3: Blake3([31; 32]),
                    file_header_metadata: Some(Bytes::from_static(b"hdr")),
                }
            )
        );
        assert_eq!(
            children[1],
            TreeChildEntry::Directory(
                Key::bare(id(32)),
                DirectoryMetadata { augmented_manifest_id: Blake3([32; 32]), augmented_manifest_size: 320 }
            )
        );
        assert_eq!(
            children[2],
            TreeChildEntry::File(
                Key::bare(id(33)),
                FileAuxData {
                    total_size: 330,
                    sha1: Sha1([33; 20]),
                    blake3: Blake3([33; 32]),
                    file_header_metadata: Some(Bytes::new()),
                }
            )
        );
        // one load and one content fetch: the child list costs no store call
        assert_eq!(store.calls, 2);
    }
}

#[test]
fn classic_fields_are_present_exactly_when_asked_for() {
    for bits in 0..8u8 {
        let a = attrs(bits & 1 != 0, bits & 2 != 0, bits & 4 != 0, false);
        let mut store = sample_store();
        let e = store.fetch(key("dir", 1), a).unwrap();
        assert_eq!(e.key, key("dir", 1));
        assert_eq!(e.data.is_some(), a.manifest_blob);
        assert_eq!(e.parents.is_some(), a.parents);
        assert_eq!(e.children.is_some(), a.child_metadata);
        assert_eq!(e.tree_aux_data, None);
        if a.manifest_blob {
            assert_eq!(e.data, Some(Bytes::from_static(b"raw manifest")));
        }
        if a.parents {
            assert_eq!(e.parents, Some(Parents::Two(id(8), id(9))));
        }
    }
}

#[test]
fn classic_children_come_in_completion_order_with_metadata_on_files_only() {
    let mut store = sample_store();
    let e = store.fetch(key("dir", 1), attrs(false, false, true, false)).unwrap();
    let children = e.children.unwrap();
    // the directory is done at once; the two files are answered newest first
    assert_eq!(
        children,
        vec![
            TreeChildEntry::Directory(key("sub", 22), DirectoryMetadata::default()),
            TreeChildEntry::File(
                key("b.txt", 23),
                FileAuxData { total_size: 230, sha1: Sha1([23; 20]), blake3: Blake3([23; 32]), file_header_metadata: None }
            ),
            TreeChildEntry::File(
                key("a.txt", 21),
                FileAuxData { total_size: 210, sha1: Sha1([21; 20]), blake3: Blake3([21; 32]), file_header_metadata: None }
            ),
        ]
    );
}

#[test]
fn missing_key_is_reported_as_such_by_either_path() {
    let mut store = sample_store();
    let err = store.fetch(key("nope", 99), attrs(true, true, false, false)).unwrap_err();
    assert_eq!(err, FetchError::new(ErrorKind::KeyDoesNotExist(key("nope", 99)), None));
    let err = store.fetch(key("nope", 99), attrs(true, true, false, true)).unwrap_err();
    assert_eq!(err, FetchError::new(ErrorKind::KeyDoesNotExist(key("nope", 99)), None));
}

#[test]
fn a_failing_load_is_a_tree_fetch_failure() {
    let mut store = sample_store();
    store.broken.push(id(1));
    store.broken.push(id(2));
    let err = store.fetch(key("dir", 1), attrs(true, true, false, false)).unwrap_err();
    assert_eq!(
        err,
        FetchError::new(ErrorKind::TreeFetchFailed(key("dir", 1)), Some("load failed".to_string()))
    );
    let err = store.fetch(key("dir", 2), attrs(true, true, false, true)).unwrap_err();
    assert_eq!(
        err,
        FetchError::new(ErrorKind::TreeFetchFailed(key("dir", 2)), Some("load failed".to_string()))
    );
}

#[test]
fn a_failing_content_fetch_is_a_tree_fetch_failure() {
    let k = key("dir", 1);
    let step = fetch_tree(k.clone(), attrs(true, false, false, false)).step(FetchEvent::Begin);
    let FetchStep::Ask(fetch, FetchAction::LoadClassic(asked)) = step else { panic!("no load asked") };
    assert_eq!(asked, id(1));
    assert_eq!(fetch.phase(), Phase::LoadingClassic);
    assert_eq!(fetch.key(), &k);
    let step = fetch.step(FetchEvent::Classic(Ok(Some(ClassicManifest { parents: Parents::Zero }))));
    let FetchStep::Ask(fetch, FetchAction::FetchContent(asked)) = step else { panic!("no content asked") };
    assert_eq!(asked, id(1));
    let step = fetch.step(FetchEvent::Content(Err("short read".to_string())));
    let FetchStep::Done(Err(e)) = step else { panic!("did not fail") };
    assert_eq!(e, FetchError::new(ErrorKind::TreeFetchFailed(k), Some("short read".to_string())));
}

#[test]
fn a_failing_child_fails_the_whole_tree() {
    let mut store = sample_store();
    store.files.remove(&id(21));
    let err = store.fetch(key("dir", 1), attrs(true, true, true, false)).unwrap_err();
    assert_eq!(err, FetchError::new(ErrorKind::FileFetchFailed(key("a.txt", 21)), None));

    let mut store = sample_store();
    store.broken.push(id(23));
    let err = store.fetch(key("dir", 1), attrs(false, false, true, false)).unwrap_err();
    assert_eq!(
        err,
        FetchError::new(ErrorKind::FileFetchFailed(key("b.txt", 23)), Some("metadata store down".to_string()))
    );
}

fn big_listing(n: usize) -> Vec<ManifestChild> {
    (0..n).map(|i| child(&format!("d{}", i), EntryKind::Directory, (i % 251) as u8)).collect()
}

#[test]
fn directory_over_the_limit_has_no_child_list_and_no_error() {
    let mut store = MemStore::default();
    store.classic.insert(
        id(1),
        Classic { parents: Parents::Zero, data: b"x".to_vec(), children: big_listing(LARGE_TREE_METADATA_LIMIT + 1) },
    );
    let e = store.fetch(key("huge", 1), attrs(true, true, true, false)).unwrap();
    assert_eq!(e.children, None);
    assert_eq!(e.data, Some(Bytes::from_static(b"x")));
    assert_eq!(e.parents, Some(Parents::Zero));
}

#[test]
fn directory_at_the_limit_is_expanded() {
    let mut store = MemStore::default();
    store.classic.insert(
        id(1),
        Classic { parents: Parents::Zero, data: b"x".to_vec(), children: big_listing(LARGE_TREE_METADATA_LIMIT) },
    );
    let e = store.fetch(key("big", 1), attrs(false, false, true, false)).unwrap();
    assert_eq!(e.children.map(|c| c.len()), Some(25000));
}

#[test]
fn an_empty_directory_has_an_empty_child_list() {
    let mut store = MemStore::default();
    store.classic.insert(id(1), Classic { parents: Parents::Zero, data: vec![], children: vec![] });
    let e = store.fetch(key("empty", 1), attrs(false, false, true, false)).unwrap();
    assert_eq!(e.children, Some(vec![]));
}

#[test]
fn plan_refuses_only_listings_over_the_limit() {
    assert_eq!(LARGE_TREE_METADATA_LIMIT, 25000);
    assert_eq!(MAX_CONCURRENT_METADATA_FETCHES_PER_TREE_FETCH, 100);
    assert!(fetch_child_metadata_entries(big_listing(25001)).is_none());
    assert!(fetch_child_metadata_entries(big_listing(25000)).is_some());
    assert!(fetch_child_metadata_entries(vec![]).is_some());
}

#[test]
fn expansion_keeps_at_most_a_hundred_fetches_in_flight() {
    let listing: Vec<ManifestChild> =
        (0..1000).map(|i| child(&format!("f{}", i), EntryKind::File, (i % 251) as u8)).collect();
    let mut expansion = fetch_child_metadata_entries(listing).unwrap();
    let mut pending: Vec<usize> = Vec::new();
    let mut high_water = 0;
    loop {
        match expansion.next() {
            ExpandTurn::Fetch(i, k) => {
                assert_eq!(k.path, format!("f{}", i));
                pending.push(i);
            }
            ExpandTurn::Wait => {
                high_water = high_water.max(pending.len());
                let i = pending.remove(0);
                assert!(expansion.answer(i, Ok(Some(meta(1)))));
            }
            ExpandTurn::Finished => break,
        }
        assert!(pending.len() <= 100);
    }
    assert_eq!(high_water, 100);
    assert!(expansion.is_over());
    assert_eq!(expansion.outcome().unwrap().unwrap().len(), 1000);
}

#[test]
fn expansion_ignores_answers_it_does_not_await() {
    let mut expansion = fetch_child_metadata_entries(vec![child("f", EntryKind::File, 1)]).unwrap();
    assert!(!expansion.is_over());
    assert!(!expansion.answer(0, Ok(Some(meta(1)))));
    assert_eq!(expansion.next(), ExpandTurn::Fetch(0, key("f", 1)));
    assert_eq!(expansion.next(), ExpandTurn::Wait);
    assert!(!expansion.answer(5, Ok(Some(meta(1)))));
    assert!(expansion.answer(0, Err("boom".to_string())));
    assert!(!expansion.answer(0, Ok(Some(meta(1)))));
    assert_eq!(expansion.next(), ExpandTurn::Finished);
    assert_eq!(
        expansion.outcome(),
        Some(Err(FetchError::new(ErrorKind::FileFetchFailed(key("f", 1)), Some("boom".to_string()))))
    );
}

#[test]
fn outcome_is_not_to_be_had_before_the_end() {
    let mut expansion = fetch_child_metadata_entries(vec![child("f", EntryKind::File, 1)]).unwrap();
    expansion.next();
    assert_eq!(expansion.outcome(), None);
}

#[test]
fn file_child_outcome_by_answer() {
    let k = key("f", 1);
    assert_eq!(
        fetch_child_file_metadata(k.clone(), Ok(Some(meta(3)))),
        Ok(TreeChildEntry::File(
            k.clone(),
            FileAuxData { total_size: 30, sha1: Sha1([3; 20]), blake3: Blake3([3; 32]), file_header_metadata: None }
        ))
    );
    assert_eq!(
        fetch_child_file_metadata(k.clone(), Ok(None)),
        Err(FetchError::new(ErrorKind::FileFetchFailed(k.clone()), None))
    );
    assert_eq!(
        fetch_child_file_metadata(k.clone(), Err("x".to_string())),
        Err(FetchError::new(ErrorKind::FileFetchFailed(k), Some("x".to_string())))
    );
}

#[test]
fn an_answer_that_was_not_asked_for_fails_the_fetch() {
    let k = key("dir", 1);
    let step = fetch_tree(k.clone(), attrs(false, false, false, false)).step(FetchEvent::Content(Ok(Bytes::new())));
    let FetchStep::Done(Err(e)) = step else { panic!("did not fail") };
    assert_eq!(e, FetchError::new(ErrorKind::TreeFetchFailed(k.clone()), Some("unexpected answer".to_string())));

    let step = fetch_tree(k.clone(), attrs(false, false, false, true)).step(FetchEvent::Begin);
    let FetchStep::Ask(fetch, FetchAction::LoadAugmented(_)) = step else { panic!("no load asked") };
    assert_eq!(fetch.phase(), Phase::LoadingAugmented);
    let step = fetch.step(FetchEvent::Classic(Ok(None)));
    let FetchStep::Done(Err(e)) = step else { panic!("did not fail") };
    assert_eq!(e, FetchError::new(ErrorKind::TreeFetchFailed(k), Some("unexpected answer".to_string())));
}

#[test]
fn augmented_children_follow_the_manifest_order() {
    let store = sample_store();
    let (manifest, _) = &store.augmented[&id(2)];
    let list = augmented_children(manifest);
    assert_eq!(list.len(), 3);
    for (entry, child) in manifest.entries.iter().zip(list.iter()) {
        assert_eq!(&augmented_child_entry(entry), child);
        assert_eq!(
            matches!(entry, AugmentedEntry::FileNode(_)),
            matches!(child, TreeChildEntry::File(_, _))
        );
    }
}

#[test]
fn assemble_only_sets_the_child_list() {
    let mut base = TreeEntry::new(key("d", 1));
    base.with_data(Some(Bytes::from_static(b"z")));
    base.with_parents(Some(Parents::Zero));
    let list = vec![TreeChildEntry::Directory(key("s", 2), DirectoryMetadata::default())];
    let e = assemble(base.clone(), Some(list.clone()));
    assert_eq!(e.children, Some(list));
    assert_eq!(e.data, base.data);
    assert_eq!(e.parents, base.parents);
    assert_eq!(e.key, base.key);
    assert_eq!(assemble(base.clone(), None), base);
}

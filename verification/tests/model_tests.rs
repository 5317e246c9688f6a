use bytes::Bytes;
use tree_service::model::Blake3;
use tree_service::model::DirectoryMetadata;
use tree_service::model::FileAuxData;
use tree_service::model::HgId;
use tree_service::model::Key;
use tree_service::model::Parents;
use tree_service::model::Sha1;
use tree_service::model::TreeAttributes;
use tree_service::model::TreeChildEntry;
use tree_service::model::TreeEntry;

#[test]
fn null_identifiers_are_all_zero() {
    assert_eq!(HgId::null(), HgId([0; 20]));
    assert_eq!(Blake3::null(), Blake3([0; 32]));
}

#[test]
fn keys_are_equal_by_structure() {
    let a = Key::new("a/b".to_string(), HgId([1; 20]));
    let b = Key::new("a/b".to_string(), HgId([1; 20]));
    assert_eq!(a, b);
    assert_eq!(a.clone(), b);
    assert_ne!(a, Key::new("a/b".to_string(), HgId([2; 20])));
    assert_ne!(a, Key::new("a".to_string(), HgId([1; 20])));
}

#[test]
fn a_bare_key_has_an_empty_path() {
    let k = Key::bare(HgId([9; 20]));
    assert_eq!(k.path, "");
    assert_eq!(k.hgid, HgId([9; 20]));
}

#[test]
fn attributes_are_consistent_unless_both_exclusive_flags_are_set() {
    for bits in 0..16u8 {
        let a = TreeAttributes {
            manifest_blob: bits & 1 != 0,
            parents: bits & 2 != 0,
            child_metadata: bits & 4 != 0,
            augmented_trees: bits & 8 != 0,
        };
        assert_eq!(a.is_consistent(), !(a.child_metadata && a.augmented_trees));
    }
}

#[test]
fn parents_hand_out_first_and_second() {
    let a = HgId([1; 20]);
    let b = HgId([2; 20]);
    assert_eq!(Parents::Zero.p1(), None);
    assert_eq!(Parents::Zero.p2(), None);
    assert_eq!(Parents::One(a).p1(), Some(a));
    assert_eq!(Parents::One(a).p2(), None);
    assert_eq!(Parents::Two(a, b).p1(), Some(a));
    assert_eq!(Parents::Two(a, b).p2(), Some(b));
}

#[test]
fn default_directory_metadata_is_empty() {
    let m = DirectoryMetadata::default();
    assert_eq!(m.augmented_manifest_id, Blake3([0; 32]));
    assert_eq!(m.augmented_manifest_size, 0);
}

#[test]
fn a_new_entry_has_only_its_key() {
    let e = TreeEntry::new(Key::bare(HgId([3; 20])));
    assert_eq!(e.key, Key::bare(HgId([3; 20])));
    assert_eq!(e.data, None);
    assert_eq!(e.parents, None);
    assert_eq!(e.children, None);
    assert_eq!(e.tree_aux_data, None);
}

#[test]
fn setters_set_one_field_each() {
    let mut e = TreeEntry::new(Key::bare(HgId([3; 20])));
    e.with_data(Some(Bytes::from_static(b"blob")));
    assert_eq!(e.data, Some(Bytes::from_static(b"blob")));
    assert_eq!(e.parents, None);
    e.with_parents(Some(Parents::One(HgId([4; 20]))));
    assert_eq!(e.parents, Some(Parents::One(HgId([4; 20]))));
    let meta = DirectoryMetadata { augmented_manifest_id: Blake3([5; 32]), augmented_manifest_size: 77 };
    e.with_directory_metadata(meta);
    assert_eq!(e.tree_aux_data, Some(meta));
    let child = TreeChildEntry::new_directory_entry(Key::bare(HgId([6; 20])), meta);
    e.with_children(Some(vec![child.clone()]));
    assert_eq!(e.children, Some(vec![child]));
    assert_eq!(e.data, Some(Bytes::from_static(b"blob")));
    e.with_children(None);
    assert_eq!(e.children, None);
}

#[test]
fn child_constructors_tag_the_child() {
    let aux = FileAuxData {
        total_size: 3,
        sha1: Sha1([1; 20]),
        blake3: Blake3([2; 32]),
        file_header_metadata: None,
    };
    let f = TreeChildEntry::new_file_entry(Key::bare(HgId([1; 20])), aux.clone());
    assert_eq!(f, TreeChildEntry::File(Key::bare(HgId([1; 20])), aux));
    let d = TreeChildEntry::new_directory_entry(Key::bare(HgId([1; 20])), DirectoryMetadata::default());
    assert!(matches!(d, TreeChildEntry::Directory(_, _)));
}

use std::collections::HashMap;

use bytes::Bytes;
use tree_service::fetch::fetch_tree;
use tree_service::fetch::ClassicManifest;
use tree_service::fetch::FetchAction;
use tree_service::fetch::FetchEvent;
use tree_service::fetch::FetchStep;
use tree_service::model::HgId;
use tree_service::model::Key;
use tree_service::model::Parents;
use tree_service::model::TreeAttributes;
use tree_service::upload::store_tree;
use tree_service::upload::upload_response;
use tree_service::upload::AnyId;
use tree_service::upload::Batch;
use tree_service::upload::TreeWrite;
use tree_service::upload::UploadError;
use tree_service::upload::UploadToken;
use tree_service::upload::UploadTreeEntry;
use tree_service::upload::UploadTreeRequest;
use tree_service::upload::UploadTreeResponse;
use tree_service::upload::UploadTreesHandler;
use tree_service::upload::UploadTurn;
use tree_service::upload::MAX_CONCURRENT_UPLOAD_TREES_PER_REQUEST;

fn id(b: u8) -> HgId {
    HgId([b; 20])
}

fn item(b: u8, parents: Parents, data: &[u8]) -> UploadTreeRequest {
    UploadTreeRequest { entry: UploadTreeEntry { node_id: id(b), data: data.to_vec(), parents } }
}

#[test]
fn the_write_carries_the_items_identifier_parents_and_bytes() {
    let w = store_tree(item(1, Parents::Two(id(2), id(3)), b"tree bytes"));
    assert_eq!(
        w,
        TreeWrite { node_id: id(1), p1: Some(id(2)), p2: Some(id(3)), contents: Bytes::from_static(b"tree bytes") }
    );
    let w = store_tree(item(1, Parents::One(id(2)), b""));
    assert_eq!(w, TreeWrite { node_id: id(1), p1: Some(id(2)), p2: None, contents: Bytes::new() });
    let w = store_tree(item(1, Parents::Zero, b"x"));
    assert_eq!(w, TreeWrite { node_id: id(1), p1: None, p2: None, contents: Bytes::from_static(b"x") });
}

#[test]
fn a_write_that_succeeded_is_answered_with_a_token_for_the_tree() {
    assert_eq!(
        upload_response(id(5), Ok(())),
        Ok(UploadTreeResponse { token: UploadToken { id: AnyId::HgTreeId(id(5)), bubble_id: None } })
    );
    assert_eq!(
        UploadToken::new_fake_token(AnyId::HgTreeId(id(5)), None),
        UploadToken { id: AnyId::HgTreeId(id(5)), bubble_id: None }
    );
}

#[test]
fn a_write_that_failed_is_answered_with_the_stores_words() {
    assert_eq!(
        upload_response(id(5), Err("disk full".to_string())),
        Err(UploadError { node_id: id(5), message: "disk full".to_string() })
    );
}

#[test]
fn one_failing_upload_does_not_stop_the_others() {
    let n = 250usize;
    let items: Vec<UploadTreeRequest> = (0..n).map(|i| item(i as u8, Parents::Zero, &[i as u8])).collect();
    let mut uploads = UploadTreesHandler::handler(Batch { batch: items });
    assert_eq!(uploads.len(), n);
    let mut pending: Vec<(usize, TreeWrite)> = Vec::new();
    let mut answers = Vec::new();
    let mut high_water = 0;
    loop {
        match uploads.next() {
            UploadTurn::Write(i, write) => {
                assert_eq!(write.node_id, id(i as u8));
                assert_eq!(write.contents, Bytes::from(vec![i as u8]));
                pending.push((i, write));
            }
            UploadTurn::Wait => {
                high_water = high_water.max(pending.len());
                let (i, _) = pending.remove(0);
                let written = if i == 42 { Err("refused".to_string()) } else { Ok(()) };
                answers.push(uploads.complete(i, written).unwrap());
            }
            UploadTurn::Finished => break,
        }
        assert!(uploads.in_flight() <= MAX_CONCURRENT_UPLOAD_TREES_PER_REQUEST);
    }
    assert_eq!(high_water, 100);
    assert_eq!(answers.len(), n);
    assert_eq!(uploads.answered(), n);
    assert_eq!(answers.iter().filter(|a| a.is_err()).count(), 1);
    assert_eq!(answers[42], Err(UploadError { node_id: id(42), message: "refused".to_string() }));
    assert_eq!(
        answers[43],
        Ok(UploadTreeResponse { token: UploadToken { id: AnyId::HgTreeId(id(43)), bubble_id: None } })
    );
}

#[test]
fn an_answer_for_an_item_that_is_not_in_flight_is_dropped() {
    let mut uploads = UploadTreesHandler::handler(Batch { batch: vec![item(1, Parents::Zero, b"a")] });
    assert_eq!(uploads.complete(0, Ok(())), None);
    assert!(matches!(uploads.next(), UploadTurn::Write(0, _)));
    assert_eq!(uploads.next(), UploadTurn::Wait);
    assert_eq!(uploads.complete(3, Ok(())), None);
    assert!(uploads.complete(0, Ok(())).is_some());
    assert_eq!(uploads.next(), UploadTurn::Finished);
}

#[test]
fn uploaded_bytes_come_back_from_a_classic_fetch() {
    // a store that returns what was written to it
    let mut store: HashMap<HgId, TreeWrite> = HashMap::new();
    let data = b"\x00binary\xfftree\n".to_vec();
    let write = store_tree(item(7, Parents::One(id(6)), &data));
    store.insert(write.node_id, write);

    let attributes = TreeAttributes { manifest_blob: true, parents: true, child_metadata: false, augmented_trees: false };
    let mut step = fetch_tree(Key::new("some/dir".to_string(), id(7)), attributes).step(FetchEvent::Begin);
    let entry = loop {
        match step {
            FetchStep::Done(outcome) => break outcome.unwrap(),
            FetchStep::Ask(fetch, action) => {
                let event = match action {
                    FetchAction::LoadClassic(id) => FetchEvent::Classic(Ok(store.get(&id).map(|w| ClassicManifest {
                        parents: match (w.p1, w.p2) {
                            (Some(a), Some(b)) => Parents::Two(a, b),
                            (Some(a), None) => Parents::One(a),
                            _ => Parents::Zero,
                        },
                    }))),
                    FetchAction::FetchContent(id) => FetchEvent::Content(Ok(store[&id].contents.clone())),
                    _ => panic!("not asked without child metadata"),
                };
                step = fetch.step(event);
            }
        }
    };
    assert_eq!(entry.data.unwrap().to_vec(), data);
    assert_eq!(entry.parents, Some(Parents::One(id(6))));
}

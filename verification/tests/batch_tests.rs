use std::collections::HashSet;

use bytes::Bytes;
use tree_service::batch::fetch_all_trees;
use tree_service::batch::trees;
use tree_service::batch::BatchTurn;
use tree_service::batch::TreeParams;
use tree_service::batch::TreeRequest;
use tree_service::batch::MAX_CONCURRENT_TREE_FETCHES_PER_REQUEST;
use tree_service::errors::ErrorKind;
use tree_service::errors::FetchError;
use tree_service::errors::ServerError;
use tree_service::fetch::ClassicManifest;
use tree_service::fetch::FetchAction;
use tree_service::fetch::FetchEvent;
use tree_service::fetch::FetchStep;
use tree_service::fetch::TreeFetch;
use tree_service::model::HgId;
use tree_service::model::Key;
use tree_service::model::Parents;
use tree_service::model::TreeAttributes;
use tree_service::model::TreeEntry;

fn key(n: usize) -> Key {
    let mut id = [0u8; 20];
    id[0] = (n % 256) as u8;
    id[1] = (n / 256) as u8;
    Key::new(format!("dir{}", n), HgId(id))
}

fn classic() -> TreeAttributes {
    TreeAttributes { manifest_blob: true, parents: true, child_metadata: false, augmented_trees: false }
}

/// A store that knows every key but those in `missing`.
fn run(fetch: TreeFetch, missing: &HashSet<HgId>) -> Result<TreeEntry, FetchError> {
    let mut step = fetch.step(FetchEvent::Begin);
    loop {
        match step {
            FetchStep::Done(outcome) => return outcome,
            FetchStep::Ask(fetch, action) => {
                let event = match action {
                    FetchAction::LoadClassic(id) => {
                        if missing.contains(&id) {
                            FetchEvent::Classic(Ok(None))
                        } else {
                            FetchEvent::Classic(Ok(Some(ClassicManifest { parents: Parents::Zero })))
                        }
                    }
                    FetchAction::FetchContent(id) => FetchEvent::Content(Ok(Bytes::copy_from_slice(&id.0))),
                    _ => panic!("not asked in these tests"),
                };
                step = fetch.step(event);
            }
        }
    }
}

#[test]
fn both_exclusive_flags_reject_the_batch_with_one_error() {
    let request = TreeRequest {
        keys: (0..10).map(key).collect(),
        attributes: TreeAttributes { manifest_blob: true, parents: true, child_metadata: true, augmented_trees: true },
    };
    match trees(request) {
        Ok(_) => panic!("an invalid request was accepted"),
        Err(e) => assert_eq!(
            e,
            ServerError {
                key: None,
                kind: ErrorKind::InvalidRequest(
                    "Augmented trees and child metadata cannot be requested at the same time".to_string()
                ),
                message: "Invalid request: Augmented trees and child metadata cannot be requested at the same time"
                    .to_string(),
            }
        ),
    }
}

#[test]
fn a_valid_request_gets_its_batch() {
    let request = TreeRequest { keys: (0..10).map(key).collect(), attributes: classic() };
    let batch = match trees(request) {
        Ok(b) => b,
        Err(_) => panic!("a valid request was rejected"),
    };
    assert_eq!(batch.len(), 10);
    assert_eq!(batch.in_flight(), 0);
    assert_eq!(batch.emitted(), 0);
    assert_eq!(batch.loads(), 0);
    assert!(!batch.is_finished());
}

#[test]
fn one_missing_key_gives_one_error_record_and_the_rest_entries() {
    let n = 300;
    let missing_index = 137;
    let mut missing = HashSet::new();
    missing.insert(key(missing_index).hgid);
    let mut batch = fetch_all_trees(TreeRequest { keys: (0..n).map(key).collect(), attributes: classic() });
    let mut pending: Vec<(usize, TreeFetch)> = Vec::new();
    let mut stream = Vec::new();
    let mut high_water = 0;
    loop {
        match batch.next() {
            BatchTurn::Fetch(i, fetch) => {
                assert_eq!(fetch.key(), &key(i));
                pending.push((i, fetch));
            }
            BatchTurn::Wait => {
                high_water = high_water.max(pending.len());
                // newest first: arrival order is not request order
                let (i, fetch) = pending.pop().unwrap();
                let record = batch.complete(i, run(fetch, &missing)).unwrap();
                stream.push(record);
            }
            BatchTurn::Finished => break,
        }
        assert!(batch.in_flight() <= MAX_CONCURRENT_TREE_FETCHES_PER_REQUEST);
    }
    assert_eq!(high_water, 128);
    assert!(batch.is_finished());
    assert_eq!(stream.len(), n);
    assert_eq!(batch.emitted(), n);
    assert_eq!(batch.loads(), n - 1);
    let errors: Vec<&ServerError> = stream.iter().filter_map(|r| r.as_ref().err()).collect();
    assert_eq!(errors.len(), 1);
    assert_eq!(errors[0].key, Some(key(missing_index)));
    assert_eq!(errors[0].kind, ErrorKind::KeyDoesNotExist(key(missing_index)));
    assert_eq!(errors[0].message, "Key does not exist");
    let seen: HashSet<Key> = stream.iter().filter_map(|r| r.as_ref().ok()).map(|e| e.key.clone()).collect();
    assert_eq!(seen.len(), n - 1);
    assert!(!seen.contains(&key(missing_index)));
    // the first record to leave is for the newest key that was in flight
    assert_eq!(stream[0].as_ref().unwrap().key, key(127));
}

#[test]
fn an_outcome_for_a_key_that_is_not_in_flight_is_dropped() {
    let mut batch = fetch_all_trees(TreeRequest { keys: (0..2).map(key).collect(), attributes: classic() });
    assert!(batch.complete(0, Ok(TreeEntry::new(key(0)))).is_none());
    let BatchTurn::Fetch(0, _) = batch.next() else { panic!("key 0 not started") };
    assert!(batch.complete(1, Ok(TreeEntry::new(key(1)))).is_none());
    assert_eq!(batch.complete(0, Ok(TreeEntry::new(key(0)))), Some(Ok(TreeEntry::new(key(0)))));
    assert!(batch.complete(0, Ok(TreeEntry::new(key(0)))).is_none());
    assert_eq!(batch.emitted(), 1);
    assert_eq!(batch.loads(), 1);
}

#[test]
fn an_empty_batch_is_finished_without_a_record() {
    let mut batch = fetch_all_trees(TreeRequest { keys: vec![], attributes: classic() });
    assert!(batch.is_finished());
    assert!(matches!(batch.next(), BatchTurn::Finished));
    assert_eq!(batch.emitted(), 0);
}

#[test]
fn failures_do_not_count_as_loads() {
    let mut batch = fetch_all_trees(TreeRequest { keys: (0..2).map(key).collect(), attributes: classic() });
    batch.next();
    batch.next();
    let failure = FetchError::new(ErrorKind::TreeFetchFailed(key(1)), Some("io".to_string()));
    let record = batch.complete(1, Err(failure)).unwrap();
    assert_eq!(
        record,
        Err(ServerError {
            key: Some(key(1)),
            kind: ErrorKind::TreeFetchFailed(key(1)),
            message: "Failed to fetch tree: io".to_string(),
        })
    );
    assert_eq!(batch.loads(), 0);
    batch.complete(0, Ok(TreeEntry::new(key(0))));
    assert_eq!(batch.loads(), 1);
    assert!(batch.is_finished());
}

#[test]
fn params_hold_the_repository_name() {
    let p = TreeParams::new("fbsource".to_string());
    assert_eq!(p.repo(), "fbsource");
}

use tree_service::errors::ErrorKind;
use tree_service::errors::FetchError;
use tree_service::errors::ServerError;
use tree_service::model::HgId;
use tree_service::model::Key;

fn key(path: &str, byte: u8) -> Key {
    Key::new(path.to_string(), HgId([byte; 20]))
}

#[test]
fn each_kind_has_its_sentence() {
    assert_eq!(
        ErrorKind::InvalidRequest("bad".to_string()).describe(),
        "Invalid request: bad"
    );
    assert_eq!(ErrorKind::KeyDoesNotExist(key("a", 1)).describe(), "Key does not exist");
    assert_eq!(ErrorKind::TreeFetchFailed(key("a", 1)).describe(), "Failed to fetch tree");
    assert_eq!(ErrorKind::FileFetchFailed(key("a", 1)).describe(), "Failed to fetch file");
}

#[test]
fn message_appends_the_cause() {
    let e = FetchError::new(ErrorKind::TreeFetchFailed(key("a", 1)), Some("disk on fire".to_string()));
    assert_eq!(e.message(), "Failed to fetch tree: disk on fire");
    let e = FetchError::new(ErrorKind::KeyDoesNotExist(key("a", 1)), None);
    assert_eq!(e.message(), "Key does not exist");
}

#[test]
fn record_carries_key_kind_and_message() {
    let e = FetchError::new(ErrorKind::FileFetchFailed(key("child", 2)), Some("gone".to_string()));
    let r = ServerError::with_key(key("dir", 1), e);
    assert_eq!(r.key, Some(key("dir", 1)));
    assert_eq!(r.kind, ErrorKind::FileFetchFailed(key("child", 2)));
    assert_eq!(r.message, "Failed to fetch file: gone");
}

#[test]
fn record_for_the_whole_request_has_no_key() {
    let r = ServerError::new(FetchError::new(ErrorKind::InvalidRequest("x".to_string()), None));
    assert_eq!(r.key, None);
    assert_eq!(r.message, "Invalid request: x");
}

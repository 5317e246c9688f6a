//! What can go wrong, and the record that reports it.

use vstd::prelude::*;
use vstd::string::StringExecFns;
use crate::model::Key;
use crate::model::KeyView;
use crate::model::TreeEntry;
use crate::model::TreeEntryView;

verus! {

/// The kinds of failure.
#[derive(Clone, Debug, PartialEq, Eq)]
pub enum ErrorKind {
    /// The request asks for a combination of attributes that cannot be
    /// served. The whole batch is rejected.
    InvalidRequest(String),
    /// The revision identifier of this key resolves to nothing.
    KeyDoesNotExist(Key),
    /// The manifest for this key could not be loaded or read.
    TreeFetchFailed(Key),
    /// The content metadata of this child could not be fetched.
    FileFetchFailed(Key),
}

pub enum ErrorKindView {
    InvalidRequest(Seq<char>),
    KeyDoesNotExist(KeyView),
    TreeFetchFailed(KeyView),
    FileFetchFailed(KeyView),
}

impl View for ErrorKind {
    type V = ErrorKindView;

    open spec fn view(&self) -> ErrorKindView {
        match self {
            ErrorKind::InvalidRequest(m) => ErrorKindView::InvalidRequest(m@),
            ErrorKind::KeyDoesNotExist(k) => ErrorKindView::KeyDoesNotExist(k@),
            ErrorKind::TreeFetchFailed(k) => ErrorKindView::TreeFetchFailed(k@),
            ErrorKind::FileFetchFailed(k) => ErrorKindView::FileFetchFailed(k@),
        }
    }
}

impl ErrorKindView {
    /// The sentence that names this kind of failure.
    pub open spec fn describe(self) -> Seq<char> {
        match self {
            ErrorKindView::InvalidRequest(m) => "Invalid request: "@ + m,
            ErrorKindView::KeyDoesNotExist(_) => "Key does not exist"@,
            ErrorKindView::TreeFetchFailed(_) => "Failed to fetch tree"@,
            ErrorKindView::FileFetchFailed(_) => "Failed to fetch file"@,
        }
    }
}

impl ErrorKind {
    pub fn describe(&self) -> (text: String)
        ensures
            text@ == self@.describe(),
    {
        match self {
            ErrorKind::InvalidRequest(m) => {
                let mut text = String::from_str("Invalid request: ");
                text.append(m.as_str());
                text
            },
            ErrorKind::KeyDoesNotExist(_) => String::from_str("Key does not exist"),
            ErrorKind::TreeFetchFailed(_) => String::from_str("Failed to fetch tree"),
            ErrorKind::FileFetchFailed(_) => String::from_str("Failed to fetch file"),
        }
    }
}

/// A text that may be absent, as a sequence of characters.
pub open spec fn optional_text(t: Option<String>) -> Option<Seq<char>> {
    match t {
        Some(t) => Some(t@),
        None => None,
    }
}

/// An answer of the store: what it found, or what it said when it failed.
pub open spec fn answer_view<T>(r: Result<T, String>) -> Result<T, Seq<char>> {
    match r {
        Ok(t) => Ok(t),
        Err(m) => Err(m@),
    }
}

/// A failure of one item: its kind, and what the store said, if the store
/// said anything.
#[derive(Clone, Debug, PartialEq, Eq)]
pub struct FetchError {
    pub kind: ErrorKind,
    pub cause: Option<String>,
}

pub struct FetchErrorView {
    pub kind: ErrorKindView,
    pub cause: Option<Seq<char>>,
}

impl View for FetchError {
    type V = FetchErrorView;

    open spec fn view(&self) -> FetchErrorView {
        FetchErrorView { kind: self.kind@, cause: optional_text(self.cause) }
    }
}

impl FetchErrorView {
    /// The kind's sentence, followed by the store's words where there are
    /// any.
    pub open spec fn message(self) -> Seq<char> {
        match self.cause {
            Some(c) => self.kind.describe() + ": "@ + c,
            None => self.kind.describe(),
        }
    }
}

impl FetchError {
    pub fn new(kind: ErrorKind, cause: Option<String>) -> (e: FetchError)
        ensures
            e@ == (FetchErrorView { kind: kind@, cause: optional_text(cause) }),
    {
        FetchError { kind, cause }
    }

    pub fn message(&self) -> (text: String)
        ensures
            text@ == self@.message(),
    {
        let mut text = self.kind.describe();
        match &self.cause {
            Some(c) => {
                text.append(": ");
                text.append(c.as_str());
            },
            None => {},
        }
        text
    }
}

/// The record that reports a failure in a response stream.
#[derive(Clone, Debug, PartialEq, Eq)]
pub struct ServerError {
    /// The key of the item that failed; absent when the whole request is at
    /// fault.
    pub key: Option<Key>,
    pub kind: ErrorKind,
    pub message: String,
}

pub struct ServerErrorView {
    pub key: Option<KeyView>,
    pub kind: ErrorKindView,
    pub message: Seq<char>,
}

impl View for ServerError {
    type V = ServerErrorView;

    open spec fn view(&self) -> ServerErrorView {
        ServerErrorView {
            key: match self.key {
                Some(k) => Some(k@),
                None => None,
            },
            kind: self.kind@,
            message: self.message@,
        }
    }
}

impl ServerErrorView {
    /// The record for a failure of the item with this key.
    pub open spec fn with_key(key: KeyView, error: FetchErrorView) -> ServerErrorView {
        ServerErrorView { key: Some(key), kind: error.kind, message: error.message() }
    }

    /// The record for a failure of the request as a whole.
    pub open spec fn general(error: FetchErrorView) -> ServerErrorView {
        ServerErrorView { key: None, kind: error.kind, message: error.message() }
    }
}

impl ServerError {
    pub fn with_key(key: Key, error: FetchError) -> (r: ServerError)
        ensures
            r@ == ServerErrorView::with_key(key@, error@),
    {
        let message = error.message();
        ServerError { key: Some(key), kind: error.kind, message }
    }

    pub fn new(error: FetchError) -> (r: ServerError)
        ensures
            r@ == ServerErrorView::general(error@),
    {
        let message = error.message();
        ServerError { key: None, kind: error.kind, message }
    }
}

/// How the fetch of one tree ended.
pub open spec fn outcome_view(r: Result<TreeEntry, FetchError>) -> Result<
    TreeEntryView,
    FetchErrorView,
> {
    match r {
        Ok(e) => Ok(e@),
        Err(e) => Err(e@),
    }
}

/// One record of a response stream.
pub open spec fn record_view(r: Result<TreeEntry, ServerError>) -> Result<
    TreeEntryView,
    ServerErrorView,
> {
    match r {
        Ok(e) => Ok(e@),
        Err(e) => Err(e@),
    }
}

} // verus!

//! Statuses: what a failed operation reports.

use vstd::prelude::*;

verus! {

/// The class of a failure.
///
/// Every code but `AsyncError` is the store's own and is handed on as the
/// store gave it. `AsyncError` marks a failure of the bridge itself.
#[derive(Clone, Copy, Debug, PartialEq, Eq, Structural)]
pub enum StatusCode {
    OK,
    AlreadyExists,
    Corruption,
    CompressionError,
    IOError,
    InvalidArgument,
    InvalidData,
    LockError,
    NotFound,
    NotSupported,
    PermissionDenied,
    AsyncError,
    Unknown,
}

/// A failure: its class and a message for people.
#[derive(Clone, Debug, PartialEq, Eq)]
pub struct Status {
    pub code: StatusCode,
    pub err: String,
}

/// What a `Status` is to the contracts: its code and the characters of its message.
pub struct StatusView {
    pub code: StatusCode,
    pub err: Seq<char>,
}

impl View for Status {
    type V = StatusView;

    open spec fn view(&self) -> StatusView {
        StatusView { code: self.code, err: self.err@ }
    }
}

/// The message of a reply whose variant the operation does not expect.
pub open spec fn wrong_response_text() -> Seq<char> {
    "Wrong response type in AsyncDB."@
}

/// The message of a request that could not be handed over, or whose reply never came.
pub open spec fn channel_closed_text() -> Seq<char> {
    "channel closed"@
}

/// The message of a read through a handle that the registry does not hold.
pub open spec fn unknown_snapshot_text() -> Seq<char> {
    "Unknown snapshot reference: this is a bug"@
}

impl StatusView {
    /// The protocol error: the reply's variant is not one the operation expects.
    pub open spec fn wrong_response() -> StatusView {
        StatusView { code: StatusCode::AsyncError, err: wrong_response_text() }
    }

    /// The communication failure: the worker is gone.
    pub open spec fn channel_closed() -> StatusView {
        StatusView { code: StatusCode::AsyncError, err: channel_closed_text() }
    }

    /// The unknown-handle error: a read named a snapshot that is not registered.
    pub open spec fn unknown_snapshot() -> StatusView {
        StatusView { code: StatusCode::AsyncError, err: unknown_snapshot_text() }
    }

    /// Whether the bridge, not the store, reports this failure.
    pub open spec fn is_async(self) -> bool {
        self.code == StatusCode::AsyncError
    }
}

impl Status {
    /// A status of the given class with the given message.
    pub fn new(code: StatusCode, msg: &str) -> (s: Status)
        ensures
            s@ == (StatusView { code, err: msg@ }),
    {
        Status { code, err: msg.to_owned() }
    }

    /// The protocol error.
    pub fn wrong_response() -> (s: Status)
        ensures
            s@ == StatusView::wrong_response(),
    {
        Status::new(StatusCode::AsyncError, "Wrong response type in AsyncDB.")
    }

    /// The communication failure.
    pub fn channel_closed() -> (s: Status)
        ensures
            s@ == StatusView::channel_closed(),
    {
        Status::new(StatusCode::AsyncError, "channel closed")
    }

    /// The unknown-handle error.
    pub fn unknown_snapshot() -> (s: Status)
        ensures
            s@ == StatusView::unknown_snapshot(),
    {
        Status::new(StatusCode::AsyncError, "Unknown snapshot reference: this is a bug")
    }

    /// Whether the bridge, not the store, reports this failure.
    pub fn is_async(&self) -> (b: bool)
        ensures
            b == self@.is_async(),
    {
        match self.code {
            StatusCode::AsyncError => true,
            _ => false,
        }
    }
}

/// The three failures of the bridge are told apart by their messages.
pub proof fn lemma_async_errors_distinct()
    ensures
        StatusView::wrong_response() != StatusView::channel_closed(),
        StatusView::wrong_response() != StatusView::unknown_snapshot(),
        StatusView::channel_closed() != StatusView::unknown_snapshot(),
{
    reveal_strlit("Wrong response type in AsyncDB.");
    reveal_strlit("channel closed");
    reveal_strlit("Unknown snapshot reference: this is a bug");
    assert(wrong_response_text().len() == 31);
    assert(channel_closed_text().len() == 14);
    assert(unknown_snapshot_text().len() == 41);
}

} // verus!

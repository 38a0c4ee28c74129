//! The messages that cross between the callers and the worker.

use vstd::prelude::*;
use crate::status::{Status, StatusView};

verus! {

/// How many requests may wait in the queue before a caller has to wait for room.
pub const CHANNEL_BUFFER_SIZE: usize = 32;

/// A handle to a snapshot that the worker keeps.
///
/// The handle is a plain number and owns nothing: the snapshot lives in the
/// worker's registry until it is released there.
#[derive(Clone, Copy, Debug, PartialEq, Eq, Structural)]
pub struct SnapshotRef(pub(crate) usize);

impl View for SnapshotRef {
    type V = usize;

    closed spec fn view(&self) -> usize {
        self.0
    }
}

impl SnapshotRef {
    /// The number that this handle stands for.
    pub fn id(&self) -> (n: usize)
        ensures
            n == self@,
    {
        self.0
    }

    pub(crate) fn from_id(n: usize) -> (r: SnapshotRef)
        ensures
            r@ == n,
    {
        SnapshotRef(n)
    }
}

/// Two handles with the same number are the same handle.
pub proof fn lemma_snapshot_ref_by_id(a: SnapshotRef, b: SnapshotRef)
    ensures
        a@ == b@ <==> a == b,
{
}

/// What a caller asks of the worker. `B` is the store's type of write batch.
#[derive(Debug)]
pub enum Request<B> {
    Close,
    Put { key: Vec<u8>, val: Vec<u8> },
    Delete { key: Vec<u8> },
    Write { batch: B, sync: bool },
    Flush,
    GetAt { snapshot: SnapshotRef, key: Vec<u8> },
    Get { key: Vec<u8> },
    GetSnapshot,
    DropSnapshot { snapshot: SnapshotRef },
    CompactRange { from: Vec<u8>, to: Vec<u8> },
}

/// A `Request` with its keys and values as byte sequences and its handles as numbers.
pub enum RequestView<B> {
    Close,
    Put { key: Seq<u8>, val: Seq<u8> },
    Delete { key: Seq<u8> },
    Write { batch: B, sync: bool },
    Flush,
    GetAt { snapshot: usize, key: Seq<u8> },
    Get { key: Seq<u8> },
    GetSnapshot,
    DropSnapshot { snapshot: usize },
    CompactRange { from: Seq<u8>, to: Seq<u8> },
}

impl<B> View for Request<B> {
    type V = RequestView<B>;

    open spec fn view(&self) -> RequestView<B> {
        match *self {
            Request::Close => RequestView::Close,
            Request::Put { key, val } => RequestView::Put { key: key@, val: val@ },
            Request::Delete { key } => RequestView::Delete { key: key@ },
            Request::Write { batch, sync } => RequestView::Write { batch, sync },
            Request::Flush => RequestView::Flush,
            Request::GetAt { snapshot, key } => RequestView::GetAt { snapshot: snapshot@, key: key@ },
            Request::Get { key } => RequestView::Get { key: key@ },
            Request::GetSnapshot => RequestView::GetSnapshot,
            Request::DropSnapshot { snapshot } => RequestView::DropSnapshot { snapshot: snapshot@ },
            Request::CompactRange { from, to } => RequestView::CompactRange {
                from: from@,
                to: to@,
            },
        }
    }
}

/// What the worker answers.
#[derive(Clone, Debug, PartialEq, Eq)]
pub enum Response {
    OK,
    Error(Status),
    Value(Option<Vec<u8>>),
    Snapshot(SnapshotRef),
}

/// A `Response` with its value as a byte sequence and its handle as a number.
pub enum ResponseView {
    OK,
    Error(StatusView),
    Value(Option<Seq<u8>>),
    Snapshot(usize),
}

/// The bytes of a value that may be absent.
pub open spec fn value_view(v: Option<Vec<u8>>) -> Option<Seq<u8>> {
    match v {
        Some(bytes) => Some(bytes@),
        None => None,
    }
}

/// The view of the outcome of an operation that yields nothing.
pub open spec fn done_view(r: Result<(), Status>) -> Result<(), StatusView> {
    match r {
        Ok(_) => Ok(()),
        Err(s) => Err(s@),
    }
}

/// The view of the outcome of a read.
pub open spec fn read_view(r: Result<Option<Vec<u8>>, Status>) -> Result<
    Option<Seq<u8>>,
    StatusView,
> {
    match r {
        Ok(v) => Ok(value_view(v)),
        Err(s) => Err(s@),
    }
}

/// The view of the outcome of taking a snapshot.
pub open spec fn handle_view(r: Result<SnapshotRef, Status>) -> Result<usize, StatusView> {
    match r {
        Ok(h) => Ok(h@),
        Err(s) => Err(s@),
    }
}

impl View for Response {
    type V = ResponseView;

    open spec fn view(&self) -> ResponseView {
        match *self {
            Response::OK => ResponseView::OK,
            Response::Error(s) => ResponseView::Error(s@),
            Response::Value(v) => ResponseView::Value(value_view(v)),
            Response::Snapshot(h) => ResponseView::Snapshot(h@),
        }
    }
}

} // verus!

//! The caller's side: the request that each operation sends, and how it reads the reply.
//!
//! An operation is carried out in three moves. The request is built here. The
//! caller's handle puts it on the queue with a reply channel of its own and
//! waits; what came of that is a `Delivery`. The delivery is read here, by the
//! function of the same operation, into the operation's result.

use vstd::prelude::*;
use crate::protocol::{
    done_view, handle_view, read_view, Request, RequestView, Response, ResponseView, SnapshotRef,
};
use crate::status::{Status, StatusView};

verus! {

/// What came of handing a request to the worker.
#[derive(Debug)]
pub enum Delivery {
    /// The queue took no request: the worker is gone.
    NotSent,
    /// The request was queued, and the reply channel closed without a reply.
    NoReply,
    /// The worker replied.
    Reply(Response),
}

/// A `Delivery` with the reply by its view.
pub enum DeliveryView {
    NotSent,
    NoReply,
    Reply(ResponseView),
}

impl View for Delivery {
    type V = DeliveryView;

    open spec fn view(&self) -> DeliveryView {
        match *self {
            Delivery::NotSent => DeliveryView::NotSent,
            Delivery::NoReply => DeliveryView::NoReply,
            Delivery::Reply(r) => DeliveryView::Reply(r@),
        }
    }
}

impl DeliveryView {
    /// The reply, or the communication failure where there is none.
    pub open spec fn reply(self) -> Result<ResponseView, StatusView> {
        match self {
            DeliveryView::Reply(r) => Ok(r),
            _ => Err(StatusView::channel_closed()),
        }
    }

    /// The result of an operation that yields nothing and that the store may refuse.
    pub open spec fn done(self) -> Result<(), StatusView> {
        match self.reply() {
            Ok(ResponseView::OK) => Ok(()),
            Ok(ResponseView::Error(s)) => Err(s),
            Ok(_) => Err(StatusView::wrong_response()),
            Err(e) => Err(e),
        }
    }

    /// The result of a read.
    pub open spec fn value(self) -> Result<Option<Seq<u8>>, StatusView> {
        match self.reply() {
            Ok(ResponseView::Value(v)) => Ok(v),
            Ok(ResponseView::Error(s)) => Err(s),
            Ok(_) => Err(StatusView::wrong_response()),
            Err(e) => Err(e),
        }
    }

    /// The result of taking a snapshot: only a handle is an expected reply.
    pub open spec fn snapshot(self) -> Result<usize, StatusView> {
        match self.reply() {
            Ok(ResponseView::Snapshot(h)) => Ok(h),
            Ok(_) => Err(StatusView::wrong_response()),
            Err(e) => Err(e),
        }
    }

    /// The result of releasing a snapshot: only `OK` is an expected reply.
    pub open spec fn released(self) -> Result<(), StatusView> {
        match self.reply() {
            Ok(ResponseView::OK) => Ok(()),
            Ok(_) => Err(StatusView::wrong_response()),
            Err(e) => Err(e),
        }
    }
}

/// The reply that a delivery holds, or the communication failure.
pub fn process_reply(delivery: Delivery) -> (r: Result<Response, Status>)
    ensures
        match r {
            Ok(resp) => delivery@.reply() == Ok::<ResponseView, StatusView>(resp@),
            Err(e) => delivery@.reply() == Err::<ResponseView, StatusView>(e@),
        },
{
    match delivery {
        Delivery::Reply(resp) => Ok(resp),
        Delivery::NotSent => Err(Status::channel_closed()),
        Delivery::NoReply => Err(Status::channel_closed()),
    }
}

fn expect_done(delivery: Delivery) -> (r: Result<(), Status>)
    ensures
        done_view(r) == delivery@.done(),
{
    match process_reply(delivery) {
        Ok(Response::OK) => Ok(()),
        Ok(Response::Error(s)) => Err(s),
        Ok(_) => Err(Status::wrong_response()),
        Err(e) => Err(e),
    }
}

fn expect_value(delivery: Delivery) -> (r: Result<Option<Vec<u8>>, Status>)
    ensures
        read_view(r) == delivery@.value(),
{
    match process_reply(delivery) {
        Ok(Response::Value(v)) => Ok(v),
        Ok(Response::Error(s)) => Err(s),
        Ok(_) => Err(Status::wrong_response()),
        Err(e) => Err(e),
    }
}

/// The request of `close`.
pub fn close<B>() -> (req: Request<B>)
    ensures
        req@ == RequestView::<B>::Close,
{
    Request::Close
}

/// The result of `close`: `Ok` once the worker has taken up the request and ended.
pub fn close_reply(delivery: Delivery) -> (r: Result<(), Status>)
    ensures
        done_view(r) == delivery@.done(),
{
    expect_done(delivery)
}

/// The request of `put`.
pub fn put<B>(key: Vec<u8>, val: Vec<u8>) -> (req: Request<B>)
    ensures
        req@ == (RequestView::<B>::Put { key: key@, val: val@ }),
{
    Request::Put { key, val }
}

/// The result of `put`.
pub fn put_reply(delivery: Delivery) -> (r: Result<(), Status>)
    ensures
        done_view(r) == delivery@.done(),
{
    expect_done(delivery)
}

/// The request of `delete`.
pub fn delete<B>(key: Vec<u8>) -> (req: Request<B>)
    ensures
        req@ == (RequestView::<B>::Delete { key: key@ }),
{
    Request::Delete { key }
}

/// The result of `delete`.
pub fn delete_reply(delivery: Delivery) -> (r: Result<(), Status>)
    ensures
        done_view(r) == delivery@.done(),
{
    expect_done(delivery)
}

/// The request of `write`.
pub fn write<B>(batch: B, sync: bool) -> (req: Request<B>)
    ensures
        req@ == (RequestView::Write { batch, sync }),
{
    Request::Write { batch, sync }
}

/// The result of `write`.
pub fn write_reply(delivery: Delivery) -> (r: Result<(), Status>)
    ensures
        done_view(r) == delivery@.done(),
{
    expect_done(delivery)
}

/// The request of `flush`.
pub fn flush<B>() -> (req: Request<B>)
    ensures
        req@ == RequestView::<B>::Flush,
{
    Request::Flush
}

/// The result of `flush`.
pub fn flush_reply(delivery: Delivery) -> (r: Result<(), Status>)
    ensures
        done_view(r) == delivery@.done(),
{
    expect_done(delivery)
}

/// The request of `get`.
pub fn get<B>(key: Vec<u8>) -> (req: Request<B>)
    ensures
        req@ == (RequestView::<B>::Get { key: key@ }),
{
    Request::Get { key }
}

/// The result of `get`: the value under the key, `None` where the store holds none.
pub fn get_reply(delivery: Delivery) -> (r: Result<Option<Vec<u8>>, Status>)
    ensures
        read_view(r) == delivery@.value(),
{
    expect_value(delivery)
}

/// The request of `get_at`.
pub fn get_at<B>(snapshot: SnapshotRef, key: Vec<u8>) -> (req: Request<B>)
    ensures
        req@ == (RequestView::<B>::GetAt { snapshot: snapshot@, key: key@ }),
{
    Request::GetAt { snapshot, key }
}

/// The result of `get_at`: the value under the key as the snapshot saw it.
pub fn get_at_reply(delivery: Delivery) -> (r: Result<Option<Vec<u8>>, Status>)
    ensures
        read_view(r) == delivery@.value(),
{
    expect_value(delivery)
}

/// The request of `get_snapshot`.
pub fn get_snapshot<B>() -> (req: Request<B>)
    ensures
        req@ == RequestView::<B>::GetSnapshot,
{
    Request::GetSnapshot
}

/// The result of `get_snapshot`: the handle of the new snapshot.
pub fn get_snapshot_reply(delivery: Delivery) -> (r: Result<SnapshotRef, Status>)
    ensures
        handle_view(r) == delivery@.snapshot(),
{
    match process_reply(delivery) {
        Ok(Response::Snapshot(handle)) => Ok(handle),
        Ok(_) => Err(Status::wrong_response()),
        Err(e) => Err(e),
    }
}

/// The request of `drop_snapshot`.
pub fn drop_snapshot<B>(snapshot: SnapshotRef) -> (req: Request<B>)
    ensures
        req@ == (RequestView::<B>::DropSnapshot { snapshot: snapshot@ }),
{
    Request::DropSnapshot { snapshot }
}

/// The result of `drop_snapshot`.
pub fn drop_snapshot_reply(delivery: Delivery) -> (r: Result<(), Status>)
    ensures
        done_view(r) == delivery@.released(),
{
    match process_reply(delivery) {
        Ok(Response::OK) => Ok(()),
        Ok(_) => Err(Status::wrong_response()),
        Err(e) => Err(e),
    }
}

/// The request of `compact_range`.
pub fn compact_range<B>(from: Vec<u8>, to: Vec<u8>) -> (req: Request<B>)
    ensures
        req@ == (RequestView::<B>::CompactRange { from: from@, to: to@ }),
{
    Request::CompactRange { from, to }
}

/// The result of `compact_range`.
pub fn compact_range_reply(delivery: Delivery) -> (r: Result<(), Status>)
    ensures
        done_view(r) == delivery@.done(),
{
    expect_done(delivery)
}

} // verus!

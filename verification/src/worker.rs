//! The worker: the one owner of the store and of the snapshot registry.
//!
//! The worker takes the requests in the order in which the queue hands them
//! over. For each it decides here what is to be asked of the store, and from
//! what the store gave back, what is replied. The calls themselves are made
//! by the loop that drives the worker.

use vstd::prelude::*;
use crate::protocol::{
    done_view, read_view, value_view, Request, RequestView, Response, ResponseView,
};
use crate::registry::{RegistryView, SnapshotRegistry};
use crate::status::{Status, StatusView};

verus! {

/// What is to be done for a request that the worker has taken up.
///
/// `Reply`, `Shutdown` and `Discard` need nothing of the store. Each of the
/// others names one call on the store; its outcome becomes the reply through
/// `Response::from_status` (`Put`, `Delete`, `Write`, `Flush`,
/// `CompactRange`), `Response::from_value` (`Get`), `Response::from_read`
/// (`GetAt`) or `Worker::register` (`GetSnapshot`).
pub enum Step<'a, S, B> {
    /// Send this reply.
    Reply(Response),
    /// Send this reply, then close the queue and end the worker.
    Shutdown(Response),
    /// Drop the request without a reply: the worker has ended.
    Discard,
    Put { key: Vec<u8>, val: Vec<u8> },
    Delete { key: Vec<u8> },
    Write { batch: B, sync: bool },
    Flush,
    CompactRange { from: Vec<u8>, to: Vec<u8> },
    Get { key: Vec<u8> },
    GetAt { snapshot: &'a S, key: Vec<u8> },
    GetSnapshot,
}

/// A `Step` with its bytes as sequences and its snapshot by value.
pub enum StepView<S, B> {
    Reply(ResponseView),
    Shutdown(ResponseView),
    Discard,
    Put { key: Seq<u8>, val: Seq<u8> },
    Delete { key: Seq<u8> },
    Write { batch: B, sync: bool },
    Flush,
    CompactRange { from: Seq<u8>, to: Seq<u8> },
    Get { key: Seq<u8> },
    GetAt { snapshot: S, key: Seq<u8> },
    GetSnapshot,
}

impl<'a, S, B> View for Step<'a, S, B> {
    type V = StepView<S, B>;

    open spec fn view(&self) -> StepView<S, B> {
        match *self {
            Step::Reply(r) => StepView::Reply(r@),
            Step::Shutdown(r) => StepView::Shutdown(r@),
            Step::Discard => StepView::Discard,
            Step::Put { key, val } => StepView::Put { key: key@, val: val@ },
            Step::Delete { key } => StepView::Delete { key: key@ },
            Step::Write { batch, sync } => StepView::Write { batch, sync },
            Step::Flush => StepView::Flush,
            Step::CompactRange { from, to } => StepView::CompactRange { from: from@, to: to@ },
            Step::Get { key } => StepView::Get { key: key@ },
            Step::GetAt { snapshot, key } => StepView::GetAt { snapshot: *snapshot, key: key@ },
            Step::GetSnapshot => StepView::GetSnapshot,
        }
    }
}

impl ResponseView {
    /// The reply to an operation that yields nothing: `OK`, or the store's status as it came.
    pub open spec fn from_status(result: Result<(), StatusView>) -> ResponseView {
        match result {
            Ok(_) => ResponseView::OK,
            Err(s) => ResponseView::Error(s),
        }
    }

    /// The reply to a read of the store: the value, present or not. Never an error.
    pub open spec fn from_value(value: Option<Seq<u8>>) -> ResponseView {
        ResponseView::Value(value)
    }

    /// The reply to a read through a snapshot: the value, or the store's status as it came.
    pub open spec fn from_read(result: Result<Option<Seq<u8>>, StatusView>) -> ResponseView {
        match result {
            Ok(v) => ResponseView::Value(v),
            Err(s) => ResponseView::Error(s),
        }
    }
}

impl Response {
    /// The reply to `Put`, `Delete`, `Write`, `Flush` and `CompactRange`, from the store's outcome.
    pub fn from_status(result: Result<(), Status>) -> (r: Response)
        ensures
            r@ == ResponseView::from_status(done_view(result)),
    {
        match result {
            Ok(_) => Response::OK,
            Err(s) => Response::Error(s),
        }
    }

    /// The reply to `Get`, from what the store holds under the key.
    pub fn from_value(value: Option<Vec<u8>>) -> (r: Response)
        ensures
            r@ == ResponseView::from_value(value_view(value)),
    {
        Response::Value(value)
    }

    /// The reply to `GetAt`, from the store's outcome.
    pub fn from_read(result: Result<Option<Vec<u8>>, Status>) -> (r: Response)
        ensures
            r@ == ResponseView::from_read(read_view(result)),
    {
        match result {
            Ok(v) => Response::Value(v),
            Err(s) => Response::Error(s),
        }
    }
}

/// What a worker is to the contracts.
pub struct WorkerView<S> {
    pub registry: RegistryView<S>,
    /// Whether a `Close` was taken up.
    pub stopped: bool,
}

impl<S> WorkerView<S> {
    /// A worker that has just started.
    pub open spec fn init() -> Self {
        WorkerView { registry: RegistryView::empty(), stopped: false }
    }

    pub open spec fn inv(self) -> bool {
        self.registry.inv()
    }

    /// The worker after it took up `req`, and what is to be done for `req`.
    pub open spec fn begin<B>(self, req: RequestView<B>) -> (Self, StepView<S, B>) {
        if self.stopped {
            (self, StepView::Discard)
        } else {
            match req {
                RequestView::Close => (
                    WorkerView { stopped: true, ..self },
                    StepView::Shutdown(ResponseView::OK),
                ),
                RequestView::Put { key, val } => (self, StepView::Put { key, val }),
                RequestView::Delete { key } => (self, StepView::Delete { key }),
                RequestView::Write { batch, sync } => (self, StepView::Write { batch, sync }),
                RequestView::Flush => (self, StepView::Flush),
                RequestView::CompactRange { from, to } => (
                    self,
                    StepView::CompactRange { from, to },
                ),
                RequestView::Get { key } => (self, StepView::Get { key }),
                RequestView::GetAt { snapshot, key } => match self.registry.resolve(snapshot) {
                    Some(s) => (self, StepView::GetAt { snapshot: s, key }),
                    None => (
                        self,
                        StepView::Reply(ResponseView::Error(StatusView::unknown_snapshot())),
                    ),
                },
                RequestView::GetSnapshot => (self, StepView::GetSnapshot),
                RequestView::DropSnapshot { snapshot } => (
                    WorkerView { registry: self.registry.release(snapshot), ..self },
                    StepView::Reply(ResponseView::OK),
                ),
            }
        }
    }

    /// The worker after it took `snapshot` into its registry, and the reply that names the handle.
    pub open spec fn register(self, snapshot: S) -> (Self, ResponseView) {
        let (registry, handle) = self.registry.register(snapshot);
        (WorkerView { registry, ..self }, ResponseView::Snapshot(handle))
    }
}

/// The state of the worker between two requests.
pub struct Worker<S> {
    registry: SnapshotRegistry<S>,
    stopped: bool,
}

impl<S> View for Worker<S> {
    type V = WorkerView<S>;

    closed spec fn view(&self) -> WorkerView<S> {
        WorkerView { registry: self.registry@, stopped: self.stopped }
    }
}

impl<S> Worker<S> {
    /// A worker that has just started: no snapshot, not stopped.
    pub fn new() -> (w: Self)
        ensures
            w@ == WorkerView::<S>::init(),
            w@.inv(),
    {
        Worker { registry: SnapshotRegistry::new(), stopped: false }
    }

    /// Whether a `Close` was taken up.
    pub fn is_stopped(&self) -> (b: bool)
        ensures
            b == self@.stopped,
    {
        self.stopped
    }

    /// Whether the registry can issue one more handle.
    pub fn has_room(&self) -> (b: bool)
        ensures
            b == self@.registry.has_room(),
            self@.inv(),
    {
        self.registry.has_room()
    }

    /// Takes up the next request of the queue.
    pub fn begin<'a, B>(&'a mut self, req: Request<B>) -> (step: Step<'a, S, B>)
        ensures
            (final(self)@, step@) == old(self)@.begin(req@),
    {
        if self.stopped {
            return Step::Discard;
        }
        match req {
            Request::Close => {
                self.stopped = true;
                Step::Shutdown(Response::OK)
            },
            Request::Put { key, val } => Step::Put { key, val },
            Request::Delete { key } => Step::Delete { key },
            Request::Write { batch, sync } => Step::Write { batch, sync },
            Request::Flush => Step::Flush,
            Request::CompactRange { from, to } => Step::CompactRange { from, to },
            Request::Get { key } => Step::Get { key },
            Request::GetAt { snapshot, key } => match self.registry.resolve(snapshot) {
                Some(s) => Step::GetAt { snapshot: s, key },
                None => Step::Reply(Response::Error(Status::unknown_snapshot())),
            },
            Request::GetSnapshot => Step::GetSnapshot,
            Request::DropSnapshot { snapshot } => {
                self.registry.release(snapshot);
                Step::Reply(Response::OK)
            },
        }
    }

    /// Takes the snapshot that the store gave for a `GetSnapshot` into the
    /// registry, and replies with its handle.
    pub fn register(&mut self, snapshot: S) -> (r: Response)
        requires
            old(self)@.registry.has_room(),
        ensures
            (final(self)@, r@) == old(self)@.register(snapshot),
            final(self)@.inv(),
    {
        let handle = self.registry.register(snapshot);
        Response::Snapshot(handle)
    }
}

} // verus!

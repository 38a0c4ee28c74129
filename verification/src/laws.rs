//! What holds of the two ends of the bridge taken together.
//!
//! The laws speak of one exchange as the loop that drives the worker carries
//! it out: the worker takes the request up, the store is asked what the step
//! names, and the outcome becomes the reply that the caller reads.

use vstd::prelude::*;
use crate::client::DeliveryView;
use crate::protocol::{RequestView, ResponseView};
use crate::status::StatusView;
use crate::worker::{StepView, WorkerView};

verus! {

/// What the store gave back for the call that a step names.
pub enum Outcome<S> {
    /// Of `Put`, `Delete`, `Write`, `Flush` and `CompactRange`.
    Done(Result<(), StatusView>),
    /// Of `Get`.
    Value(Option<Seq<u8>>),
    /// Of `GetAt`.
    Read(Result<Option<Seq<u8>>, StatusView>),
    /// Of `GetSnapshot`.
    Snapshot(S),
}

impl<S, B> StepView<S, B> {
    /// Whether `outcome` is of the kind that the call of this step gives.
    /// A step without a call goes with any outcome: none is looked at.
    pub open spec fn fits(self, outcome: Outcome<S>) -> bool {
        match self {
            StepView::Reply(_) | StepView::Shutdown(_) | StepView::Discard => true,
            StepView::Put { .. }
            | StepView::Delete { .. }
            | StepView::Write { .. }
            | StepView::Flush
            | StepView::CompactRange { .. } => outcome is Done,
            StepView::Get { .. } => outcome is Value,
            StepView::GetAt { .. } => outcome is Read,
            StepView::GetSnapshot => outcome is Snapshot,
        }
    }
}

impl<S> WorkerView<S> {
    /// One exchange: the worker after it served `req`, and what the caller is
    /// handed, where the store gave `outcome` for the call of the step.
    pub open spec fn serve<B>(self, req: RequestView<B>, outcome: Outcome<S>) -> (
        Self,
        DeliveryView,
    )
        recommends
            self.begin(req).1.fits(outcome),
    {
        let (w, step) = self.begin(req);
        match step {
            StepView::Reply(r) => (w, DeliveryView::Reply(r)),
            StepView::Shutdown(r) => (w, DeliveryView::Reply(r)),
            StepView::Discard => (w, DeliveryView::NoReply),
            StepView::Put { .. }
            | StepView::Delete { .. }
            | StepView::Write { .. }
            | StepView::Flush
            | StepView::CompactRange { .. } => (
                w,
                DeliveryView::Reply(ResponseView::from_status(outcome->Done_0)),
            ),
            StepView::Get { .. } => (
                w,
                DeliveryView::Reply(ResponseView::from_value(outcome->Value_0)),
            ),
            StepView::GetAt { .. } => (
                w,
                DeliveryView::Reply(ResponseView::from_read(outcome->Read_0)),
            ),
            StepView::GetSnapshot => {
                let (w2, r) = w.register(outcome->Snapshot_0);
                (w2, DeliveryView::Reply(r))
            },
        }
    }
}

proof fn lemma_unit_outcome(r: Result<(), StatusView>)
    ensures
        r is Ok ==> r == Ok::<(), StatusView>(()),
{
    if let Ok(u) = r {
        assert(u == ());
    }
}

/// Taking up a request keeps the registry valid.
pub proof fn lemma_begin_keeps_valid<S, B>(w: WorkerView<S>, req: RequestView<B>)
    requires
        w.inv(),
    ensures
        w.begin(req).0.inv(),
        w.begin(req).0.registry.next == w.registry.next,
{
}

/// Registering a snapshot keeps the registry valid, and the handle it issues was not live.
pub proof fn lemma_register_keeps_valid<S>(w: WorkerView<S>, snapshot: S)
    requires
        w.inv(),
        w.registry.has_room(),
    ensures
        w.register(snapshot).0.inv(),
        w.register(snapshot).1 == ResponseView::Snapshot(w.registry.next as usize),
        !w.registry.is_live(w.registry.next as usize),
        w.register(snapshot).0.registry.resolve(w.registry.next as usize) == Some(snapshot),
{
}

/// A worker that has not stopped answers every request that it takes up,
/// once; a worker that has stopped answers none and stays as it is.
pub proof fn lemma_answers_while_running<S, B>(
    w: WorkerView<S>,
    req: RequestView<B>,
    outcome: Outcome<S>,
)
    ensures
        !w.stopped ==> w.serve(req, outcome).1 is Reply,
        w.stopped ==> w.serve(req, outcome) == (w, DeliveryView::NoReply),
{
}

/// What each operation comes to when a running worker serves it: the caller
/// gets the store's outcome as the store gave it, and the protocol error does
/// not arise between the two ends.
pub proof fn lemma_each_operation_gets_its_result<S, B>(
    w: WorkerView<S>,
    req: RequestView<B>,
    outcome: Outcome<S>,
)
    requires
        !w.stopped,
        w.begin(req).1.fits(outcome),
    ensures
        ({
            let (after, d) = w.serve(req, outcome);
            match req {
                RequestView::Close => d.done() == Ok::<(), StatusView>(()) && after.stopped,
                RequestView::Put { .. }
                | RequestView::Delete { .. }
                | RequestView::Write { .. }
                | RequestView::Flush
                | RequestView::CompactRange { .. } => d.done() == outcome->Done_0 && after == w,
                RequestView::Get { .. } => d.value() == Ok::<Option<Seq<u8>>, StatusView>(
                    outcome->Value_0,
                ) && after == w,
                RequestView::GetAt { snapshot, .. } => after == w && d.value() == (if w.registry.is_live(
                    snapshot,
                ) {
                    outcome->Read_0
                } else {
                    Err(StatusView::unknown_snapshot())
                }),
                RequestView::GetSnapshot => d.snapshot() == Ok::<usize, StatusView>(
                    w.registry.next as usize,
                ) && after.registry == w.registry.register(outcome->Snapshot_0).0,
                RequestView::DropSnapshot { snapshot } => d.released() == Ok::<(), StatusView>(())
                    && after.registry == w.registry.release(snapshot),
            }
        }),
{
    if let Outcome::Done(r) = outcome {
        lemma_unit_outcome(r);
    }
}

/// Releasing a snapshot twice is releasing it once: the second `DropSnapshot`
/// is answered `OK` and changes nothing.
pub proof fn lemma_drop_snapshot_is_idempotent<S, B>(
    w: WorkerView<S>,
    handle: usize,
    any: Outcome<S>,
)
    requires
        !w.stopped,
    ensures
        ({
            let once = w.serve(RequestView::<B>::DropSnapshot { snapshot: handle }, any).0;
            let (twice, d) = once.serve(RequestView::<B>::DropSnapshot { snapshot: handle }, any);
            &&& twice == once
            &&& d.released() == Ok::<(), StatusView>(())
            &&& !once.registry.is_live(handle)
        }),
{
    let once = w.serve(RequestView::<B>::DropSnapshot { snapshot: handle }, any).0;
    assert(once.registry.live.remove(handle) =~= once.registry.live);
}

/// A `get` through a running worker never fails: whatever the store holds
/// under the key, the caller gets it, `None` for a key that is absent.
pub proof fn lemma_get_never_fails<S, B>(w: WorkerView<S>, key: Seq<u8>, held: Option<Seq<u8>>)
    requires
        !w.stopped,
    ensures
        w.begin(RequestView::<B>::Get { key }).1 == (StepView::<S, B>::Get { key }),
        w.serve(RequestView::<B>::Get { key }, Outcome::Value(held)).0 == w,
        w.serve(RequestView::<B>::Get { key }, Outcome::Value(held)).1.value() == Ok::<
            Option<Seq<u8>>,
            StatusView,
        >(held),
{
}

/// A snapshot that was taken and then released is unknown to the worker: a
/// read through its handle is answered with the unknown-handle error,
/// whatever the store would have given.
pub proof fn lemma_released_handle_is_unknown<S, B>(
    w: WorkerView<S>,
    snapshot: S,
    key: Seq<u8>,
    any: Outcome<S>,
)
    requires
        w.inv(),
        w.registry.has_room(),
        !w.stopped,
    ensures
        ({
            let (w1, taken) = w.serve(RequestView::<B>::GetSnapshot, Outcome::Snapshot(snapshot));
            let h = taken.snapshot()->Ok_0;
            let (w2, released) = w1.serve(
                RequestView::<B>::DropSnapshot { snapshot: h },
                any,
            );
            let (w3, read) = w2.serve(RequestView::<B>::GetAt { snapshot: h, key }, any);
            &&& taken.snapshot() is Ok
            &&& released.released() == Ok::<(), StatusView>(())
            &&& read.value() == Err::<Option<Seq<u8>>, StatusView>(StatusView::unknown_snapshot())
            &&& w3.registry.live == w.registry.live
        }),
{
    let (w1, taken) = w.serve(RequestView::<B>::GetSnapshot, Outcome::Snapshot(snapshot));
    let h = w.registry.next as usize;
    assert(taken.snapshot() == Ok::<usize, StatusView>(h));
    let (w2, released) = w1.serve(RequestView::<B>::DropSnapshot { snapshot: h }, any);
    assert(w2.registry.live =~= w.registry.live);
}

/// Two snapshots taken one after the other get two handles.
pub proof fn lemma_successive_handles_differ<S, B>(w: WorkerView<S>, first: S, second: S)
    requires
        w.inv(),
        w.registry.next + 1 < usize::MAX,
        !w.stopped,
    ensures
        ({
            let (w1, a) = w.serve(RequestView::<B>::GetSnapshot, Outcome::Snapshot(first));
            let (w2, b) = w1.serve(RequestView::<B>::GetSnapshot, Outcome::Snapshot(second));
            &&& a.snapshot() is Ok
            &&& b.snapshot() is Ok
            &&& a.snapshot()->Ok_0 != b.snapshot()->Ok_0
            &&& w2.registry.resolve(a.snapshot()->Ok_0) == Some(first)
            &&& w2.registry.resolve(b.snapshot()->Ok_0) == Some(second)
        }),
{
}

/// Once the worker has taken up a `Close`, which it answers with `OK`, it
/// answers nothing more, and every operation of a caller that is not
/// answered, or whose request the queue did not take, ends in the
/// communication failure.
pub proof fn lemma_closed_worker_is_gone<S, B>(
    w: WorkerView<S>,
    later: RequestView<B>,
    any: Outcome<S>,
)
    requires
        !w.stopped,
    ensures
        ({
            let (closed, answer) = w.serve(RequestView::<B>::Close, any);
            let (after, delivery) = closed.serve(later, any);
            &&& answer.done() == Ok::<(), StatusView>(())
            &&& closed.stopped
            &&& closed.registry == w.registry
            &&& after == closed
            &&& delivery == DeliveryView::NoReply
        }),
        forall|d: DeliveryView|
            d is NoReply || d is NotSent ==> {
                &&& #[trigger] d.done() == Err::<(), StatusView>(StatusView::channel_closed())
                &&& d.value() == Err::<Option<Seq<u8>>, StatusView>(StatusView::channel_closed())
                &&& d.snapshot() == Err::<usize, StatusView>(StatusView::channel_closed())
                &&& d.released() == Err::<(), StatusView>(StatusView::channel_closed())
            },
{
}

/// Compacting a range asks the store for just that range and leaves the
/// worker as it was; the caller gets the store's outcome.
pub proof fn lemma_compact_range_passes_through<S, B>(
    w: WorkerView<S>,
    from: Seq<u8>,
    to: Seq<u8>,
    outcome: Result<(), StatusView>,
)
    requires
        !w.stopped,
    ensures
        w.begin(RequestView::<B>::CompactRange { from, to }) == (
            w,
            StepView::<S, B>::CompactRange { from, to },
        ),
        w.serve(RequestView::<B>::CompactRange { from, to }, Outcome::Done(outcome)) == (
            w,
            DeliveryView::Reply(ResponseView::from_status(outcome)),
        ),
        DeliveryView::Reply(ResponseView::from_status(outcome)).done() == outcome,
{
    lemma_unit_outcome(outcome);
}

/// The exchanges of a worker's life, in the order in which the queue handed
/// the requests over: each request with what the store gave for its step.
/// Yields the worker at the end and what each caller was handed.
pub open spec fn serve_all<S, B>(w: WorkerView<S>, trace: Seq<(RequestView<B>, Outcome<S>)>) -> (
    WorkerView<S>,
    Seq<DeliveryView>,
)
    decreases trace.len(),
{
    if trace.len() == 0 {
        (w, Seq::empty())
    } else {
        let (w1, handed) = serve_all(w, trace.drop_last());
        let (w2, d) = w1.serve(trace.last().0, trace.last().1);
        (w2, handed.push(d))
    }
}

proof fn lemma_serve_all_counts<S, B>(w: WorkerView<S>, trace: Seq<(RequestView<B>, Outcome<S>)>)
    requires
        w.inv(),
        w.registry.next + trace.len() <= usize::MAX,
    ensures
        serve_all(w, trace).0.inv(),
        serve_all(w, trace).1.len() == trace.len(),
        w.registry.next <= serve_all(w, trace).0.registry.next <= w.registry.next + trace.len(),
        forall|i: int|
            0 <= i < trace.len() && (#[trigger] serve_all(w, trace).1[i]).snapshot() is Ok ==> {
                &&& w.registry.next <= serve_all(w, trace).1[i].snapshot()->Ok_0
                &&& serve_all(w, trace).1[i].snapshot()->Ok_0 < serve_all(
                    w,
                    trace,
                ).0.registry.next
            },
    decreases trace.len(),
{
    if trace.len() > 0 {
        lemma_serve_all_counts(w, trace.drop_last());
    }
}

proof fn lemma_serve_all_prefix<S, B>(
    w: WorkerView<S>,
    trace: Seq<(RequestView<B>, Outcome<S>)>,
    n: int,
)
    requires
        0 <= n <= trace.len(),
    ensures
        serve_all(w, trace.take(n)).1 == serve_all(w, trace).1.take(n),
        serve_all(w, trace).1.len() == trace.len(),
    decreases trace.len(),
{
    if n == trace.len() {
        assert(trace.take(n) == trace);
        if trace.len() > 0 {
            lemma_serve_all_prefix(w, trace.drop_last(), n - 1);
        }
        assert(serve_all(w, trace).1.take(n) == serve_all(w, trace).1);
    } else {
        lemma_serve_all_prefix(w, trace.drop_last(), n);
        assert(trace.drop_last().take(n) == trace.take(n));
        assert(serve_all(w, trace).1.take(n) == serve_all(w, trace.drop_last()).1.take(n));
    }
}

/// No handle is issued twice in the life of a worker: of two snapshots that it
/// took, the later has the greater handle, whatever else it served between them.
pub proof fn lemma_handles_are_never_reused<S, B>(
    w: WorkerView<S>,
    trace: Seq<(RequestView<B>, Outcome<S>)>,
    i: int,
    j: int,
)
    requires
        w.inv(),
        w.registry.next + trace.len() <= usize::MAX,
        0 <= i < j < trace.len(),
        serve_all(w, trace).1[i].snapshot() is Ok,
        serve_all(w, trace).1[j].snapshot() is Ok,
    ensures
        serve_all(w, trace).1[i].snapshot()->Ok_0 < serve_all(w, trace).1[j].snapshot()->Ok_0,
    decreases trace.len(),
{
    let init = trace.drop_last();
    lemma_serve_all_counts(w, init);
    lemma_serve_all_prefix(w, trace, trace.len() - 1);
    assert(trace.take(trace.len() - 1) == init);
    if j == trace.len() - 1 {
        let (w1, handed) = serve_all(w, init);
        assert(serve_all(w, trace).1[i] == handed[i]);
        assert(handed[i].snapshot()->Ok_0 < w1.registry.next);
    } else {
        assert(serve_all(w, trace).1[i] == serve_all(w, init).1[i]);
        assert(serve_all(w, trace).1[j] == serve_all(w, init).1[j]);
        lemma_handles_are_never_reused(w, init, i, j);
    }
}

/// A `Close` is cooperative: every request that the queue handed over before
/// it is answered, the `Close` itself is answered with `OK`, and what comes
/// after it is dropped without a reply.
pub proof fn lemma_close_answers_what_came_before<S, B>(
    w: WorkerView<S>,
    trace: Seq<(RequestView<B>, Outcome<S>)>,
    at: int,
    i: int,
)
    requires
        !w.stopped,
        0 <= at < trace.len(),
        trace[at].0 is Close,
        forall|k: int| 0 <= k < at ==> !((#[trigger] trace[k]).0 is Close),
        0 <= i < trace.len(),
    ensures
        serve_all(w, trace).1.len() == trace.len(),
        i < at ==> serve_all(w, trace).1[i] is Reply,
        i == at ==> serve_all(w, trace).1[i] == DeliveryView::Reply(ResponseView::OK),
        i > at ==> serve_all(w, trace).1[i] == DeliveryView::NoReply,
        serve_all(w, trace).0.stopped,
{
    lemma_serve_all_stops(w, trace, at);
    lemma_serve_all_prefix(w, trace, i + 1);
    let upto = trace.take(i + 1);
    assert(upto.last() == trace[i]);
    assert(upto.drop_last() == trace.take(i));
    lemma_serve_all_prefix(w, trace.take(i), 0);
    let (w1, handed) = serve_all(w, trace.take(i));
    let (w2, d) = w1.serve(trace[i].0, trace[i].1);
    assert(serve_all(w, upto).1 == handed.push(d));
    assert(serve_all(w, upto).1[i] == d);
    if i <= at {
        assert forall|k: int| 0 <= k < i implies !((#[trigger] trace.take(i)[k]).0 is Close) by {
            assert(trace.take(i)[k] == trace[k]);
        }
        lemma_serve_all_runs(w, trace.take(i));
    } else {
        assert(trace.take(i)[at] == trace[at]);
        assert forall|k: int| 0 <= k < at implies !((#[trigger] trace.take(i)[k]).0 is Close) by {
            assert(trace.take(i)[k] == trace[k]);
        }
        lemma_serve_all_stops(w, trace.take(i), at);
    }
    assert(serve_all(w, trace).1[i] == d);
}

proof fn lemma_serve_all_runs<S, B>(w: WorkerView<S>, trace: Seq<(RequestView<B>, Outcome<S>)>)
    requires
        !w.stopped,
        forall|k: int| 0 <= k < trace.len() ==> !((#[trigger] trace[k]).0 is Close),
    ensures
        !serve_all(w, trace).0.stopped,
    decreases trace.len(),
{
    if trace.len() > 0 {
        let init = trace.drop_last();
        assert forall|k: int| 0 <= k < init.len() implies !((#[trigger] init[k]).0 is Close) by {
            assert(init[k] == trace[k]);
        }
        lemma_serve_all_runs(w, init);
    }
}

proof fn lemma_serve_all_stops<S, B>(
    w: WorkerView<S>,
    trace: Seq<(RequestView<B>, Outcome<S>)>,
    at: int,
)
    requires
        !w.stopped,
        0 <= at < trace.len(),
        trace[at].0 is Close,
        forall|k: int| 0 <= k < at ==> !((#[trigger] trace[k]).0 is Close),
    ensures
        serve_all(w, trace).0.stopped,
    decreases trace.len(),
{
    let init = trace.drop_last();
    if at == trace.len() - 1 {
        assert forall|k: int| 0 <= k < init.len() implies !((#[trigger] init[k]).0 is Close) by {
            assert(init[k] == trace[k]);
        }
        lemma_serve_all_runs(w, init);
    } else {
        assert(init[at] == trace[at]);
        assert forall|k: int| 0 <= k < at implies !((#[trigger] init[k]).0 is Close) by {
            assert(init[k] == trace[k]);
        }
        lemma_serve_all_stops(w, init, at);
    }
}

/// What a store holds: the value under each key that has one.
pub type Contents = Map<Seq<u8>, Seq<u8>>;

/// The value that `c` holds under `key`, if any.
pub open spec fn held(c: Contents, key: Seq<u8>) -> Option<Seq<u8>> {
    if c.contains_key(key) {
        Some(c[key])
    } else {
        None
    }
}

impl<B> RequestView<B> {
    /// Whether the request is a `Put` or a `Delete` of `key`.
    pub open spec fn writes_to(self, key: Seq<u8>) -> bool {
        match self {
            RequestView::Put { key: k, .. } => k == key,
            RequestView::Delete { key: k } => k == key,
            _ => false,
        }
    }

    /// What a `Put` or a `Delete` leaves under its key: the value, or nothing.
    pub open spec fn written(self) -> Option<Seq<u8>> {
        match self {
            RequestView::Put { val, .. } => Some(val),
            _ => None,
        }
    }
}

/// A store that behaves as a map and refuses nothing: what it holds after
/// the call of a `Put`, `Delete` or `Get` step on contents `c`, and what it
/// gives back. Of the calls of other steps nothing is said.
pub open spec fn map_store<S, B>(c: Contents, step: StepView<S, B>) -> (Contents, Outcome<S>) {
    match step {
        StepView::Put { key, val } => (c.insert(key, val), Outcome::Done(Ok(()))),
        StepView::Delete { key } => (c.remove(key), Outcome::Done(Ok(()))),
        StepView::Get { key } => (c, Outcome::Value(held(c, key))),
        StepView::Reply(_) | StepView::Shutdown(_) | StepView::Discard => (
            c,
            Outcome::Done(Ok(())),
        ),
        _ => arbitrary(),
    }
}

/// One exchange against such a store: worker and contents afterwards, and
/// what the caller is handed.
pub open spec fn exchange<S, B>(w: WorkerView<S>, c: Contents, req: RequestView<B>) -> (
    WorkerView<S>,
    Contents,
    DeliveryView,
) {
    let (c2, outcome) = map_store(c, w.begin(req).1);
    let (w2, d) = w.serve(req, outcome);
    (w2, c2, d)
}

/// The exchanges of `reqs` in the order of the queue, against such a store.
pub open spec fn exchange_all<S, B>(w: WorkerView<S>, c: Contents, reqs: Seq<RequestView<B>>) -> (
    WorkerView<S>,
    Contents,
)
    decreases reqs.len(),
{
    if reqs.len() == 0 {
        (w, c)
    } else {
        let (w1, c1) = exchange_all(w, c, reqs.drop_last());
        let (w2, c2, _) = exchange(w1, c1, reqs.last());
        (w2, c2)
    }
}

/// After any sequence of puts and deletes, a `get` of a key gives what the
/// last of them that wrote to the key left there: the value of a `Put`,
/// nothing after a `Delete`. No write is lost and none overtakes another.
pub proof fn lemma_get_reflects_last_write<S, B>(
    w: WorkerView<S>,
    c: Contents,
    reqs: Seq<RequestView<B>>,
    key: Seq<u8>,
    last: int,
)
    requires
        !w.stopped,
        forall|k: int| 0 <= k < reqs.len() ==> (#[trigger] reqs[k]) is Put || reqs[k] is Delete,
        0 <= last < reqs.len(),
        reqs[last].writes_to(key),
        forall|k: int| last < k < reqs.len() ==> !(#[trigger] reqs[k]).writes_to(key),
    ensures
        ({
            let (w2, c2) = exchange_all(w, c, reqs);
            &&& w2 == w
            &&& exchange(w2, c2, RequestView::<B>::Get { key }).2.value() == Ok::<
                Option<Seq<u8>>,
                StatusView,
            >(reqs[last].written())
        }),
    decreases reqs.len(),
{
    let init = reqs.drop_last();
    assert forall|k: int| 0 <= k < init.len() implies (#[trigger] init[k]) is Put
        || init[k] is Delete by {
        assert(init[k] == reqs[k]);
    }
    lemma_writes_leave_worker(w, c, init);
    let (w1, c1) = exchange_all(w, c, init);
    if last < reqs.len() - 1 {
        assert(init[last] == reqs[last]);
        assert forall|k: int| last < k < init.len() implies !(#[trigger] init[k]).writes_to(
            key,
        ) by {
            assert(init[k] == reqs[k]);
        }
        lemma_get_reflects_last_write(w, c, init, key, last);
        assert(!reqs[reqs.len() - 1].writes_to(key));
    }
}

/// After a sequence of puts and deletes of which none wrote to the key, a
/// `get` of the key gives what the store held before.
pub proof fn lemma_get_without_write<S, B>(
    w: WorkerView<S>,
    c: Contents,
    reqs: Seq<RequestView<B>>,
    key: Seq<u8>,
)
    requires
        !w.stopped,
        forall|k: int| 0 <= k < reqs.len() ==> (#[trigger] reqs[k]) is Put || reqs[k] is Delete,
        forall|k: int| 0 <= k < reqs.len() ==> !(#[trigger] reqs[k]).writes_to(key),
    ensures
        ({
            let (w2, c2) = exchange_all(w, c, reqs);
            &&& w2 == w
            &&& exchange(w2, c2, RequestView::<B>::Get { key }).2.value() == Ok::<
                Option<Seq<u8>>,
                StatusView,
            >(held(c, key))
        }),
    decreases reqs.len(),
{
    if reqs.len() > 0 {
        let init = reqs.drop_last();
        assert forall|k: int| 0 <= k < init.len() implies ((#[trigger] init[k]) is Put
            || init[k] is Delete) && !init[k].writes_to(key) by {
            assert(init[k] == reqs[k]);
        }
        lemma_get_without_write(w, c, init, key);
        assert(!reqs[reqs.len() - 1].writes_to(key));
    }
}

/// Puts to keys that all differ do not disturb one another: in whatever order
/// the queue handed them over, a `get` of each key gives the value that was
/// put under it.
pub proof fn lemma_distinct_keys_do_not_interfere<S, B>(
    w: WorkerView<S>,
    c: Contents,
    reqs: Seq<RequestView<B>>,
    i: int,
)
    requires
        !w.stopped,
        forall|k: int| 0 <= k < reqs.len() ==> (#[trigger] reqs[k]) is Put,
        forall|k: int, l: int|
            0 <= k < l < reqs.len() ==> (#[trigger] reqs[k])->Put_key != (
            #[trigger] reqs[l])->Put_key,
        0 <= i < reqs.len(),
    ensures
        ({
            let (w2, c2) = exchange_all(w, c, reqs);
            exchange(w2, c2, RequestView::<B>::Get { key: reqs[i]->Put_key }).2.value() == Ok::<
                Option<Seq<u8>>,
                StatusView,
            >(Some(reqs[i]->Put_val))
        }),
{
    lemma_get_reflects_last_write(w, c, reqs, reqs[i]->Put_key, i);
}

proof fn lemma_writes_leave_worker<S, B>(w: WorkerView<S>, c: Contents, reqs: Seq<RequestView<B>>)
    requires
        !w.stopped,
        forall|k: int| 0 <= k < reqs.len() ==> (#[trigger] reqs[k]) is Put || reqs[k] is Delete,
    ensures
        exchange_all(w, c, reqs).0 == w,
    decreases reqs.len(),
{
    if reqs.len() > 0 {
        let init = reqs.drop_last();
        assert forall|k: int| 0 <= k < init.len() implies (#[trigger] init[k]) is Put
            || init[k] is Delete by {
            assert(init[k] == reqs[k]);
        }
        lemma_writes_leave_worker(w, c, init);
    }
}

} // verus!

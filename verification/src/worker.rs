//! The task that answers one request.
//!
//! A task is begun from the bytes of a request. While a key is still to be
//! looked up the task is pending and names that key; each value supplied
//! moves it one key on, in the order of the request. Once every key has its
//! value the task ends: the response is put into bytes and addressed to the
//! shard that asked. Each lookup is a step of its own, so a task may be run
//! against one content of the slot throughout or see the slot change between
//! two of its keys.

use vstd::prelude::*;
use crate::codec::{decode_request, decoded_request, encode_response, encoded_response};
use crate::error::ServiceError;
use crate::snapshot::{reads, SnapshotSlot, StateView};
use crate::wire::{
    entry_views, key_views, value_view, EntryView, Message, RemoteKVResponse, RequestView,
    ShardId, StateKey, StateValue,
};

verus! {

/// A response on its way out as plain values.
pub ghost struct OutboundView {
    /// The shard whose channel the bytes go out on.
    pub shard_id: ShardId,
    /// The bytes of the response.
    pub data: Seq<u8>,
}

/// A response on its way out: the message and the shard whose outbound
/// channel it is to be sent on.
#[derive(Clone, Debug, PartialEq, Eq)]
pub struct Outbound {
    /// The shard that asked: the index of the outbound channel to send on.
    pub shard_id: ShardId,
    /// The response in bytes.
    pub message: Message,
}

impl View for Outbound {
    type V = OutboundView;

    open spec fn view(&self) -> OutboundView {
        OutboundView { shard_id: self.shard_id, data: self.message.data@ }
    }
}

/// A pending task as plain values.
pub ghost struct TaskView {
    /// The request that the task answers.
    pub request: RequestView,
    /// The number of shards that the service knows.
    pub shard_count: usize,
    /// The outcomes of the lookups made so far, one for each key of the
    /// request from the first on.
    pub values: Seq<Option<Seq<u8>>>,
}

/// Where a task stands, as plain values.
pub ghost enum ProgressView {
    /// A key is still to be looked up.
    Pending(TaskView),
    /// Every key has its value, and the response is ready to be sent.
    Done(OutboundView),
}

/// The entries of the response to `keys` when the lookups gave `values`:
/// entry `i` holds key `i` and value `i`.
pub open spec fn paired(keys: Seq<Seq<u8>>, values: Seq<Option<Seq<u8>>>) -> Seq<EntryView> {
    Seq::new(keys.len(), |i: int| (keys[i], values[i]))
}

/// Where `data` goes when shard `shard_id` asked and the service knows
/// `shard_count` shards: to that shard, if it is one of them.
pub open spec fn addressed(shard_id: ShardId, shard_count: usize, data: Seq<u8>) -> Result<
    OutboundView,
    ServiceError,
> {
    if shard_id < shard_count {
        Ok(OutboundView { shard_id, data })
    } else {
        Err(ServiceError::UnknownShard)
    }
}

/// What becomes of a request once each of its keys has its value: the
/// response goes into bytes, and the bytes are addressed to the shard that
/// asked.
pub open spec fn completed(
    request: RequestView,
    shard_count: usize,
    values: Seq<Option<Seq<u8>>>,
) -> Result<OutboundView, ServiceError> {
    match encoded_response(paired(request.keys, values)) {
        None => Err(ServiceError::Encode),
        Some(data) => addressed(request.shard_id, shard_count, data),
    }
}

/// Where the task for `request` stands once its lookups gave `values`:
/// pending while a key is left, and else as `completed` says.
pub open spec fn advanced(
    request: RequestView,
    shard_count: usize,
    values: Seq<Option<Seq<u8>>>,
) -> Result<ProgressView, ServiceError> {
    if values.len() < request.keys.len() {
        Ok(ProgressView::Pending(TaskView { request, shard_count, values }))
    } else {
        match completed(request, shard_count, values) {
            Ok(outbound) => Ok(ProgressView::Done(outbound)),
            Err(e) => Err(e),
        }
    }
}

/// A request of which at least one key is still to be looked up.
#[derive(Debug)]
pub struct WorkerTask {
    shard_id: ShardId,
    shard_count: usize,
    keys: Vec<StateKey>,
    entries: Vec<(StateKey, Option<StateValue>)>,
}

/// Where a task stands: waiting for the value of its next key, or done with
/// a response to send.
#[derive(Debug)]
pub enum Progress {
    /// A key is still to be looked up.
    Pending(WorkerTask),
    /// Every key has its value, and the response is ready to be sent.
    Done(Outbound),
}

/// The outcome of a step as plain values.
pub open spec fn progress_view(step: Result<Progress, ServiceError>) -> Result<
    ProgressView,
    ServiceError,
> {
    match step {
        Ok(Progress::Pending(task)) => Ok(ProgressView::Pending(task@)),
        Ok(Progress::Done(outbound)) => Ok(ProgressView::Done(outbound@)),
        Err(e) => Err(e),
    }
}

impl View for WorkerTask {
    type V = TaskView;

    closed spec fn view(&self) -> TaskView {
        TaskView {
            request: RequestView { shard_id: self.shard_id, keys: key_views(self.keys@) },
            shard_count: self.shard_count,
            values: Seq::new(self.entries@.len(), |i: int| value_view(self.entries@[i].1)),
        }
    }
}

impl Outbound {
    /// Addresses the bytes of a response to the shard that asked.
    ///
    /// Fails with `UnknownShard` exactly where `shard_id` is not below
    /// `shard_count`, the number of shards that have an outbound channel.
    pub fn address(shard_id: ShardId, shard_count: usize, data: Vec<u8>) -> (outbound: Result<
        Outbound,
        ServiceError,
    >)
        ensures
            match addressed(shard_id, shard_count, data@) {
                Ok(wanted) => outbound matches Ok(o) && o@ == wanted,
                Err(e) => outbound == Err::<Outbound, ServiceError>(e),
            },
    {
        if shard_id < shard_count {
            Ok(Outbound { shard_id, message: Message::new(data) })
        } else {
            Err(ServiceError::UnknownShard)
        }
    }
}

/// Ends a task whose keys all have their values.
fn finish(
    shard_id: ShardId,
    shard_count: usize,
    entries: Vec<(StateKey, Option<StateValue>)>,
) -> (step: Result<Progress, ServiceError>)
    ensures
        step matches Ok(progress) ==> progress is Done,
        progress_view(step) == (match encoded_response(entry_views(entries@)) {
            None => Err::<ProgressView, ServiceError>(ServiceError::Encode),
            Some(data) => match addressed(shard_id, shard_count, data) {
                Ok(outbound) => Ok(ProgressView::Done(outbound)),
                Err(e) => Err(e),
            },
        }),
{
    let response = RemoteKVResponse::new(entries);
    match encode_response(&response) {
        Err(e) => Err(e),
        Ok(data) => match Outbound::address(shard_id, shard_count, data) {
            Ok(outbound) => Ok(Progress::Done(outbound)),
            Err(e) => Err(e),
        },
    }
}

impl WorkerTask {
    #[verifier::type_invariant]
    spec fn well_formed(&self) -> bool {
        &&& self.entries@.len() < self.keys@.len()
        &&& forall|i: int|
            0 <= i < self.entries@.len() ==> (#[trigger] self.entries@[i]).0@ == self.keys@[i]@
    }

    /// Begins the task for the request that `message` carries, in a service
    /// that knows `shard_count` shards.
    ///
    /// Fails with `Decode` exactly where the bytes stand for no request. A
    /// request without keys needs no lookup and is done at once.
    pub fn begin(message: &Message, shard_count: usize) -> (step: Result<Progress, ServiceError>)
        ensures
            progress_view(step) == (match decoded_request(message.data@) {
                None => Err::<ProgressView, ServiceError>(ServiceError::Decode),
                Some(request) => advanced(request, shard_count, Seq::empty()),
            }),
    {
        match decode_request(message.data.as_slice()) {
            Err(e) => Err(e),
            Ok(request) => {
                let ghost wanted = request@;
                let (shard_id, keys) = request.into();
                if keys.len() == 0 {
                    let entries: Vec<(StateKey, Option<StateValue>)> = Vec::new();
                    assert(entry_views(entries@) =~= paired(wanted.keys, Seq::empty()));
                    finish(shard_id, shard_count, entries)
                } else {
                    let task = WorkerTask { shard_id, shard_count, keys, entries: Vec::new() };
                    assert(task@.values =~= Seq::empty());
                    Ok(Progress::Pending(task))
                }
            },
        }
    }

    /// The key that is to be looked up next: the first key of the request
    /// that has no value yet.
    pub fn pending_key(&self) -> (key: &StateKey)
        ensures
            self@.values.len() < self@.request.keys.len(),
            key@ == self@.request.keys[self@.values.len() as int],
    {
        proof {
            use_type_invariant(self);
        }
        &self.keys[self.entries.len()]
    }

    /// Takes `value` as the outcome of looking the pending key up: the
    /// value that the key holds, or `None` where it holds none.
    ///
    /// The task stays pending while a key is left. With the last value it
    /// ends: with `Encode` where the response cannot be put into bytes,
    /// else with `UnknownShard` where the request names a shard that the
    /// service does not know, else with the response to send.
    pub fn supply(self, value: Option<StateValue>) -> (step: Result<Progress, ServiceError>)
        ensures
            progress_view(step) == advanced(
                self@.request,
                self@.shard_count,
                self@.values.push(value_view(value)),
            ),
    {
        proof {
            use_type_invariant(&self);
        }
        let ghost before = self@;
        let WorkerTask { shard_id, shard_count, keys, entries } = self;
        let mut entries = entries;
        let key = keys[entries.len()].clone();
        entries.push((key, value));
        let ghost values = before.values.push(value_view(value));
        if entries.len() < keys.len() {
            let task = WorkerTask { shard_id, shard_count, keys, entries };
            assert(task@.values =~= values);
            Ok(Progress::Pending(task))
        } else {
            assert(entry_views(entries@) =~= paired(before.request.keys, values));
            finish(shard_id, shard_count, entries)
        }
    }

    /// Looks the pending key up in the snapshot that `state_view` holds at
    /// this call, and takes what was found.
    ///
    /// A failed lookup ends the task with the lookup's error: `NoStateView`
    /// where the slot is empty, `Lookup` where the snapshot cannot answer.
    /// Whatever was found, the task goes on as `supply` says.
    pub fn resolve<S: StateView>(self, state_view: &SnapshotSlot<S>) -> (step: Result<
        Progress,
        ServiceError,
    >)
        ensures
            exists|found: Result<Option<StateValue>, ServiceError>|
                #[trigger] reads(
                    state_view@,
                    self@.request.keys[self@.values.len() as int],
                    found,
                ) && progress_view(step) == resolved(self@, found),
    {
        let found = state_view.read_one(self.pending_key());
        match found {
            Ok(value) => self.supply(value),
            Err(e) => Err(e),
        }
    }
}

/// Where a pending task stands once the lookup of its pending key gave
/// `found`: a failed lookup ends it with that error, and a value moves it on.
pub open spec fn resolved(
    task: TaskView,
    found: Result<Option<StateValue>, ServiceError>,
) -> Result<ProgressView, ServiceError> {
    match found {
        Ok(value) => advanced(task.request, task.shard_count, task.values.push(value_view(value))),
        Err(e) => Err(e),
    }
}

} // verus!

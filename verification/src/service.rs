//! The service: what it is built with, the snapshot it answers from, and the
//! handling of one inbound message from its bytes to the response to send.

use std::sync::Arc;
use vstd::prelude::*;
use crate::codec::decoded_request;
use crate::dispatch::DispatchState;
use crate::error::ServiceError;
use crate::snapshot::{reads, replaced, SnapshotSlot, StateView};
use crate::wire::{value_view, Message, RequestView, StateValue};
use crate::worker::{
    completed, progress_view, resolved, Outbound, OutboundView, Progress, WorkerTask,
};

verus! {

/// Calls `num_cpus::get`, which counts the logical processors that this
/// process may run on. The count differs from machine to machine; the crate
/// documents that it is never below one, and the contract says no more.
#[verifier::external_body]
fn available_cpus() -> (count: usize)
    ensures
        count >= 1,
{
    num_cpus::get()
}

/// Whether `founds` can be the outcomes of looking `keys` up one after
/// another, from the first key on, against a slot whose content is `current`
/// throughout: each outcome is one that the slot can give for its key, and
/// the lookups go on to the last key unless one fails, which ends them.
pub open spec fn looked_up<S: StateView>(
    current: Option<S>,
    keys: Seq<Seq<u8>>,
    founds: Seq<Result<Option<StateValue>, ServiceError>>,
) -> bool {
    &&& founds.len() <= keys.len()
    &&& forall|i: int| 0 <= i < founds.len() ==> reads(current, keys[i], #[trigger] founds[i])
    &&& forall|i: int| 0 <= i < founds.len() - 1 ==> (#[trigger] founds[i]) is Ok
    &&& founds.len() < keys.len() ==> founds.len() > 0 && founds.last() is Err
}

/// The values that the lookups gave, as plain values.
pub open spec fn found_values(founds: Seq<Result<Option<StateValue>, ServiceError>>) -> Seq<
    Option<Seq<u8>>,
> {
    Seq::new(
        founds.len(),
        |i: int|
            match founds[i] {
                Ok(value) => value_view(value),
                Err(_) => None,
            },
    )
}

/// What becomes of `request` when its lookups gave `founds`: the error of
/// the lookup that failed, or, where none failed, what `completed` says of
/// the values.
pub open spec fn concluded(
    request: RequestView,
    shard_count: usize,
    founds: Seq<Result<Option<StateValue>, ServiceError>>,
) -> Result<OutboundView, ServiceError> {
    if founds.len() > 0 && founds.last() is Err {
        Err(founds.last()->Err_0)
    } else {
        completed(request, shard_count, found_values(founds))
    }
}

/// Whether `result` is what handling `bytes` can give in a service that
/// knows `shard_count` shards and whose slot holds `current`: `Decode` where
/// the bytes stand for no request, and else what becomes of the request for
/// some run of lookups against the slot.
pub open spec fn handled<S: StateView>(
    bytes: Seq<u8>,
    current: Option<S>,
    shard_count: usize,
    result: Result<OutboundView, ServiceError>,
) -> bool {
    match decoded_request(bytes) {
        None => result == Err::<OutboundView, ServiceError>(ServiceError::Decode),
        Some(request) => exists|founds: Seq<Result<Option<StateValue>, ServiceError>>|
            #[trigger] looked_up(current, request.keys, founds) && result == concluded(
                request,
                shard_count,
                founds,
            ),
    }
}

/// The outcome of handling a message as plain values.
pub open spec fn outbound_view(result: Result<Outbound, ServiceError>) -> Result<
    OutboundView,
    ServiceError,
> {
    match result {
        Ok(outbound) => Ok(outbound@),
        Err(e) => Err(e),
    }
}

/// The number of keys that are still to be looked up.
spec fn remaining(progress: Progress) -> nat {
    match progress {
        Progress::Pending(task) => (task@.request.keys.len() - task@.values.len()) as nat,
        Progress::Done(_) => 0,
    }
}

/// The service that answers the key lookups of the execution shards.
///
/// It knows a fixed number of shards, each with an outbound channel of its
/// own, and holds the slot of the current snapshot, empty until the first
/// snapshot is installed.
pub struct RemoteStateViewService<S: StateView> {
    shard_count: usize,
    num_threads: usize,
    state_view: SnapshotSlot<S>,
}

impl<S: StateView> RemoteStateViewService<S> {
    /// The number of shards that the service knows.
    pub closed spec fn spec_shard_count(&self) -> usize {
        self.shard_count
    }

    /// The number of worker threads that the service asks for.
    pub closed spec fn spec_num_threads(&self) -> usize {
        self.num_threads
    }

    /// The content of the slot.
    pub closed spec fn current(&self) -> Option<S> {
        self.state_view@
    }

    /// The service for `shard_count` shards, with no snapshot installed.
    ///
    /// It asks for `num_threads` worker threads where that is given, and
    /// else for as many as the machine has processors, which is at least
    /// one.
    pub fn new(shard_count: usize, num_threads: Option<usize>) -> (service: Self)
        ensures
            service.spec_shard_count() == shard_count,
            service.current() is None,
            match num_threads {
                Some(n) => service.spec_num_threads() == n,
                None => service.spec_num_threads() >= 1,
            },
    {
        let num_threads = match num_threads {
            Some(n) => n,
            None => available_cpus(),
        };
        RemoteStateViewService { shard_count, num_threads, state_view: SnapshotSlot::new() }
    }

    /// The number of shards that the service knows.
    pub fn shard_count(&self) -> (count: usize)
        ensures
            count == self.spec_shard_count(),
    {
        self.shard_count
    }

    /// The number of worker threads that the service asks for.
    pub fn num_threads(&self) -> (count: usize)
        ensures
            count == self.spec_num_threads(),
    {
        self.num_threads
    }

    /// The slot of the current snapshot.
    pub fn state_view(&self) -> (slot: &SnapshotSlot<S>)
        ensures
            slot@ == self.current(),
    {
        &self.state_view
    }

    /// Installs `state_view` as the current snapshot. Every lookup from now
    /// on is answered from it, until the next call.
    pub fn set_state_view(&mut self, state_view: Arc<S>)
        ensures
            final(self).current() == replaced(old(self).current(), *state_view),
            final(self).spec_shard_count() == old(self).spec_shard_count(),
            final(self).spec_num_threads() == old(self).spec_num_threads(),
    {
        self.state_view.replace(state_view);
    }

    /// Starts the dispatch loop: it is idle, waiting for the first inbound
    /// message, whether or not a snapshot is installed yet.
    pub fn start(&self) -> (state: DispatchState)
        ensures
            state == DispatchState::Idle,
    {
        DispatchState::Idle
    }

    /// Handles one inbound message: reads the request out of it, looks each
    /// key up in `state_view` in the order of the request, and puts the
    /// response into bytes, addressed to the shard that asked.
    ///
    /// It fails with `Decode` where the bytes stand for no request; with
    /// `NoStateView` or `Lookup` at the first key whose lookup fails, after
    /// which no further key is looked up; with `Encode` where the response
    /// cannot be put into bytes; with `UnknownShard` where the shard that
    /// the request names is not below `shard_count`. The steps come in this
    /// order, and the first that fails decides.
    ///
    /// The slot is borrowed for the whole call, so every key of the request
    /// is answered from one and the same snapshot. A caller that lets the
    /// slot change while a request is being answered runs the request as a
    /// `WorkerTask`, one `resolve` for each key.
    pub fn handle_message(
        message: Message,
        state_view: &SnapshotSlot<S>,
        shard_count: usize,
    ) -> (result: Result<Outbound, ServiceError>)
        ensures
            handled(message.data@, state_view@, shard_count, outbound_view(result)),
    {
        let ghost request = decoded_request(message.data@)->Some_0;
        let ghost mut founds: Seq<Result<Option<StateValue>, ServiceError>> = Seq::empty();
        assert(found_values(founds) =~= Seq::empty());
        let mut progress = match WorkerTask::begin(&message, shard_count) {
            Err(e) => {
                assert(decoded_request(message.data@) is Some ==> looked_up(
                    state_view@,
                    request.keys,
                    founds,
                ));
                return Err(e);
            },
            Ok(progress) => progress,
        };
        loop
            invariant
                decoded_request(message.data@) == Some(request),
                founds.len() <= request.keys.len(),
                forall|i: int|
                    0 <= i < founds.len() ==> reads(
                        state_view@,
                        request.keys[i],
                        #[trigger] founds[i],
                    ),
                forall|i: int| 0 <= i < founds.len() ==> (#[trigger] founds[i]) is Ok,
                progress matches Progress::Pending(task) ==> task@.request == request
                    && task@.shard_count == shard_count && task@.values == found_values(founds)
                    && task@.values.len() < request.keys.len(),
                progress matches Progress::Done(outbound) ==> founds.len() == request.keys.len()
                    && Ok::<OutboundView, ServiceError>(outbound@) == completed(
                    request,
                    shard_count,
                    found_values(founds),
                ),
            decreases remaining(progress),
        {
            match progress {
                Progress::Done(outbound) => {
                    assert(looked_up(state_view@, request.keys, founds));
                    return Ok(outbound);
                },
                Progress::Pending(task) => {
                    let ghost before = task@;
                    let step = task.resolve(state_view);
                    let ghost found = choose|found: Result<Option<StateValue>, ServiceError>|
                        #[trigger] reads(
                            state_view@,
                            before.request.keys[before.values.len() as int],
                            found,
                        ) && progress_view(step) == resolved(before, found);
                    proof {
                        founds = founds.push(found);
                        if found is Ok {
                            assert(found_values(founds) =~= before.values.push(
                                value_view(found->Ok_0),
                            ));
                        }
                    }
                    match step {
                        Err(e) => {
                            assert(looked_up(state_view@, request.keys, founds));
                            return Err(e);
                        },
                        Ok(next) => {
                            progress = next;
                        },
                    }
                },
            }
        }
    }
}

} // verus!

//! What holds of the service as a whole, proved from the contracts of its
//! parts.

use vstd::prelude::*;
use crate::codec::{decoded_request, encodable, encoded_response};
use crate::dispatch::{
    action_on, after_inbound, after_submitted, DispatchAction, DispatchState, Inbound,
};
use crate::error::ServiceError;
use crate::service::{concluded, found_values, handled, looked_up};
use crate::snapshot::{answered, reads, replaced, StateView};
use crate::wire::{EntryView, Message, RequestView, StateValue};
use crate::worker::{advanced, completed, paired, OutboundView, ProgressView, TaskView};

verus! {

/// The lookups behind a response: where handling the bytes of `request`
/// gave `outbound`, every key was looked up without failure, and the bytes
/// sent are the encoding of the keys paired with what was found.
pub proof fn law_response_of_lookups<S: StateView>(
    bytes: Seq<u8>,
    current: Option<S>,
    shard_count: usize,
    request: RequestView,
    outbound: OutboundView,
) -> (founds: Seq<Result<Option<StateValue>, ServiceError>>)
    requires
        decoded_request(bytes) == Some(request),
        handled(bytes, current, shard_count, Ok(outbound)),
    ensures
        looked_up(current, request.keys, founds),
        founds.len() == request.keys.len(),
        forall|i: int| 0 <= i < founds.len() ==> (#[trigger] founds[i]) is Ok,
        encoded_response(paired(request.keys, found_values(founds))) == Some(outbound.data),
{
    let founds = choose|founds: Seq<Result<Option<StateValue>, ServiceError>>|
        #[trigger] looked_up(current, request.keys, founds) && Ok::<OutboundView, ServiceError>(
            outbound,
        ) == concluded(request, shard_count, founds);
    founds
}

/// Order is kept: the response to a request with `n` keys holds `n`
/// entries, and entry `i` holds key `i` of the request.
pub proof fn law_order_preserved<S: StateView>(
    bytes: Seq<u8>,
    current: Option<S>,
    shard_count: usize,
    request: RequestView,
    outbound: OutboundView,
) -> (entries: Seq<EntryView>)
    requires
        decoded_request(bytes) == Some(request),
        handled(bytes, current, shard_count, Ok(outbound)),
    ensures
        encoded_response(entries) == Some(outbound.data),
        entries.len() == request.keys.len(),
        forall|i: int| 0 <= i < entries.len() ==> (#[trigger] entries[i]).0 == request.keys[i],
{
    let founds = law_response_of_lookups(bytes, current, shard_count, request, outbound);
    paired(request.keys, found_values(founds))
}

/// Absence is kept: an entry of the response is the absent marker exactly
/// where the lookup of its key found no value. A value that was found is
/// handed on with its bytes, be they empty, and so never reads as absent.
pub proof fn law_absence_kept<S: StateView>(
    bytes: Seq<u8>,
    current: Option<S>,
    shard_count: usize,
    request: RequestView,
    outbound: OutboundView,
) -> (founds: Seq<Result<Option<StateValue>, ServiceError>>)
    requires
        decoded_request(bytes) == Some(request),
        handled(bytes, current, shard_count, Ok(outbound)),
    ensures
        looked_up(current, request.keys, founds),
        founds.len() == request.keys.len(),
        encoded_response(paired(request.keys, found_values(founds))) == Some(outbound.data),
        forall|i: int|
            0 <= i < founds.len() ==> (#[trigger] founds[i]) is Ok && (paired(
                request.keys,
                found_values(founds),
            )[i].1 is None <==> founds[i]->Ok_0 is None),
        forall|i: int|
            0 <= i < founds.len() && (#[trigger] founds[i])->Ok_0 is Some ==> paired(
                request.keys,
                found_values(founds),
            )[i].1 == Some(founds[i]->Ok_0->Some_0@),
{
    law_response_of_lookups(bytes, current, shard_count, request, outbound)
}

/// Routing: a response goes out on the channel of the shard that the
/// request names, which is one of the shards that the service knows.
pub proof fn law_routed_to_origin<S: StateView>(
    bytes: Seq<u8>,
    current: Option<S>,
    shard_count: usize,
    request: RequestView,
    outbound: OutboundView,
)
    requires
        decoded_request(bytes) == Some(request),
        handled(bytes, current, shard_count, Ok(outbound)),
    ensures
        outbound.shard_id == request.shard_id,
        outbound.shard_id < shard_count,
{
    law_response_of_lookups(bytes, current, shard_count, request, outbound);
}

/// A swap is seen at once and in full: whatever the slot held before, a
/// lookup made after `snapshot` was installed is answered by `snapshot`, and
/// a lookup made while the slot held `earlier` was answered by `earlier`.
pub proof fn law_swap_visibility<S: StateView>(
    earlier: S,
    snapshot: S,
    key: Seq<u8>,
    found: Result<Option<StateValue>, ServiceError>,
)
    ensures
        reads(replaced(Some(earlier), snapshot), key, found) <==> answered(snapshot, key, found),
        reads(replaced(None, snapshot), key, found) <==> answered(snapshot, key, found),
        reads(Some(earlier), key, found) <==> answered(earlier, key, found),
{
}

/// A request that is handled after a swap is answered from the new snapshot
/// alone: what the slot held before has no part in the result.
pub proof fn law_handled_after_swap<S: StateView>(
    before: Option<S>,
    snapshot: S,
    bytes: Seq<u8>,
    shard_count: usize,
    result: Result<OutboundView, ServiceError>,
)
    ensures
        handled(bytes, replaced(before, snapshot), shard_count, result) <==> handled(
            bytes,
            Some(snapshot),
            shard_count,
            result,
        ),
{
}

/// However the values of a request were come by, in one run against one
/// snapshot or key by key while snapshots were swapped: the response that
/// leaves holds one entry for each key, entry `i` holds key `i` and value
/// `i`, absent where the value is absent, and it leaves for the shard that
/// asked, which is a known one.
pub proof fn law_completed_response(
    request: RequestView,
    shard_count: usize,
    values: Seq<Option<Seq<u8>>>,
    outbound: OutboundView,
) -> (entries: Seq<EntryView>)
    requires
        values.len() == request.keys.len(),
        completed(request, shard_count, values) == Ok::<OutboundView, ServiceError>(outbound),
    ensures
        encoded_response(entries) == Some(outbound.data),
        entries.len() == request.keys.len(),
        forall|i: int|
            0 <= i < entries.len() ==> (#[trigger] entries[i]).0 == request.keys[i]
                && entries[i].1 == values[i],
        outbound.shard_id == request.shard_id,
        outbound.shard_id < shard_count,
{
    paired(request.keys, values)
}

/// When a response is owed: once every key has its value, the request ends
/// in a response exactly where the entries are ones that the encoding
/// admits and the shard that asked is a known one. It ends in `Encode`
/// exactly where the entries are not admitted, and in `UnknownShard` exactly
/// where they are and the shard is not known.
pub proof fn law_response_owed(
    request: RequestView,
    shard_count: usize,
    values: Seq<Option<Seq<u8>>>,
)
    ensures
        completed(request, shard_count, values) is Ok <==> encodable(
            paired(request.keys, values),
        ) && request.shard_id < shard_count,
        completed(request, shard_count, values) == Err::<OutboundView, ServiceError>(
            ServiceError::Encode,
        ) <==> !encodable(paired(request.keys, values)),
        completed(request, shard_count, values) == Err::<OutboundView, ServiceError>(
            ServiceError::UnknownShard,
        ) <==> encodable(paired(request.keys, values)) && request.shard_id >= shard_count,
{
}

/// A task runs through the keys in order: while it is pending after `k`
/// values, the next value supplied is taken for key `k`, and the values
/// taken before stay as they are.
pub proof fn law_task_keeps_order(task: TaskView, value: Option<Seq<u8>>)
    requires
        task.values.len() < task.request.keys.len(),
    ensures
        advanced(task.request, task.shard_count, task.values.push(value)) matches Ok(
            ProgressView::Pending(next),
        ) ==> next.request == task.request && next.values.len() == task.values.len() + 1
            && next.values[task.values.len() as int] == value && (forall|i: int|
            0 <= i < task.values.len() ==> next.values[i] == task.values[i]),
        advanced(task.request, task.shard_count, task.values.push(value)) matches Ok(
            ProgressView::Done(outbound),
        ) ==> task.values.len() + 1 == task.request.keys.len() && Ok::<
            OutboundView,
            ServiceError,
        >(outbound) == completed(task.request, task.shard_count, task.values.push(value)),
{
}

/// No message is lost or changed on its way to the workers: a loop that has
/// not stopped submits each message that it receives, as it came, and is
/// idle again once the message is taken, ready for the next, whatever came
/// before.
pub proof fn law_each_message_is_submitted(state: DispatchState, first: Message, second: Message)
    requires
        state != DispatchState::Stopped,
    ensures
        action_on(state, Inbound::Received(first)) == DispatchAction::Submit(first),
        after_submitted(after_inbound(state, Inbound::Received(first))) == DispatchState::Idle,
        action_on(DispatchState::Idle, Inbound::Received(second)) == DispatchAction::Submit(
            second,
        ),
        after_submitted(after_inbound(DispatchState::Idle, Inbound::Received(second)))
            == DispatchState::Idle,
{
}

/// A closed channel ends the loop for good: from then on nothing is
/// submitted, whatever arrives.
pub proof fn law_stopped_for_good(state: DispatchState, later: Inbound)
    ensures
        after_inbound(state, Inbound::Closed) == DispatchState::Stopped,
        action_on(state, Inbound::Closed) == DispatchAction::Stop(ServiceError::ChannelClosed),
        after_inbound(DispatchState::Stopped, later) == DispatchState::Stopped,
        action_on(DispatchState::Stopped, later) == DispatchAction::Stop(
            ServiceError::ChannelClosed,
        ),
        after_submitted(DispatchState::Stopped) == DispatchState::Stopped,
{
}

} // verus!

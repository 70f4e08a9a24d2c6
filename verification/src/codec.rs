//! Requests out of bytes and responses into bytes.
//!
//! Both directions use BCS, the canonical binary encoding of the `bcs` crate.
//! A request travels as its shard id, a 64-bit integer, followed by its list
//! of keys; a response travels as its list of entries. The layout of the
//! bytes is not restated here: the two functions below that call the crate
//! give its results a name, and everything else is proved over those names.

use vstd::prelude::*;
use crate::error::ServiceError;
use crate::wire::{
    entry_view, key_views, EntryView, RemoteKVRequest, RemoteKVResponse, RequestView, StateKey,
};

verus! {

/// The error type of the `bcs` crate. Nothing is read from it.
#[verifier::external_type_specification]
#[verifier::external_body]
pub struct ExBcsError(bcs::Error);

/// What `bcs::from_bytes` makes of `bytes` when asked for a 64-bit integer
/// followed by a list of byte strings: the two, or `None` where it rejects
/// the input.
pub uninterp spec fn bcs_request_fields(bytes: Seq<u8>) -> Option<(u64, Seq<Seq<u8>>)>;

/// The bytes that `bcs::to_bytes` makes of a list of pairs of a byte string
/// and an optional byte string, where it accepts the list.
pub uninterp spec fn bcs_response_bytes(entries: Seq<EntryView>) -> Seq<u8>;

/// The longest sequence that BCS admits: `2^31 - 1` elements.
pub const MAX_SEQUENCE_LENGTH: usize = 2147483647;

/// Whether BCS admits the entries: neither the list nor a byte string in it
/// is longer than `MAX_SEQUENCE_LENGTH`.
pub open spec fn encodable(entries: Seq<EntryView>) -> bool {
    &&& entries.len() <= MAX_SEQUENCE_LENGTH
    &&& forall|i: int|
        0 <= i < entries.len() ==> (#[trigger] entries[i]).0.len() <= MAX_SEQUENCE_LENGTH
    &&& forall|i: int|
        0 <= i < entries.len() && (#[trigger] entries[i]).1 is Some ==> entries[i].1->Some_0.len()
            <= MAX_SEQUENCE_LENGTH
}

/// Calls `bcs::from_bytes` for a 64-bit integer followed by a list of byte
/// strings. The contract only gives the outcome its name: success with the
/// decoded fields, or the crate's error where the input is rejected.
#[verifier::external_body]
fn bcs_decode_fields(bytes: &[u8]) -> (decoded: Result<(u64, Vec<Vec<u8>>), bcs::Error>)
    ensures
        match decoded {
            Ok(fields) => bcs_request_fields(bytes@) == Some((fields.0, fields.1.deep_view())),
            Err(_) => bcs_request_fields(bytes@) is None,
        },
{
    bcs::from_bytes::<(u64, Vec<Vec<u8>>)>(bytes)
}

/// Calls `bcs::to_bytes` on a list of pairs of a byte string and an optional
/// byte string. The crate documents that a value made of sequences, pairs,
/// options and bytes is refused only for a sequence that is longer than its
/// `MAX_SEQUENCE_LENGTH`, and that every such sequence is refused: the
/// contract says when the call succeeds, and gives the bytes their name.
#[verifier::external_body]
fn bcs_encode_entries(entries: &Vec<(Vec<u8>, Option<Vec<u8>>)>) -> (encoded: Result<
    Vec<u8>,
    bcs::Error,
>)
    ensures
        encoded is Ok <==> encodable(entries.deep_view()),
        encoded matches Ok(bytes) ==> bytes@ == bcs_response_bytes(entries.deep_view()),
{
    bcs::to_bytes(entries)
}

/// The request with the given fields, or `None` where the shard id does not
/// fit an index of this machine.
pub open spec fn request_of(shard: u64, keys: Seq<Seq<u8>>) -> Option<RequestView> {
    if shard <= usize::MAX {
        Some(RequestView { shard_id: shard as usize, keys })
    } else {
        None
    }
}

/// The request that `bytes` stand for, or `None` where they stand for none:
/// where BCS rejects them, or where the fields that it finds make no
/// request.
pub open spec fn decoded_request(bytes: Seq<u8>) -> Option<RequestView> {
    match bcs_request_fields(bytes) {
        Some((shard, keys)) => request_of(shard, keys),
        None => None,
    }
}

/// The bytes that a response with the given entries travels as, or `None`
/// where BCS does not admit the entries.
pub open spec fn encoded_response(entries: Seq<EntryView>) -> Option<Seq<u8>> {
    if encodable(entries) {
        Some(bcs_response_bytes(entries))
    } else {
        None
    }
}

/// Wraps each byte string as a key, keeping the order.
fn keys_from_raw(raw: Vec<Vec<u8>>) -> (keys: Vec<StateKey>)
    ensures
        key_views(keys@) == raw.deep_view(),
{
    let ghost wanted = raw.deep_view();
    let mut keys: Vec<StateKey> = Vec::new();
    for bytes in it: raw
        invariant
            wanted.len() == it.seq().len(),
            forall|j: int| 0 <= j < wanted.len() ==> wanted[j] == (#[trigger] it.seq()[j])@,
            keys@.len() == it.index(),
            forall|j: int| 0 <= j < keys@.len() ==> (#[trigger] keys@[j])@ == wanted[j],
    {
        keys.push(StateKey::raw(bytes));
    }
    keys
}

/// Makes a request of the fields that were read from the wire: the shard
/// id as the 64-bit integer that travels, and the keys as byte strings.
///
/// Fails with `Decode` exactly where the shard id does not fit an index of
/// this machine; the keys are taken as they are, in their order.
pub fn request_from_fields(shard: u64, keys: Vec<Vec<u8>>) -> (request: Result<
    RemoteKVRequest,
    ServiceError,
>)
    ensures
        match request_of(shard, keys.deep_view()) {
            Some(wanted) => request matches Ok(r) && r@ == wanted,
            None => request == Err::<RemoteKVRequest, ServiceError>(ServiceError::Decode),
        },
{
    if shard > usize::MAX as u64 {
        Err(ServiceError::Decode)
    } else {
        let keys = keys_from_raw(keys);
        Ok(RemoteKVRequest::new(shard as usize, keys))
    }
}

/// Reads a request out of `bytes`.
///
/// Fails with `Decode`, and only with it, exactly where the bytes stand for
/// no request; nothing of a malformed input is kept.
pub fn decode_request(bytes: &[u8]) -> (decoded: Result<RemoteKVRequest, ServiceError>)
    ensures
        match decoded_request(bytes@) {
            Some(request) => decoded matches Ok(r) && r@ == request,
            None => decoded == Err::<RemoteKVRequest, ServiceError>(ServiceError::Decode),
        },
{
    match bcs_decode_fields(bytes) {
        Ok(fields) => request_from_fields(fields.0, fields.1),
        Err(_) => Err(ServiceError::Decode),
    }
}

/// The entries of a response as they travel: each key and each value as its
/// byte string, copied out in the order of the response.
pub fn response_fields(response: &RemoteKVResponse) -> (raw: Vec<(Vec<u8>, Option<Vec<u8>>)>)
    ensures
        raw.deep_view() == response@,
{
    let entries = response.inner();
    let mut raw: Vec<(Vec<u8>, Option<Vec<u8>>)> = Vec::new();
    let mut i: usize = 0;
    while i < entries.len()
        invariant
            i <= entries.len(),
            raw@.len() == i,
            forall|j: int| 0 <= j < i ==> (#[trigger] raw@[j]).deep_view() == entry_view(entries@[j]),
        decreases entries.len() - i,
    {
        let entry = &entries[i];
        let key = entry.0.as_bytes().clone();
        let value = match &entry.1 {
            Some(v) => Some(v.bytes().clone()),
            None => None,
        };
        raw.push((key, value));
        i = i + 1;
    }
    raw
}

/// Puts a response into bytes.
///
/// Fails with `Encode`, and only with it, exactly where the response holds
/// more entries, or a key or a value of more bytes, than
/// `MAX_SEQUENCE_LENGTH`.
pub fn encode_response(response: &RemoteKVResponse) -> (encoded: Result<Vec<u8>, ServiceError>)
    ensures
        match encoded_response(response@) {
            Some(bytes) => encoded matches Ok(b) && b@ == bytes,
            None => encoded == Err::<Vec<u8>, ServiceError>(ServiceError::Encode),
        },
{
    let raw = response_fields(response);
    match bcs_encode_entries(&raw) {
        Ok(bytes) => Ok(bytes),
        Err(_) => Err(ServiceError::Encode),
    }
}

} // verus!

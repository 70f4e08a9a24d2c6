//! The wire types: keys, values, requests, responses and the byte envelope.

use vstd::prelude::*;

verus! {

/// The tag of the one inbound channel, on which the requests of all shards
/// arrive.
pub const KV_REQUEST_TYPE: &'static str = "remote_kv_request";

/// The tag of the outbound channels, one for each shard, on which the
/// responses leave.
pub const KV_RESPONSE_TYPE: &'static str = "remote_kv_response";

/// A shard's index in the list of shards that the service was built with.
pub type ShardId = usize;

/// What a response holds for one key, as plain values: the key's bytes and
/// the value's bytes, or `None` where the key holds no value.
pub type EntryView = (Seq<u8>, Option<Seq<u8>>);

/// The identifier of a piece of ledger state. The service never looks inside
/// it: it carries the bytes from the request to the snapshot and back.
#[derive(Debug, PartialEq, Eq, Hash)]
pub struct StateKey {
    bytes: Vec<u8>,
}

impl View for StateKey {
    type V = Seq<u8>;

    closed spec fn view(&self) -> Seq<u8> {
        self.bytes@
    }
}

impl StateKey {
    /// The key with the given bytes.
    pub fn raw(bytes: Vec<u8>) -> (key: Self)
        ensures
            key@ == bytes@,
    {
        StateKey { bytes }
    }

    /// The bytes of the key.
    pub fn as_bytes(&self) -> (bytes: &Vec<u8>)
        ensures
            bytes@ == self@,
    {
        &self.bytes
    }

    /// The bytes of the key, without copying them.
    pub fn into_bytes(self) -> (bytes: Vec<u8>)
        ensures
            bytes@ == self@,
    {
        self.bytes
    }
}

impl Clone for StateKey {
    fn clone(&self) -> (copy: Self)
        ensures
            copy@ == self@,
    {
        StateKey { bytes: self.bytes.clone() }
    }
}

/// The value that a key holds. Its bytes may be empty: an empty value is a
/// value, and differs from the key holding none.
#[derive(Debug, PartialEq, Eq, Hash)]
pub struct StateValue {
    bytes: Vec<u8>,
}

impl View for StateValue {
    type V = Seq<u8>;

    closed spec fn view(&self) -> Seq<u8> {
        self.bytes@
    }
}

impl StateValue {
    /// The value with the given bytes.
    pub fn new(bytes: Vec<u8>) -> (value: Self)
        ensures
            value@ == bytes@,
    {
        StateValue { bytes }
    }

    /// The bytes of the value.
    pub fn bytes(&self) -> (bytes: &Vec<u8>)
        ensures
            bytes@ == self@,
    {
        &self.bytes
    }

    /// The bytes of the value, without copying them.
    pub fn into_bytes(self) -> (bytes: Vec<u8>)
        ensures
            bytes@ == self@,
    {
        self.bytes
    }
}

impl Clone for StateValue {
    fn clone(&self) -> (copy: Self)
        ensures
            copy@ == self@,
    {
        StateValue { bytes: self.bytes.clone() }
    }
}

/// The outcome of one lookup as plain values: the value's bytes, or `None`
/// where the key holds no value.
pub open spec fn value_view(value: Option<StateValue>) -> Option<Seq<u8>> {
    match value {
        Some(v) => Some(v@),
        None => None,
    }
}

/// One entry of a response as plain values.
pub open spec fn entry_view(entry: (StateKey, Option<StateValue>)) -> EntryView {
    (entry.0@, value_view(entry.1))
}

/// The keys of a list as plain values, in the order of the list.
pub open spec fn key_views(keys: Seq<StateKey>) -> Seq<Seq<u8>> {
    Seq::new(keys.len(), |i: int| keys[i]@)
}

/// The entries of a list as plain values, in the order of the list.
pub open spec fn entry_views(entries: Seq<(StateKey, Option<StateValue>)>) -> Seq<EntryView> {
    Seq::new(entries.len(), |i: int| entry_view(entries[i]))
}

/// The bytes that travel over a channel, with no meaning attached.
#[derive(Clone, Debug, PartialEq, Eq)]
pub struct Message {
    /// The bytes carried.
    pub data: Vec<u8>,
}

impl Message {
    /// The message that carries `data`.
    pub fn new(data: Vec<u8>) -> (message: Self)
        ensures
            message.data@ == data@,
    {
        Message { data }
    }

    /// The bytes that the message carries.
    pub fn to_bytes(self) -> (data: Vec<u8>)
        ensures
            data@ == self.data@,
    {
        self.data
    }
}

/// A request as plain values.
pub ghost struct RequestView {
    /// The shard that asks, and that the response goes back to.
    pub shard_id: ShardId,
    /// The keys asked for, in the order in which they are to be answered.
    pub keys: Seq<Seq<u8>>,
}

/// A batch of keys that one shard asks the values of.
#[derive(Clone, Debug, PartialEq, Eq)]
pub struct RemoteKVRequest {
    shard_id: ShardId,
    keys: Vec<StateKey>,
}

impl View for RemoteKVRequest {
    type V = RequestView;

    closed spec fn view(&self) -> RequestView {
        RequestView { shard_id: self.shard_id, keys: key_views(self.keys@) }
    }
}

impl RemoteKVRequest {
    /// The request of shard `shard_id` for `keys`.
    pub fn new(shard_id: ShardId, keys: Vec<StateKey>) -> (request: Self)
        ensures
            request@ == (RequestView { shard_id, keys: key_views(keys@) }),
    {
        RemoteKVRequest { shard_id, keys }
    }

    /// The shard that asks and the keys that it asks for.
    pub fn into(self) -> (parts: (ShardId, Vec<StateKey>))
        ensures
            parts.0 == self@.shard_id,
            key_views(parts.1@) == self@.keys,
    {
        (self.shard_id, self.keys)
    }
}

/// The answer to a request: one entry for each key asked for, in the order
/// of the request, each with the key and the value that it holds, if any.
#[derive(Clone, Debug, PartialEq, Eq)]
pub struct RemoteKVResponse {
    inner: Vec<(StateKey, Option<StateValue>)>,
}

impl View for RemoteKVResponse {
    type V = Seq<EntryView>;

    closed spec fn view(&self) -> Seq<EntryView> {
        entry_views(self.inner@)
    }
}

impl RemoteKVResponse {
    /// The response that holds `inner`.
    pub fn new(inner: Vec<(StateKey, Option<StateValue>)>) -> (response: Self)
        ensures
            response@ == entry_views(inner@),
    {
        RemoteKVResponse { inner }
    }

    /// The entries of the response.
    pub fn inner(&self) -> (inner: &Vec<(StateKey, Option<StateValue>)>)
        ensures
            entry_views(inner@) == self@,
    {
        &self.inner
    }
}

} // verus!

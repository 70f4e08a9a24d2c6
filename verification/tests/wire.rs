use remote_state_view::codec::{
    decode_request, encode_response, request_from_fields, response_fields, MAX_SEQUENCE_LENGTH,
};
use remote_state_view::error::ServiceError;
use remote_state_view::wire::{
    Message, RemoteKVRequest, RemoteKVResponse, StateKey, StateValue, KV_REQUEST_TYPE,
    KV_RESPONSE_TYPE,
};
use remote_state_view::worker::Outbound;

fn key(bytes: &[u8]) -> StateKey {
    StateKey::raw(bytes.to_vec())
}

fn value(bytes: &[u8]) -> StateValue {
    StateValue::new(bytes.to_vec())
}

#[test]
fn key_keeps_its_bytes() {
    let k = key(b"account/1");
    assert_eq!(k.as_bytes(), &b"account/1".to_vec());
    assert_eq!(k.clone(), k);
    assert_eq!(k.clone().into_bytes(), b"account/1".to_vec());
    assert_ne!(key(b"a"), key(b"b"));
}

#[test]
fn value_keeps_its_bytes() {
    let v = value(&[0, 1, 2]);
    assert_eq!(v.bytes(), &vec![0u8, 1, 2]);
    assert_eq!(v.clone(), v);
    assert_eq!(v.into_bytes(), vec![0u8, 1, 2]);
}

#[test]
fn empty_value_is_a_value() {
    let empty = value(b"");
    assert!(empty.bytes().is_empty());
    assert_ne!(Some(empty), None);
}

#[test]
fn message_carries_its_bytes() {
    let m = Message::new(vec![7, 8, 9]);
    assert_eq!(m.data, vec![7u8, 8, 9]);
    assert_eq!(m.to_bytes(), vec![7u8, 8, 9]);
}

#[test]
fn request_gives_back_its_parts() {
    let request = RemoteKVRequest::new(2, vec![key(b"b"), key(b"a"), key(b"b")]);
    let (shard_id, keys) = request.into();
    assert_eq!(shard_id, 2);
    assert_eq!(keys, vec![key(b"b"), key(b"a"), key(b"b")]);
}

#[test]
fn response_gives_back_its_entries() {
    let entries = vec![(key(b"a"), Some(value(&[1]))), (key(b"b"), None)];
    let response = RemoteKVResponse::new(entries.clone());
    assert_eq!(response.inner(), &entries);
}

#[test]
fn request_is_read_from_its_bytes() {
    // shard id 1 as eight bytes, little end first; two keys, each with its length
    let bytes = vec![1u8, 0, 0, 0, 0, 0, 0, 0, 2, 1, b'a', 1, b'b'];
    let decoded = decode_request(&bytes);
    assert_eq!(decoded, Ok(RemoteKVRequest::new(1, vec![key(b"a"), key(b"b")])));
}

#[test]
fn request_bytes_made_by_bcs_are_read_back() {
    let keys = vec![b"k2".to_vec(), b"".to_vec(), b"k1".to_vec()];
    let bytes = bcs::to_bytes(&(7u64, keys)).unwrap();
    let (shard_id, keys) = decode_request(&bytes).unwrap().into();
    assert_eq!(shard_id, 7);
    assert_eq!(keys, vec![key(b"k2"), key(b""), key(b"k1")]);
}

#[test]
fn request_without_keys_is_read() {
    let bytes = vec![0u8, 0, 0, 0, 0, 0, 0, 0, 0];
    assert_eq!(decode_request(&bytes), Ok(RemoteKVRequest::new(0, vec![])));
}

#[test]
fn empty_input_is_no_request() {
    assert_eq!(decode_request(&[]), Err(ServiceError::Decode));
}

#[test]
fn truncated_input_is_no_request() {
    // announces two keys and holds one
    let bytes = vec![1u8, 0, 0, 0, 0, 0, 0, 0, 2, 1, b'a'];
    assert_eq!(decode_request(&bytes), Err(ServiceError::Decode));
    // the shard id is cut short
    assert_eq!(decode_request(&[1u8, 0, 0]), Err(ServiceError::Decode));
}

#[test]
fn trailing_input_is_no_request() {
    let bytes = vec![1u8, 0, 0, 0, 0, 0, 0, 0, 1, 1, b'a', 0];
    assert_eq!(decode_request(&bytes), Err(ServiceError::Decode));
}

#[test]
fn padded_length_is_no_request() {
    // the number of keys, zero, written in two bytes where one is enough
    let bytes = vec![1u8, 0, 0, 0, 0, 0, 0, 0, 0x80, 0];
    assert_eq!(decode_request(&bytes), Err(ServiceError::Decode));
}

#[test]
fn response_is_put_into_bytes() {
    let response =
        RemoteKVResponse::new(vec![(key(b"a"), Some(value(&[1]))), (key(b"b"), None)]);
    // two entries; key "a", present, one byte 1; key "b", absent
    assert_eq!(encode_response(&response), Ok(vec![2u8, 1, b'a', 1, 1, 1, 1, b'b', 0]));
}

#[test]
fn response_bytes_are_read_back_by_bcs() {
    let response = RemoteKVResponse::new(vec![
        (key(b"x"), Some(value(&[10, 11]))),
        (key(b"y"), None),
        (key(b"z"), Some(value(b""))),
    ]);
    let bytes = encode_response(&response).unwrap();
    let entries: Vec<(Vec<u8>, Option<Vec<u8>>)> = bcs::from_bytes(&bytes).unwrap();
    assert_eq!(
        entries,
        vec![
            (b"x".to_vec(), Some(vec![10u8, 11])),
            (b"y".to_vec(), None),
            (b"z".to_vec(), Some(vec![])),
        ]
    );
}

#[test]
fn empty_response_is_one_byte() {
    assert_eq!(encode_response(&RemoteKVResponse::new(vec![])), Ok(vec![0u8]));
}

#[test]
fn absent_and_empty_differ_on_the_wire() {
    let absent = RemoteKVResponse::new(vec![(key(b"k"), None)]);
    let empty = RemoteKVResponse::new(vec![(key(b"k"), Some(value(b"")))]);
    assert_eq!(encode_response(&absent), Ok(vec![1u8, 1, b'k', 0]));
    assert_eq!(encode_response(&empty), Ok(vec![1u8, 1, b'k', 1, 0]));
}

#[test]
fn channel_tags_are_fixed() {
    assert_eq!(KV_REQUEST_TYPE, "remote_kv_request");
    assert_eq!(KV_RESPONSE_TYPE, "remote_kv_response");
}

#[test]
fn request_is_made_of_its_fields() {
    let made = request_from_fields(4, vec![b"b".to_vec(), b"a".to_vec()]);
    assert_eq!(made, Ok(RemoteKVRequest::new(4, vec![key(b"b"), key(b"a")])));
    assert_eq!(request_from_fields(0, vec![]), Ok(RemoteKVRequest::new(0, vec![])));
}

#[test]
fn shard_id_must_fit_an_index() {
    let made = request_from_fields(u64::MAX, vec![]);
    if usize::MAX as u64 == u64::MAX {
        let (shard_id, keys) = made.unwrap().into();
        assert_eq!(shard_id, usize::MAX);
        assert!(keys.is_empty());
    } else {
        assert_eq!(made, Err(ServiceError::Decode));
    }
    let (shard_id, _) = request_from_fields(u32::MAX as u64, vec![]).unwrap().into();
    assert_eq!(shard_id as u64, u32::MAX as u64);
}

#[test]
fn response_gives_its_fields_in_order() {
    let response = RemoteKVResponse::new(vec![
        (key(b"b"), None),
        (key(b"a"), Some(value(&[1, 2]))),
        (key(b"b"), Some(value(b""))),
    ]);
    assert_eq!(
        response_fields(&response),
        vec![
            (b"b".to_vec(), None),
            (b"a".to_vec(), Some(vec![1u8, 2])),
            (b"b".to_vec(), Some(vec![])),
        ]
    );
    assert_eq!(response_fields(&RemoteKVResponse::new(vec![])), vec![]);
}

#[test]
fn bytes_are_addressed_to_a_known_shard() {
    assert_eq!(
        Outbound::address(2, 3, vec![9, 9]),
        Ok(Outbound { shard_id: 2, message: Message::new(vec![9, 9]) })
    );
    assert_eq!(
        Outbound::address(0, 1, vec![]),
        Ok(Outbound { shard_id: 0, message: Message::new(vec![]) })
    );
}

#[test]
fn bytes_for_an_unknown_shard_are_refused() {
    assert_eq!(Outbound::address(3, 3, vec![9]), Err(ServiceError::UnknownShard));
    assert_eq!(Outbound::address(0, 0, vec![9]), Err(ServiceError::UnknownShard));
    assert_eq!(Outbound::address(usize::MAX, 3, vec![9]), Err(ServiceError::UnknownShard));
}

#[test]
fn longest_sequence_is_that_of_the_encoding() {
    assert_eq!(MAX_SEQUENCE_LENGTH, (1usize << 31) - 1);
    assert_eq!(MAX_SEQUENCE_LENGTH, bcs::MAX_SEQUENCE_LENGTH);
}

#[test]
fn long_keys_and_values_are_put_into_bytes() {
    let long_key = vec![7u8; 300];
    let long_value = vec![9u8; 70_000];
    let response = RemoteKVResponse::new(vec![(
        StateKey::raw(long_key.clone()),
        Some(StateValue::new(long_value.clone())),
    )]);
    let bytes = encode_response(&response).unwrap();
    // one entry; the key's length 300 in two bytes; the value's 70000 in three
    assert_eq!(&bytes[..3], &[1u8, 0xac, 0x02]);
    assert_eq!(&bytes[3..303], &long_key[..]);
    assert_eq!(&bytes[303..307], &[1u8, 0xf0, 0xa2, 0x04]);
    assert_eq!(&bytes[307..], &long_value[..]);
}

use hyperlane_tron::errors::HyperlaneTronError;
use hyperlane_tron::indexing::{
    bytes_eq, decode_insertion, dispatch_records_from_logs, filter_logs_by_address,
    insertion_records_from_logs, sort_by_sequence, DispatchRecord, LogPosition, RawLog,
};
use hyperlane_tron::message::{decode_message, encode_message, HyperlaneMessage};
use hyperlane_tron::address::UniversalId;

fn word(value: u32) -> Vec<u8> {
    let mut w = vec![0u8; 28];
    w.extend_from_slice(&value.to_be_bytes());
    w
}

fn message_bytes(nonce: u32, body: &[u8]) -> Vec<u8> {
    let mut raw = vec![3u8];
    raw.extend_from_slice(&nonce.to_be_bytes());
    raw.extend_from_slice(&1u32.to_be_bytes());
    raw.extend_from_slice(&[0x11u8; 32]);
    raw.extend_from_slice(&2u32.to_be_bytes());
    raw.extend_from_slice(&[0x22u8; 32]);
    raw.extend_from_slice(body);
    raw
}

fn abi_wrap_bytes(payload: &[u8]) -> Vec<u8> {
    let mut data = word(32);
    data.extend_from_slice(&word(payload.len() as u32));
    data.extend_from_slice(payload);
    let rem = payload.len() % 32;
    if rem != 0 {
        data.extend_from_slice(&vec![0u8; 32 - rem]);
    }
    data
}

fn position(block: u64, index: u64) -> LogPosition {
    LogPosition {
        block_number: block,
        block_hash: vec![0xbb; 32],
        transaction_hash: vec![0xcc; 32],
        log_index: index,
    }
}

fn dispatch_log(address: &[u8], nonce: u32, index: u64) -> RawLog {
    RawLog {
        address: address.to_vec(),
        data: abi_wrap_bytes(&message_bytes(nonce, b"payload")),
        position: position(7, index),
    }
}

#[test]
fn bytes_eq_compares_contents() {
    assert!(bytes_eq(&vec![1, 2, 3], &vec![1, 2, 3]));
    assert!(!bytes_eq(&vec![1, 2, 3], &vec![1, 2, 4]));
    assert!(!bytes_eq(&vec![1, 2], &vec![1, 2, 3]));
}

#[test]
fn filter_drops_interleaved_foreign_logs() {
    let target = vec![0xaau8; 20];
    let other = vec![0xbbu8; 20];
    let logs = vec![
        dispatch_log(&target, 1, 0),
        dispatch_log(&other, 2, 1),
        dispatch_log(&target, 3, 2),
        dispatch_log(&other, 4, 3),
    ];
    let kept = filter_logs_by_address(logs, &target);
    assert_eq!(kept.len(), 2);
    assert_eq!(kept[0].position.log_index, 0);
    assert_eq!(kept[1].position.log_index, 2);
    assert!(kept.iter().all(|l| l.address == target));
}

#[test]
fn by_tx_records_keep_only_target_logs() {
    let target = vec![0xaau8; 20];
    let other = vec![0xbbu8; 20];
    let logs = vec![
        dispatch_log(&other, 10, 0),
        dispatch_log(&target, 11, 1),
        dispatch_log(&other, 12, 2),
        dispatch_log(&target, 13, 3),
    ];
    let records = dispatch_records_from_logs(logs, &target);
    assert_eq!(records.len(), 2);
    assert_eq!(records[0].message.nonce, 11);
    assert_eq!(records[1].message.nonce, 13);
    assert_eq!(records[0].position.log_index, 1);
    assert_eq!(records[1].position.log_index, 3);
}

#[test]
fn undecodable_log_is_dropped_not_fatal() {
    let target = vec![0xaau8; 20];
    let mut bad = dispatch_log(&target, 5, 0);
    bad.data = vec![1, 2, 3];
    let good = dispatch_log(&target, 6, 1);
    let records = dispatch_records_from_logs(vec![bad, good], &target);
    assert_eq!(records.len(), 1);
    assert_eq!(records[0].message.nonce, 6);
}

#[test]
fn dispatch_batch_is_sorted_by_sequence_not_log_order() {
    let target = vec![0xaau8; 20];
    let logs = vec![
        dispatch_log(&target, 9, 0),
        dispatch_log(&target, 7, 1),
        dispatch_log(&target, 8, 2),
        dispatch_log(&target, 7, 3),
    ];
    let mut records = dispatch_records_from_logs(logs, &target);
    sort_by_sequence(&mut records);
    let nonces: Vec<u32> = records.iter().map(|r| r.message.nonce).collect();
    assert_eq!(nonces, vec![7, 7, 8, 9]);
    assert_eq!(records.len(), 4);
}

#[test]
fn sort_keeps_duplicate_sequences() {
    let msg = |nonce: u32| HyperlaneMessage {
        version: 3,
        nonce,
        origin_domain: 1,
        sender: UniversalId { bytes: vec![0x11; 32] },
        destination_domain: 2,
        recipient: UniversalId { bytes: vec![0x22; 32] },
        body: vec![],
    };
    let mut records = vec![
        DispatchRecord { message: msg(4), position: position(1, 0) },
        DispatchRecord { message: msg(2), position: position(1, 1) },
        DispatchRecord { message: msg(4), position: position(1, 2) },
        DispatchRecord { message: msg(1), position: position(2, 0) },
    ];
    sort_by_sequence(&mut records);
    let nonces: Vec<u32> = records.iter().map(|r| r.message.nonce).collect();
    assert_eq!(nonces, vec![1, 2, 4, 4]);
}

#[test]
fn message_wire_round_trip() {
    let m = HyperlaneMessage {
        version: 3,
        nonce: 0xdeadbeef,
        origin_domain: 0x12345678,
        sender: UniversalId { bytes: (0..32).collect() },
        destination_domain: 42,
        recipient: UniversalId { bytes: (32..64).collect() },
        body: b"hello chain".to_vec(),
    };
    let raw = encode_message(&m);
    assert_eq!(raw.len(), 77 + 11);
    assert_eq!(raw[0], 3);
    assert_eq!(&raw[1..5], &0xdeadbeefu32.to_be_bytes()[..]);
    let back = decode_message(&raw).expect("decodes");
    assert_eq!(back.version, m.version);
    assert_eq!(back.nonce, m.nonce);
    assert_eq!(back.origin_domain, m.origin_domain);
    assert_eq!(back.sender.bytes, m.sender.bytes);
    assert_eq!(back.destination_domain, m.destination_domain);
    assert_eq!(back.recipient.bytes, m.recipient.bytes);
    assert_eq!(back.body, m.body);
}

#[test]
fn short_message_is_a_malformed_encoding() {
    let raw = vec![0u8; 76];
    assert!(matches!(
        decode_message(&raw),
        Err(HyperlaneTronError::AbiEncodingError)
    ));
}

#[test]
fn insertion_event_decodes_id_and_index() {
    let mut data = vec![0x5au8; 32];
    data.extend_from_slice(&word(1234));
    let ins = decode_insertion(&data).expect("decodes");
    assert_eq!(ins.leaf_index, 1234);
    assert_eq!(ins.message_id.bytes, vec![0x5au8; 32]);
}

#[test]
fn insertion_event_rejects_bad_shapes() {
    assert!(decode_insertion(&vec![0u8; 63]).is_err());
    let mut oversized_index = vec![0u8; 64];
    oversized_index[40] = 1;
    assert!(matches!(
        decode_insertion(&oversized_index),
        Err(HyperlaneTronError::AbiEncodingError)
    ));
}

#[test]
fn insertion_records_filter_by_emitter() {
    let target = vec![0xaau8; 20];
    let other = vec![0xbbu8; 20];
    let mut data = vec![0x5au8; 32];
    data.extend_from_slice(&word(77));
    let mine = RawLog { address: target.clone(), data: data.clone(), position: position(3, 0) };
    let foreign = RawLog { address: other, data, position: position(3, 1) };
    let records = insertion_records_from_logs(vec![foreign, mine], &target);
    assert_eq!(records.len(), 1);
    assert_eq!(records[0].insertion.leaf_index, 77);
    assert_eq!(records[0].position.log_index, 0);
}

//! Payload decoding behaviour.

use multisig_core::codec::{InitPayload, UpdateMembersIxData};
use multisig_core::error::ErrorKind;

fn key(b: u8) -> [u8; 32] {
    let mut k = [0u8; 32];
    k[0] = b;
    k
}

fn init_payload_bytes(min_threshold: u8, max_expiry: u64, keys: &[[u8; 32]]) -> Vec<u8> {
    let mut v = vec![min_threshold];
    v.extend_from_slice(&max_expiry.to_le_bytes());
    v.push(keys.len() as u8);
    for k in keys {
        v.extend_from_slice(k);
    }
    v
}

fn update_payload_bytes(
    update_type: u8,
    member_key: [u8; 32],
    permission: u8,
    is_active: u8,
    payer_index: u8,
    member_index: u8,
) -> Vec<u8> {
    let mut v = vec![update_type];
    v.extend_from_slice(&member_key);
    v.push(permission);
    v.push(is_active);
    v.push(payer_index);
    v.push(member_index);
    v
}

#[test]
fn init_decode_reads_every_field() {
    let data = init_payload_bytes(2, 1000, &[key(1), key(2)]);
    let p = InitPayload::decode(&data).unwrap();
    assert_eq!(p.min_threshold, 2);
    assert_eq!(p.max_expiry, 1000);
    assert_eq!(p.num_members, 2);
    assert_eq!(p.member_keys.len(), 2);
    assert_eq!(p.member_keys[0], key(1));
    assert_eq!(p.member_keys[1], key(2));
}

#[test]
fn init_decode_empty_roster() {
    let data = init_payload_bytes(1, 0, &[]);
    assert_eq!(data.len(), 10);
    let p = InitPayload::decode(&data).unwrap();
    assert_eq!(p.num_members, 0);
    assert_eq!(p.member_keys.len(), 0);
}

#[test]
fn init_decode_full_roster() {
    let keys: Vec<[u8; 32]> = (1..=10u8).map(key).collect();
    let data = init_payload_bytes(5, 7, &keys);
    assert_eq!(data.len(), 10 + 32 * 10);
    let p = InitPayload::decode(&data).unwrap();
    assert_eq!(p.num_members, 10);
    assert_eq!(p.member_keys[9], key(10));
}

#[test]
fn init_decode_truncated_every_short_length() {
    let data = init_payload_bytes(2, 1000, &[key(1), key(2)]);
    let required = 10 + 32 * 2;
    assert_eq!(data.len(), required);
    for len in 0..required {
        let r = InitPayload::decode(&data[..len]);
        assert_eq!(r, Err(ErrorKind::TruncatedPayload), "length {}", len);
    }
}

#[test]
fn init_decode_count_over_capacity_fails_invalid_field() {
    let mut data = init_payload_bytes(2, 1000, &[]);
    data[9] = 11;
    let r = InitPayload::decode(&data);
    assert_eq!(r, Err(ErrorKind::InvalidField));
}

#[test]
fn init_decode_max_expiry_little_endian() {
    let data = init_payload_bytes(0, 0x0102030405060708, &[]);
    assert_eq!(data[1], 0x08);
    assert_eq!(data[8], 0x01);
    let p = InitPayload::decode(&data).unwrap();
    assert_eq!(p.max_expiry, 0x0102030405060708);
}

#[test]
fn update_decode_reads_every_field() {
    let data = update_payload_bytes(2, key(9), 4, 1, 0, 3);
    let u = UpdateMembersIxData::decode(&data).unwrap();
    assert_eq!(u.update_type, 2);
    assert_eq!(u.member_key, key(9));
    assert_eq!(u.permission, 4);
    assert_eq!(u.is_active, 1);
    assert_eq!(u.payer_index, 0);
    assert_eq!(u.member_index, 3);
}

#[test]
fn update_decode_truncated_every_short_length() {
    let data = update_payload_bytes(0, key(1), 2, 1, 0, 1);
    assert_eq!(data.len(), 37);
    for len in 0..37 {
        let r = UpdateMembersIxData::decode(&data[..len]);
        assert_eq!(r, Err(ErrorKind::TruncatedPayload), "length {}", len);
    }
}

#[test]
fn update_decode_unknown_selector_fails_invalid_field() {
    let data = update_payload_bytes(3, key(1), 2, 1, 0, 1);
    assert_eq!(UpdateMembersIxData::decode(&data), Err(ErrorKind::InvalidField));
}

#[test]
fn update_decode_non_boolean_active_flag_fails_invalid_field() {
    let data = update_payload_bytes(0, key(1), 2, 2, 0, 1);
    assert_eq!(UpdateMembersIxData::decode(&data), Err(ErrorKind::InvalidField));
}

#[test]
fn update_decode_accepts_trailing_bytes() {
    let mut data = update_payload_bytes(1, key(1), 0, 0, 0, 1);
    data.push(0xAA);
    let u = UpdateMembersIxData::decode(&data).unwrap();
    assert_eq!(u.update_type, 1);
}

//! The update-members instruction processor: gating and dispatch.

use multisig_core::error::ErrorKind;
use multisig_core::member_state::{Member, Permission};
use multisig_core::multisig::Multisig;
use multisig_core::update_members::process_update_members_instruction;

fn key(b: u8) -> [u8; 32] {
    let mut k = [0u8; 32];
    k[0] = b;
    k
}

fn update_payload_bytes(
    update_type: u8,
    member_key: [u8; 32],
    permission: u8,
    is_active: u8,
    payer_index: u8,
    member_index: u8,
) -> Vec<u8> {
    let mut v = vec![update_type];
    v.extend_from_slice(&member_key);
    v.push(permission);
    v.push(is_active);
    v.push(payer_index);
    v.push(member_index);
    v
}

fn record_with(entries: &[Member]) -> Multisig {
    let mut members: Vec<Member> = entries.to_vec();
    while members.len() < 10 {
        members.push(Member::default());
    }
    Multisig {
        creator: key(100),
        treasury: key(101),
        treasury_bump: 254,
        bump: 255,
        min_threshold: 1,
        max_expiry: 0,
        transaction_index: 0,
        stale_transaction_index: 0,
        num_members: entries.len() as u8,
        members,
    }
}

#[test]
fn processor_admin_caller_adds_member() {
    let mut m = record_with(&[Member { key: key(1), permissions: Permission::Admin, is_active: 1 }]);
    let data = update_payload_bytes(0, key(2), 2, 1, 0, 1);
    let r = process_update_members_instruction(&mut m, &key(1), &data);
    assert_eq!(r, Ok(()));
    assert_eq!(m.num_members, 2);
    assert_eq!(m.members[1].key, key(2));
    assert_eq!(m.members[1].permissions, Permission::Vote);
}

#[test]
fn processor_rejects_non_admin_payer() {
    let mut m = record_with(&[
        Member { key: key(1), permissions: Permission::Admin, is_active: 1 },
        Member { key: key(2), permissions: Permission::Vote, is_active: 1 },
    ]);
    let before = m.clone();
    let data = update_payload_bytes(0, key(3), 2, 1, 1, 2);
    let r = process_update_members_instruction(&mut m, &key(2), &data);
    assert_eq!(r, Err(ErrorKind::Unauthorized));
    assert_eq!(m, before);
}

#[test]
fn processor_rejects_caller_key_mismatch() {
    let mut m = record_with(&[Member { key: key(1), permissions: Permission::Admin, is_active: 1 }]);
    let data = update_payload_bytes(0, key(3), 2, 1, 0, 1);
    let r = process_update_members_instruction(&mut m, &key(9), &data);
    assert_eq!(r, Err(ErrorKind::Unauthorized));
}

#[test]
fn processor_rejects_payer_index_out_of_range() {
    let mut m = record_with(&[Member { key: key(1), permissions: Permission::Admin, is_active: 1 }]);
    let data = update_payload_bytes(0, key(3), 2, 1, 7, 1);
    let r = process_update_members_instruction(&mut m, &key(1), &data);
    assert_eq!(r, Err(ErrorKind::Unauthorized));
}

#[test]
fn processor_rejects_truncated_payload() {
    let mut m = record_with(&[Member { key: key(1), permissions: Permission::Admin, is_active: 1 }]);
    let data = update_payload_bytes(0, key(2), 2, 1, 0, 1);
    let r = process_update_members_instruction(&mut m, &key(1), &data[..36]);
    assert_eq!(r, Err(ErrorKind::TruncatedPayload));
}

#[test]
fn processor_rejects_unknown_selector() {
    let mut m = record_with(&[Member { key: key(1), permissions: Permission::Admin, is_active: 1 }]);
    let data = update_payload_bytes(5, key(2), 2, 1, 0, 1);
    let r = process_update_members_instruction(&mut m, &key(1), &data);
    assert_eq!(r, Err(ErrorKind::InvalidField));
}

#[test]
fn processor_remove_keeps_other_fields() {
    let mut m = record_with(&[
        Member { key: key(1), permissions: Permission::Admin, is_active: 1 },
        Member { key: key(2), permissions: Permission::Vote, is_active: 1 },
    ]);
    let data = update_payload_bytes(1, key(2), 0, 0, 0, 1);
    let r = process_update_members_instruction(&mut m, &key(1), &data);
    assert_eq!(r, Ok(()));
    assert_eq!(m.num_members, 1);
    assert_eq!(m.creator, key(100));
    assert_eq!(m.treasury, key(101));
    assert_eq!(m.members[1], Member::default());
}

#[test]
fn processor_propagates_roster_errors() {
    let mut m = record_with(&[Member { key: key(1), permissions: Permission::Admin, is_active: 1 }]);
    let data = update_payload_bytes(1, key(1), 0, 0, 0, 0);
    let r = process_update_members_instruction(&mut m, &key(1), &data);
    assert_eq!(r, Err(ErrorKind::LastAdminRemoval));
}

//! Roster mutation engine behaviour.

use multisig_core::error::ErrorKind;
use multisig_core::member_state::{update_member, Member, Permission};

fn key(b: u8) -> [u8; 32] {
    let mut k = [0u8; 32];
    k[0] = b;
    k
}

fn member(b: u8, perm: Permission, active: u8) -> Member {
    Member { key: key(b), permissions: perm, is_active: active }
}

fn roster(ms: &[Member]) -> (Vec<Member>, u8) {
    let mut v: Vec<Member> = ms.to_vec();
    while v.len() < 10 {
        v.push(Member::default());
    }
    (v, ms.len() as u8)
}

#[test]
fn add_appends_at_first_free_slot() {
    let (mut members, mut num) = roster(&[member(1, Permission::Admin, 1)]);
    let r = update_member(0, key(2), 2, 1, 1, &mut members, &mut num);
    assert_eq!(r, Ok(()));
    assert_eq!(num, 2);
    assert_eq!(members[1].key, key(2));
    assert_eq!(members[1].permissions, Permission::Vote);
    assert_eq!(members[1].is_active, 1);
}

#[test]
fn add_full_roster_fails_roster_full_and_mutates_nothing() {
    let mut entries = Vec::new();
    for b in 1..=10u8 {
        entries.push(member(b, Permission::Vote, 1));
    }
    entries[0].permissions = Permission::Admin;
    let (mut members, mut num) = roster(&entries);
    let before = members.clone();
    let r = update_member(0, key(11), 2, 1, 10, &mut members, &mut num);
    assert_eq!(r, Err(ErrorKind::RosterFull));
    assert_eq!(members, before);
    assert_eq!(num, 10);
}

#[test]
fn add_full_roster_reports_roster_full_before_bad_index() {
    let mut entries = Vec::new();
    for b in 1..=10u8 {
        entries.push(member(b, Permission::Vote, 1));
    }
    let (mut members, mut num) = roster(&entries);
    let r = update_member(0, key(11), 2, 1, 0, &mut members, &mut num);
    assert_eq!(r, Err(ErrorKind::RosterFull));
}

#[test]
fn remove_without_any_admin_succeeds() {
    // The lockout guard only fires when the removal would take the last
    // active admin away; a roster that already has none stays editable.
    let (mut members, mut num) = roster(&[member(1, Permission::Vote, 1)]);
    let r = update_member(1, key(1), 0, 0, 0, &mut members, &mut num);
    assert_eq!(r, Ok(()));
    assert_eq!(num, 0);
}

#[test]
fn add_duplicate_key_fails() {
    let (mut members, mut num) = roster(&[member(1, Permission::Admin, 1)]);
    let before = members.clone();
    let r = update_member(0, key(1), 2, 1, 1, &mut members, &mut num);
    assert_eq!(r, Err(ErrorKind::DuplicateMember));
    assert_eq!(members, before);
    assert_eq!(num, 1);
}

#[test]
fn add_zero_key_fails_invalid_field() {
    let (mut members, mut num) = roster(&[member(1, Permission::Admin, 1)]);
    let r = update_member(0, [0u8; 32], 2, 1, 1, &mut members, &mut num);
    assert_eq!(r, Err(ErrorKind::InvalidField));
    assert_eq!(num, 1);
}

#[test]
fn add_wrong_slot_fails_invalid_index() {
    let (mut members, mut num) = roster(&[member(1, Permission::Admin, 1)]);
    let r = update_member(0, key(2), 2, 1, 5, &mut members, &mut num);
    assert_eq!(r, Err(ErrorKind::InvalidIndex));
    assert_eq!(num, 1);
}

#[test]
fn remove_shifts_tail_left_and_clears_last_slot() {
    let (mut members, mut num) = roster(&[
        member(1, Permission::Admin, 1),
        member(2, Permission::Vote, 1),
        member(3, Permission::VoteAndExecute, 0),
    ]);
    let r = update_member(1, key(2), 0, 0, 1, &mut members, &mut num);
    assert_eq!(r, Ok(()));
    assert_eq!(num, 2);
    assert_eq!(members[0].key, key(1));
    assert_eq!(members[1].key, key(3));
    assert_eq!(members[2], Member::default());
}

#[test]
fn remove_empty_roster_fails_roster_empty() {
    let (mut members, mut num) = roster(&[]);
    let r = update_member(1, key(1), 0, 0, 0, &mut members, &mut num);
    assert_eq!(r, Err(ErrorKind::RosterEmpty));
    assert_eq!(num, 0);
}

#[test]
fn remove_out_of_range_fails_invalid_index() {
    let (mut members, mut num) = roster(&[member(1, Permission::Admin, 1)]);
    let r = update_member(1, key(1), 0, 0, 3, &mut members, &mut num);
    assert_eq!(r, Err(ErrorKind::InvalidIndex));
    assert_eq!(num, 1);
}

#[test]
fn remove_sole_active_admin_fails_last_admin_removal() {
    let (mut members, mut num) = roster(&[
        member(1, Permission::Admin, 1),
        member(2, Permission::Vote, 1),
    ]);
    let before = members.clone();
    let r = update_member(1, key(1), 0, 0, 0, &mut members, &mut num);
    assert_eq!(r, Err(ErrorKind::LastAdminRemoval));
    assert_eq!(members, before);
    assert_eq!(num, 2);
}

#[test]
fn remove_admin_with_second_admin_present_succeeds() {
    let (mut members, mut num) = roster(&[
        member(1, Permission::Admin, 1),
        member(2, Permission::Admin, 1),
    ]);
    let r = update_member(1, key(1), 0, 0, 0, &mut members, &mut num);
    assert_eq!(r, Ok(()));
    assert_eq!(num, 1);
    assert_eq!(members[0].key, key(2));
}

#[test]
fn remove_then_remove_admin_scenario() {
    // Roster [Admin:X, Vote:Y]: removing Y succeeds, then removing X is
    // refused as the last admin.
    let (mut members, mut num) = roster(&[
        member(1, Permission::Admin, 1),
        member(2, Permission::Vote, 1),
    ]);
    let r = update_member(1, key(2), 0, 0, 1, &mut members, &mut num);
    assert_eq!(r, Ok(()));
    assert_eq!(num, 1);
    assert_eq!(members[0].key, key(1));
    assert_eq!(members[0].permissions, Permission::Admin);
    let r2 = update_member(1, key(1), 0, 0, 0, &mut members, &mut num);
    assert_eq!(r2, Err(ErrorKind::LastAdminRemoval));
    assert_eq!(num, 1);
}

#[test]
fn add_then_remove_restores_roster() {
    let (mut members, mut num) = roster(&[
        member(1, Permission::Admin, 1),
        member(2, Permission::Vote, 0),
    ]);
    let before = members.clone();
    let r = update_member(0, key(3), 3, 1, 2, &mut members, &mut num);
    assert_eq!(r, Ok(()));
    let r2 = update_member(1, key(3), 0, 0, 2, &mut members, &mut num);
    assert_eq!(r2, Ok(()));
    assert_eq!(members, before);
    assert_eq!(num, 2);
}

#[test]
fn update_permission_rewrites_slot_in_place() {
    let (mut members, mut num) = roster(&[
        member(1, Permission::Admin, 1),
        member(2, Permission::Vote, 1),
    ]);
    let r = update_member(2, key(2), 4, 0, 1, &mut members, &mut num);
    assert_eq!(r, Ok(()));
    assert_eq!(num, 2);
    assert_eq!(members[1].key, key(2));
    assert_eq!(members[1].permissions, Permission::Admin);
    assert_eq!(members[1].is_active, 0);
}

#[test]
fn update_permission_demoting_sole_admin_fails() {
    let (mut members, mut num) = roster(&[
        member(1, Permission::Admin, 1),
        member(2, Permission::Vote, 1),
    ]);
    let before = members.clone();
    let r = update_member(2, key(1), 2, 1, 0, &mut members, &mut num);
    assert_eq!(r, Err(ErrorKind::LastAdminRemoval));
    assert_eq!(members, before);
}

#[test]
fn update_permission_deactivating_sole_admin_fails() {
    let (mut members, mut num) = roster(&[member(1, Permission::Admin, 1)]);
    let r = update_member(2, key(1), 4, 0, 0, &mut members, &mut num);
    assert_eq!(r, Err(ErrorKind::LastAdminRemoval));
}

#[test]
fn update_permission_keeping_sole_admin_active_succeeds() {
    let (mut members, mut num) = roster(&[member(1, Permission::Admin, 1)]);
    let r = update_member(2, key(1), 4, 1, 0, &mut members, &mut num);
    assert_eq!(r, Ok(()));
    assert_eq!(members[0].permissions, Permission::Admin);
    assert_eq!(members[0].is_active, 1);
}

#[test]
fn unknown_update_type_fails_invalid_field() {
    let (mut members, mut num) = roster(&[member(1, Permission::Admin, 1)]);
    let r = update_member(3, key(2), 2, 1, 1, &mut members, &mut num);
    assert_eq!(r, Err(ErrorKind::InvalidField));
}

#[test]
fn permission_byte_codec() {
    assert_eq!(Permission::from_u8(1), Permission::Readonly);
    assert_eq!(Permission::from_u8(2), Permission::Vote);
    assert_eq!(Permission::from_u8(3), Permission::VoteAndExecute);
    assert_eq!(Permission::from_u8(4), Permission::Admin);
    assert_eq!(Permission::from_u8(0), Permission::Readonly);
    assert_eq!(Permission::from_u8(255), Permission::Readonly);
    assert_eq!(Permission::Readonly.to_u8(), 0);
    assert_eq!(Permission::Vote.to_u8(), 1);
    assert_eq!(Permission::VoteAndExecute.to_u8(), 2);
    assert_eq!(Permission::Admin.to_u8(), 3);
}

#[test]
fn default_member_is_empty_slot() {
    let m = Member::default();
    assert_eq!(m.key, [0u8; 32]);
    assert_eq!(m.permissions, Permission::Readonly);
    assert_eq!(m.is_active, 0);
}

//! The update-members instruction: permission-gated roster mutation.
//!
//! The caller supplies a raw payload naming an operation, a member key, a
//! privilege, an active flag, and two slot indices.  The payload is decoded
//! under strict bounds checks, the paying slot is authenticated against the
//! calling key and must hold admin privilege, and only then is the roster
//! mutated.  Every failure leaves the record untouched.

use vstd::prelude::*;

use crate::codec::{UpdateMembersIxData, UPDATE_MEMBERS_IX_LEN};
use crate::error::ErrorKind;
use crate::member_state::{add_error, add_transition, remove_error, remove_transition,
    set_permission_error, set_permission_transition, update_member, Permission};
use crate::multisig::Multisig;
use crate::pubkey::{pubkey_eq, Pubkey};

verus! {

/// Whether slot `payer_index` authorizes `caller` to mutate the roster of
/// `m`: the slot is occupied, holds the calling key, and carries admin
/// privilege.
pub open spec fn update_authorized(m: Multisig, caller: Seq<u8>, payer_index: int) -> bool {
    &&& payer_index < m.num_members as int
    &&& m.members@[payer_index].key@ == caller
    &&& m.members@[payer_index].permissions == Permission::Admin
}

/// Whether an update-members payload decodes: long enough, a known
/// operation selector, a boolean active flag.
pub open spec fn update_payload_ok(data: Seq<u8>) -> bool {
    &&& data.len() >= UPDATE_MEMBERS_IX_LEN
    &&& data[0] <= 2
    &&& data[34] <= 1
}

/// Decode an update-members payload, authenticate the paying admin slot
/// against `caller`, and apply the requested roster mutation to
/// `multisig`.  Fields outside the roster never change.
pub fn process_update_members_instruction(
    multisig: &mut Multisig,
    caller: &Pubkey,
    data: &[u8],
) -> (r: Result<(), ErrorKind>)
    requires
        old(multisig).wf(),
    ensures
        final(multisig).wf(),
        final(multisig).creator@ == old(multisig).creator@,
        final(multisig).treasury@ == old(multisig).treasury@,
        final(multisig).treasury_bump == old(multisig).treasury_bump,
        final(multisig).bump == old(multisig).bump,
        final(multisig).min_threshold == old(multisig).min_threshold,
        final(multisig).max_expiry == old(multisig).max_expiry,
        final(multisig).transaction_index == old(multisig).transaction_index,
        final(multisig).stale_transaction_index == old(multisig).stale_transaction_index,
        r is Err ==> final(multisig).members@ == old(multisig).members@
            && final(multisig).num_members == old(multisig).num_members,
        data@.len() < UPDATE_MEMBERS_IX_LEN ==> r == Err::<(), ErrorKind>(
            ErrorKind::TruncatedPayload,
        ),
        data@.len() >= UPDATE_MEMBERS_IX_LEN && (data@[0] > 2 || data@[34] > 1) ==> r == Err::<
            (),
            ErrorKind,
        >(ErrorKind::InvalidField),
        update_payload_ok(data@) && !update_authorized(*old(multisig), caller@, data@[35] as int)
            ==> r == Err::<(), ErrorKind>(ErrorKind::Unauthorized),
        update_payload_ok(data@) && update_authorized(*old(multisig), caller@, data@[35] as int)
            && data@[0] == 0 ==> (match add_error(
            old(multisig).members@,
            old(multisig).num_members as int,
            data@.subrange(1, 33),
            data@[36] as int,
        ) {
            Some(e) => r == Err::<(), ErrorKind>(e),
            None => {
                &&& r is Ok
                &&& final(multisig).num_members == old(multisig).num_members + 1
                &&& add_transition(
                    old(multisig).members@,
                    final(multisig).members@,
                    old(multisig).num_members as int,
                    data@.subrange(1, 33),
                    Permission::spec_from_u8(data@[33]),
                    data@[34],
                )
            },
        }),
        update_payload_ok(data@) && update_authorized(*old(multisig), caller@, data@[35] as int)
            && data@[0] == 1 ==> (match remove_error(
            old(multisig).members@,
            old(multisig).num_members as int,
            data@[36] as int,
        ) {
            Some(e) => r == Err::<(), ErrorKind>(e),
            None => {
                &&& r is Ok
                &&& final(multisig).num_members == old(multisig).num_members - 1
                &&& remove_transition(
                    old(multisig).members@,
                    final(multisig).members@,
                    old(multisig).num_members as int,
                    data@[36] as int,
                )
            },
        }),
        update_payload_ok(data@) && update_authorized(*old(multisig), caller@, data@[35] as int)
            && data@[0] == 2 ==> (match set_permission_error(
            old(multisig).members@,
            old(multisig).num_members as int,
            data@[36] as int,
            Permission::spec_from_u8(data@[33]),
            data@[34],
        ) {
            Some(e) => r == Err::<(), ErrorKind>(e),
            None => {
                &&& r is Ok
                &&& final(multisig).num_members == old(multisig).num_members
                &&& set_permission_transition(
                    old(multisig).members@,
                    final(multisig).members@,
                    data@[36] as int,
                    Permission::spec_from_u8(data@[33]),
                    data@[34],
                )
            },
        }),
{
    let ix = match UpdateMembersIxData::decode(data) {
        Ok(ix) => ix,
        Err(e) => {
            return Err(e);
        },
    };
    if ix.payer_index >= multisig.num_members {
        return Err(ErrorKind::Unauthorized);
    }
    let payer = multisig.members[ix.payer_index as usize];
    if !pubkey_eq(&payer.key, caller) {
        return Err(ErrorKind::Unauthorized);
    }
    if !(payer.permissions == Permission::Admin) {
        return Err(ErrorKind::Unauthorized);
    }
    let mut num = multisig.num_members;
    let res = update_member(
        ix.update_type,
        ix.member_key,
        ix.permission,
        ix.is_active,
        ix.member_index,
        &mut multisig.members,
        &mut num,
    );
    multisig.num_members = num;
    res
}

} // verus!

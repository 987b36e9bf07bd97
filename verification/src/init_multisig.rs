//! The initialize instruction: ownership-gated multisig provisioning.
//!
//! The caller names a creator, the addresses it claims for the multisig
//! record and the treasury vault, and an init payload.  Both claimed
//! addresses are authenticated against their deterministic derivations,
//! provisioning is refused when a target account is already owned by the
//! program, the payload is decoded under strict bounds checks, and only
//! then is the record populated.  The host writes the returned record and
//! allocates the accounts; nothing here is written on failure.

use vstd::bytes::spec_u64_from_le_bytes;
use vstd::prelude::*;

use crate::codec::{init_keys_valid, init_member_key, init_required_len, keys_distinct_and_nonzero,
    InitPayload, INIT_HEADER_LEN, INIT_MAX_MEMBERS};
use crate::error::ErrorKind;
use crate::member_state::Permission;
use crate::multisig::Multisig;
use crate::pda::{derive_multisig_address, derive_treasury_address, derived_pda, multisig_tag,
    treasury_tag};
use crate::pubkey::{is_zero_key, pubkey_eq, Pubkey};

verus! {

/// Whether both claimed addresses are exactly their derivations: the
/// multisig record address from the creator key, and the treasury address
/// from the multisig record address.
pub open spec fn init_addresses_ok(
    program_id: Seq<u8>,
    creator: Seq<u8>,
    claimed_multisig: Seq<u8>,
    claimed_treasury: Seq<u8>,
) -> bool {
    match derived_pda(multisig_tag(), creator, program_id) {
        Some(p) => p.0 == claimed_multisig && (match derived_pda(
            treasury_tag(),
            claimed_multisig,
            program_id,
        ) {
            Some(q) => q.0 == claimed_treasury,
            None => false,
        }),
        None => false,
    }
}

/// Whether an init payload decodes: a full header, a count within
/// capacity, and every declared key present.
pub open spec fn init_payload_ok(data: Seq<u8>) -> bool {
    &&& data.len() >= INIT_HEADER_LEN
    &&& data[9] <= INIT_MAX_MEMBERS
    &&& data.len() >= init_required_len(data[9] as int)
}

/// Whether record `m` is exactly the record these initialization inputs
/// must produce: creator and treasury linkage, the bump seeds of both
/// derivations, thresholds from the payload, counters at zero, and the
/// payload's keys as the occupied roster prefix, each a voter and active.
pub open spec fn init_record_ok(
    program_id: Seq<u8>,
    creator: Pubkey,
    claimed_multisig: Pubkey,
    claimed_treasury: Pubkey,
    data: Seq<u8>,
    m: Multisig,
) -> bool {
    &&& m.creator@ == creator@
    &&& m.treasury@ == claimed_treasury@
    &&& (derived_pda(multisig_tag(), creator@, program_id) matches Some(p) && m.bump == p.1)
    &&& (derived_pda(treasury_tag(), claimed_multisig@, program_id) matches Some(q)
        && m.treasury_bump == q.1)
    &&& m.min_threshold == data[0]
    &&& m.max_expiry == spec_u64_from_le_bytes(data.subrange(1, 9))
    &&& m.transaction_index == 0
    &&& m.stale_transaction_index == 0
    &&& m.num_members == data[9]
    &&& forall|i: int|
        0 <= i < data[9] as int ==> (#[trigger] m.members@[i]).key@ == init_member_key(data, i)
            && m.members@[i].permissions == Permission::Vote && m.members@[i].is_active == 1
}

/// Authenticate the claimed addresses, refuse re-provisioning, decode the
/// payload, and populate a fresh multisig record.  The caller allocates
/// the accounts and persists the record only on success.
pub fn process_init_multisig_instruction(
    program_id: &Pubkey,
    creator: &Pubkey,
    claimed_multisig: &Pubkey,
    claimed_treasury: &Pubkey,
    multisig_owner: &Pubkey,
    treasury_owner: &Pubkey,
    data: &[u8],
) -> (r: Result<Multisig, ErrorKind>)
    ensures
        !init_addresses_ok(program_id@, creator@, claimed_multisig@, claimed_treasury@) ==> r
            == Err::<Multisig, ErrorKind>(ErrorKind::InvalidDerivedAddress),
        init_addresses_ok(program_id@, creator@, claimed_multisig@, claimed_treasury@) && (
        multisig_owner@ == program_id@ || treasury_owner@ == program_id@) ==> r == Err::<
            Multisig,
            ErrorKind,
        >(ErrorKind::AlreadyInitialized),
        init_addresses_ok(program_id@, creator@, claimed_multisig@, claimed_treasury@)
            && multisig_owner@ != program_id@ && treasury_owner@ != program_id@ ==> {
            &&& data@.len() < INIT_HEADER_LEN ==> r == Err::<Multisig, ErrorKind>(
                ErrorKind::TruncatedPayload,
            )
            &&& data@.len() >= INIT_HEADER_LEN && data@[9] > INIT_MAX_MEMBERS ==> r == Err::<
                Multisig,
                ErrorKind,
            >(ErrorKind::InvalidField)
            &&& data@.len() >= INIT_HEADER_LEN && data@[9] <= INIT_MAX_MEMBERS && data@.len()
                < init_required_len(data@[9] as int) ==> r == Err::<Multisig, ErrorKind>(
                ErrorKind::TruncatedPayload,
            )
            &&& init_payload_ok(data@) && !init_keys_valid(data@) ==> r == Err::<
                Multisig,
                ErrorKind,
            >(ErrorKind::InvalidField)
            &&& init_payload_ok(data@) && init_keys_valid(data@) ==> (r matches Ok(m) && m.wf()
                && init_record_ok(
                program_id@,
                *creator,
                *claimed_multisig,
                *claimed_treasury,
                data@,
                m,
            ))
        },
{
    let multisig_bump: u8;
    match derive_multisig_address(creator, program_id) {
        Some(p) => {
            if !pubkey_eq(&p.0, claimed_multisig) {
                return Err(ErrorKind::InvalidDerivedAddress);
            }
            multisig_bump = p.1;
        },
        None => {
            return Err(ErrorKind::InvalidDerivedAddress);
        },
    }
    let treasury_bump: u8;
    match derive_treasury_address(claimed_multisig, program_id) {
        Some(q) => {
            if !pubkey_eq(&q.0, claimed_treasury) {
                return Err(ErrorKind::InvalidDerivedAddress);
            }
            treasury_bump = q.1;
        },
        None => {
            return Err(ErrorKind::InvalidDerivedAddress);
        },
    }
    if pubkey_eq(multisig_owner, program_id) {
        return Err(ErrorKind::AlreadyInitialized);
    }
    if pubkey_eq(treasury_owner, program_id) {
        return Err(ErrorKind::AlreadyInitialized);
    }
    let payload = match InitPayload::decode(data) {
        Ok(p) => p,
        Err(e) => {
            return Err(e);
        },
    };
    if !keys_distinct_and_nonzero(&payload.member_keys) {
        proof {
            assert(!init_keys_valid(data@));
        }
        return Err(ErrorKind::InvalidField);
    }
    proof {
        assert forall|i: int| 0 <= i < data@[9] as int implies !is_zero_key(
            #[trigger] init_member_key(data@, i),
        ) by {
            assert(payload.member_keys@[i]@ == init_member_key(data@, i));
        }
        assert forall|i: int, j: int|
            0 <= i < j < data@[9] as int implies (#[trigger] init_member_key(data@, i)) != (
        #[trigger] init_member_key(data@, j)) by {
            assert(payload.member_keys@[i]@ == init_member_key(data@, i));
            assert(payload.member_keys@[j]@ == init_member_key(data@, j));
        }
        assert(init_keys_valid(data@));
    }
    let record = Multisig::new(creator, claimed_treasury, treasury_bump, multisig_bump, &payload);
    Ok(record)
}

} // verus!

//! Strict decoding of instruction payloads.
//!
//! Payloads arrive as raw byte sequences supplied by the caller and are
//! treated as untrusted: every field read is bounds-checked against the
//! actual buffer length, and a buffer shorter than the layout requires is
//! refused before any byte past its end would be touched.

use vstd::bytes::{spec_u64_from_le_bytes, u64_from_le_bytes};
use vstd::prelude::*;
use vstd::slice::slice_subrange;

use crate::error::ErrorKind;
use crate::pubkey::{is_zero_key, pubkey_eq, Pubkey};

verus! {

/// Fixed prefix of an init payload: threshold (1), expiry (8), count (1).
pub const INIT_HEADER_LEN: usize = 10;

/// Width of one member key in an init payload.
pub const INIT_KEY_LEN: usize = 32;

/// Largest member count an init payload may declare.
pub const INIT_MAX_MEMBERS: u8 = 10;

/// Exact byte length of an update-members payload.
pub const UPDATE_MEMBERS_IX_LEN: usize = 37;

/// Length an init payload declaring `n` members must have.
pub open spec fn init_required_len(n: int) -> int {
    INIT_HEADER_LEN + INIT_KEY_LEN * n
}

/// The bytes of the `i`-th member key of an init payload.
pub open spec fn init_member_key(data: Seq<u8>, i: int) -> Seq<u8> {
    data.subrange(
        INIT_HEADER_LEN + INIT_KEY_LEN * i,
        INIT_HEADER_LEN + INIT_KEY_LEN * i + INIT_KEY_LEN,
    )
}

/// Whether the member keys an init payload carries are pairwise distinct
/// and none is the reserved all-zero key.
pub open spec fn init_keys_valid(data: Seq<u8>) -> bool {
    &&& forall|i: int|
        0 <= i < data[9] as int ==> !is_zero_key(#[trigger] init_member_key(data, i))
    &&& forall|i: int, j: int|
        0 <= i < j < data[9] as int ==> (#[trigger] init_member_key(data, i)) != (
        #[trigger] init_member_key(data, j))
}

/// Decoded init payload: roster parameters and the initial member keys.
#[derive(Clone, Debug, PartialEq, Eq)]
pub struct InitPayload {
    pub min_threshold: u8,
    pub max_expiry: u64,
    pub num_members: u8,
    pub member_keys: Vec<Pubkey>,
}

impl InitPayload {
    /// Structural validity: the declared count is within capacity and
    /// matches the number of carried keys.
    pub open spec fn wf(self) -> bool {
        &&& self.num_members <= INIT_MAX_MEMBERS
        &&& self.member_keys@.len() == self.num_members as int
    }

    /// Decode an init payload.
    ///
    /// Layout: `min_threshold` (1 byte), `max_expiry` (8 bytes, unsigned
    /// little-endian), `num_members` (1 byte, at most 10), then exactly
    /// `num_members` 32-byte member keys.  A buffer shorter than the length
    /// its own count declares is refused as truncated; a count over
    /// capacity is refused as an invalid field.
    pub fn decode(data: &[u8]) -> (r: Result<InitPayload, ErrorKind>)
        ensures
            data@.len() < INIT_HEADER_LEN ==> r == Err::<InitPayload, ErrorKind>(
                ErrorKind::TruncatedPayload,
            ),
            data@.len() >= INIT_HEADER_LEN && data@[9] > INIT_MAX_MEMBERS ==> r == Err::<
                InitPayload,
                ErrorKind,
            >(ErrorKind::InvalidField),
            data@.len() >= INIT_HEADER_LEN && data@[9] <= INIT_MAX_MEMBERS && data@.len()
                < init_required_len(data@[9] as int) ==> r == Err::<InitPayload, ErrorKind>(
                ErrorKind::TruncatedPayload,
            ),
            data@.len() >= INIT_HEADER_LEN && data@[9] <= INIT_MAX_MEMBERS && data@.len()
                >= init_required_len(data@[9] as int) ==> (r matches Ok(p) && {
                &&& p.wf()
                &&& p.min_threshold == data@[0]
                &&& p.max_expiry == spec_u64_from_le_bytes(data@.subrange(1, 9))
                &&& p.num_members == data@[9]
                &&& forall|i: int|
                    0 <= i < data@[9] as int ==> (#[trigger] p.member_keys@[i])@
                        == init_member_key(data@, i)
            }),
    {
        if data.len() < INIT_HEADER_LEN {
            return Err(ErrorKind::TruncatedPayload);
        }
        let min_threshold = data[0];
        let max_expiry = u64_from_le_bytes(slice_subrange(data, 1, 9));
        let num_members = data[9];
        if num_members > INIT_MAX_MEMBERS {
            return Err(ErrorKind::InvalidField);
        }
        let required = INIT_HEADER_LEN + INIT_KEY_LEN * (num_members as usize);
        if data.len() < required {
            return Err(ErrorKind::TruncatedPayload);
        }
        let mut member_keys: Vec<Pubkey> = Vec::new();
        let mut i: usize = 0;
        while i < num_members as usize
            invariant
                i <= num_members as int,
                num_members <= INIT_MAX_MEMBERS,
                data@.len() >= init_required_len(num_members as int),
                member_keys@.len() == i,
                forall|t: int|
                    0 <= t < i ==> (#[trigger] member_keys@[t])@ == init_member_key(data@, t),
            decreases num_members as int - i,
        {
            let base = INIT_HEADER_LEN + INIT_KEY_LEN * i;
            let mut k: Pubkey = [0u8; 32];
            let mut j: usize = 0;
            while j < INIT_KEY_LEN
                invariant
                    j <= INIT_KEY_LEN as int,
                    i < num_members as int,
                    num_members <= INIT_MAX_MEMBERS,
                    base == INIT_HEADER_LEN + INIT_KEY_LEN * i,
                    data@.len() >= init_required_len(num_members as int),
                    forall|t: int| 0 <= t < j ==> k@[t] == data@[base + t],
                decreases INIT_KEY_LEN as int - j,
            {
                k[j] = data[base + j];
                j = j + 1;
            }
            proof {
                assert(k@ =~= init_member_key(data@, i as int));
            }
            member_keys.push(k);
            i = i + 1;
        }
        Ok(InitPayload { min_threshold, max_expiry, num_members, member_keys })
    }
}

/// Whether `keys` are pairwise distinct with none the reserved zero key.
pub fn keys_distinct_and_nonzero(keys: &Vec<Pubkey>) -> (r: bool)
    ensures
        r <==> ({
            &&& forall|i: int|
                0 <= i < keys@.len() ==> !is_zero_key((#[trigger] keys@[i])@)
            &&& forall|i: int, j: int|
                0 <= i < j < keys@.len() ==> (#[trigger] keys@[i])@ != (#[trigger] keys@[j])@
        }),
{
    let n = keys.len();
    let mut i: usize = 0;
    while i < n
        invariant
            i <= n == keys@.len(),
            forall|t: int| 0 <= t < i ==> !is_zero_key((#[trigger] keys@[t])@),
            forall|t: int, u: int| 0 <= t < u < i ==> (#[trigger] keys@[t])@ != (#[trigger] keys@[u])@,
        decreases n - i,
    {
        let mut zero = true;
        let mut b: usize = 0;
        while b < 32
            invariant
                b <= 32,
                i < keys@.len(),
                zero <==> (forall|t: int| 0 <= t < b ==> keys@[i as int]@[t] == 0),
            decreases 32 - b,
        {
            if keys[i][b] != 0 {
                zero = false;
            }
            b = b + 1;
        }
        if zero {
            proof {
                assert(keys@[i as int]@.len() == 32);
                assert(is_zero_key(keys@[i as int]@));
            }
            return false;
        }
        let mut j: usize = 0;
        while j < i
            invariant
                j <= i < keys@.len(),
                forall|t: int| 0 <= t < j ==> (#[trigger] keys@[t])@ != keys@[i as int]@,
            decreases i - j,
        {
            if pubkey_eq(&keys[j], &keys[i]) {
                return false;
            }
            j = j + 1;
        }
        i = i + 1;
    }
    true
}

/// Decoded update-members payload: the operation selector, its subject key,
/// the new privilege and active flag, and the payer and member slot indices.
#[derive(Clone, Copy, Debug, PartialEq, Eq)]
pub struct UpdateMembersIxData {
    pub update_type: u8,
    pub member_key: Pubkey,
    pub permission: u8,
    pub is_active: u8,
    pub payer_index: u8,
    pub member_index: u8,
}

impl UpdateMembersIxData {
    /// Decode an update-members payload.
    ///
    /// Layout: `update_type` (1 byte: 0 add, 1 remove, 2 update
    /// permission), `member_key` (32 bytes), `permission` (1 byte),
    /// `is_active` (1 byte: 0 or 1), `payer_index` (1 byte), `member_index`
    /// (1 byte).  A shorter buffer is refused as truncated; an unknown
    /// operation selector or a non-boolean active flag as an invalid field.
    pub fn decode(data: &[u8]) -> (r: Result<UpdateMembersIxData, ErrorKind>)
        ensures
            data@.len() < UPDATE_MEMBERS_IX_LEN ==> r == Err::<UpdateMembersIxData, ErrorKind>(
                ErrorKind::TruncatedPayload,
            ),
            data@.len() >= UPDATE_MEMBERS_IX_LEN && (data@[0] > 2 || data@[34] > 1) ==> r == Err::<
                UpdateMembersIxData,
                ErrorKind,
            >(ErrorKind::InvalidField),
            data@.len() >= UPDATE_MEMBERS_IX_LEN && data@[0] <= 2 && data@[34] <= 1 ==> (r matches
                Ok(u) && {
                &&& u.update_type == data@[0]
                &&& u.member_key@ == data@.subrange(1, 33)
                &&& u.permission == data@[33]
                &&& u.is_active == data@[34]
                &&& u.payer_index == data@[35]
                &&& u.member_index == data@[36]
            }),
    {
        if data.len() < UPDATE_MEMBERS_IX_LEN {
            return Err(ErrorKind::TruncatedPayload);
        }
        let update_type = data[0];
        if update_type > 2 {
            return Err(ErrorKind::InvalidField);
        }
        let is_active = data[34];
        if is_active > 1 {
            return Err(ErrorKind::InvalidField);
        }
        let mut member_key: Pubkey = [0u8; 32];
        let mut j: usize = 0;
        while j < 32
            invariant
                j <= 32,
                data@.len() >= UPDATE_MEMBERS_IX_LEN,
                forall|t: int| 0 <= t < j ==> member_key@[t] == data@[1 + t],
            decreases 32 - j,
        {
            member_key[j] = data[1 + j];
            j = j + 1;
        }
        proof {
            assert(member_key@ =~= data@.subrange(1, 33));
        }
        Ok(
            UpdateMembersIxData {
                update_type,
                member_key,
                permission: data[33],
                is_active,
                payer_index: data[35],
                member_index: data[36],
            },
        )
    }
}

} // verus!

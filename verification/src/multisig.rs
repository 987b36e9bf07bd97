//! The multisig record: canonical schema, invariants, and byte layout.
//!
//! A record tracks the creator and treasury linkage of one multisig, the
//! bump seeds proving their derivation, proposal parameters, two monotone
//! transaction counters, and the member roster.  The record persists as a
//! fixed-size contiguous byte image with a stable field order; the codec
//! here pins every byte of that layout and validates every invariant when a
//! stored image is read back.

use vstd::bytes::{lemma_auto_spec_u64_to_from_le_bytes, spec_u64_from_le_bytes, u64_from_le_bytes,
    u64_to_le_bytes};
use vstd::prelude::*;
use vstd::slice::slice_subrange;

use crate::codec::InitPayload;
use crate::error::ErrorKind;
use crate::member_state::{is_default_member, roster_view_eq, roster_wf, Member, Permission,
    ROSTER_CAPACITY};
use crate::pubkey::{is_zero_key, is_zero_pubkey, pubkey_eq, Pubkey};

verus! {

/// Byte offset of the creator key in a stored record.
pub const OFF_CREATOR: usize = 0;

/// Byte offset of the treasury key.
pub const OFF_TREASURY: usize = 32;

/// Byte offset of the treasury bump seed.
pub const OFF_TREASURY_BUMP: usize = 64;

/// Byte offset of the record's own bump seed.
pub const OFF_BUMP: usize = 65;

/// Byte offset of the proposal threshold.
pub const OFF_MIN_THRESHOLD: usize = 66;

/// Byte offset of the proposal expiry bound.
pub const OFF_MAX_EXPIRY: usize = 67;

/// Byte offset of the transaction counter.
pub const OFF_TRANSACTION_INDEX: usize = 75;

/// Byte offset of the stale transaction counter.
pub const OFF_STALE_TRANSACTION_INDEX: usize = 83;

/// Byte offset of the member count.
pub const OFF_NUM_MEMBERS: usize = 91;

/// Byte offset of the first member slot.
pub const OFF_MEMBERS: usize = 92;

/// Stored width of one member slot: key, permission byte, active byte.
pub const MEMBER_ENTRY_LEN: usize = 34;

/// Total stored size of a multisig record.
pub const RECORD_LEN: usize = 432;

/// The canonical multisig record.
#[derive(Clone, Debug, PartialEq, Eq)]
pub struct Multisig {
    /// Key of the account that initialized this multisig.
    pub creator: Pubkey,
    /// Key of the linked treasury vault account.
    pub treasury: Pubkey,
    /// Bump seed proving the treasury derivation.
    pub treasury_bump: u8,
    /// Bump seed proving this record's own derivation.
    pub bump: u8,
    /// Minimum number of approving members required to execute a proposal.
    pub min_threshold: u8,
    /// Upper bound, in a time unit, on how long a proposal may stay open.
    pub max_expiry: u64,
    /// Sequence number of the most recent proposal.
    pub transaction_index: u64,
    /// Sequence number below which proposals are invalidated.
    pub stale_transaction_index: u64,
    /// Count of occupied roster slots.
    pub num_members: u8,
    /// The fixed-capacity member roster.
    pub members: Vec<Member>,
}

impl Multisig {
    /// Structural invariant: a well-formed roster and monotone counters.
    pub open spec fn wf(self) -> bool {
        &&& roster_wf(self.members@, self.num_members as int)
        &&& self.transaction_index >= self.stale_transaction_index
    }
}

/// Byte-for-byte equality of two records.
pub open spec fn multisig_view_eq(a: Multisig, b: Multisig) -> bool {
    &&& a.creator@ == b.creator@
    &&& a.treasury@ == b.treasury@
    &&& a.treasury_bump == b.treasury_bump
    &&& a.bump == b.bump
    &&& a.min_threshold == b.min_threshold
    &&& a.max_expiry == b.max_expiry
    &&& a.transaction_index == b.transaction_index
    &&& a.stale_transaction_index == b.stale_transaction_index
    &&& a.num_members == b.num_members
    &&& roster_view_eq(a.members@, b.members@)
}

/// The bytes of the `i`-th stored member key.
pub open spec fn record_member_key(data: Seq<u8>, i: int) -> Seq<u8> {
    data.subrange(OFF_MEMBERS + MEMBER_ENTRY_LEN * i, OFF_MEMBERS + MEMBER_ENTRY_LEN * i + 32)
}

/// The stored permission byte of the `i`-th member slot.
pub open spec fn record_member_perm(data: Seq<u8>, i: int) -> u8 {
    data[OFF_MEMBERS + MEMBER_ENTRY_LEN * i + 32]
}

/// The stored active byte of the `i`-th member slot.
pub open spec fn record_member_act(data: Seq<u8>, i: int) -> u8 {
    data[OFF_MEMBERS + MEMBER_ENTRY_LEN * i + 33]
}

/// Whether record `m` and byte image `data` agree, field for field, on the
/// stored layout.
pub open spec fn record_matches(m: Multisig, data: Seq<u8>) -> bool {
    &&& data.len() >= RECORD_LEN
    &&& m.creator@ == data.subrange(OFF_CREATOR as int, 32)
    &&& m.treasury@ == data.subrange(OFF_TREASURY as int, 64)
    &&& m.treasury_bump == data[OFF_TREASURY_BUMP as int]
    &&& m.bump == data[OFF_BUMP as int]
    &&& m.min_threshold == data[OFF_MIN_THRESHOLD as int]
    &&& m.max_expiry == spec_u64_from_le_bytes(data.subrange(OFF_MAX_EXPIRY as int, 75))
    &&& m.transaction_index == spec_u64_from_le_bytes(
        data.subrange(OFF_TRANSACTION_INDEX as int, 83),
    )
    &&& m.stale_transaction_index == spec_u64_from_le_bytes(
        data.subrange(OFF_STALE_TRANSACTION_INDEX as int, 91),
    )
    &&& m.num_members == data[OFF_NUM_MEMBERS as int]
    &&& m.members@.len() == ROSTER_CAPACITY
    &&& forall|i: int|
        0 <= i < ROSTER_CAPACITY ==> (#[trigger] m.members@[i]).key@ == record_member_key(data, i)
    &&& forall|i: int|
        0 <= i < ROSTER_CAPACITY ==> (#[trigger] m.members@[i]).permissions.spec_to_u8()
            == record_member_perm(data, i)
    &&& forall|i: int|
        0 <= i < ROSTER_CAPACITY ==> (#[trigger] m.members@[i]).is_active == record_member_act(
            data,
            i,
        )
}

/// Whether a stored byte image satisfies every record invariant.
pub open spec fn record_bytes_wf(data: Seq<u8>) -> bool {
    let num = data[OFF_NUM_MEMBERS as int] as int;
    &&& num <= ROSTER_CAPACITY
    &&& forall|i: int| 0 <= i < ROSTER_CAPACITY ==> #[trigger] record_member_perm(data, i) <= 3
    &&& forall|i: int| 0 <= i < num ==> !is_zero_key(#[trigger] record_member_key(data, i))
    &&& forall|i: int| 0 <= i < num ==> #[trigger] record_member_act(data, i) <= 1
    &&& forall|i: int, j: int|
        0 <= i < j < num ==> (#[trigger] record_member_key(data, i)) != (
        #[trigger] record_member_key(data, j))
    &&& forall|i: int|
        num <= i < ROSTER_CAPACITY ==> is_zero_key(#[trigger] record_member_key(data, i))
            && record_member_perm(data, i) == 0 && record_member_act(data, i) == 0
    &&& spec_u64_from_le_bytes(data.subrange(OFF_TRANSACTION_INDEX as int, 83))
        >= spec_u64_from_le_bytes(data.subrange(OFF_STALE_TRANSACTION_INDEX as int, 91))
}

/// Copy 32 bytes at `off` out of `data` into a key.
fn read_key(data: &[u8], off: usize) -> (k: Pubkey)
    requires
        off + 32 <= data@.len(),
    ensures
        k@ == data@.subrange(off as int, off as int + 32),
{
    let n: usize = data.len();
    proof {
        assert(off + 32 <= n);
    }
    let mut k: Pubkey = [0u8; 32];
    let mut j: usize = 0;
    while j < 32
        invariant
            j <= 32,
            off + 32 <= n == data@.len(),
            forall|t: int| 0 <= t < j ==> k@[t] == data@[off + t],
        decreases 32 - j,
    {
        k[j] = data[off + j];
        j = j + 1;
    }
    proof {
        assert(k@ =~= data@.subrange(off as int, off as int + 32));
    }
    k
}

/// Append the 32 bytes of a key to `out`.
fn push_key(out: &mut Vec<u8>, k: &Pubkey)
    ensures
        final(out)@ == old(out)@ + k@,
{
    let mut b: usize = 0;
    while b < 32
        invariant
            b <= 32,
            out@.len() == old(out)@.len() + b,
            forall|t: int| 0 <= t < old(out)@.len() ==> out@[t] == old(out)@[t],
            forall|t: int| 0 <= t < b ==> out@[old(out)@.len() + t] == k@[t],
        decreases 32 - b,
    {
        out.push(k[b]);
        b = b + 1;
    }
    proof {
        assert(out@ =~= old(out)@ + k@);
    }
}

impl Multisig {
    /// Populate a fresh record from initialization inputs: linkage and bump
    /// seeds as derived, thresholds from the payload, counters at zero, and
    /// the payload's keys as the occupied roster prefix, each a voter and
    /// active; every remaining slot is the default member.
    pub fn new(
        creator: &Pubkey,
        treasury: &Pubkey,
        treasury_bump: u8,
        multisig_bump: u8,
        payload: &InitPayload,
    ) -> (m: Multisig)
        requires
            payload.wf(),
            forall|i: int|
                0 <= i < payload.member_keys@.len() ==> !is_zero_key(
                    (#[trigger] payload.member_keys@[i])@,
                ),
            forall|i: int, j: int|
                0 <= i < j < payload.member_keys@.len() ==> (#[trigger] payload.member_keys@[i])@
                    != (#[trigger] payload.member_keys@[j])@,
        ensures
            m.wf(),
            init_populated(*creator, *treasury, treasury_bump, multisig_bump, *payload, m),
    {
        let n = payload.member_keys.len();
        let mut members: Vec<Member> = Vec::new();
        let mut i: usize = 0;
        while i < n
            invariant
                i <= n == payload.member_keys@.len(),
                members@.len() == i,
                forall|t: int|
                    0 <= t < i ==> (#[trigger] members@[t]).key@ == payload.member_keys@[t]@
                        && members@[t].permissions == Permission::Vote && members@[t].is_active
                        == 1,
            decreases n - i,
        {
            members.push(
                Member { key: payload.member_keys[i], permissions: Permission::Vote, is_active: 1 },
            );
            i = i + 1;
        }
        while i < ROSTER_CAPACITY
            invariant
                n <= i <= ROSTER_CAPACITY,
                n == payload.member_keys@.len(),
                members@.len() == i,
                forall|t: int|
                    0 <= t < n ==> (#[trigger] members@[t]).key@ == payload.member_keys@[t]@
                        && members@[t].permissions == Permission::Vote && members@[t].is_active
                        == 1,
                forall|t: int| n <= t < i ==> is_default_member(#[trigger] members@[t]),
            decreases ROSTER_CAPACITY - i,
        {
            members.push(Member::default());
            i = i + 1;
        }
        Multisig {
            creator: *creator,
            treasury: *treasury,
            treasury_bump,
            bump: multisig_bump,
            min_threshold: payload.min_threshold,
            max_expiry: payload.max_expiry,
            transaction_index: 0,
            stale_transaction_index: 0,
            num_members: payload.num_members,
            members,
        }
    }

    /// Serialize the record into its stored byte image.
    #[verifier::loop_isolation(false)]
    pub fn to_bytes(&self) -> (out: Vec<u8>)
        requires
            self.members@.len() == ROSTER_CAPACITY,
        ensures
            out@.len() == RECORD_LEN,
            record_matches(*self, out@),
    {
        let mut out: Vec<u8> = Vec::new();
        push_key(&mut out, &self.creator);
        proof {
            assert(forall|t: int| 0 <= t < 32 ==> out@[t] == self.creator@[t]);
        }
        push_key(&mut out, &self.treasury);
        proof {
            assert(forall|t: int| 0 <= t < 32 ==> out@[t] == self.creator@[t]);
            assert(forall|t: int| 0 <= t < 32 ==> out@[32 + t] == self.treasury@[t]);
        }
        out.push(self.treasury_bump);
        out.push(self.bump);
        out.push(self.min_threshold);
        proof {
            assert(forall|t: int| 0 <= t < 32 ==> out@[t] == self.creator@[t]);
            assert(forall|t: int| 0 <= t < 32 ==> out@[32 + t] == self.treasury@[t]);
            assert(out@[64] == self.treasury_bump);
            assert(out@[65] == self.bump);
            assert(out@[66] == self.min_threshold);
        }
        let mut expiry_bytes = u64_to_le_bytes(self.max_expiry);
        out.append(&mut expiry_bytes);
        proof {
            assert(forall|t: int| 0 <= t < 32 ==> out@[t] == self.creator@[t]);
            assert(forall|t: int| 0 <= t < 32 ==> out@[32 + t] == self.treasury@[t]);
            assert(out@[64] == self.treasury_bump);
            assert(out@[65] == self.bump);
            assert(out@[66] == self.min_threshold);
            assert(forall|t: int|
                0 <= t < 8 ==> out@[67 + t] == vstd::bytes::spec_u64_to_le_bytes(
                    self.max_expiry,
                )[t]);
        }
        let mut tx_bytes = u64_to_le_bytes(self.transaction_index);
        out.append(&mut tx_bytes);
        proof {
            assert(forall|t: int| 0 <= t < 32 ==> out@[t] == self.creator@[t]);
            assert(forall|t: int| 0 <= t < 32 ==> out@[32 + t] == self.treasury@[t]);
            assert(out@[64] == self.treasury_bump);
            assert(out@[65] == self.bump);
            assert(out@[66] == self.min_threshold);
            assert(forall|t: int|
                0 <= t < 8 ==> out@[67 + t] == vstd::bytes::spec_u64_to_le_bytes(
                    self.max_expiry,
                )[t]);
            assert(forall|t: int|
                0 <= t < 8 ==> out@[75 + t] == vstd::bytes::spec_u64_to_le_bytes(
                    self.transaction_index,
                )[t]);
        }
        let mut stale_bytes = u64_to_le_bytes(self.stale_transaction_index);
        out.append(&mut stale_bytes);
        out.push(self.num_members);
        let ghost header = out@;
        proof {
            assert(header.len() == OFF_MEMBERS);
            assert(forall|t: int| 0 <= t < 32 ==> header[t] == self.creator@[t]);
            assert(forall|t: int| 0 <= t < 32 ==> header[32 + t] == self.treasury@[t]);
            assert(header[64] == self.treasury_bump);
            assert(header[65] == self.bump);
            assert(header[66] == self.min_threshold);
            assert(forall|t: int|
                0 <= t < 8 ==> header[67 + t] == vstd::bytes::spec_u64_to_le_bytes(
                    self.max_expiry,
                )[t]);
            assert(forall|t: int|
                0 <= t < 8 ==> header[75 + t] == vstd::bytes::spec_u64_to_le_bytes(
                    self.transaction_index,
                )[t]);
            assert(forall|t: int|
                0 <= t < 8 ==> header[83 + t] == vstd::bytes::spec_u64_to_le_bytes(
                    self.stale_transaction_index,
                )[t]);
            assert(header[91] == self.num_members);
        }
        let mut i: usize = 0;
        while i < ROSTER_CAPACITY
            invariant
                i <= ROSTER_CAPACITY,
                self.members@.len() == ROSTER_CAPACITY,
                out@.len() == OFF_MEMBERS + MEMBER_ENTRY_LEN * i,
                forall|t: int| 0 <= t < header.len() ==> (#[trigger] out@[t]) == header[t],
                forall|s: int, t: int|
                    0 <= s < i && 0 <= t < 32 ==> out@[OFF_MEMBERS + MEMBER_ENTRY_LEN * s + t]
                        == #[trigger] self.members@[s].key@[t],
                forall|s: int|
                    0 <= s < i ==> out@[OFF_MEMBERS + MEMBER_ENTRY_LEN * s + 32]
                        == (#[trigger] self.members@[s]).permissions.spec_to_u8(),
                forall|s: int|
                    0 <= s < i ==> out@[OFF_MEMBERS + MEMBER_ENTRY_LEN * s + 33]
                        == (#[trigger] self.members@[s]).is_active,
            decreases ROSTER_CAPACITY - i,
        {
            let entry = &self.members[i];
            push_key(&mut out, &entry.key);
            out.push(entry.permissions.to_u8());
            out.push(entry.is_active);
            i = i + 1;
        }
        proof {
            lemma_auto_spec_u64_to_from_le_bytes();
            assert(out@.subrange(OFF_CREATOR as int, 32) =~= self.creator@);
            assert(out@.subrange(OFF_TREASURY as int, 64) =~= self.treasury@);
            assert(out@.subrange(OFF_MAX_EXPIRY as int, 75) =~= vstd::bytes::spec_u64_to_le_bytes(
                self.max_expiry,
            ));
            assert(out@.subrange(OFF_TRANSACTION_INDEX as int, 83)
                =~= vstd::bytes::spec_u64_to_le_bytes(self.transaction_index));
            assert(out@.subrange(OFF_STALE_TRANSACTION_INDEX as int, 91)
                =~= vstd::bytes::spec_u64_to_le_bytes(self.stale_transaction_index));
            assert forall|s: int| 0 <= s < ROSTER_CAPACITY implies (#[trigger] self.members@[s]).key@
                =~= record_member_key(out@, s) by {}
        }
        out
    }

    /// Read a record back from its stored byte image, validating every
    /// invariant: member count within capacity, known permission bytes,
    /// boolean active flags, non-zero pairwise distinct occupied keys,
    /// default free slots, and monotone counters.
    #[verifier::loop_isolation(false)]
    pub fn from_bytes(data: &[u8]) -> (r: Result<Multisig, ErrorKind>)
        ensures
            data@.len() < RECORD_LEN ==> r == Err::<Multisig, ErrorKind>(
                ErrorKind::TruncatedPayload,
            ),
            data@.len() >= RECORD_LEN && !record_bytes_wf(data@) ==> r == Err::<Multisig, ErrorKind>(
                ErrorKind::InvalidField,
            ),
            data@.len() >= RECORD_LEN && record_bytes_wf(data@) ==> (r matches Ok(m) && m.wf()
                && record_matches(m, data@)),
    {
        if data.len() < RECORD_LEN {
            return Err(ErrorKind::TruncatedPayload);
        }
        let creator = read_key(data, OFF_CREATOR);
        let treasury = read_key(data, OFF_TREASURY);
        let treasury_bump = data[OFF_TREASURY_BUMP];
        let bump = data[OFF_BUMP];
        let min_threshold = data[OFF_MIN_THRESHOLD];
        let max_expiry = u64_from_le_bytes(slice_subrange(data, OFF_MAX_EXPIRY, 75));
        let transaction_index = u64_from_le_bytes(slice_subrange(data, OFF_TRANSACTION_INDEX, 83));
        let stale_transaction_index = u64_from_le_bytes(
            slice_subrange(data, OFF_STALE_TRANSACTION_INDEX, 91),
        );
        if transaction_index < stale_transaction_index {
            return Err(ErrorKind::InvalidField);
        }
        let num_members = data[OFF_NUM_MEMBERS];
        if num_members as usize > ROSTER_CAPACITY {
            return Err(ErrorKind::InvalidField);
        }
        let mut members: Vec<Member> = Vec::new();
        let mut i: usize = 0;
        while i < ROSTER_CAPACITY
            invariant
                i <= ROSTER_CAPACITY,
                data@.len() >= RECORD_LEN,
                members@.len() == i,
                forall|t: int|
                    0 <= t < i ==> (#[trigger] members@[t]).key@ == record_member_key(data@, t),
                forall|t: int|
                    0 <= t < i ==> (#[trigger] members@[t]).permissions.spec_to_u8()
                        == record_member_perm(data@, t),
                forall|t: int|
                    0 <= t < i ==> (#[trigger] members@[t]).is_active == record_member_act(
                        data@,
                        t,
                    ),
            decreases ROSTER_CAPACITY - i,
        {
            let base = OFF_MEMBERS + MEMBER_ENTRY_LEN * i;
            let key = read_key(data, base);
            let perm_byte = data[base + 32];
            let permissions = match perm_byte {
                0 => Permission::Readonly,
                1 => Permission::Vote,
                2 => Permission::VoteAndExecute,
                3 => Permission::Admin,
                _ => {
                    proof {
                        assert(record_member_perm(data@, i as int) == data@[base as int + 32]);
                    }
                    return Err(ErrorKind::InvalidField);
                },
            };
            let is_active = data[base + 33];
            members.push(Member { key, permissions, is_active });
            i = i + 1;
        }
        let mut i: usize = 0;
        while i < num_members as usize
            invariant
                i <= num_members as int,
                num_members as int <= ROSTER_CAPACITY,
                data@.len() >= RECORD_LEN,
                members@.len() == ROSTER_CAPACITY,
                forall|t: int|
                    0 <= t < ROSTER_CAPACITY ==> (#[trigger] members@[t]).key@ == record_member_key(
                        data@,
                        t,
                    ),
                forall|t: int|
                    0 <= t < ROSTER_CAPACITY ==> (#[trigger] members@[t]).is_active
                        == record_member_act(data@, t),
                forall|t: int| 0 <= t < i ==> !is_zero_key(#[trigger] record_member_key(data@, t)),
                forall|t: int| 0 <= t < i ==> #[trigger] record_member_act(data@, t) <= 1,
                forall|t: int, u: int|
                    0 <= t < u < i ==> (#[trigger] record_member_key(data@, t)) != (
                    #[trigger] record_member_key(data@, u)),
            decreases num_members as int - i,
        {
            proof {
                assert(members@[i as int].key@ == record_member_key(data@, i as int));
                assert(members@[i as int].is_active == record_member_act(data@, i as int));
            }
            if is_zero_pubkey(&members[i].key) {
                return Err(ErrorKind::InvalidField);
            }
            if members[i].is_active > 1 {
                return Err(ErrorKind::InvalidField);
            }
            let mut j: usize = 0;
            while j < i
                invariant
                    j <= i,
                    forall|t: int|
                        0 <= t < j ==> (#[trigger] record_member_key(data@, t))
                            != record_member_key(data@, i as int),
                decreases i - j,
            {
                if pubkey_eq(&members[j].key, &members[i].key) {
                    proof {
                        assert(members@[j as int].key@ == record_member_key(data@, j as int));
                        assert(record_member_key(data@, j as int) == record_member_key(
                            data@,
                            i as int,
                        ));
                    }
                    return Err(ErrorKind::InvalidField);
                }
                j = j + 1;
            }
            i = i + 1;
        }
        let mut i: usize = num_members as usize;
        while i < ROSTER_CAPACITY
            invariant
                num_members as int <= i <= ROSTER_CAPACITY,
                data@.len() >= RECORD_LEN,
                members@.len() == ROSTER_CAPACITY,
                forall|t: int|
                    0 <= t < ROSTER_CAPACITY ==> (#[trigger] members@[t]).key@ == record_member_key(
                        data@,
                        t,
                    ),
                forall|t: int|
                    0 <= t < ROSTER_CAPACITY ==> (#[trigger] members@[t]).permissions.spec_to_u8()
                        == record_member_perm(data@, t),
                forall|t: int|
                    0 <= t < ROSTER_CAPACITY ==> (#[trigger] members@[t]).is_active
                        == record_member_act(data@, t),
                forall|t: int|
                    num_members as int <= t < i ==> is_zero_key(
                        #[trigger] record_member_key(data@, t),
                    ),
                forall|t: int|
                    num_members as int <= t < i ==> (#[trigger] record_member_perm(data@, t)) == 0,
                forall|t: int|
                    num_members as int <= t < i ==> (#[trigger] record_member_act(data@, t)) == 0,
            decreases ROSTER_CAPACITY - i,
        {
            proof {
                assert(members@[i as int].key@ == record_member_key(data@, i as int));
                assert(members@[i as int].permissions.spec_to_u8() == record_member_perm(
                    data@,
                    i as int,
                ));
                assert(members@[i as int].is_active == record_member_act(data@, i as int));
            }
            if !is_zero_pubkey(&members[i].key) {
                return Err(ErrorKind::InvalidField);
            }
            if !(members[i].permissions == Permission::Readonly) {
                return Err(ErrorKind::InvalidField);
            }
            if members[i].is_active != 0 {
                return Err(ErrorKind::InvalidField);
            }
            proof {
                assert(is_zero_key(record_member_key(data@, i as int)));
                assert(record_member_perm(data@, i as int) == 0);
                assert(record_member_act(data@, i as int) == 0);
            }
            i = i + 1;
        }
        let record = Multisig {
            creator,
            treasury,
            treasury_bump,
            bump,
            min_threshold,
            max_expiry,
            transaction_index,
            stale_transaction_index,
            num_members,
            members,
        };
        proof {
            assert forall|t: int| 0 <= t < ROSTER_CAPACITY implies #[trigger] record_member_perm(
                data@,
                t,
            ) <= 3 by {
                assert(record.members@[t].permissions.spec_to_u8() == record_member_perm(data@, t));
            }
            assert forall|t: int| 0 <= t < num_members as int implies !is_zero_key(
                #[trigger] record.members@[t].key@,
            ) by {
                assert(record.members@[t].key@ == record_member_key(data@, t));
            }
            assert forall|t: int| 0 <= t < num_members as int implies (
            #[trigger] record.members@[t].is_active) <= 1 by {
                assert(record.members@[t].is_active == record_member_act(data@, t));
            }
            assert forall|t: int, u: int|
                0 <= t < u < num_members as int implies (#[trigger] record.members@[t].key@) != (
            #[trigger] record.members@[u].key@) by {
                assert(record.members@[t].key@ == record_member_key(data@, t));
                assert(record.members@[u].key@ == record_member_key(data@, u));
            }
            assert forall|t: int|
                num_members as int <= t < ROSTER_CAPACITY implies is_default_member(
                #[trigger] record.members@[t],
            ) by {
                assert(record.members@[t].key@ == record_member_key(data@, t));
                assert(record.members@[t].permissions.spec_to_u8() == record_member_perm(data@, t));
                assert(record.members@[t].is_active == record_member_act(data@, t));
                lemma_perm_byte_injective(record.members@[t].permissions, Permission::Readonly);
            }
            assert(record_bytes_wf(data@));
            assert(record.wf());
            assert(record_matches(record, data@));
        }
        Ok(record)
    }
}

/// Whether record `m` is exactly the record that initialization with these
/// inputs must produce.
pub open spec fn init_populated(
    creator: Pubkey,
    treasury: Pubkey,
    treasury_bump: u8,
    multisig_bump: u8,
    p: InitPayload,
    m: Multisig,
) -> bool {
    &&& m.creator@ == creator@
    &&& m.treasury@ == treasury@
    &&& m.treasury_bump == treasury_bump
    &&& m.bump == multisig_bump
    &&& m.min_threshold == p.min_threshold
    &&& m.max_expiry == p.max_expiry
    &&& m.transaction_index == 0
    &&& m.stale_transaction_index == 0
    &&& m.num_members == p.num_members
    &&& forall|i: int|
        0 <= i < p.num_members as int ==> (#[trigger] m.members@[i]).key@
            == p.member_keys@[i]@ && m.members@[i].permissions == Permission::Vote
            && m.members@[i].is_active == 1
}

/// Permission bytes decode injectively.
proof fn lemma_perm_byte_injective(p: Permission, q: Permission)
    requires
        p.spec_to_u8() == q.spec_to_u8(),
    ensures
        p == q,
{
}

/// Law: the stored layout determines the record.  Two records that match
/// the same byte image are equal byte for byte, so reading an image back
/// restores exactly the record that produced it.
pub proof fn lemma_record_matches_same_record(a: Multisig, b: Multisig, data: Seq<u8>)
    requires
        record_matches(a, data),
        record_matches(b, data),
    ensures
        multisig_view_eq(a, b),
{
    assert forall|i: int| 0 <= i < a.members@.len() implies crate::member_state::member_view_eq(
        #[trigger] a.members@[i],
        #[trigger] b.members@[i],
    ) by {
        lemma_perm_byte_injective(a.members@[i].permissions, b.members@[i].permissions);
    }
}

/// Law: a well-formed record serializes to a well-formed byte image, so a
/// stored image written by this library always reads back successfully.
pub proof fn lemma_wf_record_bytes_wf(m: Multisig, data: Seq<u8>)
    requires
        m.wf(),
        record_matches(m, data),
    ensures
        record_bytes_wf(data),
{
    let num = data[OFF_NUM_MEMBERS as int] as int;
    assert(num == m.num_members as int);
    assert forall|i: int| 0 <= i < ROSTER_CAPACITY implies #[trigger] record_member_perm(data, i)
        <= 3 by {
        assert(record_member_perm(data, i) == m.members@[i].permissions.spec_to_u8());
    }
    assert forall|i: int| 0 <= i < num implies !is_zero_key(
        #[trigger] record_member_key(data, i),
    ) by {
        assert(record_member_key(data, i) == m.members@[i].key@);
    }
    assert forall|i: int| 0 <= i < num implies #[trigger] record_member_act(data, i) <= 1 by {
        assert(record_member_act(data, i) == m.members@[i].is_active);
    }
    assert forall|i: int, j: int| 0 <= i < j < num implies (#[trigger] record_member_key(data, i))
        != (#[trigger] record_member_key(data, j)) by {
        assert(record_member_key(data, i) == m.members@[i].key@);
        assert(record_member_key(data, j) == m.members@[j].key@);
    }
    assert forall|i: int| num <= i < ROSTER_CAPACITY implies is_zero_key(
        #[trigger] record_member_key(data, i),
    ) && record_member_perm(data, i) == 0 && record_member_act(data, i) == 0 by {
        assert(is_default_member(m.members@[i]));
        assert(record_member_key(data, i) == m.members@[i].key@);
        assert(record_member_perm(data, i) == m.members@[i].permissions.spec_to_u8());
        assert(record_member_act(data, i) == m.members@[i].is_active);
    }
}

} // verus!

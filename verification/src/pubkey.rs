//! Account identity keys.
//!
//! A key is a fixed-width 32-byte opaque identifier, compared by byte
//! equality.  The all-zero key is reserved: it marks an empty roster slot and
//! is never assigned to a real member.

use vstd::prelude::*;

verus! {

/// Width of an account identity key in bytes.
pub const KEY_LEN: usize = 32;

/// A fixed-width account identity key.
pub type Pubkey = [u8; 32];

/// Whether a key value is the reserved all-zero "empty slot" key.
pub open spec fn is_zero_key(k: Seq<u8>) -> bool {
    forall|i: int| 0 <= i < k.len() ==> k[i] == 0
}

/// Byte-for-byte key equality.
pub fn pubkey_eq(a: &Pubkey, b: &Pubkey) -> (r: bool)
    ensures
        r <==> a@ == b@,
{
    let mut i: usize = 0;
    while i < KEY_LEN
        invariant
            0 <= i <= 32,
            forall|j: int| 0 <= j < i ==> a@[j] == b@[j],
        decreases 32 - i,
    {
        if a[i] != b[i] {
            return false;
        }
        i = i + 1;
    }
    proof {
        assert(a@ =~= b@);
    }
    true
}

/// Whether `k` is the reserved all-zero key.
pub fn is_zero_pubkey(k: &Pubkey) -> (r: bool)
    ensures
        r <==> is_zero_key(k@),
{
    let mut i: usize = 0;
    while i < KEY_LEN
        invariant
            0 <= i <= 32,
            forall|j: int| 0 <= j < i ==> k@[j] == 0,
        decreases 32 - i,
    {
        if k[i] != 0 {
            return false;
        }
        i = i + 1;
    }
    true
}

/// The reserved all-zero key.
pub fn zero_pubkey() -> (r: Pubkey)
    ensures
        is_zero_key(r@),
{
    [0u8; 32]
}

} // verus!

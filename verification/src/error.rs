//! Error taxonomy of the multisig engine.
//!
//! Every failure of the verified core is one of these variants; each public
//! function states in its contract exactly which inputs produce which
//! variant.

use vstd::prelude::*;

verus! {

/// Why an invocation of the multisig core failed.
#[derive(Clone, Copy, Debug, PartialEq, Eq, Structural)]
pub enum ErrorKind {
    /// A caller-supplied account address does not match the deterministic
    /// derivation for its role.
    InvalidDerivedAddress,
    /// A target account of provisioning is already owned by this program.
    AlreadyInitialized,
    /// A payload field holds a value outside its allowed range.
    InvalidField,
    /// The payload is shorter than the length its layout requires.
    TruncatedPayload,
    /// The paying member slot does not authorize roster mutation.
    Unauthorized,
    /// The member index does not address the slot the operation requires.
    InvalidIndex,
    /// An add was attempted on a roster with every slot occupied.
    RosterFull,
    /// A remove was attempted on a roster with no occupied slot.
    RosterEmpty,
    /// An add was attempted with a key already present in the roster.
    DuplicateMember,
    /// The mutation would leave the roster without any active admin.
    LastAdminRemoval,
}

} // verus!

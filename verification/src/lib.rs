//! Verified core of an on-chain multi-party authorization ("multisig")
//! account engine.
//!
//! The crate holds the pure, verified logic: strict bounds-checked decoding
//! of instruction payloads, the fixed-layout multisig record and its byte
//! codec, and the permission-gated roster mutation engine.  The thin
//! host-facing layer (account lists, rent, cross-program invocations and the
//! on-chain address-derivation syscall) lives outside the verified library.

pub mod codec;
pub mod error;
pub mod init_multisig;
pub mod member_state;
pub mod multisig;
pub mod pda;
pub mod pubkey;
pub mod update_members;

pub use codec::{InitPayload, UpdateMembersIxData};
pub use error::ErrorKind;
pub use member_state::{Member, Permission};
pub use multisig::Multisig;
pub use pubkey::Pubkey;

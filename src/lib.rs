//! Account lifecycle, guard and token-instruction utilities for programs that
//! keep their state in accounts anchored to unspent transaction outputs.

pub mod account;
pub mod assertions;
pub mod bytes;
pub mod error;
pub mod program_pack;
pub mod pubkey;
pub mod token;

//! Records that live in an account's data at fixed offsets.
use vstd::prelude::*;

use crate::error::ProgramError;

verus! {

/// A record with a fixed-length byte layout.
pub trait Pack: Sized {
    /// Length of the layout in bytes.
    spec fn packed_len() -> nat;

    /// The layout's bytes for `self`.
    spec fn packed(&self) -> Seq<u8>;

    /// `b` holds at least a full layout, and its leading bytes read as `v`.
    spec fn unpacks_to(b: Seq<u8>, v: Self) -> bool;

    /// Length of the layout in bytes.
    fn len() -> (r: usize)
        ensures
            r == Self::packed_len(),
    ;

    /// Decodes a record from the leading bytes of `src`; fails with an invalid-data error
    /// exactly when `src` is shorter than the layout.
    fn unpack_from_slice(src: &[u8]) -> (r: Result<Self, ProgramError>)
        ensures
            src@.len() < Self::packed_len() ==> r == Err::<Self, ProgramError>(
                ProgramError::InvalidAccountData,
            ),
            src@.len() >= Self::packed_len() ==> r is Ok && Self::unpacks_to(src@, r->Ok_0),
    ;

    /// Encodes the record over the leading bytes of `dst`.
    fn pack_into_slice(&self, dst: &mut [u8])
        requires
            old(dst)@.len() >= Self::packed_len(),
        ensures
            final(dst)@ == self.packed() + old(dst)@.subrange(
                Self::packed_len() as int,
                old(dst)@.len() as int,
            ),
    ;
}

/// A record that knows whether it has been initialized.
pub trait IsInitialized {
    spec fn initialized(&self) -> bool;

    fn is_initialized(&self) -> (r: bool)
        ensures
            r == self.initialized(),
    ;
}

} // verus!

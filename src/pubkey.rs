//! Account and program identities.
use vstd::prelude::*;

verus! {

/// Width of an identity in bytes.
pub const PUBKEY_BYTES: usize = 32;

/// A 32-byte account or program identity.
pub type Pubkey = [u8; 32];

/// Compares two identities byte for byte.
pub fn cmp_pubkeys(a: &Pubkey, b: &Pubkey) -> (r: bool)
    ensures
        r == (a@ == b@),
{
    let mut i: usize = 0;
    while i < PUBKEY_BYTES
        invariant
            i <= PUBKEY_BYTES,
            a@.len() == PUBKEY_BYTES,
            b@.len() == PUBKEY_BYTES,
            forall|j: int| 0 <= j < i ==> a@[j] == b@[j],
        decreases PUBKEY_BYTES - i,
    {
        if a[i] != b[i] {
            return false;
        }
        i = i + 1;
    }
    assert(a@ =~= b@);
    true
}

/// Copies 32 bytes starting at `start` into a fresh identity.
pub fn pubkey_from_bytes(src: &[u8], start: usize) -> (r: Pubkey)
    requires
        start + PUBKEY_BYTES <= src@.len(),
    ensures
        r@ == src@.subrange(start as int, start + PUBKEY_BYTES),
{
    let len = src.len();
    assert(start + PUBKEY_BYTES <= len);
    let mut k: Pubkey = [0u8; 32];
    let mut i: usize = 0;
    while i < PUBKEY_BYTES
        invariant
            i <= PUBKEY_BYTES,
            start + PUBKEY_BYTES <= src@.len(),
            start + PUBKEY_BYTES <= usize::MAX,
            k@.len() == PUBKEY_BYTES,
            forall|j: int| 0 <= j < i ==> k@[j] == src@[start + j],
        decreases PUBKEY_BYTES - i,
    {
        k[i] = src[start + i];
        i = i + 1;
    }
    assert(k@ =~= src@.subrange(start as int, start + PUBKEY_BYTES));
    k
}

} // verus!

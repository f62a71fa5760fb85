//! The token account record, its fixed byte layout, and the token guards.
use vstd::prelude::*;

use crate::account::AccountInfo;
use crate::assertions::{assert_initialized, initialized_result};
use crate::bytes::{le_bytes, le_u64, lemma_le_round_trip, read_le_u64, write_le_u64};
use crate::error::ProgramError;
use crate::program_pack::{IsInitialized, Pack};
use crate::pubkey::{cmp_pubkeys, pubkey_from_bytes, Pubkey};

verus! {

/// Identity of the token program: the ASCII text `apl-token` followed by zeros (`'0'`).
pub const APL_TOKEN_PROGRAM_ID_BYTES: [u8; 32] = [
    97,
    112,
    108,
    45,
    116,
    111,
    107,
    101,
    110,
    48,
    48,
    48,
    48,
    48,
    48,
    48,
    48,
    48,
    48,
    48,
    48,
    48,
    48,
    48,
    48,
    48,
    48,
    48,
    48,
    48,
    48,
    48,
];

/// Length in bytes of an encoded token account: mint, owner, amount and two flags.
pub const TOKEN_ACCOUNT_LEN: usize = 74;

/// A holding of one mint's tokens.
#[derive(Debug, Clone, Copy, PartialEq, Eq)]
pub struct TokenAccount {
    /// The mint associated with this account.
    pub mint: Pubkey,
    /// The owner of this account.
    pub owner: Pubkey,
    /// The amount of tokens this account holds.
    pub amount: u64,
    /// If `true`, this account cannot be closed.
    pub is_frozen: bool,
    /// If `true`, this account has been initialized.
    pub is_initialized: bool,
}

/// The byte that stores a flag.
pub open spec fn flag_byte(b: bool) -> u8 {
    if b {
        1
    } else {
        0
    }
}

/// The 74 bytes of `r`: mint, owner, amount little-endian, frozen flag, initialized flag.
pub open spec fn encoded(r: TokenAccount) -> Seq<u8> {
    r.mint@ + r.owner@ + le_bytes(r.amount) + seq![flag_byte(r.is_frozen), flag_byte(r.is_initialized)]
}

/// `b` holds at least a full record, and its first 74 bytes read as `r`.
pub open spec fn decodes_to(b: Seq<u8>, r: TokenAccount) -> bool {
    &&& b.len() >= TOKEN_ACCOUNT_LEN
    &&& r.mint@ == b.subrange(0, 32)
    &&& r.owner@ == b.subrange(32, 64)
    &&& r.amount == le_u64(b.subrange(64, 72))
    &&& r.is_frozen == (b[72] != 0)
    &&& r.is_initialized == (b[73] != 0)
}

/// `buf` after `r` has been written over its first 74 bytes.
pub open spec fn packed_into(r: TokenAccount, buf: Seq<u8>) -> Seq<u8> {
    encoded(r) + buf.subrange(TOKEN_ACCOUNT_LEN as int, buf.len() as int)
}

/// At most one record decodes from given bytes.
pub proof fn lemma_decode_unique(b: Seq<u8>, r1: TokenAccount, r2: TokenAccount)
    requires
        decodes_to(b, r1),
        decodes_to(b, r2),
    ensures
        r1 == r2,
{
    assert(r1.mint@ =~= r2.mint@);
    assert(r1.owner@ =~= r2.owner@);
    broadcast use vstd::array::group_array_axioms;

    assert(r1.mint == r2.mint);
    assert(r1.owner == r2.owner);
}

/// Writing a record into any buffer large enough and reading it back gives the same record,
/// and no other.
pub proof fn lemma_round_trip(r: TokenAccount, buf: Seq<u8>)
    requires
        buf.len() >= TOKEN_ACCOUNT_LEN,
    ensures
        decodes_to(packed_into(r, buf), r),
        forall|t: TokenAccount| decodes_to(packed_into(r, buf), t) ==> t == r,
{
    let b = packed_into(r, buf);
    lemma_le_round_trip(r.amount);
    assert(b.subrange(0, 32) =~= r.mint@);
    assert(b.subrange(32, 64) =~= r.owner@);
    assert(b.subrange(64, 72) =~= le_bytes(r.amount));
    assert(b[72] == flag_byte(r.is_frozen));
    assert(b[73] == flag_byte(r.is_initialized));
    assert forall|t: TokenAccount| decodes_to(b, t) implies t == r by {
        lemma_decode_unique(b, t, r);
    }
}

impl Pack for TokenAccount {
    open spec fn packed_len() -> nat {
        TOKEN_ACCOUNT_LEN as nat
    }

    open spec fn packed(&self) -> Seq<u8> {
        encoded(*self)
    }

    open spec fn unpacks_to(b: Seq<u8>, v: TokenAccount) -> bool {
        decodes_to(b, v)
    }

    fn len() -> (r: usize) {
        TOKEN_ACCOUNT_LEN
    }

    /// Decodes a record from the first 74 bytes of `src`.
    fn unpack_from_slice(src: &[u8]) -> (r: Result<TokenAccount, ProgramError>) {
        if src.len() < TOKEN_ACCOUNT_LEN {
            return Err(ProgramError::InvalidAccountData);
        }
        let mint = pubkey_from_bytes(src, 0);
        let owner = pubkey_from_bytes(src, 32);
        let amount = read_le_u64(src, 64);
        let is_frozen = src[72] != 0;
        let is_initialized = src[73] != 0;
        Ok(TokenAccount { mint, owner, amount, is_frozen, is_initialized })
    }

    /// Encodes the record over the first 74 bytes of `dst`.
    fn pack_into_slice(&self, dst: &mut [u8]) {
        let mut i: usize = 0;
        while i < 32
            invariant
                0 <= i <= 32,
                dst@.len() == old(dst)@.len(),
                old(dst)@.len() >= TOKEN_ACCOUNT_LEN,
                forall|j: int| 0 <= j < i ==> dst@[j] == self.mint@[j],
                forall|j: int| i <= j < dst@.len() ==> dst@[j] == old(dst)@[j],
            decreases 32 - i,
        {
            dst[i] = self.mint[i];
            i = i + 1;
        }
        let mut i: usize = 0;
        while i < 32
            invariant
                0 <= i <= 32,
                dst@.len() == old(dst)@.len(),
                old(dst)@.len() >= TOKEN_ACCOUNT_LEN,
                forall|j: int| 0 <= j < 32 ==> dst@[j] == self.mint@[j],
                forall|j: int| 0 <= j < i ==> dst@[32 + j] == self.owner@[j],
                forall|j: int| 32 + i <= j < dst@.len() ==> dst@[j] == old(dst)@[j],
            decreases 32 - i,
        {
            dst[32 + i] = self.owner[i];
            i = i + 1;
        }
        let ghost before = dst@;
        write_le_u64(dst, 64, self.amount);
        assert(dst@.subrange(0, 64) =~= before.subrange(0, 64));
        dst[72] = if self.is_frozen {
            1
        } else {
            0
        };
        dst[73] = if self.is_initialized {
            1
        } else {
            0
        };
        assert(dst@ =~= packed_into(*self, old(dst)@)) by {
            assert forall|j: int| 0 <= j < dst@.len() implies dst@[j] == packed_into(
                *self,
                old(dst)@,
            )[j] by {
                if j < 64 {
                    assert(dst@[j] == before[j]);
                } else if j < 72 {
                    assert(dst@[j] == le_bytes(self.amount)[j - 64]);
                }
            }
        }
    }
}

impl IsInitialized for TokenAccount {
    open spec fn initialized(&self) -> bool {
        self.is_initialized
    }

    /// Whether the record has been initialized.
    fn is_initialized(&self) -> (r: bool) {
        self.is_initialized
    }
}

/// A value that can be read as a token record: a live account, or a record already read.
pub trait ToTokenAccount: Sized {
    /// `r` is what reading `self` as a token record gives.
    spec fn converts_to(&self, r: Result<TokenAccount, ProgramError>) -> bool;

    /// Reads `self` as a token record.
    fn to_token_account(self) -> (r: Result<TokenAccount, ProgramError>)
        ensures
            self.converts_to(r),
    ;
}

impl ToTokenAccount for AccountInfo {
    open spec fn converts_to(&self, r: Result<TokenAccount, ProgramError>) -> bool {
        initialized_result::<TokenAccount>(self.data@, ProgramError::UninitializedAccount, r)
    }

    /// Decodes the account's data, which must be an initialized record.
    fn to_token_account(self) -> (r: Result<TokenAccount, ProgramError>) {
        assert_initialized::<TokenAccount>(&self, ProgramError::UninitializedAccount)
    }
}

impl ToTokenAccount for TokenAccount {
    open spec fn converts_to(&self, r: Result<TokenAccount, ProgramError>) -> bool {
        r == Ok::<TokenAccount, ProgramError>(*self)
    }

    fn to_token_account(self) -> (r: Result<TokenAccount, ProgramError>) {
        Ok(self)
    }
}

/// Fails with `error` unless the account is the token program.
pub fn assert_token_program_matches_package(token_program_info: &AccountInfo, error: ProgramError) -> (r: Result<(), ProgramError>)
    ensures
        r == if token_program_info.key@ == APL_TOKEN_PROGRAM_ID_BYTES@ {
            Ok(())
        } else {
            Err(error)
        },
{
    let apl_token_id: Pubkey = APL_TOKEN_PROGRAM_ID_BYTES;
    if cmp_pubkeys(&token_program_info.key, &apl_token_id) {
        Ok(())
    } else {
        Err(error)
    }
}

/// What the holder check gives for a record read as `c`: the read's own error, else
/// `error` where the owner differs, the mint differs, or the amount is zero.
pub open spec fn holder_result(
    c: Result<TokenAccount, ProgramError>,
    owner: Seq<u8>,
    mint: Seq<u8>,
    error: ProgramError,
) -> Result<(), ProgramError> {
    match c {
        Err(e) => Err(e),
        Ok(t) => if t.owner@ != owner {
            Err(error)
        } else if t.mint@ != mint {
            Err(error)
        } else if t.amount == 0 {
            Err(error)
        } else {
            Ok(())
        },
    }
}

/// The holder check on a record passes exactly when the owner matches, the mint matches
/// and the amount is not zero; a failing part fails it with the caller's error.
pub proof fn lemma_holder_composition(
    t: TokenAccount,
    owner: Seq<u8>,
    mint: Seq<u8>,
    error: ProgramError,
)
    ensures
        holder_result(Ok(t), owner, mint, error) is Ok <==> (t.owner@ == owner && t.mint@ == mint
            && t.amount != 0),
        t.owner@ != owner ==> holder_result(Ok(t), owner, mint, error) == Err::<(), ProgramError>(
            error,
        ),
        t.mint@ != mint ==> holder_result(Ok(t), owner, mint, error) == Err::<(), ProgramError>(
            error,
        ),
        t.amount == 0 ==> holder_result(Ok(t), owner, mint, error) == Err::<(), ProgramError>(
            error,
        ),
{
}

/// Checks that the token record is owned by `owner_info`, is of the mint `mint_info`, and
/// holds a non-zero amount; fails with `error` otherwise. Accepts a live account, which
/// must hold an initialized record, or a record already read.
pub fn assert_holder<T: ToTokenAccount>(
    token_account: T,
    owner_info: &AccountInfo,
    mint_info: &AccountInfo,
    error: ProgramError,
) -> (r: Result<(), ProgramError>)
    ensures
        exists|c: Result<TokenAccount, ProgramError>|
            #![trigger token_account.converts_to(c)]
            token_account.converts_to(c) && r == holder_result(
                c,
                owner_info.key@,
                mint_info.key@,
                error,
            ),
{
    let token_account: TokenAccount = token_account.to_token_account()?;
    if !cmp_pubkeys(&token_account.owner, &owner_info.key) {
        return Err(error);
    }
    if !cmp_pubkeys(&token_account.mint, &mint_info.key) {
        return Err(error);
    }
    if token_account.amount == 0 {
        return Err(error);
    }
    Ok(())
}

} // verus!

//! Guards that check an account's signature, owner, contents and derivation.
use vstd::prelude::*;

use crate::account::AccountInfo;
use crate::error::ProgramError;
use crate::pubkey::{cmp_pubkeys, Pubkey};
use crate::program_pack::{IsInitialized, Pack};

verus! {

/// Most seeds an address derivation takes.
pub const MAX_SEEDS: usize = 16;

/// Longest seed, in bytes, that an address derivation takes.
pub const MAX_SEED_LEN: usize = 32;

/// The views of a seed path.
pub open spec fn seeds_view(seeds: Seq<Vec<u8>>) -> Seq<Seq<u8>> {
    seeds.map_values(|s: Vec<u8>| s@)
}

/// The seed path is within the derivation's limits on count and length.
pub open spec fn seeds_within_limits(seeds: Seq<Seq<u8>>) -> bool {
    &&& seeds.len() <= MAX_SEEDS
    &&& forall|i: int| 0 <= i < seeds.len() ==> seeds[i].len() <= MAX_SEED_LEN
}

/// The program address hashed from `seeds` and `program_id`, or `None` where the hash is
/// a point of the curve and so no program address.
pub uninterp spec fn program_address(seeds: Seq<Seq<u8>>, program_id: Seq<u8>) -> Option<Seq<u8>>;

/// The first program address found from `seeds` with a bump seed appended, trying bumps
/// from 255 down, with the bump that gave it.
pub uninterp spec fn canonical_program_address(seeds: Seq<Seq<u8>>, program_id: Seq<u8>) -> Option<
    (Seq<u8>, u8),
>;

/// Relies on `arch_program::pubkey::Pubkey::create_program_address`: it refuses more than
/// 16 seeds, then any seed over 32 bytes, then a hash that lies on the curve.
#[verifier::external_body]
fn create_program_address(seeds: &[Vec<u8>], program_id: &Pubkey) -> (r: Result<Pubkey, ProgramError>)
    ensures
        seeds@.len() > MAX_SEEDS ==> r is Err && r->Err_0 == ProgramError::MaxSeedsExceeded,
        seeds@.len() <= MAX_SEEDS && !seeds_within_limits(seeds_view(seeds@)) ==> r is Err
            && r->Err_0 == ProgramError::MaxSeedLengthExceeded,
        seeds_within_limits(seeds_view(seeds@)) ==> match program_address(
            seeds_view(seeds@),
            program_id@,
        ) {
            Some(k) => r is Ok && r->Ok_0@ == k,
            None => r is Err && r->Err_0 == ProgramError::InvalidSeeds,
        },
{
    let path: Vec<&[u8]> = seeds.iter().map(|s| s.as_slice()).collect();
    let id = arch_program::pubkey::Pubkey::new_from_array(*program_id);
    match arch_program::pubkey::Pubkey::create_program_address(&path, &id) {
        Ok(k) => Ok(k.0),
        Err(arch_program::program_error::ProgramError::MaxSeedsExceeded) => Err(
            ProgramError::MaxSeedsExceeded,
        ),
        Err(arch_program::program_error::ProgramError::MaxSeedLengthExceeded) => Err(
            ProgramError::MaxSeedLengthExceeded,
        ),
        Err(arch_program::program_error::ProgramError::InvalidSeeds) => Err(
            ProgramError::InvalidSeeds,
        ),
        Err(_) => Err(ProgramError::Other),
    }
}

/// Relies on `arch_program::pubkey::Pubkey::try_find_program_address`: the address it
/// returns is the one `create_program_address` gives for the seeds with the bump appended.
#[verifier::external_body]
fn try_find_program_address(seeds: &[Vec<u8>], program_id: &Pubkey) -> (r: Option<(Pubkey, u8)>)
    ensures
        match canonical_program_address(seeds_view(seeds@), program_id@) {
            Some((k, b)) => r is Some && r->Some_0.0@ == k && r->Some_0.1 == b,
            None => r is None,
        },
        r matches Some((k, b)) ==> program_address(
            seeds_view(seeds@).push(seq![b]),
            program_id@,
        ) == Some(k@),
{
    let path: Vec<&[u8]> = seeds.iter().map(|s| s.as_slice()).collect();
    let id = arch_program::pubkey::Pubkey::new_from_array(*program_id);
    arch_program::pubkey::Pubkey::try_find_program_address(&path, &id).map(|(k, b)| (k.0, b))
}

/// Fails with a missing-signature error unless the account signed.
pub fn assert_signer(account_info: &AccountInfo) -> (r: Result<(), ProgramError>)
    ensures
        r == if account_info.is_signer {
            Ok(())
        } else {
            Err(ProgramError::MissingRequiredSignature)
        },
{
    if !account_info.is_signer {
        Err(ProgramError::MissingRequiredSignature)
    } else {
        Ok(())
    }
}

/// What decoding `data` as an initialized record gives: an invalid-data error unless
/// `data` is exactly as long as the layout, else the record, or `error` where it is not
/// initialized.
pub open spec fn initialized_result<T: Pack + IsInitialized>(
    data: Seq<u8>,
    error: ProgramError,
    r: Result<T, ProgramError>,
) -> bool {
    if data.len() != T::packed_len() {
        r == Err::<T, ProgramError>(ProgramError::InvalidAccountData)
    } else {
        exists|t: T|
            #![trigger T::unpacks_to(data, t)]
            T::unpacks_to(data, t) && r == if t.initialized() {
                Ok::<T, ProgramError>(t)
            } else {
                Err(error)
            }
    }
}

/// Decodes the account's data as a record and fails with `error` unless the record is
/// initialized. Data of any length but exactly the layout's is invalid.
pub fn assert_initialized<T: Pack + IsInitialized>(account_info: &AccountInfo, error: ProgramError) -> (r: Result<T, ProgramError>)
    ensures
        initialized_result::<T>(account_info.data@, error, r),
{
    if account_info.data.len() != T::len() {
        return Err(ProgramError::InvalidAccountData);
    }
    let account = T::unpack_from_slice(account_info.data.as_slice())?;
    if !account.is_initialized() {
        Err(error)
    } else {
        Ok(account)
    }
}

/// Fails with `error` unless the account is owned by `owner`.
pub fn assert_owned_by(account: &AccountInfo, owner: &Pubkey, error: ProgramError) -> (r: Result<
    (),
    ProgramError,
>)
    ensures
        r == if account.owner@ == owner@ {
            Ok(())
        } else {
            Err(error)
        },
{
    if !cmp_pubkeys(&account.owner, owner) {
        Err(error)
    } else {
        Ok(())
    }
}

/// Fails with `error` unless the account's owner is one of `owners`.
pub fn assert_owner_in(account: &AccountInfo, owners: &[Pubkey], error: ProgramError) -> (r: Result<
    (),
    ProgramError,
>)
    ensures
        r == if exists|i: int| 0 <= i < owners@.len() && owners@[i]@ == account.owner@ {
            Ok(())
        } else {
            Err(error)
        },
{
    let mut i: usize = 0;
    while i < owners.len()
        invariant
            i <= owners@.len(),
            forall|j: int| 0 <= j < i ==> owners@[j]@ != account.owner@,
        decreases owners@.len() - i,
    {
        if cmp_pubkeys(&owners[i], &account.owner) {
            return Ok(());
        }
        i = i + 1;
    }
    Err(error)
}

/// Fails with `error` unless the account's identity is the canonical program address of
/// `path` under `program_id`; on success returns the bump that derived it.
pub fn assert_derivation(
    program_id: &Pubkey,
    account: &AccountInfo,
    path: &[Vec<u8>],
    error: ProgramError,
) -> (r: Result<u8, ProgramError>)
    ensures
        r == match canonical_program_address(seeds_view(path@), program_id@) {
            Some((k, b)) => if k == account.key@ {
                Ok(b)
            } else {
                Err(error)
            },
            None => Err(error),
        },
{
    match try_find_program_address(path, program_id) {
        Some((key, bump)) => {
            if !cmp_pubkeys(&key, &account.key) {
                return Err(error);
            }
            Ok(bump)
        },
        None => Err(error),
    }
}

/// Fails unless the account's identity is exactly the program address of `path` under
/// `program_id`, with no search for a bump: with the derivation's own error where `path`
/// gives no address, else with `error` where the address differs.
pub fn assert_derivation_with_bump(
    program_id: &Pubkey,
    account: &AccountInfo,
    path: &[Vec<u8>],
    error: ProgramError,
) -> (r: Result<(), ProgramError>)
    ensures
        path@.len() > MAX_SEEDS ==> r == Err::<(), ProgramError>(ProgramError::MaxSeedsExceeded),
        path@.len() <= MAX_SEEDS && !seeds_within_limits(seeds_view(path@)) ==> r == Err::<
            (),
            ProgramError,
        >(ProgramError::MaxSeedLengthExceeded),
        seeds_within_limits(seeds_view(path@)) ==> r == match program_address(
            seeds_view(path@),
            program_id@,
        ) {
            Some(k) => if k == account.key@ {
                Ok(())
            } else {
                Err(error)
            },
            None => Err(ProgramError::InvalidSeeds),
        },
{
    let key = create_program_address(path, program_id)?;
    if !cmp_pubkeys(&key, &account.key) {
        return Err(error);
    }
    Ok(())
}

} // verus!

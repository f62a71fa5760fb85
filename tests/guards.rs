use arch_utils::account::{AccountInfo, UtxoMeta};
use arch_utils::assertions::{
    assert_derivation, assert_derivation_with_bump, assert_owned_by, assert_owner_in,
    assert_signer,
};
use arch_utils::error::ProgramError;
use arch_utils::pubkey::cmp_pubkeys;

fn account(key: [u8; 32], owner: [u8; 32], is_signer: bool) -> AccountInfo {
    AccountInfo { key, owner, data: vec![], is_signer, utxo: UtxoMeta { txid: key, vout: 1 } }
}

#[test]
fn signer_required() {
    assert_eq!(assert_signer(&account([1; 32], [2; 32], true)), Ok(()));
    assert_eq!(
        assert_signer(&account([1; 32], [2; 32], false)),
        Err(ProgramError::MissingRequiredSignature)
    );
}

#[test]
fn owner_checks() {
    let a = account([1; 32], [2; 32], false);
    assert_eq!(assert_owned_by(&a, &[2; 32], ProgramError::Custom(3)), Ok(()));
    assert_eq!(assert_owned_by(&a, &[4; 32], ProgramError::Custom(3)), Err(ProgramError::Custom(3)));
    assert_eq!(assert_owner_in(&a, &[[5; 32], [2; 32]], ProgramError::Custom(3)), Ok(()));
    assert_eq!(
        assert_owner_in(&a, &[[5; 32], [6; 32]], ProgramError::Custom(3)),
        Err(ProgramError::Custom(3))
    );
    assert_eq!(assert_owner_in(&a, &[], ProgramError::Custom(3)), Err(ProgramError::Custom(3)));
}

#[test]
fn pubkeys_compare_bytewise() {
    let a = [3u8; 32];
    let mut b = a;
    assert!(cmp_pubkeys(&a, &b));
    b[31] = 4;
    assert!(!cmp_pubkeys(&a, &b));
}

#[test]
fn derivation_finds_canonical_address() {
    let program_id = [7u8; 32];
    let path = vec![b"vault".to_vec(), vec![1, 2, 3]];
    let probe = account([0; 32], program_id, false);
    assert_eq!(
        assert_derivation(&program_id, &probe, &path, ProgramError::Custom(8)),
        Err(ProgramError::Custom(8))
    );
    let (key, bump) = arch_program::pubkey::Pubkey::find_program_address(
        &[b"vault".as_slice(), &[1, 2, 3]],
        &arch_program::pubkey::Pubkey::new_from_array(program_id),
    );
    let derived = account(key.0, program_id, false);
    assert_eq!(assert_derivation(&program_id, &derived, &path, ProgramError::Custom(8)), Ok(bump));
}

#[test]
fn exact_derivation_rejects_other_bumps() {
    let program_id = [7u8; 32];
    let path = vec![b"vault".to_vec()];
    let probe = account([0; 32], program_id, false);
    let bump = assert_derivation(&program_id, &probe, &path, ProgramError::Custom(8));
    assert_eq!(bump, Err(ProgramError::Custom(8)));
    let (key, bump) = arch_program::pubkey::Pubkey::find_program_address(
        &[b"vault".as_slice()],
        &arch_program::pubkey::Pubkey::new_from_array(program_id),
    );
    let derived = account(key.0, program_id, false);
    let with_bump = vec![b"vault".to_vec(), vec![bump]];
    assert_eq!(
        assert_derivation_with_bump(&program_id, &derived, &with_bump, ProgramError::Custom(8)),
        Ok(())
    );
    let nearby = vec![b"vault".to_vec(), vec![bump.wrapping_sub(1)]];
    let r = assert_derivation_with_bump(&program_id, &derived, &nearby, ProgramError::Custom(8));
    assert!(r == Err(ProgramError::Custom(8)) || r == Err(ProgramError::InvalidSeeds));
    let mut other = derived.clone();
    other.key[0] ^= 1;
    assert_eq!(
        assert_derivation_with_bump(&program_id, &other, &with_bump, ProgramError::Custom(8)),
        Err(ProgramError::Custom(8))
    );
}

#[test]
fn exact_derivation_limits() {
    let program_id = [7u8; 32];
    let a = account([0; 32], program_id, false);
    let many = vec![vec![1u8]; 17];
    assert_eq!(
        assert_derivation_with_bump(&program_id, &a, &many, ProgramError::Custom(8)),
        Err(ProgramError::MaxSeedsExceeded)
    );
    let long = vec![vec![1u8; 33]];
    assert_eq!(
        assert_derivation_with_bump(&program_id, &a, &long, ProgramError::Custom(8)),
        Err(ProgramError::MaxSeedLengthExceeded)
    );
}

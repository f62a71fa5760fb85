use arch_utils::account::{AccountInfo, UtxoMeta};
use arch_utils::assertions::assert_initialized;
use arch_utils::error::ProgramError;
use arch_utils::program_pack::{IsInitialized, Pack};
use arch_utils::token::assertions::{
    assert_holder, assert_token_program_matches_package, TokenAccount, ToTokenAccount,
    APL_TOKEN_PROGRAM_ID_BYTES, TOKEN_ACCOUNT_LEN,
};

fn record(mint: u8, owner: u8, amount: u64) -> TokenAccount {
    TokenAccount {
        mint: [mint; 32],
        owner: [owner; 32],
        amount,
        is_frozen: false,
        is_initialized: true,
    }
}

fn account(key: u8, data: Vec<u8>) -> AccountInfo {
    AccountInfo {
        key: [key; 32],
        owner: [0xAA; 32],
        data,
        is_signer: false,
        utxo: UtxoMeta { txid: [key; 32], vout: 0 },
    }
}

fn packed(r: &TokenAccount) -> Vec<u8> {
    let mut buf = vec![0u8; TOKEN_ACCOUNT_LEN];
    r.pack_into_slice(&mut buf);
    buf
}

#[test]
fn pack_writes_fixed_offsets() {
    let r = TokenAccount {
        mint: [1; 32],
        owner: [2; 32],
        amount: 0x0102_0304_0506_0708,
        is_frozen: true,
        is_initialized: false,
    };
    let buf = packed(&r);
    assert_eq!(&buf[0..32], &[1u8; 32]);
    assert_eq!(&buf[32..64], &[2u8; 32]);
    assert_eq!(&buf[64..72], &[8, 7, 6, 5, 4, 3, 2, 1]);
    assert_eq!(buf[72], 1);
    assert_eq!(buf[73], 0);
}

#[test]
fn pack_leaves_trailing_bytes() {
    let r = record(3, 4, 9);
    let mut buf = vec![0xEEu8; 80];
    r.pack_into_slice(&mut buf);
    assert_eq!(&buf[74..], &[0xEE; 6]);
    assert_eq!(buf[64], 9);
}

#[test]
fn round_trip_through_bytes() {
    let r = TokenAccount {
        mint: [7; 32],
        owner: [9; 32],
        amount: u64::MAX,
        is_frozen: true,
        is_initialized: true,
    };
    let mut buf = vec![0x55u8; 100];
    r.pack_into_slice(&mut buf);
    assert_eq!(TokenAccount::unpack_from_slice(&buf), Ok(r));
}

#[test]
fn unpack_short_input_is_invalid() {
    let buf = vec![1u8; 73];
    assert_eq!(TokenAccount::unpack_from_slice(&buf), Err(ProgramError::InvalidAccountData));
    assert_eq!(TokenAccount::unpack_from_slice(&[]), Err(ProgramError::InvalidAccountData));
}

#[test]
fn unpack_reads_any_nonzero_flag_as_true() {
    let mut buf = packed(&record(1, 2, 3));
    buf[72] = 7;
    buf[73] = 0;
    let r = TokenAccount::unpack_from_slice(&buf).unwrap();
    assert!(r.is_frozen);
    assert!(!r.is_initialized());
    assert_eq!(r.amount, 3);
}

#[test]
fn initialized_requires_exact_length() {
    let mut data = packed(&record(1, 2, 3));
    data.push(0);
    let a = account(5, data);
    assert_eq!(
        assert_initialized::<TokenAccount>(&a, ProgramError::Custom(4)),
        Err(ProgramError::InvalidAccountData)
    );
}

#[test]
fn initialized_rejects_uninitialized_record() {
    let mut r = record(1, 2, 3);
    r.is_initialized = false;
    let a = account(5, packed(&r));
    assert_eq!(assert_initialized::<TokenAccount>(&a, ProgramError::Custom(4)), Err(ProgramError::Custom(4)));
}

#[test]
fn initialized_returns_record() {
    let r = record(1, 2, 3);
    let a = account(5, packed(&r));
    assert_eq!(assert_initialized::<TokenAccount>(&a, ProgramError::Custom(4)), Ok(r));
}

#[test]
fn token_account_converts_from_account_or_record() {
    let r = record(1, 2, 3);
    assert_eq!(r.to_token_account(), Ok(r));
    assert_eq!(account(5, packed(&r)).to_token_account(), Ok(r));
    let mut u = r;
    u.is_initialized = false;
    assert_eq!(
        account(5, packed(&u)).to_token_account(),
        Err(ProgramError::UninitializedAccount)
    );
}

#[test]
fn token_program_id_is_checked() {
    let mut expected = [b'0'; 32];
    expected[..9].copy_from_slice(b"apl-token");
    assert_eq!(APL_TOKEN_PROGRAM_ID_BYTES, expected);
    let program = account(0, vec![]);
    let mut program = program;
    program.key = expected;
    assert_eq!(assert_token_program_matches_package(&program, ProgramError::Custom(1)), Ok(()));
    program.key[31] = b'1';
    assert_eq!(
        assert_token_program_matches_package(&program, ProgramError::Custom(1)),
        Err(ProgramError::Custom(1))
    );
}

const M: u8 = 0x4D;
const O: u8 = 0x4F;

#[test]
fn holder_baseline_succeeds() {
    let owner = account(O, vec![]);
    let mint = account(M, vec![]);
    assert_eq!(assert_holder(record(M, O, 5), &owner, &mint, ProgramError::Custom(9)), Ok(()));
}

#[test]
fn holder_owner_mismatch_fails() {
    let owner = account(O + 1, vec![]);
    let mint = account(M, vec![]);
    assert_eq!(
        assert_holder(record(M, O, 5), &owner, &mint, ProgramError::Custom(9)),
        Err(ProgramError::Custom(9))
    );
}

#[test]
fn holder_mint_mismatch_fails() {
    let owner = account(O, vec![]);
    let mint = account(M + 1, vec![]);
    assert_eq!(
        assert_holder(record(M, O, 5), &owner, &mint, ProgramError::Custom(9)),
        Err(ProgramError::Custom(9))
    );
}

#[test]
fn holder_zero_amount_fails() {
    let owner = account(O, vec![]);
    let mint = account(M, vec![]);
    assert_eq!(
        assert_holder(record(M, O, 0), &owner, &mint, ProgramError::Custom(9)),
        Err(ProgramError::Custom(9))
    );
}

#[test]
fn holder_accepts_live_account() {
    let owner = account(O, vec![]);
    let mint = account(M, vec![]);
    let holding = account(1, packed(&record(M, O, 5)));
    assert_eq!(assert_holder(holding, &owner, &mint, ProgramError::Custom(9)), Ok(()));
    let empty = account(1, vec![0u8; 10]);
    assert_eq!(
        assert_holder(empty, &owner, &mint, ProgramError::Custom(9)),
        Err(ProgramError::InvalidAccountData)
    );
}

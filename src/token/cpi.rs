//! Instructions for the token program, and the invocations that carry them.
use vstd::prelude::*;

use crate::account::AccountInfo;
use crate::bytes::{le_bytes, push_le_u64};
use crate::error::ProgramError;
use crate::pubkey::Pubkey;

verus! {

/// The token program's operations used here.
#[derive(Debug, Clone, Copy, PartialEq, Eq, Structural)]
pub enum TokenInstruction {
    Burn,
    CloseAccount,
    MintTo,
    Transfer,
    TransferChecked,
}

/// The leading byte of each operation's encoding.
pub open spec fn opcode_of(t: TokenInstruction) -> u8 {
    match t {
        TokenInstruction::Burn => 3,
        TokenInstruction::CloseAccount => 9,
        TokenInstruction::MintTo => 7,
        TokenInstruction::Transfer => 2,
        TokenInstruction::TransferChecked => 12,
    }
}

impl TokenInstruction {
    /// The leading byte of the operation's encoding.
    pub fn opcode(&self) -> (r: u8)
        ensures
            r == opcode_of(*self),
    {
        match self {
            TokenInstruction::Burn => 3,
            TokenInstruction::CloseAccount => 9,
            TokenInstruction::MintTo => 7,
            TokenInstruction::Transfer => 2,
            TokenInstruction::TransferChecked => 12,
        }
    }
}

/// An account that an instruction names, with its role.
#[derive(Debug, Clone, Copy, PartialEq, Eq)]
pub struct AccountMeta {
    pub pubkey: Pubkey,
    pub is_signer: bool,
    pub is_writable: bool,
}

impl AccountMeta {
    /// A writable account.
    pub fn new(pubkey: Pubkey, is_signer: bool) -> (r: AccountMeta)
        ensures
            r == writable_meta(pubkey, is_signer),
    {
        AccountMeta { pubkey, is_signer, is_writable: true }
    }
}

/// A call to a program: the program, the accounts it names, and its encoded arguments.
#[derive(Debug, Clone, PartialEq, Eq)]
pub struct Instruction {
    pub program_id: Pubkey,
    pub accounts: Vec<AccountMeta>,
    pub data: Vec<u8>,
}

pub open spec fn writable_meta(pubkey: Pubkey, is_signer: bool) -> AccountMeta {
    AccountMeta { pubkey, is_signer, is_writable: true }
}

/// The accounts of a token instruction: the leading accounts, not signing; then the
/// authority, signing only where no co-signers are given; then each co-signer, signing.
pub open spec fn instruction_accounts(
    leading: Seq<Pubkey>,
    authority: Pubkey,
    signers: Seq<Pubkey>,
) -> Seq<AccountMeta> {
    leading.map_values(|k: Pubkey| writable_meta(k, false)).push(
        writable_meta(authority, signers.len() == 0),
    ) + signers.map_values(|k: Pubkey| writable_meta(k, true))
}

/// `r` is an instruction to `program` over those accounts, with payload `data`.
pub open spec fn is_token_instruction(
    r: Result<Instruction, ProgramError>,
    program: Pubkey,
    leading: Seq<Pubkey>,
    authority: Pubkey,
    signers: Seq<Pubkey>,
    data: Seq<u8>,
) -> bool {
    &&& r is Ok
    &&& r->Ok_0.program_id == program
    &&& r->Ok_0.accounts@ == instruction_accounts(leading, authority, signers)
    &&& r->Ok_0.data@ == data
}

/// Builds an instruction to the token program.
pub fn create_token_instruction(
    instruction_type: TokenInstruction,
    token_program: &Pubkey,
    accounts: Vec<AccountMeta>,
    data: Vec<u8>,
) -> (r: Instruction)
    ensures
        r.program_id == *token_program,
        r.accounts@ == accounts@,
        r.data@ == data@,
{
    Instruction { program_id: *token_program, accounts, data }
}

/// The leading accounts, then the authority and the co-signers, as `instruction_accounts`
/// orders them.
fn token_accounts(leading: Vec<Pubkey>, authority: &Pubkey, signers: &[Pubkey]) -> (r: Vec<
    AccountMeta,
>)
    ensures
        r@ == instruction_accounts(leading@, *authority, signers@),
{
    let mut accounts: Vec<AccountMeta> = Vec::new();
    let mut i: usize = 0;
    while i < leading.len()
        invariant
            i <= leading@.len(),
            accounts@ == leading@.subrange(0, i as int).map_values(
                |k: Pubkey| writable_meta(k, false),
            ),
        decreases leading@.len() - i,
    {
        accounts.push(AccountMeta::new(leading[i], false));
        i = i + 1;
        assert(accounts@ =~= leading@.subrange(0, i as int).map_values(
            |k: Pubkey| writable_meta(k, false),
        ));
    }
    assert(leading@.subrange(0, i as int) =~= leading@);
    accounts.push(AccountMeta::new(*authority, signers.len() == 0));
    let ghost head = accounts@;
    let mut j: usize = 0;
    while j < signers.len()
        invariant
            j <= signers@.len(),
            accounts@ == head + signers@.subrange(0, j as int).map_values(
                |k: Pubkey| writable_meta(k, true),
            ),
        decreases signers@.len() - j,
    {
        accounts.push(AccountMeta::new(signers[j], true));
        j = j + 1;
        assert(accounts@ =~= head + signers@.subrange(0, j as int).map_values(
            |k: Pubkey| writable_meta(k, true),
        ));
    }
    assert(signers@.subrange(0, j as int) =~= signers@);
    accounts
}

/// Builds a burn of `amount` from `source`: opcode 3, then the amount in 8 bytes.
pub fn burn_instruction(
    token_program: &Pubkey,
    source: &Pubkey,
    mint: &Pubkey,
    authority: &Pubkey,
    signers: &[Pubkey],
    amount: u64,
) -> (r: Result<Instruction, ProgramError>)
    ensures
        is_token_instruction(
            r,
            *token_program,
            seq![*source, *mint],
            *authority,
            signers@,
            seq![3u8] + le_bytes(amount),
        ),
{
    let leading: Vec<Pubkey> = vec![*source, *mint];
    assert(leading@ =~= seq![*source, *mint]);
    let accounts = token_accounts(leading, authority, signers);
    let mut data: Vec<u8> = vec![TokenInstruction::Burn.opcode()];
    assert(data@ =~= seq![opcode_of(TokenInstruction::Burn)]);
    push_le_u64(&mut data, amount);
    Ok(create_token_instruction(TokenInstruction::Burn, token_program, accounts, data))
}

/// Builds the closing of a token account into `destination`: opcode 9 alone.
pub fn close_account_instruction(
    token_program: &Pubkey,
    account: &Pubkey,
    destination: &Pubkey,
    owner: &Pubkey,
    signers: &[Pubkey],
) -> (r: Result<Instruction, ProgramError>)
    ensures
        is_token_instruction(
            r,
            *token_program,
            seq![*account, *destination],
            *owner,
            signers@,
            seq![9u8],
        ),
{
    let leading: Vec<Pubkey> = vec![*account, *destination];
    assert(leading@ =~= seq![*account, *destination]);
    let accounts = token_accounts(leading, owner, signers);
    let data: Vec<u8> = vec![TokenInstruction::CloseAccount.opcode()];
    assert(data@ =~= seq![opcode_of(TokenInstruction::CloseAccount)]);
    Ok(create_token_instruction(TokenInstruction::CloseAccount, token_program, accounts, data))
}

/// Builds a mint of `amount` into `destination`: opcode 7, then the amount in 8 bytes.
pub fn mint_to_instruction(
    token_program: &Pubkey,
    mint: &Pubkey,
    destination: &Pubkey,
    authority: &Pubkey,
    signers: &[Pubkey],
    amount: u64,
) -> (r: Result<Instruction, ProgramError>)
    ensures
        is_token_instruction(
            r,
            *token_program,
            seq![*mint, *destination],
            *authority,
            signers@,
            seq![7u8] + le_bytes(amount),
        ),
{
    let leading: Vec<Pubkey> = vec![*mint, *destination];
    assert(leading@ =~= seq![*mint, *destination]);
    let accounts = token_accounts(leading, authority, signers);
    let mut data: Vec<u8> = vec![TokenInstruction::MintTo.opcode()];
    assert(data@ =~= seq![opcode_of(TokenInstruction::MintTo)]);
    push_le_u64(&mut data, amount);
    Ok(create_token_instruction(TokenInstruction::MintTo, token_program, accounts, data))
}

/// Builds a transfer of `amount` from `source` to `destination`: opcode 2, then the
/// amount in 8 bytes.
pub fn transfer_instruction(
    token_program: &Pubkey,
    source: &Pubkey,
    destination: &Pubkey,
    authority: &Pubkey,
    signers: &[Pubkey],
    amount: u64,
) -> (r: Result<Instruction, ProgramError>)
    ensures
        is_token_instruction(
            r,
            *token_program,
            seq![*source, *destination],
            *authority,
            signers@,
            seq![2u8] + le_bytes(amount),
        ),
{
    let leading: Vec<Pubkey> = vec![*source, *destination];
    assert(leading@ =~= seq![*source, *destination]);
    let accounts = token_accounts(leading, authority, signers);
    let mut data: Vec<u8> = vec![TokenInstruction::Transfer.opcode()];
    assert(data@ =~= seq![opcode_of(TokenInstruction::Transfer)]);
    push_le_u64(&mut data, amount);
    Ok(create_token_instruction(TokenInstruction::Transfer, token_program, accounts, data))
}

/// Builds a transfer that also names the mint and its decimals: opcode 12, the amount in
/// 8 bytes, then the decimals byte.
pub fn transfer_checked_instruction(
    token_program: &Pubkey,
    source: &Pubkey,
    mint: &Pubkey,
    destination: &Pubkey,
    authority: &Pubkey,
    signers: &[Pubkey],
    amount: u64,
    decimals: u8,
) -> (r: Result<Instruction, ProgramError>)
    ensures
        is_token_instruction(
            r,
            *token_program,
            seq![*source, *mint, *destination],
            *authority,
            signers@,
            seq![12u8] + le_bytes(amount) + seq![decimals],
        ),
{
    let leading: Vec<Pubkey> = vec![*source, *mint, *destination];
    assert(leading@ =~= seq![*source, *mint, *destination]);
    let accounts = token_accounts(leading, authority, signers);
    let mut data: Vec<u8> = vec![TokenInstruction::TransferChecked.opcode()];
    assert(data@ =~= seq![opcode_of(TokenInstruction::TransferChecked)]);
    push_le_u64(&mut data, amount);
    data.push(decimals);
    assert(data@ =~= seq![12u8] + le_bytes(amount) + seq![decimals]);
    Ok(create_token_instruction(TokenInstruction::TransferChecked, token_program, accounts, data))
}

/// An instruction ready to be submitted: the instruction, the accounts handed along with
/// it, and the seed paths under which the calling program signs for derived authorities.
#[derive(Debug, Clone, PartialEq, Eq)]
pub struct Invocation {
    pub instruction: Instruction,
    pub accounts: Vec<AccountInfo>,
    pub signer_seeds: Vec<Vec<Vec<u8>>>,
}

/// The signing seed paths: the authority's path where one is given, else none.
pub open spec fn optional_seeds(seeds: Option<Vec<Vec<u8>>>) -> Seq<Vec<Vec<u8>>> {
    match seeds {
        Some(s) => seq![s],
        None => seq![],
    }
}

/// The signing seed paths: the authority's path where one is given, else one empty path.
pub open spec fn single_seeds(r: Seq<Vec<Vec<u8>>>, seeds: Option<Vec<Vec<u8>>>) -> bool {
    &&& r.len() == 1
    &&& match seeds {
        Some(s) => r[0] == s,
        None => r[0]@.len() == 0,
    }
}

fn optional_seed_paths(seeds: Option<Vec<Vec<u8>>>) -> (r: Vec<Vec<Vec<u8>>>)
    ensures
        r@ == optional_seeds(seeds),
{
    let mut r: Vec<Vec<Vec<u8>>> = Vec::new();
    if let Some(s) = seeds {
        r.push(s);
    }
    assert(r@ =~= optional_seeds(seeds));
    r
}

fn single_seed_path(seeds: Option<Vec<Vec<u8>>>) -> (r: Vec<Vec<Vec<u8>>>)
    ensures
        single_seeds(r@, seeds),
{
    let mut r: Vec<Vec<Vec<u8>>> = Vec::new();
    match seeds {
        Some(s) => r.push(s),
        None => r.push(Vec::new()),
    }
    r
}

/// Arguments of a burn.
pub struct TokenBurnParams {
    pub mint: AccountInfo,
    pub source: AccountInfo,
    pub amount: u64,
    pub authority: AccountInfo,
    pub authority_signer_seeds: Option<Vec<Vec<u8>>>,
    pub token_program: AccountInfo,
}

/// Arguments of closing a token account.
pub struct TokenCloseParams {
    /// The token account.
    pub account: AccountInfo,
    /// Where the account's value goes.
    pub destination: AccountInfo,
    /// Owner of the token account.
    pub owner: AccountInfo,
    pub authority_signer_seeds: Option<Vec<Vec<u8>>>,
    pub token_program: AccountInfo,
}

/// Arguments of a mint.
pub struct TokenMintToParams {
    pub mint: AccountInfo,
    pub destination: AccountInfo,
    pub amount: u64,
    pub authority: AccountInfo,
    pub authority_signer_seeds: Option<Vec<Vec<u8>>>,
    pub token_program: AccountInfo,
}

/// Arguments of a transfer.
pub struct TokenTransferParams {
    pub mint: AccountInfo,
    pub source: AccountInfo,
    pub destination: AccountInfo,
    pub amount: u64,
    pub authority: AccountInfo,
    pub authority_signer_seeds: Option<Vec<Vec<u8>>>,
    pub token_program: AccountInfo,
}

/// Arguments of a transfer that names the mint's decimals.
pub struct TokenTransferCheckedParams {
    pub mint: AccountInfo,
    pub source: AccountInfo,
    pub destination: AccountInfo,
    pub amount: u64,
    pub authority: AccountInfo,
    pub authority_signer_seeds: Option<Vec<Vec<u8>>>,
    pub token_program: AccountInfo,
    pub decimals: u8,
}

/// The invocation that burns `amount` from the source account; the authority is named
/// again as a co-signer.
pub fn spl_token_burn(params: TokenBurnParams) -> (r: Result<Invocation, ProgramError>)
    ensures
        r is Ok,
        is_token_instruction(
            Ok(r->Ok_0.instruction),
            params.token_program.key,
            seq![params.source.key, params.mint.key],
            params.authority.key,
            seq![params.authority.key],
            seq![3u8] + le_bytes(params.amount),
        ),
        r->Ok_0.accounts@ == seq![params.source, params.mint, params.authority],
        r->Ok_0.signer_seeds@ == optional_seeds(params.authority_signer_seeds),
{
    let TokenBurnParams { mint, source, authority, token_program, amount, authority_signer_seeds } =
        params;
    let seeds = optional_seed_paths(authority_signer_seeds);
    let signers: Vec<Pubkey> = vec![authority.key];
    assert(signers@ =~= seq![authority.key]);
    let instruction = burn_instruction(
        &token_program.key,
        &source.key,
        &mint.key,
        &authority.key,
        signers.as_slice(),
        amount,
    )?;
    let accounts: Vec<AccountInfo> = vec![source, mint, authority];
    assert(accounts@ =~= seq![params.source, params.mint, params.authority]);
    Ok(Invocation { instruction, accounts, signer_seeds: seeds })
}

/// The invocation that closes the token account into the destination, signed by the
/// owner alone.
pub fn spl_token_close(params: TokenCloseParams) -> (r: Result<Invocation, ProgramError>)
    ensures
        r is Ok,
        is_token_instruction(
            Ok(r->Ok_0.instruction),
            params.token_program.key,
            seq![params.account.key, params.destination.key],
            params.owner.key,
            seq![],
            seq![9u8],
        ),
        r->Ok_0.accounts@ == seq![
            params.account,
            params.destination,
            params.owner,
            params.token_program,
        ],
        r->Ok_0.signer_seeds@ == optional_seeds(params.authority_signer_seeds),
{
    let TokenCloseParams { account, destination, owner, authority_signer_seeds, token_program } =
        params;
    let seeds = optional_seed_paths(authority_signer_seeds);
    let signers: Vec<Pubkey> = Vec::new();
    assert(signers@ =~= seq![]);
    let instruction = close_account_instruction(
        &token_program.key,
        &account.key,
        &destination.key,
        &owner.key,
        signers.as_slice(),
    )?;
    let accounts: Vec<AccountInfo> = vec![account, destination, owner, token_program];
    assert(accounts@ =~= seq![
        params.account,
        params.destination,
        params.owner,
        params.token_program,
    ]);
    Ok(Invocation { instruction, accounts, signer_seeds: seeds })
}

/// The invocation that mints `amount` into the destination, signed by the authority alone.
pub fn spl_token_mint_to(params: TokenMintToParams) -> (r: Result<Invocation, ProgramError>)
    ensures
        r is Ok,
        is_token_instruction(
            Ok(r->Ok_0.instruction),
            params.token_program.key,
            seq![params.mint.key, params.destination.key],
            params.authority.key,
            seq![],
            seq![7u8] + le_bytes(params.amount),
        ),
        r->Ok_0.accounts@ == seq![
            params.mint,
            params.destination,
            params.authority,
            params.token_program,
        ],
        r->Ok_0.signer_seeds@ == optional_seeds(params.authority_signer_seeds),
{
    let TokenMintToParams { mint, destination, authority, token_program, amount, authority_signer_seeds } =
        params;
    let seeds = optional_seed_paths(authority_signer_seeds);
    let signers: Vec<Pubkey> = Vec::new();
    assert(signers@ =~= seq![]);
    let instruction = mint_to_instruction(
        &token_program.key,
        &mint.key,
        &destination.key,
        &authority.key,
        signers.as_slice(),
        amount,
    )?;
    let accounts: Vec<AccountInfo> = vec![mint, destination, authority, token_program];
    assert(accounts@ =~= seq![
        params.mint,
        params.destination,
        params.authority,
        params.token_program,
    ]);
    Ok(Invocation { instruction, accounts, signer_seeds: seeds })
}

/// The invocation that transfers `amount` from source to destination; the authority is
/// named again as a co-signer.
pub fn spl_token_transfer(params: TokenTransferParams) -> (r: Result<Invocation, ProgramError>)
    ensures
        r is Ok,
        is_token_instruction(
            Ok(r->Ok_0.instruction),
            params.token_program.key,
            seq![params.source.key, params.destination.key],
            params.authority.key,
            seq![params.authority.key],
            seq![2u8] + le_bytes(params.amount),
        ),
        r->Ok_0.accounts@ == seq![params.source, params.destination, params.authority],
        single_seeds(r->Ok_0.signer_seeds@, params.authority_signer_seeds),
{
    let TokenTransferParams {
        source,
        destination,
        amount,
        authority,
        token_program,
        authority_signer_seeds,
        ..
    } = params;
    let seeds = single_seed_path(authority_signer_seeds);
    let signers: Vec<Pubkey> = vec![authority.key];
    assert(signers@ =~= seq![authority.key]);
    let instruction = transfer_instruction(
        &token_program.key,
        &source.key,
        &destination.key,
        &authority.key,
        signers.as_slice(),
        amount,
    )?;
    let accounts: Vec<AccountInfo> = vec![source, destination, authority];
    assert(accounts@ =~= seq![params.source, params.destination, params.authority]);
    Ok(Invocation { instruction, accounts, signer_seeds: seeds })
}

/// The invocation that transfers `amount` from source to destination with the mint's
/// decimals; the authority is named again as a co-signer.
pub fn spl_token_transfer_checked(params: TokenTransferCheckedParams) -> (r: Result<Invocation, ProgramError>)
    ensures
        r is Ok,
        is_token_instruction(
            Ok(r->Ok_0.instruction),
            params.token_program.key,
            seq![params.source.key, params.mint.key, params.destination.key],
            params.authority.key,
            seq![params.authority.key],
            seq![12u8] + le_bytes(params.amount) + seq![params.decimals],
        ),
        r->Ok_0.accounts@ == seq![
            params.source,
            params.mint,
            params.destination,
            params.authority,
        ],
        single_seeds(r->Ok_0.signer_seeds@, params.authority_signer_seeds),
{
    let TokenTransferCheckedParams {
        mint,
        source,
        destination,
        amount,
        authority,
        token_program,
        authority_signer_seeds,
        decimals,
    } = params;
    let seeds = single_seed_path(authority_signer_seeds);
    let signers: Vec<Pubkey> = vec![authority.key];
    assert(signers@ =~= seq![authority.key]);
    let instruction = transfer_checked_instruction(
        &token_program.key,
        &source.key,
        &mint.key,
        &destination.key,
        &authority.key,
        signers.as_slice(),
        amount,
        decimals,
    )?;
    let accounts: Vec<AccountInfo> = vec![source, mint, destination, authority];
    assert(accounts@ =~= seq![
        params.source,
        params.mint,
        params.destination,
        params.authority,
    ]);
    Ok(Invocation { instruction, accounts, signer_seeds: seeds })
}

} // verus!

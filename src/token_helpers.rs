//! Instruction builders for token mints and token accounts.
use crate::sdk::{
    associated_token_address, associated_token_address_of, create_account_data_of,
    create_account_ix, create_associated_token_account_ix, initialize_account_ix,
    initialize_mint_data_of, initialize_mint_ix, mint_account_len, readonly, rent_sysvar_key,
    system_program_key, associated_token_program_key, token_account_len, token_account_of,
    token_program_id, token_program_key, unpack_token_account, writable,
};
use solana_sdk::instruction::Instruction;
use solana_sdk::pubkey::Pubkey;
use vstd::prelude::*;

verus! {

/// Size in bytes of a mint's state.
pub const MINT_LEN: u64 = 82;

/// Size in bytes of a token account's state.
pub const TOKEN_ACCOUNT_LEN: u64 = 165;

/// `ixs` creates the account `mint` through the system program, paid by
/// `payer` with `lamports`, sized for a mint's state and owned by the token
/// program, then has the token program initialise it as a mint of `decimals`
/// under `authority`, with no freeze authority.
pub open spec fn creates_mint(
    ixs: Seq<Instruction>,
    payer: Pubkey,
    mint: Pubkey,
    authority: Pubkey,
    decimals: u8,
    lamports: u64,
) -> bool {
    &&& ixs.len() == 2
    &&& ixs[0].program_id == system_program_key()
    &&& ixs[0].accounts@ == seq![writable(payer, true), writable(mint, true)]
    &&& ixs[0].data@ == create_account_data_of(lamports, MINT_LEN, token_program_key())
    &&& ixs[1].program_id == token_program_key()
    &&& ixs[1].accounts@ == seq![writable(mint, false), readonly(rent_sysvar_key(), false)]
    &&& ixs[1].data@ == initialize_mint_data_of(authority, decimals)
}

/// `ix` creates the associated token account of `owner` for `mint` under the
/// token program, paid by `payer`.
pub open spec fn creates_associated_account(ix: Instruction, payer: Pubkey, mint: Pubkey, owner: Pubkey) -> bool {
    &&& ix.program_id == associated_token_program_key()
    &&& ix.accounts@ == seq![
        writable(payer, true),
        writable(associated_token_address_of(owner, mint), false),
        readonly(owner, false),
        readonly(mint, false),
        readonly(system_program_key(), false),
        readonly(token_program_key(), false),
    ]
    &&& ix.data@ == seq![0u8]
}

/// The two instructions that create `token_mint` and make it a mint of
/// `decimals` under `authority`; `rent_exempt_threshold` funds the account.
pub fn initialize_mint(
    payer: &Pubkey,
    token_mint: &Pubkey,
    authority: &Pubkey,
    decimals: u8,
    rent_exempt_threshold: u64,
) -> (r: Vec<Instruction>)
    ensures
        creates_mint(r@, *payer, *token_mint, *authority, decimals, rent_exempt_threshold),
{
    let token_program = token_program_id();
    let init = initialize_mint_ix(&token_program, token_mint, authority, decimals).unwrap();
    let create = create_account_ix(payer, token_mint, rent_exempt_threshold, mint_account_len(), &token_program);
    vec![create, init]
}

/// The associated token account of `authority` for `token_mint`, and the
/// instruction that creates it, paid by `payer`.
pub fn create_ata(payer: &Pubkey, token_mint: &Pubkey, authority: &Pubkey) -> (r: (Pubkey, Instruction))
    ensures
        r.0 == associated_token_address_of(*authority, *token_mint),
        creates_associated_account(r.1, *payer, *token_mint, *authority),
{
    let ata = associated_token_address(authority, token_mint);
    let ix = create_associated_token_account_ix(payer, authority, token_mint, &token_program_id());
    (ata, ix)
}

/// The two instructions that create `token_account` and make it a token
/// account of `token_mint` owned by `authority`; `rent_exempt_threshold`
/// funds the account.
pub fn create_token_account(
    payer: &Pubkey,
    token_mint: &Pubkey,
    authority: &Pubkey,
    token_account: &Pubkey,
    rent_exempt_threshold: u64,
) -> (r: Vec<Instruction>)
    ensures
        r@.len() == 2,
        r@[0].program_id == system_program_key(),
        r@[0].accounts@ == seq![writable(*payer, true), writable(*token_account, true)],
        r@[0].data@ == create_account_data_of(rent_exempt_threshold, TOKEN_ACCOUNT_LEN, token_program_key()),
        r@[1].program_id == token_program_key(),
        r@[1].accounts@ == seq![
            writable(*token_account, false),
            readonly(*token_mint, false),
            readonly(*authority, false),
            readonly(rent_sysvar_key(), false),
        ],
        r@[1].data@ == seq![1u8],
{
    let token_program = token_program_id();
    let init = initialize_account_ix(&token_program, token_account, token_mint, authority).unwrap();
    let create = create_account_ix(payer, token_account, rent_exempt_threshold, token_account_len(), &token_program);
    vec![create, init]
}

/// The token account stored in an account's data, which must hold a token
/// account's state that decodes.
pub fn get_token_account(account_data: &[u8]) -> (r: spl_token::state::Account)
    requires
        account_data@.len() >= TOKEN_ACCOUNT_LEN,
        token_account_of(account_data@) is Some,
    ensures
        r == token_account_of(account_data@)->0,
{
    unpack_token_account(account_data).unwrap()
}

/// The token account stored in an account's data: `None` where the data is
/// shorter than a token account's state or does not decode.
pub fn try_get_token_account(account_data: &[u8]) -> (r: Option<spl_token::state::Account>)
    ensures
        account_data@.len() < TOKEN_ACCOUNT_LEN ==> r is None,
        account_data@.len() >= TOKEN_ACCOUNT_LEN ==> r == token_account_of(account_data@),
{
    if account_data.len() < 165 {
        return None;
    }
    match unpack_token_account(account_data) {
        Some(_) => Some(get_token_account(account_data)),
        None => None,
    }
}

} // verus!

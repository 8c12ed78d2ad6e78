//! Declarations of the ledger SDK's types, and the SDK calls the library makes,
//! each with the contract that the SDK's source gives it.
use solana_sdk::instruction::{AccountMeta, Instruction};
use solana_sdk::message::v0::{Message, MessageAddressTableLookup};
use solana_sdk::message::{CompileError, MessageHeader};
use solana_sdk::instruction::CompiledInstruction;
use solana_sdk::program_error::ProgramError;
use solana_sdk::pubkey::Pubkey;
use spl_token_swap::curve::base::SwapCurve;
use spl_token_swap::curve::fees::Fees;
use spl_token_swap::instruction::Swap;
use vstd::prelude::*;

verus! {

#[verifier::external_type_specification]
#[verifier::external_body]
pub struct ExPubkey(Pubkey);

#[verifier::external_type_specification]
#[verifier::external_body]
pub struct ExHash(solana_sdk::hash::Hash);

#[verifier::external_type_specification]
#[verifier::external_body]
pub struct ExProgramError(ProgramError);

#[verifier::external_type_specification]
#[verifier::external_body]
pub struct ExCompileError(CompileError);

#[verifier::external_type_specification]
pub struct ExAccountMeta(AccountMeta);

#[verifier::external_type_specification]
pub struct ExInstruction(Instruction);

#[verifier::external_type_specification]
pub struct ExMessageHeader(MessageHeader);

#[verifier::external_type_specification]
pub struct ExCompiledInstruction(CompiledInstruction);

#[verifier::external_type_specification]
pub struct ExMessageAddressTableLookup(MessageAddressTableLookup);

#[verifier::external_type_specification]
pub struct ExMessage(Message);

#[verifier::external_type_specification]
#[verifier::external_body]
pub struct ExSwapCurve(SwapCurve);

#[verifier::external_type_specification]
pub struct ExFees(Fees);

#[verifier::external_type_specification]
#[verifier::external_body]
pub struct ExTokenAccount(spl_token::state::Account);

#[verifier::external_type_specification]
pub struct ExSwap(Swap);

/// The account entry that `AccountMeta::new` builds.
pub open spec fn writable(key: Pubkey, is_signer: bool) -> AccountMeta {
    AccountMeta { pubkey: key, is_signer: is_signer, is_writable: true }
}

/// The account entry that `AccountMeta::new_readonly` builds.
pub open spec fn readonly(key: Pubkey, is_signer: bool) -> AccountMeta {
    AccountMeta { pubkey: key, is_signer: is_signer, is_writable: false }
}

/// Relies on `Pubkey`'s derived `PartialEq`, which compares the 32 bytes.
#[verifier::external_body]
pub(crate) fn same_key(a: &Pubkey, b: &Pubkey) -> (r: bool)
    ensures
        r == (*a == *b),
{
    a == b
}

/// The `n` low bytes of `v`, least significant first.
pub open spec fn le_bytes(v: nat, n: nat) -> Seq<u8>
    decreases n,
{
    if n == 0 {
        Seq::empty()
    } else {
        seq![(v % 256) as u8] + le_bytes(v / 256, (n - 1) as nat)
    }
}

/// Little-endian encoding of a `u64`.
pub open spec fn u64_le(v: u64) -> Seq<u8> {
    le_bytes(v as nat, 8)
}

/// The key whose 32 bytes are `bytes`, as `Pubkey::new_from_array` builds it
/// (`declare_id!` defines each program id this way).
pub uninterp spec fn key_of(bytes: Seq<u8>) -> Pubkey;

/// Bytes of the token program's id, `TokenkegQfeZyiNwAJbNbGKPFXCWuBvf9Ss623VQ5DA`.
pub open spec fn token_program_bytes() -> Seq<u8> {
    seq![
        6u8, 221, 246, 225, 215, 101, 161, 147, 217, 203, 225, 70, 206, 235, 121, 172,
        28, 180, 133, 237, 95, 91, 55, 145, 58, 140, 245, 133, 126, 255, 0, 169,
    ]
}

/// Bytes of the swap program's id, `SwapsVeCiPHMUAtzQWZw7RjsKjgCjhwU55QGu4U1Szw`.
pub open spec fn swap_program_bytes() -> Seq<u8> {
    seq![
        6u8, 165, 60, 214, 45, 140, 150, 136, 85, 76, 163, 132, 250, 242, 149, 59,
        133, 4, 255, 95, 119, 86, 21, 196, 185, 198, 183, 129, 191, 180, 128, 180,
    ]
}

/// The token program.
pub open spec fn token_program_key() -> Pubkey {
    key_of(token_program_bytes())
}

/// The swap program.
pub open spec fn swap_program_key() -> Pubkey {
    key_of(swap_program_bytes())
}

/// The system program, `11111111111111111111111111111111`: 32 zero bytes.
pub open spec fn system_program_key() -> Pubkey {
    key_of(Seq::new(32, |i: int| 0u8))
}

/// The associated token account program, `ATokenGPvbdGVxr1b2hvZbsiqW5xWH25efTNsLJA8knL`.
pub open spec fn associated_token_program_key() -> Pubkey {
    key_of(
        seq![
            140u8, 151, 37, 143, 78, 36, 137, 241, 187, 61, 16, 41, 20, 142, 13, 131,
            11, 90, 19, 153, 218, 255, 16, 132, 4, 142, 123, 216, 219, 233, 248, 89,
        ],
    )
}

/// The rent sysvar, `SysvarRent111111111111111111111111111111111`.
pub open spec fn rent_sysvar_key() -> Pubkey {
    key_of(
        seq![
            6u8, 167, 213, 23, 25, 44, 92, 81, 33, 140, 201, 76, 61, 74, 241, 127,
            88, 218, 238, 8, 155, 161, 253, 68, 227, 219, 217, 138, 0, 0, 0, 0,
        ],
    )
}

/// The address lookup table program, `AddressLookupTab1e1111111111111111111111111`.
pub open spec fn lookup_table_program_key() -> Pubkey {
    key_of(
        seq![
            2u8, 119, 166, 175, 151, 51, 155, 122, 200, 141, 24, 146, 201, 4, 70, 245,
            0, 2, 48, 146, 102, 246, 46, 83, 193, 24, 36, 73, 130, 0, 0, 0,
        ],
    )
}

/// Relies on `spl_token::id()`, declared from the bytes above.
#[verifier::external_body]
pub(crate) fn token_program_id() -> (r: Pubkey)
    ensures
        r == key_of(token_program_bytes()),
{
    spl_token::id()
}

/// Relies on `spl_token_swap::id()`, declared from the bytes above.
#[verifier::external_body]
pub(crate) fn swap_program_id() -> (r: Pubkey)
    ensures
        r == key_of(swap_program_bytes()),
{
    spl_token_swap::id()
}

/// The swap program's authority for a pool: the program address derived from
/// the pool's address as the single seed.
pub uninterp spec fn pool_authority_of(pool: Pubkey) -> Pubkey;

/// The associated token account of `wallet` for `mint` under the token program.
pub uninterp spec fn associated_token_address_of(wallet: Pubkey, mint: Pubkey) -> Pubkey;

/// The instruction data that the system program's `create_account` encodes.
pub uninterp spec fn create_account_data_of(lamports: u64, space: u64, owner: Pubkey) -> Seq<u8>;

/// The instruction data of the token program's `InitializeMint` without a
/// freeze authority.
pub uninterp spec fn initialize_mint_data_of(mint_authority: Pubkey, decimals: u8) -> Seq<u8>;

/// Relies on `Pubkey::find_program_address` with the pool's address as the
/// only seed and the swap program's id: the result depends on the pool alone.
/// (It panics only where no bump seed gives an off-curve address, which no
/// known input does.)
#[verifier::external_body]
pub(crate) fn find_pool_authority_address(pool_pubkey: &Pubkey) -> (r: Pubkey)
    ensures
        r == pool_authority_of(*pool_pubkey),
{
    Pubkey::find_program_address(&[pool_pubkey.as_ref()], &spl_token_swap::id()).0
}

/// Relies on `spl_associated_token_account::get_associated_token_address`:
/// the address depends on the wallet and the mint alone. (It derives a program
/// address as above, with the same proviso.)
#[verifier::external_body]
pub(crate) fn associated_token_address(wallet: &Pubkey, mint: &Pubkey) -> (r: Pubkey)
    ensures
        r == associated_token_address_of(*wallet, *mint),
{
    spl_associated_token_account::get_associated_token_address(wallet, mint)
}

/// Relies on `spl_associated_token_account::instruction::create_associated_token_account`:
/// the associated token account program; the funder signs and pays, the new
/// account is the associated address, then the wallet, the mint, the system
/// program and the token program; the data is the one-byte `Create` tag.
/// The address agrees with `get_associated_token_address` where
/// `token_program_id` is the token program.
#[verifier::external_body]
pub(crate) fn create_associated_token_account_ix(
    funding: &Pubkey,
    wallet: &Pubkey,
    mint: &Pubkey,
    token_program_id: &Pubkey,
) -> (r: Instruction)
    requires
        *token_program_id == token_program_key(),
    ensures
        r.program_id == associated_token_program_key(),
        r.accounts@ == seq![
            writable(*funding, true),
            writable(associated_token_address_of(*wallet, *mint), false),
            readonly(*wallet, false),
            readonly(*mint, false),
            readonly(system_program_key(), false),
            readonly(*token_program_id, false),
        ],
        r.data@ == seq![0u8],
{
    spl_associated_token_account::instruction::create_associated_token_account(
        funding,
        wallet,
        mint,
        token_program_id,
    )
}

/// Relies on `solana_sdk::system_instruction::create_account`: the system
/// program; the payer and the new account both sign and are written.
#[verifier::external_body]
pub(crate) fn create_account_ix(from: &Pubkey, to: &Pubkey, lamports: u64, space: u64, owner: &Pubkey) -> (r: Instruction)
    ensures
        r.program_id == system_program_key(),
        r.accounts@ == seq![writable(*from, true), writable(*to, true)],
        r.data@ == create_account_data_of(lamports, space, *owner),
{
    solana_sdk::system_instruction::create_account(from, to, lamports, space, owner)
}

/// Relies on `spl_token::instruction::initialize_mint` without a freeze
/// authority: its program check accepts only the token program's id; the mint
/// is written, the rent sysvar read.
#[verifier::external_body]
pub(crate) fn initialize_mint_ix(token_program_id: &Pubkey, mint: &Pubkey, mint_authority: &Pubkey, decimals: u8) -> (r: Result<Instruction, ProgramError>)
    ensures
        r is Ok <==> *token_program_id == token_program_key(),
        r is Ok ==> r->Ok_0.program_id == *token_program_id,
        r is Ok ==> r->Ok_0.accounts@ == seq![writable(*mint, false), readonly(rent_sysvar_key(), false)],
        r is Ok ==> r->Ok_0.data@ == initialize_mint_data_of(*mint_authority, decimals),
{
    spl_token::instruction::initialize_mint(token_program_id, mint, mint_authority, None, decimals)
}

/// Relies on `spl_token::instruction::mint_to` with no multisig signers: its
/// program check accepts only the token program's id; tag 7, then the amount.
#[verifier::external_body]
pub(crate) fn mint_to_ix(token_program_id: &Pubkey, mint: &Pubkey, account: &Pubkey, owner: &Pubkey, amount: u64) -> (r: Result<Instruction, ProgramError>)
    ensures
        r is Ok <==> *token_program_id == token_program_key(),
        r is Ok ==> r->Ok_0.program_id == *token_program_id,
        r is Ok ==> r->Ok_0.accounts@ == seq![writable(*mint, false), writable(*account, false), readonly(*owner, true)],
        r is Ok ==> r->Ok_0.data@ == seq![7u8] + u64_le(amount),
{
    spl_token::instruction::mint_to(token_program_id, mint, account, owner, &[], amount)
}

/// Relies on the `LEN` of `spl_token::state::Mint`.
#[verifier::external_body]
pub(crate) fn mint_account_len() -> (r: u64)
    ensures
        r == 82,
{
    <spl_token::state::Mint as solana_sdk::program_pack::Pack>::LEN as u64
}

/// The lookup-table address derived from its authority and a recent slot.
pub uninterp spec fn lookup_table_address_of(authority: Pubkey, recent_slot: u64) -> Pubkey;

/// The instruction data of the lookup-table program's `CreateLookupTable`
/// for a table under `authority` bound to `recent_slot`.
pub uninterp spec fn create_lookup_table_data_of(authority: Pubkey, recent_slot: u64) -> Seq<u8>;

/// The instruction data of the lookup-table program's `ExtendLookupTable`.
pub uninterp spec fn extend_data_of(new_addresses: Seq<Pubkey>) -> Seq<u8>;

/// Relies on `spl_token_swap::instruction::swap` with no host fee account: the
/// ten accounts in the builder's order, the transfer authority the one signer;
/// tag 1, then both amounts.
#[verifier::external_body]
pub(crate) fn swap_ix(
    program_id: &Pubkey,
    token_program_id: &Pubkey,
    swap_pubkey: &Pubkey,
    authority: &Pubkey,
    user_transfer_authority: &Pubkey,
    source: &Pubkey,
    swap_source: &Pubkey,
    swap_destination: &Pubkey,
    destination: &Pubkey,
    pool_mint: &Pubkey,
    pool_fee: &Pubkey,
    swap: Swap,
) -> (r: Result<Instruction, ProgramError>)
    ensures
        r is Ok,
        r->Ok_0.program_id == *program_id,
        r->Ok_0.accounts@ == seq![
            readonly(*swap_pubkey, false),
            readonly(*authority, false),
            readonly(*user_transfer_authority, true),
            writable(*source, false),
            writable(*swap_source, false),
            writable(*swap_destination, false),
            writable(*destination, false),
            writable(*pool_mint, false),
            writable(*pool_fee, false),
            readonly(*token_program_id, false),
        ],
        r->Ok_0.data@ == seq![1u8] + u64_le(swap.amount_in) + u64_le(swap.minimum_amount_out),
{
    spl_token_swap::instruction::swap(
        program_id, token_program_id, swap_pubkey, authority, user_transfer_authority,
        source, swap_source, swap_destination, destination, pool_mint, pool_fee, None, swap,
    )
}

/// The 33 bytes that `SwapCurve`'s `pack_into_slice` writes into a zeroed
/// buffer.
pub uninterp spec fn packed_curve_of(curve: SwapCurve) -> Seq<u8>;

/// The 33 bytes of the constant-product curve: its curve type 0, and 32 zero
/// bytes, as its calculator packs nothing.
pub open spec fn constant_product_bytes() -> Seq<u8> {
    Seq::new(33, |i: int| 0u8)
}

/// Relies on `SwapCurve`'s `Default`: curve type `ConstantProduct` (0) with the
/// constant-product calculator, whose packing writes nothing.
#[verifier::external_body]
pub(crate) fn constant_product_curve() -> (r: SwapCurve)
    ensures
        packed_curve_of(r) == constant_product_bytes(),
{
    SwapCurve::default()
}

/// The 64 bytes that `Fees`' `pack_into_slice` writes: the eight fields in
/// order, little-endian.
pub open spec fn fee_bytes(f: Fees) -> Seq<u8> {
    u64_le(f.trade_fee_numerator) + u64_le(f.trade_fee_denominator) + u64_le(f.owner_trade_fee_numerator)
        + u64_le(f.owner_trade_fee_denominator) + u64_le(f.owner_withdraw_fee_numerator) + u64_le(
        f.owner_withdraw_fee_denominator,
    ) + u64_le(f.host_fee_numerator) + u64_le(f.host_fee_denominator)
}

/// Relies on `spl_token_swap::instruction::initialize`: the new pool account
/// signs, the pool mint and the initial share destination are written; tag 0,
/// the packed fees, the packed curve.
#[verifier::external_body]
pub(crate) fn initialize_swap_ix(
    program_id: &Pubkey,
    token_program_id: &Pubkey,
    swap_pubkey: &Pubkey,
    authority: &Pubkey,
    token_a: &Pubkey,
    token_b: &Pubkey,
    pool_mint: &Pubkey,
    fee: &Pubkey,
    destination: &Pubkey,
    fees: Fees,
    curve: SwapCurve,
) -> (r: Result<Instruction, ProgramError>)
    ensures
        r is Ok,
        r->Ok_0.program_id == *program_id,
        r->Ok_0.accounts@ == seq![
            writable(*swap_pubkey, true),
            readonly(*authority, false),
            readonly(*token_a, false),
            readonly(*token_b, false),
            writable(*pool_mint, false),
            readonly(*fee, false),
            writable(*destination, false),
            readonly(*token_program_id, false),
        ],
        r->Ok_0.data@ == seq![0u8] + fee_bytes(fees) + packed_curve_of(curve),
{
    spl_token_swap::instruction::initialize(
        program_id, token_program_id, swap_pubkey, authority, token_a, token_b,
        pool_mint, fee, destination, fees, curve,
    )
}

/// Relies on `SwapVersion::LATEST_LEN` of the swap program's state.
#[verifier::external_body]
pub(crate) fn swap_account_len() -> (r: u64)
    ensures
        r == 324,
{
    spl_token_swap::state::SwapVersion::LATEST_LEN as u64
}

/// Relies on `address_lookup_table::instruction::create_lookup_table`: the
/// lookup-table program; the table account at its derived address, the
/// authority (not signing), the paying signer, the system program.
#[verifier::external_body]
pub(crate) fn create_lookup_table_ix(authority: Pubkey, payer: Pubkey, recent_slot: u64) -> (r: (Instruction, Pubkey))
    ensures
        r.1 == lookup_table_address_of(authority, recent_slot),
        r.0.program_id == lookup_table_program_key(),
        r.0.accounts@ == seq![
            writable(r.1, false),
            readonly(authority, false),
            writable(payer, true),
            readonly(system_program_key(), false),
        ],
        r.0.data@ == create_lookup_table_data_of(authority, recent_slot),
{
    solana_sdk::address_lookup_table::instruction::create_lookup_table(authority, payer, recent_slot)
}

/// Relies on `address_lookup_table::instruction::extend_lookup_table` with a
/// payer: the lookup-table program; the table, the signing authority, the
/// paying signer, the system program; the data carries the new addresses.
#[verifier::external_body]
pub(crate) fn extend_lookup_table_ix(table: Pubkey, authority: Pubkey, payer: Pubkey, new_addresses: Vec<Pubkey>) -> (r: Instruction)
    ensures
        r.program_id == lookup_table_program_key(),
        r.accounts@ == seq![
            writable(table, false),
            readonly(authority, true),
            writable(payer, true),
            readonly(system_program_key(), false),
        ],
        r.data@ == extend_data_of(new_addresses@),
{
    solana_sdk::address_lookup_table::instruction::extend_lookup_table(table, authority, Some(payer), new_addresses)
}

/// `key` stands in an account entry of one of `ixs`.
pub open spec fn is_account_of(ixs: Seq<Instruction>, key: Pubkey) -> bool {
    exists|i: int, j: int|
        0 <= i < ixs.len() && 0 <= j < ixs[i].accounts@.len() && #[trigger] ixs[i].accounts@[j].pubkey == key
}

/// Some account entry of `ixs` asks `key` to sign.
pub open spec fn signs_in(ixs: Seq<Instruction>, key: Pubkey) -> bool {
    exists|i: int, j: int|
        0 <= i < ixs.len() && 0 <= j < ixs[i].accounts@.len() && #[trigger] ixs[i].accounts@[j].pubkey == key
            && ixs[i].accounts@[j].is_signer
}

/// Some account entry of `ixs` writes `key`.
pub open spec fn writes_in(ixs: Seq<Instruction>, key: Pubkey) -> bool {
    exists|i: int, j: int|
        0 <= i < ixs.len() && 0 <= j < ixs[i].accounts@.len() && #[trigger] ixs[i].accounts@[j].pubkey == key
            && ixs[i].accounts@[j].is_writable
}

/// `key` is the program of one of `ixs`.
pub open spec fn invoked_in(ixs: Seq<Instruction>, key: Pubkey) -> bool {
    exists|i: int| 0 <= i < ixs.len() && #[trigger] ixs[i].program_id == key
}

/// A v0 message paid by `payer` may load `key` from a lookup table: an
/// account of the instructions that neither signs nor is invoked.
pub open spec fn loadable(payer: Pubkey, ixs: Seq<Instruction>, key: Pubkey) -> bool {
    &&& is_account_of(ixs, key)
    &&& !signs_in(ixs, key)
    &&& !invoked_in(ixs, key)
    &&& key != payer
}

/// Every key a message for `ixs` paid by `payer` names: the payer, the
/// programs and the accounts.
pub open spec fn message_keys(payer: Pubkey, ixs: Seq<Instruction>) -> Set<Pubkey> {
    Set::new(|k: Pubkey| k == payer || invoked_in(ixs, k) || is_account_of(ixs, k))
}

/// The message loads `key` from `table`.
pub open spec fn table_loads(payer: Pubkey, ixs: Seq<Instruction>, table: Seq<Pubkey>, key: Pubkey) -> bool {
    loadable(payer, ixs, key) && table.contains(key)
}

/// The keys that `m` loads through its lookup into `table`: the writable ones,
/// then the read-only ones.
pub open spec fn loaded_keys(m: Message, table: Seq<Pubkey>) -> Seq<Pubkey> {
    if m.address_table_lookups@.len() == 0 {
        Seq::empty()
    } else {
        let l = m.address_table_lookups@[0];
        l.writable_indexes@.map_values(|i: u8| table[i as int]) + l.readonly_indexes@.map_values(
            |i: u8| table[i as int],
        )
    }
}

/// The keys an index of `m` refers to: its static keys, then the loaded ones.
pub open spec fn resolved_keys(m: Message, table: Seq<Pubkey>) -> Seq<Pubkey> {
    m.account_keys@ + loaded_keys(m, table)
}

/// `ci`, read against `keys`, is `ix`: same program, same accounts in the same
/// order, same data.
pub open spec fn resolves_to(ci: CompiledInstruction, keys: Seq<Pubkey>, ix: Instruction) -> bool {
    &&& (ci.program_id_index as int) < keys.len()
    &&& keys[ci.program_id_index as int] == ix.program_id
    &&& ci.accounts@.len() == ix.accounts@.len()
    &&& forall|j: int|
        0 <= j < ci.accounts@.len() ==> (#[trigger] ci.accounts@[j] as int) < keys.len() && keys[ci.accounts@[j] as int]
            == ix.accounts@[j].pubkey
    &&& ci.data@ == ix.data@
}

/// `m` is the v0 message for `ixs` paid by `payer` with recent blockhash
/// `blockhash`, loading from the table `table_key` (holding `table`) every key
/// it may load from it, and listing the others statically, signers first.
pub open spec fn is_compiled_v0(
    m: Message,
    payer: Pubkey,
    ixs: Seq<Instruction>,
    table_key: Pubkey,
    table: Seq<Pubkey>,
    blockhash: solana_sdk::hash::Hash,
) -> bool {
    let lookups = m.address_table_lookups@;
    let keys = resolved_keys(m, table);
    &&& m.recent_blockhash == blockhash
    &&& lookups.len() <= 1
    &&& lookups.len() == 1 <==> exists|k: Pubkey| #[trigger] table_loads(payer, ixs, table, k)
    &&& lookups.len() == 1 ==> {
        &&& lookups[0].account_key == table_key
        &&& lookups[0].writable_indexes@.len() + lookups[0].readonly_indexes@.len() > 0
        &&& forall|j: int|
            0 <= j < lookups[0].writable_indexes@.len() ==> (#[trigger] lookups[0].writable_indexes@[j] as int)
                < table.len()
        &&& forall|j: int|
            0 <= j < lookups[0].readonly_indexes@.len() ==> (#[trigger] lookups[0].readonly_indexes@[j] as int)
                < table.len()
    }
    &&& forall|k: Pubkey| #[trigger] loaded_keys(m, table).contains(k) <==> table_loads(payer, ixs, table, k)
    &&& forall|k: Pubkey|
        #[trigger] m.account_keys@.contains(k) <==> (message_keys(payer, ixs).contains(k) && !table_loads(
            payer,
            ixs,
            table,
            k,
        ))
    &&& keys.no_duplicates()
    &&& m.account_keys@.len() > 0 && m.account_keys@[0] == payer
    &&& m.header.num_required_signatures as int <= m.account_keys@.len()
    &&& m.header.num_readonly_signed_accounts <= m.header.num_required_signatures
    &&& m.header.num_readonly_unsigned_accounts as int <= m.account_keys@.len()
        - m.header.num_required_signatures as int
    &&& forall|i: int|
        0 <= i < m.account_keys@.len() ==> (i < m.header.num_required_signatures as int <==> (
        #[trigger] m.account_keys@[i] == payer || signs_in(ixs, m.account_keys@[i])))
    &&& forall|i: int|
        0 <= i < m.header.num_required_signatures ==> (i < m.header.num_required_signatures
            - m.header.num_readonly_signed_accounts <==> (#[trigger] m.account_keys@[i] == payer
            || writes_in(ixs, m.account_keys@[i])))
    &&& forall|i: int|
        m.header.num_required_signatures <= i < m.account_keys@.len() ==> (i < m.account_keys@.len()
            - m.header.num_readonly_unsigned_accounts <==> writes_in(ixs, #[trigger] m.account_keys@[i]))
    &&& lookups.len() == 1 ==> forall|j: int|
        0 <= j < lookups[0].writable_indexes@.len() ==> writes_in(
            ixs,
            table[#[trigger] lookups[0].writable_indexes@[j] as int],
        )
    &&& lookups.len() == 1 ==> forall|j: int|
        0 <= j < lookups[0].readonly_indexes@.len() ==> !writes_in(
            ixs,
            table[#[trigger] lookups[0].readonly_indexes@[j] as int],
        )
    &&& m.instructions@.len() == ixs.len()
    &&& forall|i: int| 0 <= i < ixs.len() ==> resolves_to(#[trigger] m.instructions@[i], keys, ixs[i])
}

/// Relies on `v0::Message::try_compile` with one lookup table. Compilation
/// fails only where a count or an index does not fit a byte: it succeeds with
/// at most 255 keys in all and a table of at most 256 entries.
#[verifier::external_body]
pub(crate) fn try_compile_v0(
    payer: &Pubkey,
    instructions: &[Instruction],
    table_key: Pubkey,
    table_addresses: Vec<Pubkey>,
    blockhash: solana_sdk::hash::Hash,
) -> (r: Result<Message, CompileError>)
    ensures
        r is Ok ==> is_compiled_v0(r->Ok_0, *payer, instructions@, table_key, table_addresses@, blockhash),
        table_addresses@.len() <= 256 && message_keys(*payer, instructions@).finite() && message_keys(
            *payer,
            instructions@,
        ).len() <= 255 ==> r is Ok,
{
    let table = solana_sdk::address_lookup_table::AddressLookupTableAccount { key: table_key, addresses: table_addresses };
    Message::try_compile(payer, instructions, &[table], blockhash)
}

/// The token account that `spl_token::state::Account::unpack_from_slice` reads
/// from the account data, or `None` where it reports an error.
pub uninterp spec fn token_account_of(data: Seq<u8>) -> Option<spl_token::state::Account>;

/// Relies on `spl_token::instruction::initialize_account`: its program check
/// accepts only the token program's id; the account is written, the mint, the
/// owner and the rent sysvar read; the data is the one-byte tag 1.
#[verifier::external_body]
pub(crate) fn initialize_account_ix(token_program_id: &Pubkey, account: &Pubkey, mint: &Pubkey, owner: &Pubkey) -> (r: Result<Instruction, ProgramError>)
    ensures
        r is Ok <==> *token_program_id == token_program_key(),
        r is Ok ==> r->Ok_0.program_id == *token_program_id,
        r is Ok ==> r->Ok_0.accounts@ == seq![
            writable(*account, false),
            readonly(*mint, false),
            readonly(*owner, false),
            readonly(rent_sysvar_key(), false),
        ],
        r is Ok ==> r->Ok_0.data@ == seq![1u8],
{
    spl_token::instruction::initialize_account(token_program_id, account, mint, owner)
}

/// Relies on the `LEN` of `spl_token::state::Account`.
#[verifier::external_body]
pub(crate) fn token_account_len() -> (r: u64)
    ensures
        r == 165,
{
    <spl_token::state::Account as solana_sdk::program_pack::Pack>::LEN as u64
}

/// Relies on `spl_token::state::Account::unpack_from_slice`, which reads the
/// first 165 bytes (and panics on fewer).
#[verifier::external_body]
pub(crate) fn unpack_token_account(data: &[u8]) -> (r: Option<spl_token::state::Account>)
    requires
        data@.len() >= 165,
    ensures
        r == token_account_of(data@),
{
    <spl_token::state::Account as solana_sdk::program_pack::Pack>::unpack_from_slice(data).ok()
}

/// The addresses that `AddressLookupTable::deserialize` reads from a lookup
/// table account's data, or `None` where it reports an error.
pub uninterp spec fn lookup_table_addresses_of(data: Seq<u8>) -> Option<Seq<Pubkey>>;

/// Relies on `address_lookup_table::state::AddressLookupTable::deserialize`:
/// after the 56 bytes of the table's metadata, the data is the addresses,
/// 32 bytes each.
#[verifier::external_body]
pub(crate) fn lookup_table_addresses(data: &[u8]) -> (r: Option<Vec<Pubkey>>)
    ensures
        r is None <==> lookup_table_addresses_of(data@) is None,
        r is Some ==> r->0@ == lookup_table_addresses_of(data@)->0,
        r is Some ==> data@.len() >= 56 && r->0@.len() * 32 == data@.len() - 56,
{
    let table = solana_sdk::address_lookup_table::state::AddressLookupTable::deserialize(data).ok()?;
    Some(table.addresses.to_vec())
}

} // verus!

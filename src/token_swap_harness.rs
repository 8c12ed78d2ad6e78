//! Constant-product swap pools: building a pool, its swap instruction, and the
//! addresses it touches.
use crate::sdk::{
    associated_token_address, associated_token_address_of, constant_product_bytes,
    constant_product_curve, create_account_data_of, create_account_ix, fee_bytes,
    find_pool_authority_address, initialize_swap_ix, mint_to_ix, pool_authority_of, readonly,
    swap_account_len, swap_ix, swap_program_id, swap_program_key, system_program_key,
    token_program_id, token_program_key, u64_le, writable,
};
use crate::token_helpers::{create_ata, creates_associated_account, creates_mint, initialize_mint};
use solana_sdk::instruction::Instruction;
use solana_sdk::pubkey::Pubkey;
use spl_token_swap::curve::fees::Fees;
use spl_token_swap::instruction::Swap;
use vstd::prelude::*;

verus! {

/// Size in bytes of a pool's state account.
pub const SWAP_STATE_LEN: u64 = 324;

/// Decimals of a pool's share mint.
pub const POOL_MINT_DECIMALS: u8 = 6;

/// The addresses recorded in a pool's state.
#[derive(Clone, Copy, Debug)]
pub struct PoolState {
    pub token_a_account: Pubkey,
    pub token_b_account: Pubkey,
    pub token_a_mint: Pubkey,
    pub token_b_mint: Pubkey,
    pub pool_mint: Pubkey,
    pub pool_fee_account: Pubkey,
}

/// The pool state that `SwapVersion::unpack` decodes from a pool account's
/// data, or `None` where it reports an error.
pub uninterp spec fn pool_state_of(data: Seq<u8>) -> Option<PoolState>;

/// Relies on `spl_token_swap::state::SwapVersion::unpack`: the data must be a
/// version byte 1 followed by the 323 bytes of an initialised pool.
#[verifier::external_body]
fn unpack_pool_state(data: &[u8]) -> (r: Option<PoolState>)
    ensures
        r == pool_state_of(data@),
        data@.len() != SWAP_STATE_LEN ==> r is None,
        data@.len() > 0 && data@[0] != 1 ==> r is None,
{
    let s = spl_token_swap::state::SwapVersion::unpack(data).ok()?;
    Some(PoolState {
        token_a_account: *s.token_a_account(),
        token_b_account: *s.token_b_account(),
        token_a_mint: *s.token_a_mint(),
        token_b_mint: *s.token_b_mint(),
        pool_mint: *s.pool_mint(),
        pool_fee_account: *s.pool_fee_account(),
    })
}

/// The four token accounts a swap moves value between: from the user's
/// `source` into the pool's `swap_source`, and out of the pool's
/// `swap_destination` into the user's `destination`.
#[derive(Clone, Copy, Debug)]
pub struct SwapRoute {
    pub source: Pubkey,
    pub swap_source: Pubkey,
    pub swap_destination: Pubkey,
    pub destination: Pubkey,
}

/// The route of a swap from side A to side B (`a_to_b`) or back.
pub open spec fn route_of(a_to_b: bool, user_a: Pubkey, user_b: Pubkey, reserve_a: Pubkey, reserve_b: Pubkey) -> SwapRoute {
    if a_to_b {
        SwapRoute { source: user_a, swap_source: reserve_a, swap_destination: reserve_b, destination: user_b }
    } else {
        SwapRoute { source: user_b, swap_source: reserve_b, swap_destination: reserve_a, destination: user_a }
    }
}

/// Picks the user's and the pool's accounts for the direction of a swap.
pub fn swap_route(a_to_b: bool, user_a: Pubkey, user_b: Pubkey, reserve_a: Pubkey, reserve_b: Pubkey) -> (r: SwapRoute)
    ensures
        r == route_of(a_to_b, user_a, user_b, reserve_a, reserve_b),
{
    if a_to_b {
        SwapRoute { source: user_a, swap_source: reserve_a, swap_destination: reserve_b, destination: user_b }
    } else {
        SwapRoute { source: user_b, swap_source: reserve_b, swap_destination: reserve_a, destination: user_a }
    }
}

/// The route through the pool with state `st` for `user`'s associated accounts.
pub open spec fn pool_route(st: PoolState, user: Pubkey, a_to_b: bool) -> SwapRoute {
    route_of(
        a_to_b,
        associated_token_address_of(user, st.token_a_mint),
        associated_token_address_of(user, st.token_b_mint),
        st.token_a_account,
        st.token_b_account,
    )
}

/// `ix` is the swap of `swap` through the pool `pool_key` with state `st`,
/// from and to `user`'s associated accounts, authorised by `transfer_authority`.
pub open spec fn is_swap_instruction(
    ix: Instruction,
    pool_key: Pubkey,
    st: PoolState,
    user: Pubkey,
    transfer_authority: Pubkey,
    a_to_b: bool,
    swap: Swap,
) -> bool {
    let route = pool_route(st, user, a_to_b);
    &&& ix.program_id == swap_program_key()
    &&& ix.accounts@ == seq![
        readonly(pool_key, false),
        readonly(pool_authority_of(pool_key), false),
        readonly(transfer_authority, true),
        writable(route.source, false),
        writable(route.swap_source, false),
        writable(route.swap_destination, false),
        writable(route.destination, false),
        writable(st.pool_mint, false),
        writable(st.pool_fee_account, false),
        readonly(token_program_key(), false),
    ]
    &&& ix.data@ == seq![1u8] + u64_le(swap.amount_in) + u64_le(swap.minimum_amount_out)
}

/// The addresses a pool's swaps touch besides the user's: the pool, its
/// authority, both reserves, the share mint and the fee account.
pub open spec fn pool_keys_of(pool_key: Pubkey, st: PoolState) -> Seq<Pubkey> {
    seq![
        pool_key,
        pool_authority_of(pool_key),
        st.token_a_account,
        st.token_b_account,
        st.pool_mint,
        st.pool_fee_account,
    ]
}

/// Why a pool could not be read.
#[derive(Clone, Copy, Debug, PartialEq, Eq, Structural)]
pub enum HarnessError {
    /// The pool account's data is not the state of an initialised pool.
    InvalidPoolState,
}

/// A handle on a swap pool: its account's address. Everything else is read
/// back from the pool's state.
#[derive(Clone, Copy, Debug)]
pub struct TokenSwapPoolHarness {
    pub pool_key: Pubkey,
}

/// Whether a pool account's data decodes as a pool's state.
pub fn is_pool_state(pool_account_data: &[u8]) -> (r: bool)
    ensures
        r == pool_state_of(pool_account_data@) is Some,
{
    unpack_pool_state(pool_account_data).is_some()
}

impl TokenSwapPoolHarness {
    /// The swap instruction through this pool for `user`, given the pool
    /// account's current data, which must decode: from side A to side B when
    /// `a_to_b`, else back.
    pub fn create_swap_instruction(
        &self,
        user: &Pubkey,
        user_transfer_authority_address: &Pubkey,
        a_to_b: bool,
        swap: Swap,
        pool_account_data: &[u8],
    ) -> (r: Instruction)
        requires
            pool_state_of(pool_account_data@) is Some,
        ensures
            is_swap_instruction(
                r,
                self.pool_key,
                pool_state_of(pool_account_data@)->0,
                *user,
                *user_transfer_authority_address,
                a_to_b,
                swap,
            ),
    {
        let st = unpack_pool_state(pool_account_data).unwrap();
        let pool_authority_address = find_pool_authority_address(&self.pool_key);
        let user_a = associated_token_address(user, &st.token_a_mint);
        let user_b = associated_token_address(user, &st.token_b_mint);
        let route = swap_route(a_to_b, user_a, user_b, st.token_a_account, st.token_b_account);
        swap_ix(
            &swap_program_id(),
            &token_program_id(),
            &self.pool_key,
            &pool_authority_address,
            user_transfer_authority_address,
            &route.source,
            &route.swap_source,
            &route.swap_destination,
            &route.destination,
            &st.pool_mint,
            &st.pool_fee_account,
            swap,
        ).unwrap()
    }

    /// `create_swap_instruction`, or `InvalidPoolState` where the pool
    /// account's data does not decode.
    pub fn try_create_swap_instruction(
        &self,
        user: &Pubkey,
        user_transfer_authority_address: &Pubkey,
        a_to_b: bool,
        swap: Swap,
        pool_account_data: &[u8],
    ) -> (r: Result<Instruction, HarnessError>)
        ensures
            pool_state_of(pool_account_data@) is None ==> r == Err::<Instruction, HarnessError>(
                HarnessError::InvalidPoolState,
            ),
            pool_state_of(pool_account_data@) is Some ==> r is Ok && is_swap_instruction(
                r->Ok_0,
                self.pool_key,
                pool_state_of(pool_account_data@)->0,
                *user,
                *user_transfer_authority_address,
                a_to_b,
                swap,
            ),
    {
        if !is_pool_state(pool_account_data) {
            return Err(HarnessError::InvalidPoolState);
        }
        Ok(self.create_swap_instruction(user, user_transfer_authority_address, a_to_b, swap, pool_account_data))
    }

    /// The addresses this pool's swaps touch besides the user's, read from the
    /// pool account's current data, which must decode.
    pub fn get_keys(&self, pool_account_data: &[u8]) -> (r: Vec<Pubkey>)
        requires
            pool_state_of(pool_account_data@) is Some,
        ensures
            r@ == pool_keys_of(self.pool_key, pool_state_of(pool_account_data@)->0),
    {
        let st = unpack_pool_state(pool_account_data).unwrap();
        vec![
            self.pool_key,
            find_pool_authority_address(&self.pool_key),
            st.token_a_account,
            st.token_b_account,
            st.pool_mint,
            st.pool_fee_account,
        ]
    }

    /// `get_keys`, or `InvalidPoolState` where the pool account's data does
    /// not decode.
    pub fn try_get_keys(&self, pool_account_data: &[u8]) -> (r: Result<Vec<Pubkey>, HarnessError>)
        ensures
            pool_state_of(pool_account_data@) is None ==> r == Err::<Vec<Pubkey>, HarnessError>(
                HarnessError::InvalidPoolState,
            ),
            pool_state_of(pool_account_data@) is Some ==> r is Ok && r->Ok_0@ == pool_keys_of(
                self.pool_key,
                pool_state_of(pool_account_data@)->0,
            ),
    {
        if !is_pool_state(pool_account_data) {
            return Err(HarnessError::InvalidPoolState);
        }
        Ok(self.get_keys(pool_account_data))
    }
}

/// Swapping back through a pool takes the opposite pair of user accounts and
/// the opposite pair of reserves, and the reserves are the pool's own two in
/// either direction.
pub proof fn lemma_reverse_swap_route(user_a: Pubkey, user_b: Pubkey, reserve_a: Pubkey, reserve_b: Pubkey)
    ensures
        ({
            let fwd = route_of(true, user_a, user_b, reserve_a, reserve_b);
            let back = route_of(false, user_a, user_b, reserve_a, reserve_b);
            &&& fwd.source == back.destination
            &&& fwd.destination == back.source
            &&& fwd.swap_source == back.swap_destination
            &&& fwd.swap_destination == back.swap_source
            &&& set![fwd.swap_source, fwd.swap_destination] == set![reserve_a, reserve_b]
            &&& set![back.swap_source, back.swap_destination] == set![reserve_a, reserve_b]
        }),
{
    assert(set![reserve_b, reserve_a] =~= set![reserve_a, reserve_b]);
}

/// Of two swap instructions through one pool in opposite directions, each
/// takes from the account the other pays into, both move value between the
/// same two reserves of the pool, and they agree in everything else.
pub proof fn lemma_reverse_swap_instructions(
    fwd: Instruction,
    back: Instruction,
    pool_key: Pubkey,
    st: PoolState,
    user: Pubkey,
    transfer_authority: Pubkey,
    swap: Swap,
)
    requires
        is_swap_instruction(fwd, pool_key, st, user, transfer_authority, true, swap),
        is_swap_instruction(back, pool_key, st, user, transfer_authority, false, swap),
    ensures
        fwd.program_id == back.program_id,
        fwd.data@ == back.data@,
        fwd.accounts@.len() == back.accounts@.len() == 10,
        fwd.accounts@[3] == back.accounts@[6],
        fwd.accounts@[6] == back.accounts@[3],
        fwd.accounts@[4] == back.accounts@[5],
        fwd.accounts@[5] == back.accounts@[4],
        fwd.accounts@[4].pubkey == st.token_a_account,
        fwd.accounts@[5].pubkey == st.token_b_account,
        forall|i: int| 0 <= i < 3 || 7 <= i < 10 ==> fwd.accounts@[i] == back.accounts@[i],
{
}

/// A fee schedule that charges nothing.
pub fn zero_fee() -> (r: Fees)
    ensures
        r.trade_fee_numerator == 0 && r.trade_fee_denominator == 1,
        r.owner_trade_fee_numerator == 0 && r.owner_trade_fee_denominator == 1,
        r.owner_withdraw_fee_numerator == 0 && r.owner_withdraw_fee_denominator == 1,
        r.host_fee_numerator == 0 && r.host_fee_denominator == 1,
{
    Fees {
        trade_fee_numerator: 0,
        trade_fee_denominator: 1,
        owner_trade_fee_numerator: 0,
        owner_trade_fee_denominator: 1,
        owner_withdraw_fee_numerator: 0,
        owner_withdraw_fee_denominator: 1,
        host_fee_numerator: 0,
        host_fee_denominator: 1,
    }
}

/// What creating a pool takes: a first transaction that funds the reserves and
/// makes the share mint, a second that creates and initialises the pool.
pub struct PoolSetup {
    pub harness: TokenSwapPoolHarness,
    pub setup_instructions: Vec<Instruction>,
    pub init_instructions: Vec<Instruction>,
}

/// `ix` mints `amount` of `mint` into `account` under the signing `owner`.
pub open spec fn mints_to(ix: Instruction, mint: Pubkey, account: Pubkey, owner: Pubkey, amount: u64) -> bool {
    &&& ix.program_id == token_program_key()
    &&& ix.accounts@ == seq![writable(mint, false), writable(account, false), readonly(owner, true)]
    &&& ix.data@ == seq![7u8] + u64_le(amount)
}

/// `s` sets up a pool at `pool_key` between `token_a_mint` and `token_b_mint`
/// as `initialize_pool` describes.
pub open spec fn sets_up_pool(
    s: PoolSetup,
    payer: Pubkey,
    token_a_mint: Pubkey,
    token_b_mint: Pubkey,
    token_a_initial_liquidity: u64,
    token_b_initial_liquidity: u64,
    pool_key: Pubkey,
    pool_mint: Pubkey,
    fee_owner: Pubkey,
    destination_owner: Pubkey,
    mint_rent: u64,
    swap_rent: u64,
) -> bool {
    let authority = pool_authority_of(pool_key);
    let token_a = associated_token_address_of(authority, token_a_mint);
    let token_b = associated_token_address_of(authority, token_b_mint);
    let setup = s.setup_instructions@;
    let init = s.init_instructions@;
    &&& s.harness.pool_key == pool_key
    &&& setup.len() == 8
    &&& creates_associated_account(setup[0], payer, token_a_mint, authority)
    &&& mints_to(setup[1], token_a_mint, token_a, payer, token_a_initial_liquidity)
    &&& creates_associated_account(setup[2], payer, token_b_mint, authority)
    &&& mints_to(setup[3], token_b_mint, token_b, payer, token_b_initial_liquidity)
    &&& creates_mint(setup.subrange(4, 6), payer, pool_mint, authority, POOL_MINT_DECIMALS, mint_rent)
    &&& creates_associated_account(setup[6], payer, pool_mint, fee_owner)
    &&& creates_associated_account(setup[7], payer, pool_mint, destination_owner)
    &&& init.len() == 2
    &&& init[0].program_id == system_program_key()
    &&& init[0].accounts@ == seq![writable(payer, true), writable(pool_key, true)]
    &&& init[0].data@ == create_account_data_of(swap_rent, SWAP_STATE_LEN, swap_program_key())
    &&& init[1].program_id == swap_program_key()
    &&& init[1].accounts@ == seq![
        writable(pool_key, true),
        readonly(authority, false),
        readonly(token_a, false),
        readonly(token_b, false),
        writable(pool_mint, false),
        readonly(associated_token_address_of(fee_owner, pool_mint), false),
        writable(associated_token_address_of(destination_owner, pool_mint), false),
        readonly(token_program_key(), false),
    ]
    &&& init[1].data@ == seq![0u8] + zero_fee_bytes() + constant_product_bytes()
}

/// The packed zero-fee schedule: each numerator 0, each denominator 1.
pub open spec fn zero_fee_bytes() -> Seq<u8> {
    u64_le(0) + u64_le(1) + u64_le(0) + u64_le(1) + u64_le(0) + u64_le(1) + u64_le(0) + u64_le(1)
}

/// The instructions that create a constant-product pool with no fees at
/// `pool_key` between `token_a_mint` and `token_b_mint`, funded by `payer`
/// (who holds both mints' authority) with the given initial reserves. The
/// pool's share mint is created at `pool_mint`; its fee account and the
/// initial share destination are the associated accounts of `fee_owner` and
/// `destination_owner`. `mint_rent` and `swap_rent` fund the share mint's and
/// the pool's accounts.
pub fn initialize_pool(
    payer: &Pubkey,
    token_a_mint: &Pubkey,
    token_b_mint: &Pubkey,
    token_a_initial_liquidity: u64,
    token_b_initial_liquidity: u64,
    pool_key: &Pubkey,
    pool_mint: &Pubkey,
    fee_owner: &Pubkey,
    destination_owner: &Pubkey,
    mint_rent: u64,
    swap_rent: u64,
) -> (r: PoolSetup)
    ensures
        sets_up_pool(
            r,
            *payer,
            *token_a_mint,
            *token_b_mint,
            token_a_initial_liquidity,
            token_b_initial_liquidity,
            *pool_key,
            *pool_mint,
            *fee_owner,
            *destination_owner,
            mint_rent,
            swap_rent,
        ),
{
    let pool_authority_address = find_pool_authority_address(pool_key);
    let token_program = token_program_id();
    let swap_program = swap_program_id();
    let mut setup_ixs: Vec<Instruction> = Vec::new();

    let (token_a, ix) = create_ata(payer, token_a_mint, &pool_authority_address);
    setup_ixs.push(ix);
    setup_ixs.push(mint_to_ix(&token_program, token_a_mint, &token_a, payer, token_a_initial_liquidity).unwrap());

    let (token_b, ix) = create_ata(payer, token_b_mint, &pool_authority_address);
    setup_ixs.push(ix);
    setup_ixs.push(mint_to_ix(&token_program, token_b_mint, &token_b, payer, token_b_initial_liquidity).unwrap());

    let mut mint_ixs = initialize_mint(payer, pool_mint, &pool_authority_address, POOL_MINT_DECIMALS, mint_rent);
    let ghost mint_seq = mint_ixs@;
    setup_ixs.append(&mut mint_ixs);

    let (fee_pubkey, ix) = create_ata(payer, pool_mint, fee_owner);
    setup_ixs.push(ix);
    let (destination_pubkey, ix) = create_ata(payer, pool_mint, destination_owner);
    setup_ixs.push(ix);
    assert(setup_ixs@.subrange(4, 6) =~= mint_seq);

    let fees = zero_fee();
    assert(fee_bytes(fees) == zero_fee_bytes());
    let init = initialize_swap_ix(
        &swap_program,
        &token_program,
        pool_key,
        &pool_authority_address,
        &token_a,
        &token_b,
        pool_mint,
        &fee_pubkey,
        &destination_pubkey,
        fees,
        constant_product_curve(),
    ).unwrap();
    let create = create_account_ix(payer, pool_key, swap_rent, swap_account_len(), &swap_program);
    PoolSetup {
        harness: TokenSwapPoolHarness { pool_key: *pool_key },
        setup_instructions: setup_ixs,
        init_instructions: vec![create, init],
    }
}

} // verus!

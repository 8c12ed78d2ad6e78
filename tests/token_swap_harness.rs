use alt_demo::token_swap_harness::{
    initialize_pool, is_pool_state, swap_route, zero_fee, HarnessError, TokenSwapPoolHarness,
};
use solana_sdk::pubkey::Pubkey;
use spl_token_swap::curve::base::SwapCurve;
use spl_token_swap::instruction::Swap;
use spl_token_swap::state::{SwapV1, SwapVersion};

struct Pool {
    key: Pubkey,
    token_a: Pubkey,
    token_b: Pubkey,
    pool_mint: Pubkey,
    mint_a: Pubkey,
    mint_b: Pubkey,
    fee: Pubkey,
    data: Vec<u8>,
}

fn pool(mint_a: Pubkey, mint_b: Pubkey) -> Pool {
    let key = Pubkey::new_unique();
    let token_a = Pubkey::new_unique();
    let token_b = Pubkey::new_unique();
    let pool_mint = Pubkey::new_unique();
    let fee = Pubkey::new_unique();
    let state = SwapV1 {
        is_initialized: true,
        bump_seed: 255,
        token_program_id: spl_token::id(),
        token_a,
        token_b,
        pool_mint,
        token_a_mint: mint_a,
        token_b_mint: mint_b,
        pool_fee_account: fee,
        fees: zero_fee(),
        swap_curve: SwapCurve::default(),
    };
    let mut data = vec![0u8; SwapVersion::LATEST_LEN];
    SwapVersion::pack(SwapVersion::SwapV1(state), &mut data).unwrap();
    Pool { key, token_a, token_b, pool_mint, mint_a, mint_b, fee, data }
}

fn authority(pool_key: &Pubkey) -> Pubkey {
    Pubkey::find_program_address(&[pool_key.as_ref()], &spl_token_swap::id()).0
}

#[test]
fn swap_route_flips_with_direction() {
    let (ua, ub, ra, rb) = (Pubkey::new_unique(), Pubkey::new_unique(), Pubkey::new_unique(), Pubkey::new_unique());
    let fwd = swap_route(true, ua, ub, ra, rb);
    let back = swap_route(false, ua, ub, ra, rb);
    assert_eq!((fwd.source, fwd.swap_source, fwd.swap_destination, fwd.destination), (ua, ra, rb, ub));
    assert_eq!((back.source, back.swap_source, back.swap_destination, back.destination), (ub, rb, ra, ua));
}

#[test]
fn swap_instruction_lists_accounts_in_order() {
    let p = pool(Pubkey::new_unique(), Pubkey::new_unique());
    let user = Pubkey::new_unique();
    let h = TokenSwapPoolHarness { pool_key: p.key };
    let swap = Swap { amount_in: 1000, minimum_amount_out: 0 };
    let ix = h.create_swap_instruction(&user, &user, true, swap, &p.data);
    let user_a = spl_associated_token_account::get_associated_token_address(&user, &p.mint_a);
    let user_b = spl_associated_token_account::get_associated_token_address(&user, &p.mint_b);
    let keys: Vec<Pubkey> = ix.accounts.iter().map(|m| m.pubkey).collect();
    assert_eq!(
        keys,
        vec![p.key, authority(&p.key), user, user_a, p.token_a, p.token_b, user_b, p.pool_mint, p.fee, spl_token::id()]
    );
    assert_eq!(ix.program_id, spl_token_swap::id());
    let mut data = vec![1u8];
    data.extend_from_slice(&1000u64.to_le_bytes());
    data.extend_from_slice(&0u64.to_le_bytes());
    assert_eq!(ix.data, data);
    assert!(ix.accounts[2].is_signer);
    assert_eq!(ix.accounts.iter().filter(|m| m.is_signer).count(), 1);
}

#[test]
fn reverse_swap_selects_opposite_accounts() {
    let p = pool(Pubkey::new_unique(), Pubkey::new_unique());
    let user = Pubkey::new_unique();
    let h = TokenSwapPoolHarness { pool_key: p.key };
    let fwd = h.create_swap_instruction(&user, &user, true, Swap { amount_in: 5, minimum_amount_out: 0 }, &p.data);
    let back = h.create_swap_instruction(&user, &user, false, Swap { amount_in: 5, minimum_amount_out: 0 }, &p.data);
    assert_eq!(fwd.accounts[3], back.accounts[6]);
    assert_eq!(fwd.accounts[6], back.accounts[3]);
    assert_eq!(fwd.accounts[4], back.accounts[5]);
    assert_eq!(fwd.accounts[5], back.accounts[4]);
    assert_eq!(fwd.program_id, back.program_id);
    assert_eq!(fwd.data, back.data);
    for i in [0, 1, 2, 7, 8, 9] {
        assert_eq!(fwd.accounts[i], back.accounts[i]);
    }
    let again = h.create_swap_instruction(&user, &user, true, Swap { amount_in: 5, minimum_amount_out: 0 }, &p.data);
    assert_eq!(again, fwd);
    assert_eq!(back.accounts[4].pubkey, p.token_b);
    assert_eq!(back.accounts[5].pubkey, p.token_a);
    assert_ne!(fwd.accounts[3].pubkey, back.accounts[3].pubkey);
}

#[test]
fn get_keys_lists_the_pool_addresses() {
    let p = pool(Pubkey::new_unique(), Pubkey::new_unique());
    let h = TokenSwapPoolHarness { pool_key: p.key };
    let keys = h.get_keys(&p.data);
    assert_eq!(h.try_get_keys(&p.data).unwrap(), keys);
    assert_eq!(keys, vec![p.key, authority(&p.key), p.token_a, p.token_b, p.pool_mint, p.fee]);
}

#[test]
fn undecodable_pool_data_is_refused() {
    let p = pool(Pubkey::new_unique(), Pubkey::new_unique());
    let h = TokenSwapPoolHarness { pool_key: p.key };
    let swap = Swap { amount_in: 1, minimum_amount_out: 0 };
    assert_eq!(h.try_get_keys(&[]).unwrap_err(), HarnessError::InvalidPoolState);
    assert!(is_pool_state(&p.data));
    assert!(!is_pool_state(&[]));
    let mut wrong_version = p.data.clone();
    wrong_version[0] = 2;
    assert_eq!(h.try_get_keys(&wrong_version).unwrap_err(), HarnessError::InvalidPoolState);
    let mut uninitialised = p.data.clone();
    uninitialised[1] = 0;
    assert_eq!(
        h.try_create_swap_instruction(&p.key, &p.key, true, swap, &uninitialised).unwrap_err(),
        HarnessError::InvalidPoolState
    );
    assert_eq!(h.try_get_keys(&p.data[..100]).unwrap_err(), HarnessError::InvalidPoolState);
}

#[test]
fn zero_fee_charges_nothing() {
    let f = zero_fee();
    assert_eq!(f.trade_fee_numerator, 0);
    assert_eq!(f.trade_fee_denominator, 1);
    assert_eq!(f.owner_trade_fee_numerator, 0);
    assert_eq!(f.owner_withdraw_fee_numerator, 0);
    assert_eq!(f.host_fee_numerator, 0);
    assert_eq!(f.host_fee_denominator, 1);
}

#[test]
fn initialize_pool_funds_reserves_and_creates_the_pool() {
    let payer = Pubkey::new_unique();
    let (mint_a, mint_b) = (Pubkey::new_unique(), Pubkey::new_unique());
    let (pool_key, pool_mint) = (Pubkey::new_unique(), Pubkey::new_unique());
    let (fee_owner, dest_owner) = (Pubkey::new_unique(), Pubkey::new_unique());
    let s = initialize_pool(&payer, &mint_a, &mint_b, 1_000_000, 2_000_000, &pool_key, &pool_mint, &fee_owner, &dest_owner, 10, 20);
    assert_eq!(s.harness.pool_key, pool_key);
    assert_eq!(s.setup_instructions.len(), 8);
    assert_eq!(s.init_instructions.len(), 2);
    let auth = authority(&pool_key);
    let reserve_a = spl_associated_token_account::get_associated_token_address(&auth, &mint_a);
    let reserve_b = spl_associated_token_account::get_associated_token_address(&auth, &mint_b);
    let mint_a_ix = &s.setup_instructions[1];
    assert_eq!(mint_a_ix.program_id, spl_token::id());
    assert_eq!(mint_a_ix.accounts[0].pubkey, mint_a);
    assert_eq!(mint_a_ix.accounts[1].pubkey, reserve_a);
    assert_eq!(mint_a_ix.data[0], 7);
    assert_eq!(&mint_a_ix.data[1..9], &1_000_000u64.to_le_bytes());
    assert_eq!(&s.setup_instructions[3].data[1..9], &2_000_000u64.to_le_bytes());
    assert_eq!(s.setup_instructions[3].accounts[1].pubkey, reserve_b);
    let create_pool = &s.init_instructions[0];
    assert_eq!(
        *create_pool,
        solana_sdk::system_instruction::create_account(&payer, &pool_key, 20, 324, &spl_token_swap::id())
    );
    let init = &s.init_instructions[1];
    assert_eq!(init.program_id, spl_token_swap::id());
    assert_eq!(init.data.len(), 98);
    let mut expected = vec![0u8];
    for v in [0u64, 1, 0, 1, 0, 1, 0, 1] {
        expected.extend_from_slice(&v.to_le_bytes());
    }
    expected.extend_from_slice(&[0u8; 33]);
    assert_eq!(init.data, expected);
    assert_eq!(init.data[0], 0);
    assert_eq!(&init.data[1..9], &0u64.to_le_bytes());
    assert_eq!(&init.data[9..17], &1u64.to_le_bytes());
    assert_eq!(init.data[65], 0);
    let keys: Vec<Pubkey> = init.accounts.iter().map(|m| m.pubkey).collect();
    assert_eq!(
        keys,
        vec![
            pool_key,
            auth,
            reserve_a,
            reserve_b,
            pool_mint,
            spl_associated_token_account::get_associated_token_address(&fee_owner, &pool_mint),
            spl_associated_token_account::get_associated_token_address(&dest_owner, &pool_mint),
            spl_token::id(),
        ]
    );
}

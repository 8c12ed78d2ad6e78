use alt_demo::token_helpers::{
    create_ata, create_token_account, get_token_account, initialize_mint, try_get_token_account,
};
use solana_sdk::program_pack::Pack;
use solana_sdk::pubkey::Pubkey;

#[test]
fn initialize_mint_creates_then_initialises() {
    let payer = Pubkey::new_unique();
    let mint = Pubkey::new_unique();
    let authority = Pubkey::new_unique();
    let ixs = initialize_mint(&payer, &mint, &authority, 6, 1_461_600);
    assert_eq!(ixs.len(), 2);
    assert_eq!(ixs[0].program_id, solana_sdk::system_program::id());
    assert_eq!(ixs[0].accounts[0].pubkey, payer);
    assert!(ixs[0].accounts[0].is_signer && ixs[0].accounts[0].is_writable);
    assert_eq!(ixs[0].accounts[1].pubkey, mint);
    assert!(ixs[0].accounts[1].is_signer);
    let expected = solana_sdk::system_instruction::create_account(&payer, &mint, 1_461_600, 82, &spl_token::id());
    assert_eq!(ixs[0], expected);
    assert_eq!(ixs[1].program_id, spl_token::id());
    assert_eq!(ixs[1].accounts[0].pubkey, mint);
    assert_eq!(ixs[1], spl_token::instruction::initialize_mint(&spl_token::id(), &mint, &authority, None, 6).unwrap());
}

#[test]
fn create_ata_returns_the_associated_address() {
    let payer = Pubkey::new_unique();
    let mint = Pubkey::new_unique();
    let owner = Pubkey::new_unique();
    let (ata, ix) = create_ata(&payer, &mint, &owner);
    assert_eq!(ata, spl_associated_token_account::get_associated_token_address(&owner, &mint));
    assert_ne!(ata, owner);
    assert_eq!(ix.accounts.len(), 6);
    assert_eq!(ix.accounts[0].pubkey, payer);
    assert_eq!(ix.accounts[1].pubkey, ata);
    assert_eq!(ix.accounts[2].pubkey, owner);
    assert_eq!(ix.accounts[3].pubkey, mint);
    assert_eq!(ix.data, vec![0u8]);
    assert_eq!(ix.program_id, spl_associated_token_account::id());
    assert_eq!(
        ix,
        spl_associated_token_account::instruction::create_associated_token_account(&payer, &owner, &mint, &spl_token::id())
    );
}

#[test]
fn create_token_account_creates_then_initialises() {
    let payer = Pubkey::new_unique();
    let mint = Pubkey::new_unique();
    let owner = Pubkey::new_unique();
    let account = Pubkey::new_unique();
    let ixs = create_token_account(&payer, &mint, &owner, &account, 2_039_280);
    assert_eq!(ixs.len(), 2);
    let expected = solana_sdk::system_instruction::create_account(&payer, &account, 2_039_280, 165, &spl_token::id());
    assert_eq!(ixs[0], expected);
    assert_eq!(ixs[1].accounts[0].pubkey, account);
    assert_eq!(ixs[1].accounts[1].pubkey, mint);
    assert_eq!(ixs[1].accounts[2].pubkey, owner);
    assert_eq!(ixs[1].data, vec![1u8]);
    assert_eq!(ixs[1], spl_token::instruction::initialize_account(&spl_token::id(), &account, &mint, &owner).unwrap());
}

#[test]
fn get_token_account_reads_packed_state() {
    let mint = Pubkey::new_unique();
    let owner = Pubkey::new_unique();
    let state = spl_token::state::Account {
        mint,
        owner,
        amount: 1000,
        state: spl_token::state::AccountState::Initialized,
        ..Default::default()
    };
    let mut data = vec![0u8; 165];
    spl_token::state::Account::pack(state, &mut data).unwrap();
    let read = get_token_account(&data);
    assert_eq!(try_get_token_account(&data).unwrap().amount, 1000);
    assert_eq!(read.mint, mint);
    assert_eq!(read.owner, owner);
    assert_eq!(read.amount, 1000);
}

#[test]
fn get_token_account_refuses_short_data() {
    assert!(try_get_token_account(&[]).is_none());
    assert!(try_get_token_account(&[0u8; 164]).is_none());
    let mut bad_state = vec![0u8; 165];
    bad_state[108] = 7;
    assert!(try_get_token_account(&bad_state).is_none());
}

#[test]
fn program_ids_have_the_stated_bytes() {
    let token: [u8; 32] = [
        6, 221, 246, 225, 215, 101, 161, 147, 217, 203, 225, 70, 206, 235, 121, 172, 28, 180, 133, 237,
        95, 91, 55, 145, 58, 140, 245, 133, 126, 255, 0, 169,
    ];
    let swap: [u8; 32] = [
        6, 165, 60, 214, 45, 140, 150, 136, 85, 76, 163, 132, 250, 242, 149, 59, 133, 4, 255, 95, 119,
        86, 21, 196, 185, 198, 183, 129, 191, 180, 128, 180,
    ];
    let associated: [u8; 32] = [
        140, 151, 37, 143, 78, 36, 137, 241, 187, 61, 16, 41, 20, 142, 13, 131, 11, 90, 19, 153, 218,
        255, 16, 132, 4, 142, 123, 216, 219, 233, 248, 89,
    ];
    let rent: [u8; 32] = [
        6, 167, 213, 23, 25, 44, 92, 81, 33, 140, 201, 76, 61, 74, 241, 127, 88, 218, 238, 8, 155, 161,
        253, 68, 227, 219, 217, 138, 0, 0, 0, 0,
    ];
    let lookup: [u8; 32] = [
        2, 119, 166, 175, 151, 51, 155, 122, 200, 141, 24, 146, 201, 4, 70, 245, 0, 2, 48, 146, 102,
        246, 46, 83, 193, 24, 36, 73, 130, 0, 0, 0,
    ];
    assert_eq!(Pubkey::new_from_array(token), spl_token::id());
    assert_eq!(Pubkey::new_from_array(swap), spl_token_swap::id());
    assert_eq!(Pubkey::new_from_array(associated), spl_associated_token_account::id());
    assert_eq!(Pubkey::new_from_array(rent), solana_sdk::sysvar::rent::id());
    assert_eq!(Pubkey::new_from_array(lookup), solana_sdk::address_lookup_table::program::id());
    assert_eq!(Pubkey::new_from_array([0; 32]), solana_sdk::system_program::id());
}

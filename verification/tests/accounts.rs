use anchor_lang::prelude::Pubkey;
use phased_staking::context::{
    check_provider_found, ConstraintError, CreateLP, InitializeDeal, InitializeDealBumps,
    ProviderBumps, Stake, TokenWallet,
};
use phased_staking::pda::{deal_state_seed_bytes, deal_wallet_seed_bytes, lprovider_seed_bytes};

const PROGRAM: [u8; 32] = [9u8; 32];

fn key(b: u8) -> [u8; 32] {
    [b; 32]
}

fn find(seeds: &[&[u8]]) -> ([u8; 32], u8) {
    let (address, bump) = Pubkey::find_program_address(seeds, &Pubkey::new_from_array(PROGRAM));
    (address.to_bytes(), bump)
}

fn state_pda(idx: u64) -> ([u8; 32], u8) {
    find(&[b"state", &key(1), &key(2), &key(3), &idx.to_le_bytes()])
}

fn wallet_pda(idx: u64) -> ([u8; 32], u8) {
    find(&[b"wallet", &key(1), &key(2), &key(3), &idx.to_le_bytes()])
}

fn init_accounts(idx: u64) -> InitializeDeal {
    InitializeDeal {
        deal_state: state_pda(idx).0,
        deal_wallet_state: wallet_pda(idx).0,
        underwriter: key(1),
        borrower: key(2),
        mint_of_token_being_sent: key(3),
        wallet_to_withdraw_from: TokenWallet { key: key(12), owner: key(1), mint: key(3) },
    }
}

fn create_accounts(idx: u64, staker: [u8; 32]) -> CreateLP {
    let deal_state = state_pda(idx).0;
    let lprovider = find(&[b"lprovider", &deal_state, &staker, &idx.to_le_bytes()]).0;
    CreateLP {
        deal_state,
        deal_wallet: wallet_pda(idx).0,
        lprovider,
        staker,
        deal_underwriter: key(1),
        deal_borrower: key(2),
        deal_mint: key(3),
    }
}

#[test]
fn seed_schemes_spell_the_tags() {
    let seeds = deal_state_seed_bytes(&key(1), &key(2), &key(3), 7);
    assert_eq!(
        seeds,
        vec![b"state".to_vec(), key(1).to_vec(), key(2).to_vec(), key(3).to_vec(), 7u64.to_le_bytes().to_vec()]
    );
    let seeds = deal_wallet_seed_bytes(&key(1), &key(2), &key(3), 7);
    assert_eq!(seeds[0], b"wallet".to_vec());
    let seeds = lprovider_seed_bytes(&key(4), &key(5), 7);
    assert_eq!(
        seeds,
        vec![b"lprovider".to_vec(), key(4).to_vec(), key(5).to_vec(), 7u64.to_le_bytes().to_vec()]
    );
}

#[test]
fn initialize_deal_accounts_at_their_addresses_pass() {
    let accounts = init_accounts(3);
    let bumps = accounts.check(&PROGRAM, 3).unwrap();
    assert_eq!(
        bumps,
        InitializeDealBumps { deal_state: state_pda(3).1, deal_wallet_state: wallet_pda(3).1 }
    );
}

#[test]
fn initialize_deal_state_elsewhere_is_refused() {
    let mut accounts = init_accounts(3);
    accounts.deal_state = key(77);
    assert_eq!(accounts.check(&PROGRAM, 3), Err(ConstraintError::ConstraintSeeds));
    let accounts = init_accounts(3);
    assert_eq!(accounts.check(&PROGRAM, 4), Err(ConstraintError::ConstraintSeeds));
}

#[test]
fn initialize_deal_wallet_elsewhere_is_refused() {
    let mut accounts = init_accounts(3);
    accounts.deal_wallet_state = accounts.deal_state;
    assert_eq!(accounts.check(&PROGRAM, 3), Err(ConstraintError::ConstraintSeeds));
}

#[test]
fn initialize_deal_foreign_source_wallet_is_refused() {
    let mut accounts = init_accounts(3);
    accounts.wallet_to_withdraw_from.owner = key(2);
    assert_eq!(accounts.check(&PROGRAM, 3), Err(ConstraintError::ConstraintRaw));
    let mut accounts = init_accounts(3);
    accounts.wallet_to_withdraw_from.mint = key(4);
    assert_eq!(accounts.check(&PROGRAM, 3), Err(ConstraintError::ConstraintRaw));
}

#[test]
fn initialize_deal_decides_from_found_addresses() {
    let accounts = InitializeDeal {
        deal_state: key(50),
        deal_wallet_state: key(51),
        underwriter: key(1),
        borrower: key(2),
        mint_of_token_being_sent: key(3),
        wallet_to_withdraw_from: TokenWallet { key: key(12), owner: key(1), mint: key(3) },
    };
    assert_eq!(
        accounts.check_found(&Some((key(50), 200)), &Some((key(51), 201))),
        Ok(InitializeDealBumps { deal_state: 200, deal_wallet_state: 201 })
    );
    assert_eq!(
        accounts.check_found(&None, &Some((key(51), 201))),
        Err(ConstraintError::ConstraintSeeds)
    );
    assert_eq!(
        accounts.check_found(&Some((key(50), 200)), &Some((key(52), 201))),
        Err(ConstraintError::ConstraintSeeds)
    );
}

#[test]
fn create_lp_accounts_of_an_opened_deal_pass() {
    let idx: u64 = 11;
    let opened = init_accounts(idx).check(&PROGRAM, idx).unwrap();
    let accounts = create_accounts(idx, key(21));
    let provider_bump =
        find(&[b"lprovider", &accounts.deal_state, &key(21), &idx.to_le_bytes()]).1;
    assert_eq!(
        accounts.check(&PROGRAM, idx, opened.deal_wallet_state),
        Ok(ProviderBumps { lprovider: provider_bump, deal_state: opened.deal_state })
    );
}

#[test]
fn create_lp_wrong_wallet_bump_is_refused() {
    let idx: u64 = 11;
    let accounts = create_accounts(idx, key(21));
    let bump = wallet_pda(idx).1;
    assert_eq!(
        accounts.check(&PROGRAM, idx, bump.wrapping_sub(1)),
        Err(ConstraintError::ConstraintSeeds)
    );
}

#[test]
fn create_lp_provider_of_another_staker_is_refused() {
    let idx: u64 = 11;
    let mut accounts = create_accounts(idx, key(21));
    accounts.staker = key(22);
    assert_eq!(
        accounts.check(&PROGRAM, idx, wallet_pda(idx).1),
        Err(ConstraintError::ConstraintSeeds)
    );
}

fn stake_accounts(idx: u64) -> Stake {
    let created = create_accounts(idx, key(21));
    Stake {
        deal_state: created.deal_state,
        deal_wallet: created.deal_wallet,
        lprovider: created.lprovider,
        staker: key(21),
        deal_underwriter: key(1),
        deal_borrower: key(2),
        deal_mint: key(3),
        lprovider_state: key(22),
        staker_wallet: key(23),
    }
}

#[test]
fn stake_accepts_the_provider_account_create_lp_made() {
    let idx: u64 = 11;
    let created = create_accounts(idx, key(21));
    let wallet_bump = wallet_pda(idx).1;
    let expected = created.check(&PROGRAM, idx, wallet_bump);
    assert!(expected.is_ok());
    assert_eq!(stake_accounts(idx).check(&PROGRAM, idx, wallet_bump), expected);
}

#[test]
fn stake_into_another_wallet_is_refused() {
    let idx: u64 = 11;
    let mut accounts = stake_accounts(idx);
    let (other, other_bump) = find(&[b"wallet", &key(1), &key(2), &key(2), &idx.to_le_bytes()]);
    accounts.deal_wallet = other;
    assert_eq!(
        accounts.check(&PROGRAM, idx, other_bump),
        Err(ConstraintError::ConstraintSeeds)
    );
}

#[test]
fn stake_with_another_providers_account_is_refused() {
    let idx: u64 = 11;
    let mut accounts = stake_accounts(idx);
    accounts.lprovider = create_accounts(idx, key(22)).lprovider;
    assert_eq!(
        accounts.check(&PROGRAM, idx, wallet_pda(idx).1),
        Err(ConstraintError::ConstraintSeeds)
    );
}

#[test]
fn provider_checks_decide_from_found_addresses() {
    let found_provider = key(40);
    let deal_state = key(41);
    let wallet = key(42);
    assert_eq!(
        check_provider_found(
            &Some((found_provider, 9)),
            &found_provider,
            &Some((deal_state, 7)),
            &deal_state,
            &Some(wallet),
            &wallet,
        ),
        Ok(ProviderBumps { lprovider: 9, deal_state: 7 })
    );
    assert_eq!(
        check_provider_found(
            &Some((found_provider, 9)),
            &found_provider,
            &Some((deal_state, 7)),
            &deal_state,
            &None,
            &wallet,
        ),
        Err(ConstraintError::ConstraintSeeds)
    );
}

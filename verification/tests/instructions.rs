use phased_staking::context::{Borrow, CreateLP, InitializeDeal, Stake, TokenWallet};
use phased_staking::ido::{borrow, create_lp, initialize_deal, stake};
use phased_staking::keys::{keys_equal, u64_le_bytes};
use phased_staking::state::{DealError, DealState, Epochs, ErrorCode, LiqProvider};

fn key(b: u8) -> [u8; 32] {
    [b; 32]
}

fn init_accounts() -> InitializeDeal {
    InitializeDeal {
        deal_state: key(10),
        deal_wallet_state: key(11),
        underwriter: key(1),
        borrower: key(2),
        mint_of_token_being_sent: key(3),
        wallet_to_withdraw_from: TokenWallet { key: key(12), owner: key(1), mint: key(3) },
    }
}

fn create_accounts() -> CreateLP {
    CreateLP {
        deal_state: key(10),
        deal_wallet: key(11),
        lprovider: key(20),
        staker: key(21),
        deal_underwriter: key(1),
        deal_borrower: key(2),
        deal_mint: key(3),
    }
}

fn stake_accounts() -> Stake {
    Stake {
        deal_state: key(10),
        deal_wallet: key(11),
        lprovider: key(20),
        staker: key(21),
        deal_underwriter: key(1),
        deal_borrower: key(2),
        deal_mint: key(3),
        lprovider_state: key(22),
        staker_wallet: key(23),
    }
}

fn borrow_accounts() -> Borrow {
    Borrow {
        deal_state: key(10),
        deal_wallet: key(11),
        underwriter: key(1),
        borrower: key(2),
        mint_of_token_being_sent: key(3),
        wallet_to_deposit_to: TokenWallet { key: key(30), owner: key(2), mint: key(3) },
    }
}

fn opened_deal(amount: u64, senior_tranche: u64) -> DealState {
    let mut deal = DealState::default();
    let _ = initialize_deal(&mut deal, &init_accounts(), 42, 254, 253, amount, senior_tranche);
    deal
}

fn state_seeds(bump: u8) -> Vec<Vec<u8>> {
    vec![
        b"state".to_vec(),
        key(1).to_vec(),
        key(2).to_vec(),
        key(3).to_vec(),
        42u64.to_le_bytes().to_vec(),
        vec![bump],
    ]
}

#[test]
fn epoch_codes_round_trip() {
    let all = [
        Epochs::DealWritten,
        Epochs::LPCompleted,
        Epochs::DealComplete,
        Epochs::Repaymentphase,
        Epochs::DealClosed,
        Epochs::PullBackComplete,
    ];
    for (i, e) in all.iter().enumerate() {
        assert_eq!(e.to_code(), (i + 1) as u8);
        assert_eq!(Epochs::from(e.to_code()), Ok(*e));
    }
}

#[test]
fn unknown_epoch_codes_are_refused() {
    for code in [0u8, 7, 100, 255] {
        assert_eq!(Epochs::from(code), Err(DealError::UnknownStage(code)));
    }
}

#[test]
fn every_refusal_is_custom_error_100() {
    assert_eq!(DealError::UnknownStage(9).custom_code(), 100);
    assert_eq!(DealError::StageInvalid.custom_code(), 100);
    assert_eq!(DealError::SeniorTrancheExceeded.custom_code(), 100);
    assert_eq!(DealError::WalletToDepositToInvalid.custom_code(), 100);
}

#[test]
fn error_codes_are_distinct() {
    assert_ne!(ErrorCode::StageInvalid, ErrorCode::InvalidNonce);
}

#[test]
fn le_bytes_match_std() {
    for x in [0u64, 1, 255, 256, 0x0102_0304_0506_0708, u64::MAX] {
        assert_eq!(u64_le_bytes(x), x.to_le_bytes().to_vec());
    }
}

#[test]
fn keys_compare_bytewise() {
    let a = key(5);
    let mut b = key(5);
    assert!(keys_equal(&a, &b));
    b[31] = 6;
    assert!(!keys_equal(&a, &b));
}

#[test]
fn initialize_deal_records_the_deal() {
    let mut deal = DealState::default();
    let accounts = init_accounts();
    let transfer = initialize_deal(&mut deal, &accounts, 42, 254, 253, 1_000, 4_000);
    assert_eq!(deal.idx, 42);
    assert_eq!(deal.underwriter, key(1));
    assert_eq!(deal.borrower, key(2));
    assert_eq!(deal.mint_of_token_being_sent, key(3));
    assert_eq!(deal.deal_wallet, key(11));
    assert_eq!(deal.amount_underwritten, 1_000);
    assert_eq!(deal.senior_tranche, 4_000);
    assert_eq!(deal.amount_to_repay, 5_000);
    assert_eq!(deal.amount_staked, 0);
    assert_eq!(deal.epoch, Epochs::DealWritten.to_code());
    assert_eq!(transfer.from, key(12));
    assert_eq!(transfer.to, key(11));
    assert_eq!(transfer.authority, key(1));
    assert_eq!(transfer.amount, 1_000);
    assert_eq!(transfer.signer_seeds, state_seeds(254));
}

#[test]
fn create_lp_registers_provider() {
    let deal = opened_deal(10, 20);
    let mut provider = LiqProvider::default();
    provider.balance = 3;
    assert_eq!(create_lp(&deal, &mut provider, &create_accounts(), 42, 1, 2, 3), Ok(()));
    assert_eq!(provider.idx, 42);
    assert_eq!(provider.deal_state, key(10));
    assert_eq!(provider.deal_wallet, key(11));
    assert_eq!(provider.deal_mint, key(3));
    assert_eq!(provider.staker, key(21));
    assert_eq!(provider.balance, 3);
}

#[test]
fn create_lp_refuses_other_phases() {
    let mut deal = opened_deal(10, 20);
    deal.epoch = Epochs::LPCompleted.to_code();
    let mut provider = LiqProvider::default();
    assert_eq!(
        create_lp(&deal, &mut provider, &create_accounts(), 42, 1, 2, 3),
        Err(DealError::StageInvalid)
    );
    assert_eq!(provider, LiqProvider::default());
    let fresh = DealState::default();
    assert_eq!(
        create_lp(&fresh, &mut provider, &create_accounts(), 42, 1, 2, 3),
        Err(DealError::UnknownStage(0))
    );
}

#[test]
fn stake_moves_tokens_into_the_deal() {
    let mut deal = opened_deal(1_000, 300);
    let mut provider = LiqProvider::default();
    let transfer = stake(&mut deal, &mut provider, &stake_accounts(), 42, 250, 1, 2, 100).unwrap();
    assert_eq!(deal.amount_staked, 100);
    assert_eq!(provider.balance, 100);
    assert_eq!(deal.epoch, Epochs::DealWritten.to_code());
    assert_eq!(transfer.from, key(23));
    assert_eq!(transfer.to, key(11));
    assert_eq!(transfer.authority, key(21));
    assert_eq!(transfer.amount, 100);
    assert_eq!(
        transfer.signer_seeds,
        vec![
            b"lprovider".to_vec(),
            key(10).to_vec(),
            key(21).to_vec(),
            42u64.to_le_bytes().to_vec(),
            vec![250],
        ]
    );
}

#[test]
fn stake_filling_the_tranche_completes_the_phase() {
    let mut deal = opened_deal(1_000, 300);
    let mut provider = LiqProvider::default();
    stake(&mut deal, &mut provider, &stake_accounts(), 42, 250, 1, 2, 100).unwrap();
    stake(&mut deal, &mut provider, &stake_accounts(), 42, 250, 1, 2, 200).unwrap();
    assert_eq!(deal.amount_staked, 300);
    assert_eq!(deal.epoch, Epochs::LPCompleted.to_code());
    assert_eq!(provider.balance, 300);
    let before = deal;
    let refused = stake(&mut deal, &mut provider, &stake_accounts(), 42, 250, 1, 2, 0);
    assert!(matches!(refused, Err(DealError::StageInvalid)));
    assert_eq!(deal, before);
}

#[test]
fn stake_above_the_tranche_is_refused() {
    let mut deal = opened_deal(1_000, 300);
    let mut provider = LiqProvider::default();
    let before = deal;
    let refused = stake(&mut deal, &mut provider, &stake_accounts(), 42, 250, 1, 2, 301);
    assert!(matches!(refused, Err(DealError::SeniorTrancheExceeded)));
    assert_eq!(deal, before);
    assert_eq!(provider.balance, 0);
}

#[test]
fn stake_on_an_empty_tranche_completes_at_once() {
    let mut deal = opened_deal(1_000, 0);
    let mut provider = LiqProvider::default();
    let transfer = stake(&mut deal, &mut provider, &stake_accounts(), 42, 250, 1, 2, 0).unwrap();
    assert_eq!(transfer.amount, 0);
    assert_eq!(deal.epoch, Epochs::LPCompleted.to_code());
}

#[test]
fn stake_on_unknown_phase_is_refused() {
    let mut deal = DealState::default();
    let mut provider = LiqProvider::default();
    let refused = stake(&mut deal, &mut provider, &stake_accounts(), 42, 250, 1, 2, 5);
    assert!(matches!(refused, Err(DealError::UnknownStage(0))));
}

#[test]
fn borrow_pays_out_everything_deposited() {
    let mut deal = opened_deal(1_000, 300);
    let mut provider = LiqProvider::default();
    stake(&mut deal, &mut provider, &stake_accounts(), 42, 250, 1, 2, 120).unwrap();
    let refused = stake(&mut deal, &mut provider, &stake_accounts(), 42, 250, 1, 2, 500);
    assert!(refused.is_err());
    stake(&mut deal, &mut provider, &stake_accounts(), 42, 250, 1, 2, 180).unwrap();
    let transfer = borrow(&mut deal, &borrow_accounts(), 42, 254, 0).unwrap();
    assert_eq!(transfer.amount, 1_000 + 120 + 180);
    assert_eq!(transfer.from, key(11));
    assert_eq!(transfer.to, key(30));
    assert_eq!(transfer.authority, key(10));
    assert_eq!(transfer.signer_seeds, state_seeds(254));
    assert_eq!(deal.epoch, Epochs::Repaymentphase.to_code());
    assert_eq!(deal.amount_to_repay, 1_300);
}

#[test]
fn borrow_refuses_before_the_tranche_is_filled() {
    let mut deal = opened_deal(1_000, 300);
    let before = deal;
    let refused = borrow(&mut deal, &borrow_accounts(), 42, 254, 0);
    assert!(matches!(refused, Err(DealError::StageInvalid)));
    assert_eq!(deal, before);
    let mut unknown = DealState::default();
    unknown.epoch = 9;
    assert!(matches!(
        borrow(&mut unknown, &borrow_accounts(), 42, 254, 0),
        Err(DealError::UnknownStage(9))
    ));
}

#[test]
fn borrow_twice_is_refused() {
    let mut deal = opened_deal(5, 0);
    let mut provider = LiqProvider::default();
    stake(&mut deal, &mut provider, &stake_accounts(), 42, 250, 1, 2, 0).unwrap();
    borrow(&mut deal, &borrow_accounts(), 42, 254, 0).unwrap();
    assert!(matches!(
        borrow(&mut deal, &borrow_accounts(), 42, 254, 0),
        Err(DealError::StageInvalid)
    ));
}

#[test]
fn borrow_pays_only_the_borrowers_wallet() {
    let mut deal = opened_deal(5, 0);
    let mut provider = LiqProvider::default();
    stake(&mut deal, &mut provider, &stake_accounts(), 42, 250, 1, 2, 0).unwrap();
    let before = deal;
    let mut accounts = borrow_accounts();
    accounts.wallet_to_deposit_to.owner = key(1);
    assert!(matches!(
        borrow(&mut deal, &accounts, 42, 254, 0),
        Err(DealError::WalletToDepositToInvalid)
    ));
    let mut accounts = borrow_accounts();
    accounts.wallet_to_deposit_to.mint = key(4);
    assert!(matches!(
        borrow(&mut deal, &accounts, 42, 254, 0),
        Err(DealError::WalletToDepositToInvalid)
    ));
    assert_eq!(deal, before);
    let transfer = borrow(&mut deal, &borrow_accounts(), 42, 254, 0).unwrap();
    assert_eq!(transfer.amount, 5);
}

#[test]
fn borrow_once_the_tranche_is_filled_pays_the_amount_to_repay() {
    let mut deal = opened_deal(700, 300);
    let mut provider = LiqProvider::default();
    stake(&mut deal, &mut provider, &stake_accounts(), 42, 250, 1, 2, 300).unwrap();
    let owed = deal.amount_to_repay;
    let transfer = borrow(&mut deal, &borrow_accounts(), 42, 254, 0).unwrap();
    assert_eq!(transfer.amount, owed);
    assert_eq!(owed, 1_000);
}

//! The program's instructions.
//!
//! Each instruction updates the deal's account data in place and returns the
//! token transfer it makes. The runtime carries the transfer out; where it
//! fails, the whole instruction fails and none of its updates are kept, so
//! the updates stated here are those of an instruction that succeeds.

use vstd::prelude::*;

use crate::context::{Borrow, CreateLP, InitializeDeal, Stake, TokenWallet};
use crate::pda::{
    deal_state_seed_bytes, deal_state_seeds, lprovider_seed_bytes, lprovider_seeds, push_bump,
    with_bump,
};
use crate::state::{DealError, DealState, Epochs, LiqProvider};
use crate::keys::{keys_equal, Key};

verus! {

/// A transfer of tokens between two token wallets.
pub struct TokenTransfer {
    /// The wallet the tokens leave.
    pub from: Key,
    /// The wallet the tokens reach.
    pub to: Key,
    /// The account that authorises the transfer.
    pub authority: Key,
    /// How many tokens move.
    pub amount: u64,
    /// The seeds, bump seed last, with which the program signs for the
    /// authority.
    pub signer_seeds: Vec<Vec<u8>>,
}

/// Whether a deal whose phase code is `code` is in phase `needed`: an unknown
/// code is refused as such, a known code other than `needed` as the wrong
/// phase.
pub open spec fn phase_required(code: u8, needed: Epochs) -> Result<(), DealError> {
    match Epochs::from_code(code) {
        Err(e) => Err(e),
        Ok(phase) => if phase == needed {
            Ok(())
        } else {
            Err(DealError::StageInvalid)
        },
    }
}

fn require_phase(code: u8, needed: Epochs) -> (res: Result<(), DealError>)
    ensures
        res == phase_required(code, needed),
{
    match Epochs::from(code) {
        Err(e) => Err(e),
        Ok(phase) => if phase != needed {
            Err(DealError::StageInvalid)
        } else {
            Ok(())
        },
    }
}

/// The deal after `initialize_deal`: the keys of its parties, its amounts and
/// the phase [`Epochs::DealWritten`]; the other fields are as they were.
pub open spec fn initialized(
    deal: DealState,
    accounts: InitializeDeal,
    application_idx: u64,
    amount: u64,
    senior_tranche: u64,
) -> DealState {
    DealState {
        idx: application_idx,
        underwriter: accounts.underwriter,
        borrower: accounts.borrower,
        mint_of_token_being_sent: accounts.mint_of_token_being_sent,
        deal_wallet: accounts.deal_wallet_state,
        amount_underwritten: amount,
        senior_tranche: senior_tranche,
        amount_to_repay: (amount + senior_tranche) as u64,
        epoch: 1,
        ..deal
    }
}

/// The outcome of staking `amount` into `deal`: refused unless the deal is in
/// phase [`Epochs::DealWritten`] and the stake keeps the staked amount within
/// the senior tranche; otherwise the staked amount grows by `amount`, and the
/// deal moves to [`Epochs::LPCompleted`] once the staked amount reaches the
/// senior tranche.
pub open spec fn stake_outcome(deal: DealState, amount: u64) -> Result<DealState, DealError> {
    match phase_required(deal.epoch, Epochs::DealWritten) {
        Err(e) => Err(e),
        Ok(_) => if deal.amount_staked + amount > deal.senior_tranche {
            Err(DealError::SeniorTrancheExceeded)
        } else {
            let staked = (deal.amount_staked + amount) as u64;
            Ok(
                DealState {
                    amount_staked: staked,
                    epoch: if staked >= deal.senior_tranche {
                        2
                    } else {
                        deal.epoch
                    },
                    ..deal
                },
            )
        },
    }
}

/// Whether `wallet` belongs to the deal's borrower and holds the deal's token.
pub open spec fn is_borrower_wallet(deal: DealState, wallet: TokenWallet) -> bool {
    wallet.owner@ == deal.borrower@ && wallet.mint@ == deal.mint_of_token_being_sent@
}

/// The outcome of `borrow` on `deal`, paying into `receiver`: refused unless
/// the deal is in phase [`Epochs::LPCompleted`] and `receiver` is a wallet of
/// the deal's borrower for the deal's token; otherwise the deal moves to
/// [`Epochs::Repaymentphase`].
pub open spec fn borrow_outcome(deal: DealState, receiver: TokenWallet) -> Result<DealState, DealError> {
    match phase_required(deal.epoch, Epochs::LPCompleted) {
        Err(e) => Err(e),
        Ok(_) => if is_borrower_wallet(deal, receiver) {
            Ok(DealState { epoch: 4, ..deal })
        } else {
            Err(DealError::WalletToDepositToInvalid)
        },
    }
}

/// A liquidity provider after `create_lp`: bound to the deal's accounts, its
/// provider and the application index; the other fields are as they were.
pub open spec fn registered(provider: LiqProvider, accounts: CreateLP, application_idx: u64) -> LiqProvider {
    LiqProvider {
        idx: application_idx,
        deal_mint: accounts.deal_mint,
        deal_wallet: accounts.deal_wallet,
        deal_state: accounts.deal_state,
        staker: accounts.staker,
        ..provider
    }
}

/// Opens a deal on a freshly created state account: records its parties and amounts, puts it in phase
/// [`Epochs::DealWritten`], and moves the underwriter's deposit `amount` from
/// the underwriter's wallet to the deal's wallet. What the borrower will owe is
/// the deposit plus the senior tranche.
pub fn initialize_deal(
    deal_state: &mut DealState,
    accounts: &InitializeDeal,
    application_idx: u64,
    state_bump: u8,
    _wallet_bump: u8,
    amount: u64,
    senior_tranche: u64,
) -> (transfer: TokenTransfer)
    requires
        old(deal_state).is_zeroed(),
        amount + senior_tranche <= u64::MAX,
    ensures
        *final(deal_state) == initialized(
            *old(deal_state),
            *accounts,
            application_idx,
            amount,
            senior_tranche,
        ),
        transfer.from == accounts.wallet_to_withdraw_from.key,
        transfer.to == accounts.deal_wallet_state,
        transfer.authority == accounts.underwriter,
        transfer.amount == amount,
        transfer.signer_seeds.deep_view() == with_bump(
            accounts.state_seeds(application_idx),
            state_bump,
        ),
{
    deal_state.idx = application_idx;
    deal_state.underwriter = accounts.underwriter;
    deal_state.borrower = accounts.borrower;
    deal_state.mint_of_token_being_sent = accounts.mint_of_token_being_sent;
    deal_state.deal_wallet = accounts.deal_wallet_state;
    deal_state.amount_underwritten = amount;
    deal_state.senior_tranche = senior_tranche;
    deal_state.amount_to_repay = amount + senior_tranche;
    let mut signer_seeds = deal_state_seed_bytes(
        &accounts.underwriter,
        &accounts.borrower,
        &accounts.mint_of_token_being_sent,
        application_idx,
    );
    push_bump(&mut signer_seeds, state_bump);
    let transfer = TokenTransfer {
        from: accounts.wallet_to_withdraw_from.key,
        to: accounts.deal_wallet_state,
        authority: accounts.underwriter,
        amount: deal_state.amount_underwritten,
        signer_seeds,
    };
    deal_state.epoch = Epochs::DealWritten.to_code();
    transfer
}

/// Registers a liquidity provider with a deal in phase
/// [`Epochs::DealWritten`].
pub fn create_lp(
    deal_state: &DealState,
    lprovider: &mut LiqProvider,
    accounts: &CreateLP,
    application_idx: u64,
    _lp_bump: u8,
    _state_bump: u8,
    _wallet_bump: u8,
) -> (res: Result<(), DealError>)
    ensures
        res == phase_required(deal_state.epoch, Epochs::DealWritten),
        res is Ok ==> *final(lprovider) == registered(*old(lprovider), *accounts, application_idx),
        res is Err ==> *final(lprovider) == *old(lprovider),
{
    require_phase(deal_state.epoch, Epochs::DealWritten)?;
    lprovider.idx = application_idx;
    lprovider.deal_mint = accounts.deal_mint;
    lprovider.deal_wallet = accounts.deal_wallet;
    lprovider.deal_state = accounts.deal_state;
    lprovider.staker = accounts.staker;
    Ok(())
}

/// Stakes `amount` into a deal in phase [`Epochs::DealWritten`], as long as
/// the staked amount stays within the senior tranche: the tokens move from
/// the provider's wallet to the deal's wallet, and the deal's staked amount
/// and the provider's balance grow by `amount`. Once the staked amount
/// reaches the senior tranche, the deal moves to [`Epochs::LPCompleted`].
pub fn stake(
    deal_state: &mut DealState,
    lprovider: &mut LiqProvider,
    accounts: &Stake,
    application_idx: u64,
    lp_bump: u8,
    _state_bump: u8,
    _wallet_bump: u8,
    amount: u64,
) -> (res: Result<TokenTransfer, DealError>)
    requires
        phase_required(old(deal_state).epoch, Epochs::DealWritten) is Ok
            ==> old(deal_state).amount_staked + amount <= u64::MAX,
        stake_outcome(*old(deal_state), amount) is Ok ==> old(lprovider).balance + amount
            <= u64::MAX,
    ensures
        match res {
            Ok(transfer) => {
                &&& stake_outcome(*old(deal_state), amount) == Ok::<DealState, DealError>(
                    *final(deal_state),
                )
                &&& *final(lprovider) == LiqProvider {
                    balance: (old(lprovider).balance + amount) as u64,
                    ..*old(lprovider)
                }
                &&& transfer.from == accounts.staker_wallet
                &&& transfer.to == accounts.deal_wallet
                &&& transfer.authority == accounts.staker
                &&& transfer.amount == amount
                &&& transfer.signer_seeds.deep_view() == with_bump(
                    lprovider_seeds(accounts.deal_state@, accounts.staker@, application_idx),
                    lp_bump,
                )
            },
            Err(e) => {
                &&& stake_outcome(*old(deal_state), amount) == Err::<DealState, DealError>(e)
                &&& *final(deal_state) == *old(deal_state)
                &&& *final(lprovider) == *old(lprovider)
            },
        },
        old(deal_state).amount_staked <= old(deal_state).senior_tranche
            ==> final(deal_state).amount_staked <= final(deal_state).senior_tranche,
        final(deal_state).amount_staked >= old(deal_state).amount_staked,
        final(deal_state).senior_tranche == old(deal_state).senior_tranche,
        final(deal_state).epoch == old(deal_state).epoch || (old(deal_state).epoch
            == Epochs::DealWritten.code() && final(deal_state).epoch
            == Epochs::LPCompleted.code()),
{
    require_phase(deal_state.epoch, Epochs::DealWritten)?;
    if deal_state.amount_staked + amount > deal_state.senior_tranche {
        return Err(DealError::SeniorTrancheExceeded);
    }
    let mut signer_seeds = lprovider_seed_bytes(
        &accounts.deal_state,
        &accounts.staker,
        application_idx,
    );
    push_bump(&mut signer_seeds, lp_bump);
    let transfer = TokenTransfer {
        from: accounts.staker_wallet,
        to: accounts.deal_wallet,
        authority: accounts.staker,
        amount,
        signer_seeds,
    };
    deal_state.amount_staked = deal_state.amount_staked + amount;
    lprovider.balance = lprovider.balance + amount;
    if deal_state.amount_staked >= deal_state.senior_tranche {
        deal_state.epoch = Epochs::LPCompleted.to_code();
    }
    Ok(transfer)
}

/// Lets the borrower draw a deal in phase [`Epochs::LPCompleted`]: everything
/// deposited (the underwriter's deposit and the stakes) moves from the deal's
/// wallet to a wallet of the deal's borrower for the deal's token, the
/// program signing for the deal's state account, and the deal moves to
/// [`Epochs::Repaymentphase`]. Any other receiving wallet is refused.
pub fn borrow(
    deal_state: &mut DealState,
    accounts: &Borrow,
    application_idx: u64,
    state_bump: u8,
    _wallet_bump: u8,
) -> (res: Result<TokenTransfer, DealError>)
    requires
        phase_required(old(deal_state).epoch, Epochs::LPCompleted) is Ok
            ==> old(deal_state).amount_staked + old(deal_state).amount_underwritten
            <= u64::MAX,
    ensures
        match res {
            Ok(transfer) => {
                &&& borrow_outcome(*old(deal_state), accounts.wallet_to_deposit_to) == Ok::<
                    DealState,
                    DealError,
                >(
                    *final(deal_state),
                )
                &&& transfer.from == accounts.deal_wallet
                &&& transfer.to == accounts.wallet_to_deposit_to.key
                &&& transfer.authority == accounts.deal_state
                &&& transfer.amount == old(deal_state).amount_staked
                    + old(deal_state).amount_underwritten
                &&& transfer.signer_seeds.deep_view() == with_bump(
                    deal_state_seeds(
                        accounts.underwriter@,
                        accounts.borrower@,
                        accounts.mint_of_token_being_sent@,
                        application_idx,
                    ),
                    state_bump,
                )
            },
            Err(e) => {
                &&& borrow_outcome(*old(deal_state), accounts.wallet_to_deposit_to) == Err::<
                    DealState,
                    DealError,
                >(e)
                &&& *final(deal_state) == *old(deal_state)
            },
        },
{
    require_phase(deal_state.epoch, Epochs::LPCompleted)?;
    let receiver = &accounts.wallet_to_deposit_to;
    if !keys_equal(&receiver.owner, &deal_state.borrower) || !keys_equal(
        &receiver.mint,
        &deal_state.mint_of_token_being_sent,
    ) {
        return Err(DealError::WalletToDepositToInvalid);
    }
    let mut signer_seeds = deal_state_seed_bytes(
        &accounts.underwriter,
        &accounts.borrower,
        &accounts.mint_of_token_being_sent,
        application_idx,
    );
    push_bump(&mut signer_seeds, state_bump);
    let transfer = TokenTransfer {
        from: accounts.deal_wallet,
        to: accounts.wallet_to_deposit_to.key,
        authority: accounts.deal_state,
        amount: deal_state.amount_staked + deal_state.amount_underwritten,
        signer_seeds,
    };
    deal_state.epoch = Epochs::Repaymentphase.to_code();
    Ok(transfer)
}

} // verus!

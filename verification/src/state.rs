//! Account data of a deal and of a liquidity provider, and the deal's phases.

use vstd::prelude::*;

use crate::keys::Key;

verus! {

/// The error codes the program declares, with the message of each.
#[derive(Clone, Copy, Debug, PartialEq, Eq, Structural)]
pub enum ErrorCode {
    /// Wallet to withdraw from is not owned by owner.
    WalletToWithdrawFromInvalid,
    /// State index is inconsistent.
    InvalidStateIdx,
    /// Delegate is not set correctly.
    DelegateNotSetCorrectly,
    /// Stage is invalid.
    StageInvalid,
    /// Member signer doesn't match the derived address.
    InvalidMemberSigner,
    /// The nonce given doesn't derive a valid program address.
    InvalidNonce,
}

/// The state of one deal.
#[derive(Clone, Copy, Debug, PartialEq, Eq)]
pub struct DealState {
    /// The application index the deal's addresses are derived from.
    pub idx: u64,
    /// The underwriter, who opens the deal with the first deposit.
    pub underwriter: Key,
    /// The borrower, who draws the deal's funds.
    pub borrower: Key,
    /// The mint of the token the deal is in.
    pub mint_of_token_being_sent: Key,
    /// The token wallet that holds the deal's funds.
    pub deal_wallet: Key,
    /// Amount of tokens of the deal; no instruction sets it.
    pub amount_tokens: u64,
    /// The underwriter's deposit.
    pub amount_underwritten: u64,
    /// The amount that liquidity providers may stake.
    pub senior_tranche: u64,
    /// What the borrower owes: the deposit plus the senior tranche.
    pub amount_to_repay: u64,
    /// What liquidity providers have staked so far.
    pub amount_staked: u64,
    /// The code of the deal's phase (see [`Epochs::to_code`]); 0 before the
    /// deal is initialized.
    pub epoch: u8,
}

/// The state of one liquidity provider in a deal.
#[derive(Clone, Copy, Debug, PartialEq, Eq)]
pub struct LiqProvider {
    /// The deal's state account.
    pub deal_state: Key,
    /// The deal's token wallet.
    pub deal_wallet: Key,
    /// The mint of the deal's token.
    pub deal_mint: Key,
    /// The provider.
    pub staker: Key,
    /// What the provider has staked.
    pub balance: u64,
    /// Time of the last stake; no instruction sets it.
    pub last_stake_ts: i64,
    /// The application index of the deal.
    pub idx: u64,
}

/// The key of 32 zero bytes, which a freshly created account holds.
pub open spec fn zero_key() -> Seq<u8> {
    Seq::new(32, |i: int| 0u8)
}

fn zeroed_key() -> (key: Key)
    ensures
        key@ == zero_key(),
{
    let key: Key = [0u8; 32];
    assert(key@ =~= zero_key());
    key
}

impl DealState {
    /// The deal's bookkeeping is consistent: the staked amount is within the
    /// senior tranche, and what the borrower owes is the deposit plus the
    /// senior tranche.
    pub open spec fn wf(self) -> bool {
        &&& self.amount_staked <= self.senior_tranche
        &&& self.amount_to_repay == self.amount_underwritten + self.senior_tranche
    }

    /// Everything deposited into the deal's wallet: the underwriter's deposit
    /// and the stakes.
    pub open spec fn deposited(self) -> int {
        self.amount_underwritten + self.amount_staked
    }

    /// Whether every field holds zero, as in a freshly created account.
    pub open spec fn is_zeroed(self) -> bool {
        &&& self.idx == 0
        &&& self.underwriter@ == zero_key()
        &&& self.borrower@ == zero_key()
        &&& self.mint_of_token_being_sent@ == zero_key()
        &&& self.deal_wallet@ == zero_key()
        &&& self.amount_tokens == 0
        &&& self.amount_underwritten == 0
        &&& self.senior_tranche == 0
        &&& self.amount_to_repay == 0
        &&& self.amount_staked == 0
        &&& self.epoch == 0
    }
}

impl Default for DealState {
    fn default() -> (deal: Self)
        ensures
            deal.is_zeroed(),
    {
        DealState {
            idx: 0,
            underwriter: zeroed_key(),
            borrower: zeroed_key(),
            mint_of_token_being_sent: zeroed_key(),
            deal_wallet: zeroed_key(),
            amount_tokens: 0,
            amount_underwritten: 0,
            senior_tranche: 0,
            amount_to_repay: 0,
            amount_staked: 0,
            epoch: 0,
        }
    }
}

impl LiqProvider {
    /// Whether every field holds zero, as in a freshly created account.
    pub open spec fn is_zeroed(self) -> bool {
        &&& self.deal_state@ == zero_key()
        &&& self.deal_wallet@ == zero_key()
        &&& self.deal_mint@ == zero_key()
        &&& self.staker@ == zero_key()
        &&& self.balance == 0
        &&& self.last_stake_ts == 0
        &&& self.idx == 0
    }
}

impl Default for LiqProvider {
    fn default() -> (provider: Self)
        ensures
            provider.is_zeroed(),
    {
        LiqProvider {
            deal_state: zeroed_key(),
            deal_wallet: zeroed_key(),
            deal_mint: zeroed_key(),
            staker: zeroed_key(),
            balance: 0,
            last_stake_ts: 0,
            idx: 0,
        }
    }
}

/// The phases a deal goes through; on chain a deal stores the phase as the
/// code returned by [`Epochs::to_code`].
#[derive(Clone, Copy, Debug, PartialEq, Eq, Structural)]
pub enum Epochs {
    /// The underwriter's deposit is in the deal wallet.
    DealWritten,
    /// The senior tranche has been filled by liquidity providers.
    LPCompleted,
    /// The borrower has withdrawn the funds.
    DealComplete,
    /// Repayments are being made.
    Repaymentphase,
    /// The deal is closed.
    DealClosed,
    /// The underwriter pulled the funds back.
    PullBackComplete,
}

/// Why an instruction was refused. On chain every one of them is reported as
/// the custom program error [`DealError::custom_code`].
#[derive(Clone, Copy, Debug, PartialEq, Eq, Structural)]
pub enum DealError {
    /// The stored phase code is none of the known phases.
    UnknownStage(u8),
    /// The deal is not in the phase that the instruction needs.
    StageInvalid,
    /// The stake would take the staked amount above the senior tranche.
    SeniorTrancheExceeded,
    /// The wallet the funds would go to is not the deal borrower's wallet of
    /// the deal's token.
    WalletToDepositToInvalid,
}

impl DealError {
    /// The custom program error code that every refusal is reported with.
    pub open spec fn spec_custom_code(self) -> u32 {
        100
    }

    /// The custom program error code of this refusal.
    pub fn custom_code(&self) -> (code: u32)
        ensures
            code == self.spec_custom_code(),
    {
        100
    }
}

impl Epochs {
    /// The code under which the phase is stored.
    pub open spec fn code(self) -> u8 {
        match self {
            Epochs::DealWritten => 1,
            Epochs::LPCompleted => 2,
            Epochs::DealComplete => 3,
            Epochs::Repaymentphase => 4,
            Epochs::DealClosed => 5,
            Epochs::PullBackComplete => 6,
        }
    }

    /// The phase stored under `code`, if there is one.
    pub open spec fn from_code(code: u8) -> Result<Epochs, DealError> {
        if code == 1 {
            Ok(Epochs::DealWritten)
        } else if code == 2 {
            Ok(Epochs::LPCompleted)
        } else if code == 3 {
            Ok(Epochs::DealComplete)
        } else if code == 4 {
            Ok(Epochs::Repaymentphase)
        } else if code == 5 {
            Ok(Epochs::DealClosed)
        } else if code == 6 {
            Ok(Epochs::PullBackComplete)
        } else {
            Err(DealError::UnknownStage(code))
        }
    }

    /// The code under which the phase is stored.
    pub fn to_code(&self) -> (code: u8)
        ensures
            code == self.code(),
    {
        match self {
            Epochs::DealWritten => 1,
            Epochs::LPCompleted => 2,
            Epochs::DealComplete => 3,
            Epochs::Repaymentphase => 4,
            Epochs::DealClosed => 5,
            Epochs::PullBackComplete => 6,
        }
    }

    /// Reads a stored phase code; codes outside `1..=6` are refused.
    pub fn from(val: u8) -> (res: Result<Epochs, DealError>)
        ensures
            res == Epochs::from_code(val),
    {
        match val {
            1 => Ok(Epochs::DealWritten),
            2 => Ok(Epochs::LPCompleted),
            3 => Ok(Epochs::DealComplete),
            4 => Ok(Epochs::Repaymentphase),
            5 => Ok(Epochs::DealClosed),
            6 => Ok(Epochs::PullBackComplete),
            unknown_value => Err(DealError::UnknownStage(unknown_value)),
        }
    }
}

} // verus!

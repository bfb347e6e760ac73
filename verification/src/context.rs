//! The accounts each instruction works on, with the constraints the program
//! places on them.
//!
//! A check verifies the constraints of one instruction: that each account
//! with a seed scheme is at the address its seeds derive, then the
//! constraints between accounts. An address derived with a search also
//! yields its bump seed, which the check returns.

use vstd::prelude::*;

use crate::keys::{keys_equal, Key};
use crate::pda::{
    create_program_address, deal_state_seed_bytes, deal_state_seeds, deal_wallet_seed_bytes,
    deal_wallet_seeds, derived_program_address, find_program_address, found_program_address,
    found_view, lprovider_seed_bytes, lprovider_seeds, push_bump, with_bump,
};

verus! {

/// Why the accounts of an instruction were refused.
#[derive(Clone, Copy, Debug, PartialEq, Eq, Structural)]
pub enum ConstraintError {
    /// An account is not at the address its seeds derive.
    ConstraintSeeds,
    /// A constraint between two accounts does not hold.
    ConstraintRaw,
}

/// Whether `key` is the address found for a seed scheme.
pub open spec fn is_found_at(found: Option<(Seq<u8>, u8)>, key: Seq<u8>) -> bool {
    found matches Some((address, _)) && address == key
}

/// Whether `key` is the address derived for a seed scheme with a given bump.
pub open spec fn is_derived_at(derived: Option<Seq<u8>>, key: Seq<u8>) -> bool {
    derived == Some(key)
}

fn found_at(found: &Option<(Key, u8)>, key: &Key) -> (at: bool)
    ensures
        at == is_found_at(found_view(*found), key@),
{
    match found {
        Some((address, _)) => keys_equal(address, key),
        None => false,
    }
}

fn derived_at(derived: &Option<Key>, key: &Key) -> (at: bool)
    ensures
        at == is_derived_at(derived_view(*derived), key@),
{
    match derived {
        Some(address) => keys_equal(address, key),
        None => false,
    }
}

/// A token account, by what the constraints read of it.
#[derive(Clone, Copy, Debug, PartialEq, Eq)]
pub struct TokenWallet {
    /// The account's key.
    pub key: Key,
    /// The owner of the tokens it holds.
    pub owner: Key,
    /// The mint of the tokens it holds.
    pub mint: Key,
}

/// Accounts of `initialize_deal`.
#[derive(Clone, Copy, Debug, PartialEq, Eq)]
pub struct InitializeDeal {
    /// The deal's state account, created here.
    pub deal_state: Key,
    /// The deal's token wallet, created here.
    pub deal_wallet_state: Key,
    /// The underwriter, who signs and pays.
    pub underwriter: Key,
    /// The borrower.
    pub borrower: Key,
    /// The mint of the deal's token.
    pub mint_of_token_being_sent: Key,
    /// The underwriter's token wallet the deposit comes from.
    pub wallet_to_withdraw_from: TokenWallet,
}

/// Bump seeds found while checking the accounts of `initialize_deal`.
#[derive(Clone, Copy, Debug, PartialEq, Eq, Structural)]
pub struct InitializeDealBumps {
    /// Bump seed of the deal's state account.
    pub deal_state: u8,
    /// Bump seed of the deal's token wallet.
    pub deal_wallet_state: u8,
}

impl InitializeDeal {
    /// Seeds of the deal's state account.
    pub open spec fn state_seeds(self, application_idx: u64) -> Seq<Seq<u8>> {
        deal_state_seeds(
            self.underwriter@,
            self.borrower@,
            self.mint_of_token_being_sent@,
            application_idx,
        )
    }

    /// Seeds of the deal's token wallet.
    pub open spec fn wallet_seeds(self, application_idx: u64) -> Seq<Seq<u8>> {
        deal_wallet_seeds(
            self.underwriter@,
            self.borrower@,
            self.mint_of_token_being_sent@,
            application_idx,
        )
    }

    /// The outcome of the checks, given the addresses found for the state
    /// account and for the wallet.
    pub open spec fn outcome(
        self,
        state_found: Option<(Seq<u8>, u8)>,
        wallet_found: Option<(Seq<u8>, u8)>,
    ) -> Result<InitializeDealBumps, ConstraintError> {
        if !is_found_at(state_found, self.deal_state@) {
            Err(ConstraintError::ConstraintSeeds)
        } else if !is_found_at(wallet_found, self.deal_wallet_state@) {
            Err(ConstraintError::ConstraintSeeds)
        } else if self.wallet_to_withdraw_from.owner@ != self.underwriter@ {
            Err(ConstraintError::ConstraintRaw)
        } else if self.wallet_to_withdraw_from.mint@ != self.mint_of_token_being_sent@ {
            Err(ConstraintError::ConstraintRaw)
        } else {
            Ok(
                InitializeDealBumps {
                    deal_state: state_found.unwrap().1,
                    deal_wallet_state: wallet_found.unwrap().1,
                },
            )
        }
    }

    /// Decides the checks from the addresses found for the state account and
    /// for the wallet.
    pub fn check_found(
        &self,
        state_found: &Option<(Key, u8)>,
        wallet_found: &Option<(Key, u8)>,
    ) -> (res: Result<InitializeDealBumps, ConstraintError>)
        ensures
            res == self.outcome(found_view(*state_found), found_view(*wallet_found)),
    {
        if !found_at(state_found, &self.deal_state) {
            return Err(ConstraintError::ConstraintSeeds);
        }
        if !found_at(wallet_found, &self.deal_wallet_state) {
            return Err(ConstraintError::ConstraintSeeds);
        }
        if !keys_equal(&self.wallet_to_withdraw_from.owner, &self.underwriter) {
            return Err(ConstraintError::ConstraintRaw);
        }
        if !keys_equal(&self.wallet_to_withdraw_from.mint, &self.mint_of_token_being_sent) {
            return Err(ConstraintError::ConstraintRaw);
        }
        let state_bump = match state_found {
            Some((_, bump)) => *bump,
            None => 0,
        };
        let wallet_bump = match wallet_found {
            Some((_, bump)) => *bump,
            None => 0,
        };
        Ok(InitializeDealBumps { deal_state: state_bump, deal_wallet_state: wallet_bump })
    }

    /// Checks the accounts of `initialize_deal` for the program `program_id`:
    /// the state account and the wallet are at the addresses their seeds
    /// derive, and the wallet the deposit comes from belongs to the
    /// underwriter and holds the deal's token.
    pub fn check(&self, program_id: &Key, application_idx: u64) -> (res: Result<
        InitializeDealBumps,
        ConstraintError,
    >)
        ensures
            res == self.outcome(
                found_program_address(self.state_seeds(application_idx), program_id@),
                found_program_address(self.wallet_seeds(application_idx), program_id@),
            ),
            res matches Ok(bumps) ==> derived_program_address(
                with_bump(self.state_seeds(application_idx), bumps.deal_state),
                program_id@,
            ) == Some(self.deal_state@),
            res matches Ok(bumps) ==> derived_program_address(
                with_bump(self.wallet_seeds(application_idx), bumps.deal_wallet_state),
                program_id@,
            ) == Some(self.deal_wallet_state@),
    {
        let state_seeds = deal_state_seed_bytes(
            &self.underwriter,
            &self.borrower,
            &self.mint_of_token_being_sent,
            application_idx,
        );
        let state_found = find_program_address(&state_seeds, program_id);
        let wallet_seeds = deal_wallet_seed_bytes(
            &self.underwriter,
            &self.borrower,
            &self.mint_of_token_being_sent,
            application_idx,
        );
        let wallet_found = find_program_address(&wallet_seeds, program_id);
        self.check_found(&state_found, &wallet_found)
    }
}

/// Accounts of `create_lp`.
#[derive(Clone, Copy, Debug, PartialEq, Eq)]
pub struct CreateLP {
    /// The deal's state account.
    pub deal_state: Key,
    /// The deal's token wallet.
    pub deal_wallet: Key,
    /// The liquidity provider's account, created here.
    pub lprovider: Key,
    /// The liquidity provider, who signs and pays.
    pub staker: Key,
    /// The deal's underwriter, from which the deal's addresses derive.
    pub deal_underwriter: Key,
    /// The deal's borrower, from which the deal's addresses derive.
    pub deal_borrower: Key,
    /// The deal's mint, from which the deal's addresses derive.
    pub deal_mint: Key,
}

/// Bump seeds found while checking the accounts of `create_lp` or `stake`.
#[derive(Clone, Copy, Debug, PartialEq, Eq, Structural)]
pub struct ProviderBumps {
    /// Bump seed of the liquidity provider's account.
    pub lprovider: u8,
    /// Bump seed of the deal's state account.
    pub deal_state: u8,
}

/// The outcome of the checks shared by `create_lp` and `stake`, given the
/// addresses found for the provider's account and for the state account and
/// the address derived for the wallet.
pub open spec fn provider_outcome(
    lprovider_found: Option<(Seq<u8>, u8)>,
    lprovider: Seq<u8>,
    state_found: Option<(Seq<u8>, u8)>,
    deal_state: Seq<u8>,
    wallet_derived: Option<Seq<u8>>,
    deal_wallet: Seq<u8>,
) -> Result<ProviderBumps, ConstraintError> {
    if !is_found_at(lprovider_found, lprovider) {
        Err(ConstraintError::ConstraintSeeds)
    } else if !is_found_at(state_found, deal_state) {
        Err(ConstraintError::ConstraintSeeds)
    } else if !is_derived_at(wallet_derived, deal_wallet) {
        Err(ConstraintError::ConstraintSeeds)
    } else {
        Ok(ProviderBumps { lprovider: lprovider_found.unwrap().1, deal_state: state_found.unwrap().1 })
    }
}

/// The spec view of a derived address.
pub open spec fn derived_view(derived: Option<Key>) -> Option<Seq<u8>> {
    match derived {
        Some(key) => Some(key@),
        None => None,
    }
}

/// Decides the checks shared by `create_lp` and `stake`.
pub fn check_provider_found(
    lprovider_found: &Option<(Key, u8)>,
    lprovider: &Key,
    state_found: &Option<(Key, u8)>,
    deal_state: &Key,
    wallet_derived: &Option<Key>,
    deal_wallet: &Key,
) -> (res: Result<ProviderBumps, ConstraintError>)
    ensures
        res == provider_outcome(
            found_view(*lprovider_found),
            lprovider@,
            found_view(*state_found),
            deal_state@,
            derived_view(*wallet_derived),
            deal_wallet@,
        ),
{
    if !found_at(lprovider_found, lprovider) {
        return Err(ConstraintError::ConstraintSeeds);
    }
    if !found_at(state_found, deal_state) {
        return Err(ConstraintError::ConstraintSeeds);
    }
    if !derived_at(wallet_derived, deal_wallet) {
        return Err(ConstraintError::ConstraintSeeds);
    }
    let lprovider_bump = match lprovider_found {
        Some((_, bump)) => *bump,
        None => 0,
    };
    let state_bump = match state_found {
        Some((_, bump)) => *bump,
        None => 0,
    };
    Ok(ProviderBumps { lprovider: lprovider_bump, deal_state: state_bump })
}

impl CreateLP {
    /// Seeds of the liquidity provider's account.
    pub open spec fn provider_seeds(self, application_idx: u64) -> Seq<Seq<u8>> {
        lprovider_seeds(self.deal_state@, self.staker@, application_idx)
    }

    /// Seeds of the deal's state account.
    pub open spec fn state_seeds(self, application_idx: u64) -> Seq<Seq<u8>> {
        deal_state_seeds(
            self.deal_underwriter@,
            self.deal_borrower@,
            self.deal_mint@,
            application_idx,
        )
    }

    /// Seeds of the deal's token wallet, with its bump seed.
    pub open spec fn wallet_seeds(self, application_idx: u64, wallet_bump: u8) -> Seq<Seq<u8>> {
        with_bump(
            deal_wallet_seeds(
                self.deal_underwriter@,
                self.deal_borrower@,
                self.deal_mint@,
                application_idx,
            ),
            wallet_bump,
        )
    }

    /// Checks the accounts of `create_lp` for the program `program_id`: the
    /// provider's account, the deal's state account and the deal's wallet
    /// (with bump seed `wallet_bump`) are at the addresses their seeds derive.
    pub fn check(&self, program_id: &Key, application_idx: u64, wallet_bump: u8) -> (res: Result<
        ProviderBumps,
        ConstraintError,
    >)
        ensures
            res == provider_outcome(
                found_program_address(self.provider_seeds(application_idx), program_id@),
                self.lprovider@,
                found_program_address(self.state_seeds(application_idx), program_id@),
                self.deal_state@,
                derived_program_address(self.wallet_seeds(application_idx, wallet_bump), program_id@),
                self.deal_wallet@,
            ),
    {
        let provider_seeds = lprovider_seed_bytes(&self.deal_state, &self.staker, application_idx);
        let lprovider_found = find_program_address(&provider_seeds, program_id);
        let state_seeds = deal_state_seed_bytes(
            &self.deal_underwriter,
            &self.deal_borrower,
            &self.deal_mint,
            application_idx,
        );
        let state_found = find_program_address(&state_seeds, program_id);
        let mut wallet_seeds = deal_wallet_seed_bytes(
            &self.deal_underwriter,
            &self.deal_borrower,
            &self.deal_mint,
            application_idx,
        );
        push_bump(&mut wallet_seeds, wallet_bump);
        let wallet_derived = create_program_address(&wallet_seeds, program_id);
        check_provider_found(
            &lprovider_found,
            &self.lprovider,
            &state_found,
            &self.deal_state,
            &wallet_derived,
            &self.deal_wallet,
        )
    }
}

/// Accounts of `stake`.
#[derive(Clone, Copy, Debug, PartialEq, Eq)]
pub struct Stake {
    /// The deal's state account.
    pub deal_state: Key,
    /// The deal's token wallet.
    pub deal_wallet: Key,
    /// The liquidity provider's account, created by `create_lp`.
    pub lprovider: Key,
    /// The liquidity provider, who signs and pays.
    pub staker: Key,
    /// The deal's underwriter, from which the deal's addresses derive.
    pub deal_underwriter: Key,
    /// The deal's borrower, from which the deal's addresses derive.
    pub deal_borrower: Key,
    /// The deal's mint, from which the deal's addresses derive.
    pub deal_mint: Key,
    /// A signer for the liquidity provider's account.
    pub lprovider_state: Key,
    /// The provider's token wallet the stake comes from.
    pub staker_wallet: Key,
}

impl Stake {
    /// Seeds of the liquidity provider's account: the scheme under which
    /// `create_lp` created it.
    pub open spec fn provider_seeds(self, application_idx: u64) -> Seq<Seq<u8>> {
        lprovider_seeds(self.deal_state@, self.staker@, application_idx)
    }

    /// Seeds of the deal's state account.
    pub open spec fn state_seeds(self, application_idx: u64) -> Seq<Seq<u8>> {
        deal_state_seeds(
            self.deal_underwriter@,
            self.deal_borrower@,
            self.deal_mint@,
            application_idx,
        )
    }

    /// Seeds of the deal's token wallet, with its bump seed.
    pub open spec fn wallet_seeds(self, application_idx: u64, wallet_bump: u8) -> Seq<Seq<u8>> {
        with_bump(
            deal_wallet_seeds(
                self.deal_underwriter@,
                self.deal_borrower@,
                self.deal_mint@,
                application_idx,
            ),
            wallet_bump,
        )
    }

    /// Checks the accounts of `stake` for the program `program_id`: the
    /// provider's account, the deal's state account and the deal's wallet
    /// (with bump seed `wallet_bump`) are at the addresses their seeds derive.
    pub fn check(&self, program_id: &Key, application_idx: u64, wallet_bump: u8) -> (res: Result<
        ProviderBumps,
        ConstraintError,
    >)
        ensures
            res == provider_outcome(
                found_program_address(self.provider_seeds(application_idx), program_id@),
                self.lprovider@,
                found_program_address(self.state_seeds(application_idx), program_id@),
                self.deal_state@,
                derived_program_address(self.wallet_seeds(application_idx, wallet_bump), program_id@),
                self.deal_wallet@,
            ),
    {
        let provider_seeds = lprovider_seed_bytes(&self.deal_state, &self.staker, application_idx);
        let lprovider_found = find_program_address(&provider_seeds, program_id);
        let state_seeds = deal_state_seed_bytes(
            &self.deal_underwriter,
            &self.deal_borrower,
            &self.deal_mint,
            application_idx,
        );
        let state_found = find_program_address(&state_seeds, program_id);
        let mut wallet_seeds = deal_wallet_seed_bytes(
            &self.deal_underwriter,
            &self.deal_borrower,
            &self.deal_mint,
            application_idx,
        );
        push_bump(&mut wallet_seeds, wallet_bump);
        let wallet_derived = create_program_address(&wallet_seeds, program_id);
        check_provider_found(
            &lprovider_found,
            &self.lprovider,
            &state_found,
            &self.deal_state,
            &wallet_derived,
            &self.deal_wallet,
        )
    }
}

/// Accounts of `borrow`.
#[derive(Clone, Copy, Debug, PartialEq, Eq)]
pub struct Borrow {
    /// The deal's state account, the authority over the deal's wallet.
    pub deal_state: Key,
    /// The deal's token wallet.
    pub deal_wallet: Key,
    /// The deal's underwriter.
    pub underwriter: Key,
    /// The deal's borrower.
    pub borrower: Key,
    /// The mint of the deal's token.
    pub mint_of_token_being_sent: Key,
    /// The borrower's token wallet the funds go to.
    pub wallet_to_deposit_to: TokenWallet,
}

} // verus!

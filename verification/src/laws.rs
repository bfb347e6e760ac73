//! Properties that hold across the instructions.

use vstd::prelude::*;

use crate::context::{
    derived_view, provider_outcome, Borrow, ConstraintError, CreateLP, InitializeDeal,
    InitializeDealBumps, ProviderBumps, Stake, TokenWallet,
};
use crate::ido::{borrow_outcome, initialized, phase_required, registered, stake_outcome};
use crate::keys::{le_bytes, le_digits, Key};
use crate::pda::{
    deal_state_seeds, deal_wallet_seeds, derived_program_address, found_program_address,
    found_view, lprovider_seeds, with_bump,
};
use crate::state::{DealError, DealState, Epochs, LiqProvider};

verus! {

/// A phase read back from its code is the phase itself.
pub proof fn lemma_epoch_code_roundtrip(phase: Epochs)
    ensures
        Epochs::from_code(phase.code()) == Ok::<Epochs, DealError>(phase),
{
}

/// A code is read as a phase exactly when it lies in `1..=6`, and that phase
/// is stored under the same code; every other code is refused as unknown.
pub proof fn lemma_epoch_code_decode(code: u8)
    ensures
        Epochs::from_code(code) is Ok <==> 1 <= code <= 6,
        Epochs::from_code(code) matches Ok(phase) ==> phase.code() == code,
        Epochs::from_code(code) is Err ==> Epochs::from_code(code) == Err::<Epochs, DealError>(
            DealError::UnknownStage(code),
        ),
{
}

/// Opening a deal on a freshly created account leaves its bookkeeping
/// consistent, with nothing staked yet and the underwriter's deposit as all
/// that was deposited.
pub proof fn lemma_initialize_consistent(
    deal: DealState,
    accounts: InitializeDeal,
    application_idx: u64,
    amount: u64,
    senior_tranche: u64,
)
    requires
        deal.is_zeroed(),
        amount + senior_tranche <= u64::MAX,
    ensures
        initialized(deal, accounts, application_idx, amount, senior_tranche).wf(),
        initialized(deal, accounts, application_idx, amount, senior_tranche).amount_staked == 0,
        initialized(deal, accounts, application_idx, amount, senior_tranche).deposited() == amount,
        initialized(deal, accounts, application_idx, amount, senior_tranche).epoch
            == Epochs::DealWritten.code(),
{
}

/// A stake that is accepted never takes the staked amount above the senior
/// tranche, adds exactly the staked tokens to what was deposited, and keeps a
/// consistent deal consistent. A stake is accepted exactly when the deal is in
/// phase `DealWritten` and the stake fits within the senior tranche.
pub proof fn lemma_stake_within_tranche(deal: DealState, amount: u64)
    ensures
        stake_outcome(deal, amount) is Ok <==> (Epochs::from_code(deal.epoch) == Ok::<
            Epochs,
            DealError,
        >(Epochs::DealWritten) && deal.amount_staked + amount <= deal.senior_tranche),
        stake_outcome(deal, amount) matches Ok(after) ==> {
            &&& after.amount_staked <= after.senior_tranche
            &&& after.deposited() == deal.deposited() + amount
            &&& deal.wf() ==> after.wf()
        },
{
}

/// An accepted stake leaves the deal in phase `DealWritten` while the senior
/// tranche is not yet filled, and moves it to `LPCompleted` exactly when the
/// tranche is filled; the phase code never goes down.
pub proof fn lemma_stake_phase(deal: DealState, amount: u64)
    ensures
        stake_outcome(deal, amount) matches Ok(after) ==> {
            &&& (after.epoch == Epochs::LPCompleted.code()) == (after.amount_staked
                >= after.senior_tranche)
            &&& (after.epoch == Epochs::DealWritten.code()) == (after.amount_staked
                < after.senior_tranche)
            &&& after.epoch >= deal.epoch
        },
{
}

/// `borrow` is accepted exactly in phase `LPCompleted` with a receiving
/// wallet of the deal's borrower for the deal's token, moves the deal on to
/// `Repaymentphase`, and changes nothing else. On a consistent deal, what it
/// pays out (the deposit plus the stakes) fits in a `u64`.
pub proof fn lemma_borrow_phase(deal: DealState, receiver: TokenWallet)
    ensures
        borrow_outcome(deal, receiver) is Ok <==> (phase_required(
            deal.epoch,
            Epochs::LPCompleted,
        ) is Ok && receiver.owner@ == deal.borrower@ && receiver.mint@
            == deal.mint_of_token_being_sent@),
        phase_required(deal.epoch, Epochs::LPCompleted) is Ok <==> deal.epoch
            == Epochs::LPCompleted.code(),
        borrow_outcome(deal, receiver) matches Ok(after) ==> {
            &&& after.epoch == Epochs::Repaymentphase.code()
            &&& after.epoch > deal.epoch
            &&& after == DealState { epoch: after.epoch, ..deal }
            &&& deal.wf() ==> after.wf()
        },
        deal.wf() ==> deal.deposited() <= u64::MAX,
{
}

/// A deal's funds are paid out at most once: after an accepted `borrow`, no
/// later `borrow`, `stake` or `create_lp` on the deal is accepted.
pub proof fn lemma_borrow_once(deal: DealState, receiver: TokenWallet, later: TokenWallet, amount: u64)
    ensures
        borrow_outcome(deal, receiver) matches Ok(after) ==> {
            &&& borrow_outcome(after, later) == Err::<DealState, DealError>(
                DealError::StageInvalid,
            )
            &&& stake_outcome(after, amount) == Err::<DealState, DealError>(
                DealError::StageInvalid,
            )
            &&& phase_required(after.epoch, Epochs::DealWritten) == Err::<(), DealError>(
                DealError::StageInvalid,
            )
        },
{
}

/// The deal after a series of stakes, in order; refused stakes change
/// nothing.
pub open spec fn stakes_applied(deal: DealState, amounts: Seq<u64>) -> DealState
    decreases amounts.len(),
{
    if amounts.len() == 0 {
        deal
    } else {
        let before = stakes_applied(deal, amounts.drop_last());
        match stake_outcome(before, amounts.last()) {
            Ok(after) => after,
            Err(_) => before,
        }
    }
}

/// The tokens that a series of stakes moves into the deal's wallet: the
/// amounts of the stakes that are accepted.
pub open spec fn stakes_transferred(deal: DealState, amounts: Seq<u64>) -> int
    decreases amounts.len(),
{
    if amounts.len() == 0 {
        0
    } else {
        let before = stakes_applied(deal, amounts.drop_last());
        stakes_transferred(deal, amounts.drop_last()) + match stake_outcome(
            before,
            amounts.last(),
        ) {
            Ok(_) => amounts.last() as int,
            Err(_) => 0int,
        }
    }
}

proof fn lemma_stakes_account(deal: DealState, amounts: Seq<u64>)
    requires
        deal.wf(),
        deal.epoch == Epochs::LPCompleted.code() ==> deal.amount_staked == deal.senior_tranche,
    ensures
        stakes_applied(deal, amounts).epoch == Epochs::LPCompleted.code()
            ==> stakes_applied(deal, amounts).amount_staked == deal.senior_tranche,
        stakes_applied(deal, amounts).wf(),
        stakes_applied(deal, amounts).deposited() == deal.deposited() + stakes_transferred(
            deal,
            amounts,
        ),
        stakes_transferred(deal, amounts) <= deal.senior_tranche - deal.amount_staked,
        stakes_applied(deal, amounts).senior_tranche == deal.senior_tranche,
        stakes_applied(deal, amounts).amount_underwritten == deal.amount_underwritten,
    decreases amounts.len(),
{
    if amounts.len() > 0 {
        lemma_stakes_account(deal, amounts.drop_last());
    }
}

/// What the borrower draws is exactly what went into the deal: after a deal
/// is opened on a fresh account with a deposit and any series of stakes is
/// made into it, the deposit plus the stakes that were accepted is what
/// `borrow` pays out, it never exceeds the deposit plus the senior tranche,
/// and the deal's bookkeeping stays consistent. Once the tranche is filled
/// (the phase `borrow` needs), the payout is the deposit plus the whole
/// tranche: the amount to repay.
pub proof fn lemma_borrow_pays_out_deposits(
    deal: DealState,
    accounts: InitializeDeal,
    application_idx: u64,
    amount: u64,
    senior_tranche: u64,
    amounts: Seq<u64>,
    receiver: TokenWallet,
)
    requires
        deal.is_zeroed(),
        amount + senior_tranche <= u64::MAX,
    ensures
        ({
            let opened = initialized(deal, accounts, application_idx, amount, senior_tranche);
            let staked = stakes_applied(opened, amounts);
            &&& staked.wf()
            &&& staked.deposited() == amount + stakes_transferred(opened, amounts)
            &&& staked.deposited() <= amount + senior_tranche
            &&& borrow_outcome(staked, receiver) is Ok ==> {
                &&& staked.amount_staked + staked.amount_underwritten == amount
                    + stakes_transferred(opened, amounts)
                &&& staked.amount_staked + staked.amount_underwritten == amount
                    + senior_tranche
                &&& staked.amount_staked + staked.amount_underwritten
                    == staked.amount_to_repay
            }
        }),
{
    let opened = initialized(deal, accounts, application_idx, amount, senior_tranche);
    lemma_stakes_account(opened, amounts);
}

/// The deal's wallet and state account pass the checks of `create_lp` when
/// they passed those of `initialize_deal`: if the accounts of `create_lp`
/// name the deal's state account, wallet, underwriter, borrower and mint, and
/// the wallet's bump seed is the one found when the deal was opened, then
/// only the provider's own account can make the check fail.
pub proof fn lemma_create_lp_accepts_opened_deal(
    opened: InitializeDeal,
    program_id: Seq<u8>,
    application_idx: u64,
    accounts: CreateLP,
    wallet_bump: u8,
)
    requires
        opened.outcome(
            found_program_address(opened.state_seeds(application_idx), program_id),
            found_program_address(opened.wallet_seeds(application_idx), program_id),
        ) is Ok,
        derived_program_address(
            with_bump(opened.wallet_seeds(application_idx), wallet_bump),
            program_id,
        ) == Some(opened.deal_wallet_state@),
        accounts.deal_state == opened.deal_state,
        accounts.deal_wallet == opened.deal_wallet_state,
        accounts.deal_underwriter == opened.underwriter,
        accounts.deal_borrower == opened.borrower,
        accounts.deal_mint == opened.mint_of_token_being_sent,
    ensures
        ({
            let lprovider_found = found_program_address(
                accounts.provider_seeds(application_idx),
                program_id,
            );
            let state_found = found_program_address(
                accounts.state_seeds(application_idx),
                program_id,
            );
            provider_outcome(
                lprovider_found,
                accounts.lprovider@,
                state_found,
                accounts.deal_state@,
                derived_program_address(
                    accounts.wallet_seeds(application_idx, wallet_bump),
                    program_id,
                ),
                accounts.deal_wallet@,
            ) == if lprovider_found is Some && lprovider_found.unwrap().0
                == accounts.lprovider@ {
                Ok::<ProviderBumps, _>(
                    ProviderBumps {
                        lprovider: lprovider_found.unwrap().1,
                        deal_state: state_found.unwrap().1,
                    },
                )
            } else {
                Err(crate::context::ConstraintError::ConstraintSeeds)
            }
        }),
{
    assert(accounts.state_seeds(application_idx) == opened.state_seeds(application_idx));
    assert(accounts.wallet_seeds(application_idx, wallet_bump) == with_bump(
        opened.wallet_seeds(application_idx),
        wallet_bump,
    ));
}

/// `stake` accepts exactly the accounts that `create_lp` accepted: the same
/// deal accounts, provider account and provider pass or fail both checks
/// alike, so a stake credits the provider account `create_lp` created.
pub proof fn lemma_stake_accounts_match_create_lp(
    created: CreateLP,
    staking: Stake,
    program_id: Seq<u8>,
    application_idx: u64,
    wallet_bump: u8,
)
    requires
        staking.deal_state == created.deal_state,
        staking.deal_wallet == created.deal_wallet,
        staking.lprovider == created.lprovider,
        staking.staker == created.staker,
        staking.deal_underwriter == created.deal_underwriter,
        staking.deal_borrower == created.deal_borrower,
        staking.deal_mint == created.deal_mint,
    ensures
        provider_outcome(
            found_program_address(staking.provider_seeds(application_idx), program_id),
            staking.lprovider@,
            found_program_address(staking.state_seeds(application_idx), program_id),
            staking.deal_state@,
            derived_program_address(staking.wallet_seeds(application_idx, wallet_bump), program_id),
            staking.deal_wallet@,
        ) == provider_outcome(
            found_program_address(created.provider_seeds(application_idx), program_id),
            created.lprovider@,
            found_program_address(created.state_seeds(application_idx), program_id),
            created.deal_state@,
            derived_program_address(created.wallet_seeds(application_idx, wallet_bump), program_id),
            created.deal_wallet@,
        ),
{
    assert(staking.provider_seeds(application_idx) == created.provider_seeds(application_idx));
    assert(staking.state_seeds(application_idx) == created.state_seeds(application_idx));
    assert(staking.wallet_seeds(application_idx, wallet_bump) == created.wallet_seeds(
        application_idx,
        wallet_bump,
    ));
}

// ---------------------------------------------------------------------------
// What each step computes, stated on its inputs and results.
// ---------------------------------------------------------------------------

/// The ASCII bytes of `state`.
pub open spec fn ascii_state() -> Seq<u8> {
    seq![115u8, 116u8, 97u8, 116u8, 101u8]
}

/// The ASCII bytes of `wallet`.
pub open spec fn ascii_wallet() -> Seq<u8> {
    seq![119u8, 97u8, 108u8, 108u8, 101u8, 116u8]
}

/// The ASCII bytes of `lprovider`.
pub open spec fn ascii_lprovider() -> Seq<u8> {
    seq![108u8, 112u8, 114u8, 111u8, 118u8, 105u8, 100u8, 101u8, 114u8]
}

/// The phases, in the order a deal goes through them.
pub open spec fn phase_order() -> Seq<Epochs> {
    seq![
        Epochs::DealWritten,
        Epochs::LPCompleted,
        Epochs::DealComplete,
        Epochs::Repaymentphase,
        Epochs::DealClosed,
        Epochs::PullBackComplete,
    ]
}

/// The phases are stored under the codes 1 to 6, in the order a deal goes
/// through them.
pub proof fn lemma_epoch_codes_follow_the_phases(i: int)
    requires
        0 <= i < 6,
    ensures
        phase_order()[i].code() == i + 1,
        Epochs::from_code((i + 1) as u8) == Ok::<Epochs, DealError>(phase_order()[i]),
{
}

/// A deal is in the needed phase exactly when its stored code is that phase's
/// code; a code of no phase is refused as unknown, any other code as the
/// wrong phase.
pub proof fn lemma_phase_required(code: u8, needed: Epochs)
    ensures
        phase_required(code, needed) is Ok <==> code == needed.code(),
        !(1 <= code <= 6) ==> phase_required(code, needed) == Err::<(), DealError>(
            DealError::UnknownStage(code),
        ),
        1 <= code <= 6 && code != needed.code() ==> phase_required(code, needed) == Err::<
            (),
            DealError,
        >(DealError::StageInvalid),
{
}

/// The value of little-endian digits.
pub open spec fn le_value(digits: Seq<u8>) -> nat
    decreases digits.len(),
{
    if digits.len() == 0 {
        0
    } else {
        digits[0] as nat + 256 * le_value(digits.drop_first())
    }
}

/// 256 to the power `n`.
pub open spec fn pow256(n: nat) -> nat
    decreases n,
{
    if n == 0 {
        1
    } else {
        256 * pow256((n - 1) as nat)
    }
}

proof fn lemma_le_digits_value(x: nat, n: nat)
    requires
        x < pow256(n),
    ensures
        le_value(le_digits(x, n)) == x,
    decreases n,
{
    if n > 0 {
        let p = pow256((n - 1) as nat);
        assert(x / 256 < p) by (nonlinear_arith)
            requires
                x < 256 * p,
        ;
        lemma_le_digits_value(x / 256, (n - 1) as nat);
        let d = le_digits(x, n);
        assert(d.drop_first() =~= le_digits(x / 256, (n - 1) as nat));
        assert(x % 256 + 256 * (x / 256) == x) by (nonlinear_arith);
    }
}

/// The little-endian encoding of an index has 8 bytes, whose value read back
/// is the index itself.
pub proof fn lemma_le_bytes_value(x: u64)
    ensures
        le_bytes(x).len() == 8,
        le_value(le_bytes(x)) == x,
{
    crate::keys::lemma_le_bytes_len(x);
    assert(pow256(8) == 0x1_0000_0000_0000_0000) by {
        reveal_with_fuel(pow256, 9);
    }
    lemma_le_digits_value(x as nat, 8);
}

/// The seeds of a deal's state account, of its wallet and of a provider's
/// account hold their tag, then the parties' keys as they are, then the
/// little-endian index; a bump seed is appended as one more seed of one byte.
pub proof fn lemma_seed_schemes(
    underwriter: Seq<u8>,
    borrower: Seq<u8>,
    mint: Seq<u8>,
    deal_state: Seq<u8>,
    provider: Seq<u8>,
    idx: u64,
    seeds: Seq<Seq<u8>>,
    bump: u8,
)
    ensures
        deal_state_seeds(underwriter, borrower, mint, idx) == seq![
            ascii_state(),
            underwriter,
            borrower,
            mint,
            le_bytes(idx),
        ],
        deal_wallet_seeds(underwriter, borrower, mint, idx) == seq![
            ascii_wallet(),
            underwriter,
            borrower,
            mint,
            le_bytes(idx),
        ],
        lprovider_seeds(deal_state, provider, idx) == seq![
            ascii_lprovider(),
            deal_state,
            provider,
            le_bytes(idx),
        ],
        with_bump(seeds, bump).len() == seeds.len() + 1,
        with_bump(seeds, bump).take(seeds.len() as int) == seeds,
        with_bump(seeds, bump).last() == seq![bump],
{
    assert(deal_state_seeds(underwriter, borrower, mint, idx) =~= seq![
        ascii_state(),
        underwriter,
        borrower,
        mint,
        le_bytes(idx),
    ]);
    assert(deal_wallet_seeds(underwriter, borrower, mint, idx) =~= seq![
        ascii_wallet(),
        underwriter,
        borrower,
        mint,
        le_bytes(idx),
    ]);
    assert(lprovider_seeds(deal_state, provider, idx) =~= seq![
        ascii_lprovider(),
        deal_state,
        provider,
        le_bytes(idx),
    ]);
    assert(with_bump(seeds, bump).take(seeds.len() as int) =~= seeds);
}

/// Each check derives its addresses from its own accounts' keys: the deal's
/// state account and wallet from the underwriter, borrower and mint it names,
/// and the provider's account from the deal's state account and the
/// provider; `stake` uses the same schemes as `create_lp`.
pub proof fn lemma_checks_use_their_accounts(
    opening: InitializeDeal,
    creating: CreateLP,
    staking: Stake,
    idx: u64,
    bump: u8,
)
    ensures
        opening.state_seeds(idx) == seq![
            ascii_state(),
            opening.underwriter@,
            opening.borrower@,
            opening.mint_of_token_being_sent@,
            le_bytes(idx),
        ],
        opening.wallet_seeds(idx) == seq![
            ascii_wallet(),
            opening.underwriter@,
            opening.borrower@,
            opening.mint_of_token_being_sent@,
            le_bytes(idx),
        ],
        creating.provider_seeds(idx) == seq![
            ascii_lprovider(),
            creating.deal_state@,
            creating.staker@,
            le_bytes(idx),
        ],
        creating.state_seeds(idx) == seq![
            ascii_state(),
            creating.deal_underwriter@,
            creating.deal_borrower@,
            creating.deal_mint@,
            le_bytes(idx),
        ],
        creating.wallet_seeds(idx, bump) == seq![
            ascii_wallet(),
            creating.deal_underwriter@,
            creating.deal_borrower@,
            creating.deal_mint@,
            le_bytes(idx),
            seq![bump],
        ],
        staking.provider_seeds(idx) == seq![
            ascii_lprovider(),
            staking.deal_state@,
            staking.staker@,
            le_bytes(idx),
        ],
        staking.state_seeds(idx) == seq![
            ascii_state(),
            staking.deal_underwriter@,
            staking.deal_borrower@,
            staking.deal_mint@,
            le_bytes(idx),
        ],
        staking.wallet_seeds(idx, bump) == seq![
            ascii_wallet(),
            staking.deal_underwriter@,
            staking.deal_borrower@,
            staking.deal_mint@,
            le_bytes(idx),
            seq![bump],
        ],
{
    lemma_seed_schemes(
        opening.underwriter@,
        opening.borrower@,
        opening.mint_of_token_being_sent@,
        creating.deal_state@,
        creating.staker@,
        idx,
        Seq::empty(),
        bump,
    );
    lemma_seed_schemes(
        creating.deal_underwriter@,
        creating.deal_borrower@,
        creating.deal_mint@,
        creating.deal_state@,
        creating.staker@,
        idx,
        Seq::empty(),
        bump,
    );
    lemma_seed_schemes(
        staking.deal_underwriter@,
        staking.deal_borrower@,
        staking.deal_mint@,
        staking.deal_state@,
        staking.staker@,
        idx,
        Seq::empty(),
        bump,
    );
    assert(creating.wallet_seeds(idx, bump) =~= seq![
        ascii_wallet(),
        creating.deal_underwriter@,
        creating.deal_borrower@,
        creating.deal_mint@,
        le_bytes(idx),
        seq![bump],
    ]);
    assert(staking.wallet_seeds(idx, bump) =~= seq![
        ascii_wallet(),
        staking.deal_underwriter@,
        staking.deal_borrower@,
        staking.deal_mint@,
        le_bytes(idx),
        seq![bump],
    ]);
}

/// The seeds `borrow` signs with, plus the state account's bump seed, derive
/// the deal's state account: when the deal was opened with the same
/// underwriter, borrower, mint and state account, and its check found the
/// state account with that bump seed.
pub proof fn lemma_borrow_signs_for_the_deal(
    opened: InitializeDeal,
    accounts: Borrow,
    program_id: Seq<u8>,
    idx: u64,
    bump: u8,
)
    requires
        derived_program_address(with_bump(opened.state_seeds(idx), bump), program_id) == Some(
            opened.deal_state@,
        ),
        accounts.deal_state == opened.deal_state,
        accounts.underwriter == opened.underwriter,
        accounts.borrower == opened.borrower,
        accounts.mint_of_token_being_sent == opened.mint_of_token_being_sent,
    ensures
        derived_program_address(
            with_bump(
                deal_state_seeds(
                    accounts.underwriter@,
                    accounts.borrower@,
                    accounts.mint_of_token_being_sent@,
                    idx,
                ),
                bump,
            ),
            program_id,
        ) == Some(accounts.deal_state@),
{
}

/// The accounts of `create_lp` and `stake` pass exactly when the provider's
/// account and the deal's state account are each at the address found for
/// its seeds, and the wallet is at the address derived for its seeds and bump
/// seed; the bump seeds returned are those found. Any failure is
/// `ConstraintSeeds`.
pub proof fn lemma_provider_outcome(
    lprovider_found: Option<(Seq<u8>, u8)>,
    lprovider: Seq<u8>,
    state_found: Option<(Seq<u8>, u8)>,
    deal_state: Seq<u8>,
    wallet_derived: Option<Seq<u8>>,
    deal_wallet: Seq<u8>,
)
    ensures
        ({
            let res = provider_outcome(
                lprovider_found,
                lprovider,
                state_found,
                deal_state,
                wallet_derived,
                deal_wallet,
            );
            &&& res is Ok <==> {
                &&& lprovider_found is Some && lprovider_found.unwrap().0 == lprovider
                &&& state_found is Some && state_found.unwrap().0 == deal_state
                &&& wallet_derived == Some(deal_wallet)
            }
            &&& res matches Ok(bumps) ==> bumps.lprovider == lprovider_found.unwrap().1
                && bumps.deal_state == state_found.unwrap().1
            &&& res is Err ==> res == Err::<ProviderBumps, ConstraintError>(
                ConstraintError::ConstraintSeeds,
            )
        }),
{
}

/// The accounts of `initialize_deal` pass exactly when the state account and
/// the wallet are at the addresses found for their seeds and the wallet the
/// deposit comes from is owned by the underwriter and holds the deal's mint;
/// the bump seeds returned are those found. A misplaced account is
/// `ConstraintSeeds`; a foreign source wallet is `ConstraintRaw`.
pub proof fn lemma_initialize_outcome(
    accounts: InitializeDeal,
    state_found: Option<(Seq<u8>, u8)>,
    wallet_found: Option<(Seq<u8>, u8)>,
)
    ensures
        ({
            let placed = state_found is Some && state_found.unwrap().0 == accounts.deal_state@
                && wallet_found is Some && wallet_found.unwrap().0
                == accounts.deal_wallet_state@;
            let owned = accounts.wallet_to_withdraw_from.owner@ == accounts.underwriter@
                && accounts.wallet_to_withdraw_from.mint@
                == accounts.mint_of_token_being_sent@;
            let res = accounts.outcome(state_found, wallet_found);
            &&& res is Ok <==> placed && owned
            &&& res matches Ok(bumps) ==> bumps == InitializeDealBumps {
                deal_state: state_found.unwrap().1,
                deal_wallet_state: wallet_found.unwrap().1,
            }
            &&& !placed ==> res == Err::<InitializeDealBumps, ConstraintError>(
                ConstraintError::ConstraintSeeds,
            )
            &&& placed && !owned ==> res == Err::<InitializeDealBumps, ConstraintError>(
                ConstraintError::ConstraintRaw,
            )
        }),
{
}

/// A found address and a derived address keep the address bytes and the
/// bump seed as they were found.
pub proof fn lemma_address_views(found: Option<(Key, u8)>, derived: Option<Key>)
    ensures
        found_view(found) is Some <==> found is Some,
        found matches Some((key, bump)) ==> found_view(found) == Some((key@, bump)),
        derived_view(derived) is Some <==> derived is Some,
        derived matches Some(key) ==> derived_view(derived) == Some(key@),
{
}

/// Opening a deal records the accounts' parties and the given amounts as
/// they are, sets phase `DealWritten`, owes the deposit plus the tranche, and
/// leaves the staked amount and the token amount as they were.
pub proof fn lemma_initialize_records(
    deal: DealState,
    accounts: InitializeDeal,
    idx: u64,
    amount: u64,
    senior_tranche: u64,
)
    requires
        amount + senior_tranche <= u64::MAX,
    ensures
        ({
            let opened = initialized(deal, accounts, idx, amount, senior_tranche);
            &&& opened.idx == idx
            &&& opened.underwriter@ == accounts.underwriter@
            &&& opened.borrower@ == accounts.borrower@
            &&& opened.mint_of_token_being_sent@ == accounts.mint_of_token_being_sent@
            &&& opened.deal_wallet@ == accounts.deal_wallet_state@
            &&& opened.amount_underwritten == amount
            &&& opened.senior_tranche == senior_tranche
            &&& opened.amount_to_repay == amount + senior_tranche
            &&& opened.amount_staked == deal.amount_staked
            &&& opened.amount_tokens == deal.amount_tokens
            &&& opened.epoch == Epochs::DealWritten.code()
        }),
{
}

/// Registering a provider records the accounts' keys as they are and the
/// application index, and leaves its balance and stake time as they were.
pub proof fn lemma_registered_records(provider: LiqProvider, accounts: CreateLP, idx: u64)
    ensures
        ({
            let after = registered(provider, accounts, idx);
            &&& after.idx == idx
            &&& after.deal_state@ == accounts.deal_state@
            &&& after.deal_wallet@ == accounts.deal_wallet@
            &&& after.deal_mint@ == accounts.deal_mint@
            &&& after.staker@ == accounts.staker@
            &&& after.balance == provider.balance
            &&& after.last_stake_ts == provider.last_stake_ts
        }),
{
}

/// An accepted stake adds exactly its amount to the staked amount and
/// changes nothing else but the phase; a refused one is refused for the
/// first failing reason: the phase, then the tranche.
pub proof fn lemma_stake_outcome(deal: DealState, amount: u64)
    ensures
        stake_outcome(deal, amount) matches Ok(after) ==> {
            &&& after.amount_staked == deal.amount_staked + amount
            &&& after == DealState {
                amount_staked: after.amount_staked,
                epoch: after.epoch,
                ..deal
            }
        },
        deal.epoch != Epochs::DealWritten.code() ==> stake_outcome(deal, amount) == Err::<
            DealState,
            DealError,
        >(phase_required(deal.epoch, Epochs::DealWritten)->Err_0),
        deal.epoch == Epochs::DealWritten.code() && deal.amount_staked + amount
            > deal.senior_tranche ==> stake_outcome(deal, amount) == Err::<DealState, DealError>(
            DealError::SeniorTrancheExceeded,
        ),
{
}

/// A refused `borrow` is refused for the first failing reason: the phase,
/// then the receiving wallet.
pub proof fn lemma_borrow_refusals(deal: DealState, receiver: TokenWallet)
    ensures
        deal.epoch != Epochs::LPCompleted.code() ==> borrow_outcome(deal, receiver) == Err::<
            DealState,
            DealError,
        >(phase_required(deal.epoch, Epochs::LPCompleted)->Err_0),
        deal.epoch == Epochs::LPCompleted.code() && !(receiver.owner@ == deal.borrower@
            && receiver.mint@ == deal.mint_of_token_being_sent@) ==> borrow_outcome(
            deal,
            receiver,
        ) == Err::<DealState, DealError>(DealError::WalletToDepositToInvalid),
{
}

/// Every refusal is reported as custom program error 100.
pub proof fn lemma_refusal_code(e: DealError)
    ensures
        e.spec_custom_code() == 100,
{
}

/// A freshly created account holds zero in every amount and phase field and
/// 32 zero bytes in every key.
pub proof fn lemma_zeroed_accounts(deal: DealState, provider: LiqProvider, i: int)
    requires
        0 <= i < 32,
    ensures
        deal.is_zeroed() ==> {
            &&& deal.idx == 0 && deal.amount_tokens == 0 && deal.amount_underwritten == 0
            &&& deal.senior_tranche == 0 && deal.amount_to_repay == 0 && deal.amount_staked == 0
            &&& deal.epoch == 0
            &&& deal.underwriter@.len() == 32 && deal.underwriter@[i] == 0
            &&& deal.borrower@[i] == 0 && deal.mint_of_token_being_sent@[i] == 0
            &&& deal.deal_wallet@[i] == 0
        },
        provider.is_zeroed() ==> {
            &&& provider.balance == 0 && provider.last_stake_ts == 0 && provider.idx == 0
            &&& provider.deal_state@.len() == 32 && provider.deal_state@[i] == 0
            &&& provider.deal_wallet@[i] == 0 && provider.deal_mint@[i] == 0
            &&& provider.staker@[i] == 0
        },
{
}

} // verus!

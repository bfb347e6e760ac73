//! Phased staking deals: an underwriter opens a deal with a first deposit,
//! liquidity providers stake into it until the senior tranche is filled, and
//! the borrower then draws everything that was deposited.
//!
//! The instruction logic is expressed on plain values: account keys are
//! 32-byte arrays, and every token movement is returned as a
//! [`ido::TokenTransfer`] for the runtime to carry out.

pub mod keys;
pub mod laws;
pub mod pda;
pub mod context;
pub mod ido;
pub mod state;

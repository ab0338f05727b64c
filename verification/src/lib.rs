//! A two-party wagering escrow on a predicted floor price.
//!
//! A creator locks collateral against a prediction, a counterparty locks the
//! same amount before the expiry time, and after expiry the pooled collateral
//! is paid to whoever the observed floor price favours. Every transition is a
//! verified function whose contract states the resulting record and balances
//! exactly.

pub mod clock;
pub mod identity;
pub mod error;
pub mod winner;
pub mod state;
pub mod oracle;
pub mod engine;
pub mod laws;

pub use crate::engine::{
    accept_escrow, accept_escrow_at, initialize_escrow, settle_escrow, settle_escrow_at,
    settle_with_price, AcceptEscrow, InitializeEscrow, SettleEscrow,
};
pub use crate::error::EscrowError;
pub use crate::identity::Identity;
pub use crate::oracle::{FixedOracle, TensorOracle};
pub use crate::state::{EscrowAccount, EscrowState, Wallet};
pub use crate::winner::{trader_wins, TIE_BAND};

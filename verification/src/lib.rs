//! Accounting engine of a shared liquidity pool.
//!
//! Depositors pay a single base denomination into the pool and receive
//! liquidity-pool (LP) shares in proportion; a designated game contract may
//! borrow against the pool and pay back, and provides fees that accrue apart
//! from the redeemable balance. Every operation reads the pool record from an
//! explicit [`state::Ledger`], validates, computes the new record and the
//! effects the host has to carry out, and only then writes the record back.
//!
//! The engine does no input or output of its own. A host loads the ledger,
//! puts the question of [`contract::lp_query`] to the LP share contract,
//! makes sure with [`contract::within_limits`] that the amounts fit, calls
//! [`contract::execute`] with the answer, stores the ledger and carries out
//! the effects of the [`response::Response`].
//!
//! [`model`] states each operation on mathematical values, and [`laws`]
//! proves what holds of every request.
//!
//! Two private functions call into other crates and are believed rather
//! than proved: `checked_multiply_ratio` in [`math`], which has
//! `cosmwasm_std` multiply and divide in 256 bits, and `is_expired` in
//! [`query`], which has `cw20` compare an expiration with a block.
pub mod contract;
pub mod error;
pub mod helper;
pub mod laws;
pub mod math;
pub mod model;
pub mod msg;
pub mod query;
pub mod response;
pub mod state;
pub mod types;

pub use crate::error::{ContractError, StdError};

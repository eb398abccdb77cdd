//! A constant-product automated-market-maker engine.
//!
//! The engine is a deterministic state-transition core: every operation
//! (pool setup, liquidity deposit, liquidity withdrawal, swap) is a pure
//! function from the live balances it is handed to either an outcome
//! describing the token movements to perform, or a single error that
//! aborts the whole operation.  Executing the movements — debiting and
//! crediting token accounts under the pool authority — is the job of the
//! surrounding ledger host; the engine itself never touches a balance.

pub mod deposit;
pub mod errors;
pub mod laws;
pub mod math;
pub mod state;
pub mod swap;
pub mod withdraw;

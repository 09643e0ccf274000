//! A fixed-price token store: one owner sets an exchange rate between two
//! token balances, and anyone buys or sells against it, with the program
//! holding both store-side token accounts under a derived authority.
//!
//! - `instruction`: the wire codec of the four instructions.
//! - `state`: the fixed 105-byte layout of the store record.
//! - `processor`: the state-transition engine, from the accounts handed to
//!   an instruction to the token requests it makes and the record it writes.
//! - `host`: what the engine takes from the runtime and the token program.

pub mod error;
pub mod host;
pub mod instruction;
pub mod processor;
pub mod state;

//! Settlement logic for one side of a hash time-locked cross-chain swap,
//! together with a Dutch-auction price calculator for the orders that feed it.
//!
//! Every operation that depends on the clock takes the current time as an
//! argument; fund transfers are returned as plain values for the host to carry
//! out.
pub mod account;
pub mod auction;
pub mod crypto;
pub mod error;
pub mod escrow;
pub mod immutables;
pub mod order;
pub mod text;
pub mod timelocks;

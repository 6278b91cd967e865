//! Verified core of a two-program on-chain voting system.
//!
//! The `voting` program keeps polls, their candidates and one vote record per
//! participant; the `voting_manager` program numbers polls, with one counter
//! shared by all administrators, and creates them,
//! together with their candidates, on behalf of an administrator.  Every
//! instruction is modelled here as a function from the accounts it receives
//! (their addresses and decoded contents) and its arguments to either the new
//! account contents or the error the instruction fails with.
pub mod address;
pub mod error;
pub mod guarantees;
pub mod laws;
pub mod seeds;
pub mod state;
pub mod tally;
pub mod voting;
pub mod voting_manager;

//! A token-vesting core: fixed-width binary layouts for persisted vesting
//! records and wire instructions, the integer arithmetic that determines how
//! many tokens a beneficiary may claim at a given time, and the state machine
//! that validates and applies each instruction.
//!
//! The core is a passive engine: every invocation is a pure function from
//! (decoded records, instruction, caller identity, current time) to either a
//! complete set of proposed record images and side-effect requests, or an
//! error. The host environment that persists bytes, checks signatures and
//! performs token transfers stays outside this crate.

pub mod error;
pub mod pubkey;
pub mod state;
pub mod instruction;
pub mod math;
pub mod processor;

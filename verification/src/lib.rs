//! Token vesting for a project token: vesting schedules per stakeholder
//! group, yearly issuance limits, and the checks of the program's two
//! instructions (create a vesting account, unlock released tokens).
pub mod annual_supply_state;
pub mod bytes;
pub mod error;
pub mod instruction;
pub mod processor;
pub mod pubkey;
pub mod runtime;
pub mod seeds;
pub mod state;
pub mod supply_limits;
pub mod transfer_hook;
pub mod utils;

pub use crate::error::VestingError;
pub use crate::supply_limits::THEORETICAL_MAX_SUPPLY;

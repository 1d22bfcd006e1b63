//! The guardian contract: borrowers of a money market register whitelisted
//! cw20 tokens as guardians, and a loan that has passed its borrow limit is
//! repaid by swapping those tokens instead of liquidating the collateral.
//!
//! The library holds every decision of the contract. Reading and writing the
//! chain is left to the host, which hands over what it read and carries out
//! what it is told.

pub mod amount;
pub mod conduct;
pub mod contract;
pub mod course;
pub mod decision;
pub mod error;
pub mod liquidation;
pub mod outcome;
pub mod settlement;
pub mod storage;
pub mod types;
pub mod wire;

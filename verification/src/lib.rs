//! Verified rules of a donation and scholarship pool contract.
//!
//! The contract keeps, per pool, its creator, funding goal, the amount
//! collected so far and whether the pool is closed; per student of a pool, an
//! application status text and an [`Application`] record that tracks how much
//! of the pool the student has drawn down. The functions of [`Contract`] take
//! the records that the contract reads from its ledger storage and return the
//! records that it writes back, or the error with which the call is refused.
//! Reading and writing the ledger, checking authorizations and moving tokens
//! is left to the host shell around this library.

pub mod contract;
pub mod laws;
pub mod ledger;
pub mod records;
pub mod text;

pub use contract::{wrapping_i128, Contract, Donation};
pub use records::{Application, ContractError, PoolRecord};
pub use text::{approved_status_bytes, is_approved, same_text};

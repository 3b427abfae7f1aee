//! Core state machine of a token-weighted governance contract.
//!
//! An administrator opens and closes proposals; holders of a reference token
//! cast yes/no votes whose weight is the holder's token balance at the moment
//! of voting. The contract enforces admin custody with a two-step admin
//! transfer, a capacity-bounded proposal registry with sequential ids, and a
//! vote ledger that records at most one vote per account per proposal.
//!
//! The host environment is responsible for resolving the caller's identity
//! and for querying the token ledger; both facts enter this crate as plain
//! values ([`Account`], an optional balance), so every rule of the state
//! machine itself is stated in contracts and verified. The [`history`]
//! module states the laws that hold across whole sequences of calls and
//! proves them from the operations' specifications.

pub mod account;
pub mod errors;
pub mod history;
pub mod host;
pub mod ledger;
pub mod proposal;
pub mod state;

pub use account::Account;
pub use errors::VoteError;
pub use proposal::Proposal;
pub use state::VoteContract;

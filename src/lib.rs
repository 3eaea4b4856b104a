//! A token-weighted voting ledger: polls with a bounded candidate list, a
//! deadline and a required token denomination, whose tallies grow by the
//! amounts that voters stake.
pub mod error;
pub mod instructions;
pub mod key;
pub mod laws;
pub mod poll;

pub use error::VotingError;
pub use instructions::{
    commit_vote, create_poll, reset_poll, vote, ApprovedVote, CreatePoll, ResetPoll, TokenHolding,
    Vote,
};
pub use key::Key;
pub use poll::Poll;

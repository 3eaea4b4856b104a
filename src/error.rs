use vstd::prelude::*;

verus! {

/// Why an instruction was refused. Every refusal leaves all state as it was.
#[derive(Clone, Copy, Debug, PartialEq, Eq, Structural)]
pub enum VotingError {
    /// The poll's deadline has been reached.
    PollClosed,
    /// Candidate count outside 2..=5 at creation, or an index past the list when voting.
    InvalidCandidate,
    /// The voter's holding has less than the amount staked.
    InsufficientToken,
    /// The voter's holding is of another denomination than the poll requires.
    WrongMint,
    /// The voter's holding is not owned by the signer.
    NoTokenAccount,
    /// The title or a candidate name is longer than its storage allows.
    TextTooLong,
    /// The signer is not the poll's owner.
    Unauthorized,
}

/// The fixed human-readable message of each refusal.
pub open spec fn message_of(e: VotingError) -> &'static str {
    match e {
        VotingError::PollClosed => "투표 마감",
        VotingError::InvalidCandidate => "잘못된 후보",
        VotingError::InsufficientToken => "투표권 토큰 부족",
        VotingError::WrongMint => "잘못된 Mint",
        VotingError::NoTokenAccount => "TokenAccount 불일치",
        VotingError::TextTooLong => "텍스트 길이 초과",
        VotingError::Unauthorized => "권한 없음",
    }
}

impl VotingError {
    /// The message reported to the caller for this refusal.
    pub fn message(&self) -> (r: &'static str)
        ensures
            r == message_of(*self),
    {
        match self {
            VotingError::PollClosed => "투표 마감",
            VotingError::InvalidCandidate => "잘못된 후보",
            VotingError::InsufficientToken => "투표권 토큰 부족",
            VotingError::WrongMint => "잘못된 Mint",
            VotingError::NoTokenAccount => "TokenAccount 불일치",
            VotingError::TextTooLong => "텍스트 길이 초과",
            VotingError::Unauthorized => "권한 없음",
        }
    }
}

} // verus!

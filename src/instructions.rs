use vstd::prelude::*;

use crate::error::VotingError;
use crate::key::Key;
use crate::poll::{
    credited, names_fit, names_of, text_len, zero_tally, Poll, MAX_CANDIDATES,
    MAX_CANDIDATE_LEN, MAX_TITLE_LEN, MIN_CANDIDATES,
};

verus! {

/// The accounts of the create-poll instruction.
pub struct CreatePoll {
    /// The storage slot the new poll is written to.
    pub poll: Poll,
    /// The signer creating the poll, who becomes its owner.
    pub authority: Key,
}

/// Why a poll with this title and these candidates cannot be created, if it
/// cannot: the candidate count is checked first, then the texts' lengths.
pub open spec fn creation_refusal(title: Seq<char>, candidates: Seq<Seq<char>>) -> Option<VotingError> {
    if candidates.len() < MIN_CANDIDATES || candidates.len() > MAX_CANDIDATES {
        Some(VotingError::InvalidCandidate)
    } else if text_len(title) > MAX_TITLE_LEN || !names_fit(candidates) {
        Some(VotingError::TextTooLong)
    } else {
        None
    }
}

/// Length of a text in UTF-8 bytes.
fn byte_len(s: &String) -> (n: usize)
    ensures
        n == text_len(s@),
{
    s.as_str().as_bytes().len()
}

/// Finds whether every candidate name fits in its storage.
fn candidate_names_fit(candidates: &Vec<String>) -> (r: bool)
    ensures
        r == names_fit(names_of(candidates@)),
{
    let mut i: usize = 0;
    while i < candidates.len()
        invariant
            i <= candidates@.len(),
            forall|j: int| 0 <= j < i ==> text_len(#[trigger] names_of(candidates@)[j]) <= MAX_CANDIDATE_LEN,
        decreases candidates@.len() - i,
    {
        let n: usize = byte_len(&candidates[i]);
        assert(names_of(candidates@)[i as int] == candidates@[i as int]@);
        if n > MAX_CANDIDATE_LEN {
            return false;
        }
        i = i + 1;
    }
    true
}

/// A tally of `n` zeros.
fn zeros(n: usize) -> (v: Vec<u64>)
    ensures
        v@ == zero_tally(n as nat),
{
    let mut v: Vec<u64> = Vec::new();
    let mut i: usize = 0;
    while i < n
        invariant
            i <= n,
            v@ == zero_tally(i as nat),
        decreases n - i,
    {
        v.push(0);
        i = i + 1;
        assert(v@ =~= zero_tally(i as nat));
    }
    v
}

/// Creates a poll in the slot of `ctx`, owned by the signer: the title and the
/// candidates as given, in their order, a zero tally per candidate, the
/// deadline and denomination as given, and open. A refused creation leaves the
/// slot as it was. The deadline may already have passed.
pub fn create_poll(
    ctx: &mut CreatePoll,
    title: String,
    candidates: Vec<String>,
    deadline: i64,
    required_mint: Key,
) -> (r: Result<(), VotingError>)
    ensures
        r == (match creation_refusal(title@, names_of(candidates@)) {
            Some(e) => Err(e),
            None => Ok(()),
        }),
        candidates@.len() < MIN_CANDIDATES || candidates@.len() > MAX_CANDIDATES ==> r == Err::<
            (),
            VotingError,
        >(VotingError::InvalidCandidate),
        r is Err ==> *final(ctx) == *old(ctx),
        r is Ok ==> {
            let p = final(ctx).poll;
            &&& p.wf()
            &&& p.title == title
            &&& p.candidates == candidates
            &&& p.votes@ == zero_tally(candidates@.len())
            &&& p.owner == old(ctx).authority
            &&& p.deadline == deadline
            &&& p.required_mint == required_mint
            &&& !p.is_closed
        },
        final(ctx).authority == old(ctx).authority,
{
    let n: usize = candidates.len();
    if n < MIN_CANDIDATES || n > MAX_CANDIDATES {
        return Err(VotingError::InvalidCandidate);
    }
    if byte_len(&title) > MAX_TITLE_LEN || !candidate_names_fit(&candidates) {
        return Err(VotingError::TextTooLong);
    }
    let votes: Vec<u64> = zeros(n);
    ctx.poll = Poll {
        title,
        candidates,
        votes,
        owner: ctx.authority,
        deadline,
        required_mint,
        is_closed: false,
    };
    Ok(())
}

/// What the vote instruction reads of a token holding.
#[derive(Clone, Copy, Debug)]
pub struct TokenHolding {
    /// The holding's denomination.
    pub mint: Key,
    /// The identity that controls the holding.
    pub owner: Key,
    /// The quantity available.
    pub amount: u64,
}

/// The accounts of the vote instruction.
pub struct Vote {
    pub poll: Poll,
    /// The signer casting the vote.
    pub voter: Key,
    /// The holding the staked tokens come from.
    pub voter_token_account: TokenHolding,
}

/// A vote that passed every check. It stands for a transfer of `amount`
/// tokens from the voter's holding into the poll's custody account, signed by
/// the voter; once that transfer has gone through, `commit_vote` credits the
/// tally.
#[derive(Clone, Copy, Debug, PartialEq, Eq, Structural)]
pub struct ApprovedVote {
    pub candidate_index: u8,
    pub amount: u64,
}

/// The first check of the vote instruction that fails, if any, in the order
/// in which they are made.
pub open spec fn vote_refusal(
    poll: Poll,
    now: i64,
    candidate_index: u8,
    amount: u64,
    voter: Key,
    holding: TokenHolding,
) -> Option<VotingError> {
    if now >= poll.deadline {
        Some(VotingError::PollClosed)
    } else if candidate_index as int >= poll.candidates@.len() {
        Some(VotingError::InvalidCandidate)
    } else if holding.mint@ != poll.required_mint@ {
        Some(VotingError::WrongMint)
    } else if holding.owner@ != voter@ {
        Some(VotingError::NoTokenAccount)
    } else if holding.amount < amount {
        Some(VotingError::InsufficientToken)
    } else {
        None
    }
}

/// Checks a vote for `candidate_index` staking `amount` tokens at time `now`.
/// On success it returns the transfer to make; nothing is changed here, so a
/// refused vote moves no tokens and leaves the tally as it was.
pub fn vote(ctx: &Vote, now: i64, candidate_index: u8, amount: u64) -> (r: Result<
    ApprovedVote,
    VotingError,
>)
    ensures
        r == (match vote_refusal(ctx.poll, now, candidate_index, amount, ctx.voter, ctx.voter_token_account) {
            Some(e) => Err(e),
            None => Ok(ApprovedVote { candidate_index, amount }),
        }),
        now >= ctx.poll.deadline ==> r == Err::<ApprovedVote, VotingError>(VotingError::PollClosed),
        now < ctx.poll.deadline && candidate_index as int >= ctx.poll.candidates@.len() ==> r
            == Err::<ApprovedVote, VotingError>(VotingError::InvalidCandidate),
        now < ctx.poll.deadline && (candidate_index as int) < ctx.poll.candidates@.len()
            && ctx.voter_token_account.mint@ != ctx.poll.required_mint@ ==> r == Err::<
            ApprovedVote,
            VotingError,
        >(VotingError::WrongMint),
        now < ctx.poll.deadline && (candidate_index as int) < ctx.poll.candidates@.len()
            && ctx.voter_token_account.mint@ == ctx.poll.required_mint@
            && ctx.voter_token_account.owner@ != ctx.voter@ ==> r == Err::<ApprovedVote, VotingError>(
            VotingError::NoTokenAccount,
        ),
        now < ctx.poll.deadline && (candidate_index as int) < ctx.poll.candidates@.len()
            && ctx.voter_token_account.mint@ == ctx.poll.required_mint@
            && ctx.voter_token_account.owner@ == ctx.voter@ && ctx.voter_token_account.amount < amount
            ==> r == Err::<ApprovedVote, VotingError>(VotingError::InsufficientToken),
        r is Ok ==> now < ctx.poll.deadline && (candidate_index as int) < ctx.poll.candidates@.len()
            && ctx.voter_token_account.mint@ == ctx.poll.required_mint@
            && ctx.voter_token_account.owner@ == ctx.voter@
            && ctx.voter_token_account.amount >= amount,
{
    let poll = &ctx.poll;
    let holding = &ctx.voter_token_account;
    if now >= poll.deadline {
        return Err(VotingError::PollClosed);
    }
    if candidate_index as usize >= poll.candidates.len() {
        return Err(VotingError::InvalidCandidate);
    }
    if holding.mint != poll.required_mint {
        return Err(VotingError::WrongMint);
    }
    if holding.owner != ctx.voter {
        return Err(VotingError::NoTokenAccount);
    }
    if holding.amount < amount {
        return Err(VotingError::InsufficientToken);
    }
    Ok(ApprovedVote { candidate_index, amount })
}

/// Credits an approved vote to the tally, once its transfer has gone through.
/// Only the chosen candidate's tally changes, and it grows by exactly the
/// staked amount.
pub fn commit_vote(poll: &mut Poll, approved: &ApprovedVote)
    requires
        (approved.candidate_index as int) < old(poll).votes@.len(),
        old(poll).votes@[approved.candidate_index as int] + approved.amount <= u64::MAX,
    ensures
        final(poll).votes@ == credited(
            old(poll).votes@,
            approved.candidate_index as int,
            approved.amount,
        ),
        final(poll).votes@[approved.candidate_index as int] == old(poll).votes@[approved.candidate_index as int]
            + approved.amount,
        final(poll).title == old(poll).title,
        final(poll).candidates == old(poll).candidates,
        final(poll).owner == old(poll).owner,
        final(poll).deadline == old(poll).deadline,
        final(poll).required_mint == old(poll).required_mint,
        final(poll).is_closed == old(poll).is_closed,
        old(poll).wf() ==> final(poll).wf(),
{
    let i: usize = approved.candidate_index as usize;
    let v: u64 = poll.votes[i] + approved.amount;
    poll.votes.set(i, v);
}

/// The accounts of the reset instruction.
pub struct ResetPoll {
    pub poll: Poll,
    /// The signer asking for the reset.
    pub owner: Key,
}

/// Closes the poll, if the signer is its owner; any other signer is refused
/// and the poll stays as it was. Closing is one-way, and closing a closed poll
/// again succeeds and changes nothing. Votes stay admitted until the deadline.
pub fn reset_poll(ctx: &mut ResetPoll) -> (r: Result<(), VotingError>)
    ensures
        r == (if old(ctx).owner@ == old(ctx).poll.owner@ {
            Ok::<(), VotingError>(())
        } else {
            Err(VotingError::Unauthorized)
        }),
        r is Ok ==> final(ctx).poll == old(ctx).poll.closed(),
        r is Err ==> final(ctx).poll == old(ctx).poll,
        old(ctx).poll.is_closed ==> final(ctx).poll.is_closed,
        old(ctx).poll.wf() ==> final(ctx).poll.wf(),
        final(ctx).owner == old(ctx).owner,
{
    if ctx.owner != ctx.poll.owner {
        return Err(VotingError::Unauthorized);
    }
    ctx.poll.is_closed = true;
    Ok(())
}

} // verus!

//! Properties that relate several calls of the instructions.
use vstd::prelude::*;

use crate::instructions::{vote_refusal, TokenHolding};
use crate::key::Key;
use crate::poll::{credited, Poll};

verus! {

/// Crediting a candidate adds the amount to that candidate's tally alone:
/// the tally keeps its length, no entry decreases, and every other entry
/// stays as it was.
pub proof fn lemma_credit_touches_one(votes: Seq<u64>, i: int, amount: u64)
    requires
        0 <= i < votes.len(),
        votes[i] + amount <= u64::MAX,
    ensures
        credited(votes, i, amount).len() == votes.len(),
        credited(votes, i, amount)[i] == votes[i] + amount,
        forall|j: int| 0 <= j < votes.len() && j != i ==> #[trigger] credited(votes, i, amount)[j] == votes[j],
        forall|j: int| 0 <= j < votes.len() ==> #[trigger] credited(votes, i, amount)[j] >= votes[j],
{
}

/// Two credits to the same candidate accumulate: after amounts `a` and `b`
/// its tally has grown by `a + b`, and the second credit does not overwrite
/// the first.
pub proof fn lemma_votes_accumulate(votes: Seq<u64>, i: int, a: u64, b: u64)
    requires
        0 <= i < votes.len(),
        votes[i] + a + b <= u64::MAX,
    ensures
        credited(credited(votes, i, a), i, b)[i] == votes[i] + a + b,
        forall|j: int|
            0 <= j < votes.len() && j != i ==> #[trigger] credited(credited(votes, i, a), i, b)[j]
                == votes[j],
{
}

/// On a well-formed poll, a vote that passes every check names a candidate
/// that has a tally, so it can be credited, and crediting it raises that tally
/// by exactly the staked amount and leaves the others as they were.
pub proof fn lemma_admitted_vote_credits(
    poll: Poll,
    now: i64,
    candidate_index: u8,
    amount: u64,
    voter: Key,
    holding: TokenHolding,
)
    requires
        poll.wf(),
        vote_refusal(poll, now, candidate_index, amount, voter, holding) is None,
    ensures
        (candidate_index as int) < poll.votes@.len(),
        holding.amount >= amount,
        poll.votes@[candidate_index as int] + amount <= u64::MAX ==> {
            let after = credited(poll.votes@, candidate_index as int, amount);
            &&& after[candidate_index as int] == poll.votes@[candidate_index as int] + amount
            &&& forall|j: int|
                0 <= j < poll.votes@.len() && j != candidate_index ==> #[trigger] after[j]
                    == poll.votes@[j]
        },
{
}

/// Closing keeps a poll well formed and its owner, closing twice is the same
/// as closing once, and a closed poll stays closed.
pub proof fn lemma_close_idempotent(poll: Poll)
    ensures
        poll.closed().owner == poll.owner,
        poll.closed().closed() == poll.closed(),
        poll.closed().is_closed,
        poll.wf() ==> poll.closed().wf(),
        poll.closed().votes == poll.votes,
{
}

} // verus!

use vstd::prelude::*;
use vstd::utf8::encode_utf8;

use crate::key::Key;

verus! {

/// Most candidates a poll can list.
pub const MAX_CANDIDATES: usize = 5;

/// Fewest candidates a poll can list.
pub const MIN_CANDIDATES: usize = 2;

/// Longest title, in UTF-8 bytes.
pub const MAX_TITLE_LEN: usize = 40;

/// Longest candidate name, in UTF-8 bytes.
pub const MAX_CANDIDATE_LEN: usize = 20;

/// Bytes of the storage slot of a poll, sized for the largest one: account tag,
/// title, candidate names, tallies, owner, deadline, denomination and closed flag.
pub const POLL_SPACE: usize = 8 + 4 + MAX_TITLE_LEN + 4 + MAX_CANDIDATES * (4 + MAX_CANDIDATE_LEN)
    + 4 + MAX_CANDIDATES * 8 + 32 + 8 + 32 + 1;

/// Length of a text in UTF-8 bytes.
pub open spec fn text_len(s: Seq<char>) -> nat {
    encode_utf8(s).len()
}

/// Every candidate name fits in its storage.
pub open spec fn names_fit(candidates: Seq<Seq<char>>) -> bool {
    forall|i: int| 0 <= i < candidates.len() ==> text_len(#[trigger] candidates[i]) <= MAX_CANDIDATE_LEN
}

/// The candidate names as texts.
pub open spec fn names_of(candidates: Seq<String>) -> Seq<Seq<char>> {
    candidates.map_values(|s: String| s@)
}

/// A tally of `n` zeros.
pub open spec fn zero_tally(n: nat) -> Seq<u64> {
    Seq::new(n, |i: int| 0u64)
}

/// The tally after `amount` has been added to candidate `i`.
pub open spec fn credited(votes: Seq<u64>, i: int, amount: u64) -> Seq<u64> {
    votes.update(i, (votes[i] + amount) as u64)
}

/// The persistent record of one poll.
pub struct Poll {
    pub title: String,
    pub candidates: Vec<String>,
    /// Staked weight per candidate, in the order of `candidates`.
    pub votes: Vec<u64>,
    pub owner: Key,
    /// Unix timestamp from which no vote is admitted.
    pub deadline: i64,
    /// The denomination that votes must stake.
    pub required_mint: Key,
    pub is_closed: bool,
}

impl Poll {
    /// The candidate names as texts.
    pub open spec fn names(&self) -> Seq<Seq<char>> {
        names_of(self.candidates@)
    }

    /// The record's invariant: a tally per candidate, 2..=5 candidates, and
    /// every text within its storage.
    pub open spec fn wf(&self) -> bool {
        &&& self.votes@.len() == self.candidates@.len()
        &&& MIN_CANDIDATES <= self.candidates@.len() <= MAX_CANDIDATES
        &&& text_len(self.title@) <= MAX_TITLE_LEN
        &&& names_fit(self.names())
    }

    /// The same record, closed.
    pub open spec fn closed(self) -> Poll {
        Poll { is_closed: true, ..self }
    }

    /// Number of candidates.
    pub fn candidate_count(&self) -> (n: usize)
        ensures
            n == self.candidates@.len(),
    {
        self.candidates.len()
    }

    /// The tally of candidate `i`.
    pub fn votes_for(&self, i: usize) -> (v: u64)
        requires
            i < self.votes@.len(),
        ensures
            v == self.votes@[i as int],
    {
        self.votes[i]
    }
}

} // verus!

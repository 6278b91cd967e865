//! Choosing the result of a poll from its candidates' vote counts.
use vstd::prelude::*;

use crate::state::Candidate;

verus! {

/// The result of a poll.
#[derive(Debug, Clone, PartialEq, Eq)]
pub enum PollOutcome {
    /// At least two candidates share the highest, non-zero, number of votes.
    Tie { votes: u64 },
    /// Nobody voted.
    NoVotes,
    /// One candidate has more votes than every other.
    Winner { name: String, votes: u64 },
}

/// The vote counts of a list of candidates, in order.
pub open spec fn vote_counts(c: Seq<Candidate>) -> Seq<u64> {
    c.map_values(|x: Candidate| x.candidate_votes)
}

/// The highest count in `v`, or 0 when `v` is empty.
pub open spec fn max_votes(v: Seq<u64>) -> nat
    decreases v.len(),
{
    if v.len() == 0 {
        0
    } else {
        let m = max_votes(v.drop_last());
        if v.last() > m {
            v.last() as nat
        } else {
            m
        }
    }
}

/// How many counts in `v` equal `x`.
pub open spec fn count_votes(v: Seq<u64>, x: nat) -> nat
    decreases v.len(),
{
    if v.len() == 0 {
        0
    } else {
        count_votes(v.drop_last(), x) + if v.last() == x {
            1nat
        } else {
            0nat
        }
    }
}

/// The first position in `v` that holds `x`, or -1 when none does.
pub open spec fn first_index(v: Seq<u64>, x: nat) -> int
    decreases v.len(),
{
    if v.len() == 0 {
        -1
    } else {
        let f = first_index(v.drop_last(), x);
        if f >= 0 {
            f
        } else if v.last() == x {
            v.len() - 1
        } else {
            -1
        }
    }
}

/// What a poll whose candidates have these vote counts results in, by the
/// highest count `m`: a tie when `m > 0` and two or more candidates have it,
/// no votes when `m == 0`, else the one candidate with `m` votes.
pub open spec fn outcome_matches(o: PollOutcome, c: Seq<Candidate>) -> bool {
    let v = vote_counts(c);
    let m = max_votes(v);
    match o {
        PollOutcome::Tie { votes } => m > 0 && count_votes(v, m) >= 2 && votes == m,
        PollOutcome::NoVotes => m == 0,
        PollOutcome::Winner { name, votes } => {
            &&& m > 0
            &&& count_votes(v, m) == 1
            &&& votes == m
            &&& name@ == c[first_index(v, m)].candidate_name@
        },
    }
}

/// No count exceeds the highest count.
pub proof fn lemma_max_votes_bounds(v: Seq<u64>)
    ensures
        forall|j: int| 0 <= j < v.len() ==> v[j] <= max_votes(v),
        max_votes(v) <= u64::MAX,
    decreases v.len(),
{
    if v.len() > 0 {
        lemma_max_votes_bounds(v.drop_last());
        assert forall|j: int| 0 <= j < v.len() implies v[j] <= max_votes(v) by {
            if j < v.len() - 1 {
                assert(v.drop_last()[j] == v[j]);
            }
        }
    }
}

/// The highest count, when it is not zero, is held by some candidate, and
/// the first position holding it is that of a candidate.
pub proof fn lemma_max_votes_attained(v: Seq<u64>)
    ensures
        max_votes(v) > 0 ==> count_votes(v, max_votes(v)) >= 1,
        max_votes(v) > 0 ==> 0 <= first_index(v, max_votes(v)) < v.len(),
        max_votes(v) > 0 ==> v[first_index(v, max_votes(v))] == max_votes(v),
    decreases v.len(),
{
    if v.len() > 0 {
        lemma_max_votes_attained(v.drop_last());
        lemma_first_index_facts(v, max_votes(v));
        lemma_count_positive(v, max_votes(v));
    }
}

/// The first position holding `x`, when there is one, holds `x` and every
/// earlier position does not; it is -1 exactly when no position holds `x`.
pub proof fn lemma_first_index_facts(v: Seq<u64>, x: nat)
    ensures
        -1 <= first_index(v, x) < v.len(),
        first_index(v, x) >= 0 ==> v[first_index(v, x)] == x,
        forall|j: int| 0 <= j < first_index(v, x) ==> v[j] != x,
        first_index(v, x) == -1 <==> (forall|j: int| 0 <= j < v.len() ==> v[j] != x),
    decreases v.len(),
{
    if v.len() > 0 {
        let w = v.drop_last();
        lemma_first_index_facts(w, x);
        assert forall|j: int| 0 <= j < v.len() - 1 implies w[j] == v[j] by {}
    }
}

/// A count occurs in `v` at least once exactly when `v` holds it somewhere.
pub proof fn lemma_count_positive(v: Seq<u64>, x: nat)
    ensures
        count_votes(v, x) >= 1 <==> (exists|j: int| 0 <= j < v.len() && v[j] == x),
    decreases v.len(),
{
    if v.len() > 0 {
        let w = v.drop_last();
        lemma_count_positive(w, x);
        if exists|j: int| 0 <= j < v.len() && v[j] == x {
            let j = choose|j: int| 0 <= j < v.len() && v[j] == x;
            if j < v.len() - 1 {
                assert(w[j] == x);
            }
        }
        if exists|j: int| 0 <= j < w.len() && w[j] == x {
            let j = choose|j: int| 0 <= j < w.len() && w[j] == x;
            assert(v[j] == x);
        }
    }
}

/// The result of the poll whose candidates these are: see
/// [`outcome_matches`].  Among candidates with the highest count the first
/// one is the winner, as the candidates are read in order and only a
/// strictly higher count replaces the current leader.
pub fn tally(candidates: &Vec<Candidate>) -> (r: PollOutcome)
    ensures
        outcome_matches(r, candidates@),
{
    let ghost v = vote_counts(candidates@);
    let n = candidates.len();
    let mut max: u64 = 0;
    let mut winner: usize = 0;
    let mut is_tie = false;
    let mut i: usize = 0;
    while i < n
        invariant
            n == candidates@.len(),
            v == vote_counts(candidates@),
            i <= n,
            max == max_votes(v.take(i as int)),
            is_tie == (max > 0 && count_votes(v.take(i as int), max as nat) >= 2),
            max > 0 ==> count_votes(v.take(i as int), max as nat) >= 1,
            max > 0 ==> winner < i && first_index(v.take(i as int), max as nat) == winner,
        decreases n - i,
    {
        let votes = candidates[i].candidate_votes;
        let ghost prefix = v.take(i as int);
        let ghost next = v.take(i + 1);
        proof {
            assert(next.drop_last() =~= prefix);
            assert(next.last() == votes);
            lemma_max_votes_bounds(prefix);
            lemma_first_index_facts(prefix, votes as nat);
            lemma_count_positive(prefix, votes as nat);
        }
        if votes > max {
            max = votes;
            winner = i;
            is_tie = false;
        } else if votes == max && max > 0 {
            is_tie = true;
        }
        i = i + 1;
    }
    proof {
        assert(v.take(n as int) =~= v);
        lemma_max_votes_attained(v);
    }
    if is_tie {
        PollOutcome::Tie { votes: max }
    } else if max == 0 {
        PollOutcome::NoVotes
    } else {
        PollOutcome::Winner { name: candidates[winner].candidate_name.clone(), votes: max }
    }
}

} // verus!

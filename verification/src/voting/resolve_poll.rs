//! Resolving a poll after it has ended: its result, and the return of the
//! rent held by its accounts.
use vstd::prelude::*;

use crate::address::{derives, Address};
use crate::error::InstructionError;
use crate::seeds::spec_poll_seeds;
use crate::state::{Candidate, PollView};
use crate::tally::{outcome_matches, tally, PollOutcome};

verus! {

/// The accounts of the instruction that resolves a poll.  The candidate
/// accounts follow them as extra accounts.
#[derive(Debug, Clone, Copy, PartialEq, Eq)]
pub struct ResolvePoll {
    /// Must be the poll's authority, and sign.
    pub authority: Address,
    /// Whether the authority signed the instruction.
    pub authority_signed: bool,
    /// The poll; it is closed.
    pub poll: Address,
    /// Receives the lamports of the poll and of every candidate account.
    pub receiver: Address,
}

/// What resolving a poll gives: its result and the new balances of the
/// receiver and of the (closed) poll.
#[derive(Debug, Clone, PartialEq, Eq)]
pub struct Resolution {
    pub outcome: PollOutcome,
    pub receiver_lamports: u64,
    pub poll_lamports: u64,
}

/// Whether the poll may be resolved by `signer` at time `now`: the signer
/// is the poll's authority and the poll's end time has passed.
pub open spec fn may_resolve(poll: PollView, signer: Seq<u8>, now: i64) -> bool {
    poll.authority == signer && now > poll.end_time as i64
}

/// Whether `r` and `lamports` are what resolving the poll gives: it fails
/// with `AccountNotSigner` when the authority did not sign, with
/// `ConstraintSeeds` when the poll is not at the address derived from its
/// seeds, and with `ConstraintRaw` when `accounts.authority` is not the
/// poll's authority or the poll has not ended, changing no balance; on
/// success the result is that of [`crate::tally::tally`], and the receiver
/// gets the lamports of the poll and of every candidate account, which are
/// left empty.
pub open spec fn poll_resolved(
    program_id: Seq<u8>,
    accounts: ResolvePoll,
    poll_id: u64,
    poll: PollView,
    now: i64,
    candidates: Seq<Candidate>,
    old_lamports: Seq<u64>,
    poll_lamports: u64,
    receiver_lamports: u64,
    r: Result<Resolution, InstructionError>,
    lamports: Seq<u64>,
) -> bool {
    let signed = accounts.authority_signed;
    let seeds_ok = derives(spec_poll_seeds(poll_id), program_id, accounts.poll@);
    match r {
        Err(e) => {
            &&& !(signed && seeds_ok && may_resolve(poll, accounts.authority@, now))
            &&& e == if !signed {
                InstructionError::AccountNotSigner
            } else if !seeds_ok {
                InstructionError::ConstraintSeeds
            } else {
                InstructionError::ConstraintRaw
            }
            &&& lamports == old_lamports
        },
        Ok(res) => {
            &&& signed && seeds_ok && may_resolve(poll, accounts.authority@, now)
            &&& res.poll_lamports == 0
            &&& outcome_matches(res.outcome, candidates)
            &&& res.receiver_lamports == receiver_lamports + poll_lamports + sum_lamports(old_lamports)
            &&& lamports == Seq::new(candidates.len(), |i: int| 0u64)
        },
    }
}

/// The total of a list of balances.
pub open spec fn sum_lamports(s: Seq<u64>) -> nat
    decreases s.len(),
{
    if s.len() == 0 {
        0
    } else {
        sum_lamports(s.drop_last()) + s.last() as nat
    }
}

/// A prefix of a list of balances holds no more than the whole list.
pub proof fn lemma_sum_lamports_prefix(s: Seq<u64>, i: int)
    requires
        0 <= i <= s.len(),
    ensures
        sum_lamports(s.take(i)) <= sum_lamports(s),
    decreases s.len() - i,
{
    if i < s.len() {
        lemma_sum_lamports_prefix(s, i + 1);
        assert(s.take(i + 1).drop_last() =~= s.take(i));
    } else {
        assert(s.take(i) =~= s);
    }
}

/// Moves every balance in `accounts` to `receiver`: returns the receiver's
/// new balance and leaves every account at zero.
pub fn sweep_lamports(receiver: u64, accounts: &mut Vec<u64>) -> (r: u64)
    requires
        receiver + sum_lamports(old(accounts)@) <= u64::MAX,
    ensures
        r == receiver + sum_lamports(old(accounts)@),
        final(accounts)@ == Seq::new(old(accounts)@.len(), |i: int| 0u64),
{
    let ghost start = accounts@;
    let mut total = receiver;
    let mut i: usize = 0;
    while i < accounts.len()
        invariant
            accounts@.len() == start.len(),
            i <= start.len(),
            receiver + sum_lamports(start) <= u64::MAX,
            total == receiver + sum_lamports(start.take(i as int)),
            forall|j: int| 0 <= j < i ==> accounts@[j] == 0,
            forall|j: int| i <= j < start.len() ==> accounts@[j] == start[j],
        decreases start.len() - i,
    {
        proof {
            assert(start.take(i + 1).drop_last() =~= start.take(i as int));
            lemma_sum_lamports_prefix(start, i + 1);
        }
        total = total + accounts[i];
        accounts.set(i, 0);
        i = i + 1;
    }
    proof {
        assert(start.take(i as int) =~= start);
    }
    assert(accounts@ =~= Seq::new(start.len(), |i: int| 0u64));
    total
}

/// The result of the poll whose candidates are `candidates`, with the
/// lamports of their accounts moved to the receiver.
pub fn handler(candidates: &Vec<Candidate>, candidate_lamports: &mut Vec<u64>, receiver_lamports: u64)
    -> (r: (PollOutcome, u64))
    requires
        receiver_lamports + sum_lamports(old(candidate_lamports)@) <= u64::MAX,
    ensures
        outcome_matches(r.0, candidates@),
        r.1 == receiver_lamports + sum_lamports(old(candidate_lamports)@),
        final(candidate_lamports)@ == Seq::new(old(candidate_lamports)@.len(), |i: int| 0u64),
{
    let outcome = tally(candidates);
    let receiver = sweep_lamports(receiver_lamports, candidate_lamports);
    (outcome, receiver)
}

} // verus!

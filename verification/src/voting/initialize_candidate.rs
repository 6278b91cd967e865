//! Adding a candidate to a poll.
use vstd::prelude::*;

use crate::address::Address;
use crate::error::{InstructionError, VotingError};
use crate::state::{Candidate, CandidateView, Poll, PollView};

verus! {

/// The accounts of the instruction that adds a candidate.
#[derive(Debug, Clone, Copy, PartialEq, Eq)]
pub struct InitializeCandidate {
    /// Pays for the candidate account; must sign.
    pub authority: Address,
    /// Whether the authority signed the instruction.
    pub authority_signed: bool,
    /// The poll.
    pub poll: Address,
    /// The candidate account, created if it does not exist yet.
    pub candidate: Address,
    /// Whether the candidate account already exists (and so already holds
    /// this candidate, whose address its name determines).
    pub candidate_in_use: bool,
}

/// Why the candidate cannot be added at time `now`, if it cannot: voting
/// has started (`now` is past the start time), or the candidate is new and
/// the poll's candidate counter is full.
pub open spec fn adding_candidate_error(poll: PollView, now: i64, candidate_in_use: bool) -> Option<
    VotingError,
> {
    if now > poll.start_time as i64 {
        Some(VotingError::AddingCandidateAfterVotingStart)
    } else if !candidate_in_use && poll.poll_option_index == u64::MAX {
        Some(VotingError::Overflow)
    } else {
        None
    }
}

/// The poll with one more candidate counted.
pub open spec fn with_candidate_counted(poll: PollView) -> PollView {
    PollView { poll_option_index: (poll.poll_option_index + 1) as u64, ..poll }
}

/// A candidate as it is added: its name and no votes.
pub open spec fn new_candidate(name: Seq<char>) -> CandidateView {
    CandidateView { candidate_name: name, candidate_votes: 0 }
}

/// Whether `r`, `poll` and `candidate` are what adding a candidate named
/// `name` at time `now` gives from `old_poll` and `old_candidate`: on
/// failure the error of [`adding_candidate_error`] and nothing changed, on
/// success the candidate's name set and its votes reset, and the poll
/// counting it unless its account already existed (then it was counted
/// when it was first added).
pub open spec fn candidate_added(
    old_poll: PollView,
    old_candidate: CandidateView,
    name: Seq<char>,
    now: i64,
    candidate_in_use: bool,
    r: Result<(), InstructionError>,
    poll: PollView,
    candidate: CandidateView,
) -> bool {
    match adding_candidate_error(old_poll, now, candidate_in_use) {
        Some(e) => {
            &&& r == Err::<(), InstructionError>(InstructionError::Voting(e))
            &&& poll == old_poll
            &&& candidate == old_candidate
        },
        None => {
            &&& r is Ok
            &&& poll == if candidate_in_use {
                old_poll
            } else {
                with_candidate_counted(old_poll)
            }
            &&& candidate == new_candidate(name)
        },
    }
}

/// Why the candidate cannot be added to `poll` at time `now`, if it cannot.
pub fn check(poll: &Poll, now: i64, candidate_in_use: bool) -> (r: Option<VotingError>)
    ensures
        r == adding_candidate_error(poll@, now, candidate_in_use),
{
    if now > poll.start_time as i64 {
        Some(VotingError::AddingCandidateAfterVotingStart)
    } else if !candidate_in_use && poll.poll_option_index == u64::MAX {
        Some(VotingError::Overflow)
    } else {
        None
    }
}

/// Adds the candidate `candidate_name` to `poll`, writing it into the
/// candidate account `candidate` (which, when `candidate_in_use`, held this
/// candidate before: its votes are reset and it is not counted again).
pub fn handler(
    poll: &mut Poll,
    candidate: &mut Candidate,
    candidate_name: String,
    now: i64,
    candidate_in_use: bool,
) -> (r: Result<(), InstructionError>)
    ensures
        candidate_added(
            old(poll)@,
            old(candidate)@,
            candidate_name@,
            now,
            candidate_in_use,
            r,
            final(poll)@,
            final(candidate)@,
        ),
{
    match check(poll, now, candidate_in_use) {
        Some(e) => Err(InstructionError::Voting(e)),
        None => {
            candidate.candidate_name = candidate_name;
            candidate.candidate_votes = 0;
            if !candidate_in_use {
                poll.poll_option_index = poll.poll_option_index + 1;
            }
            Ok(())
        },
    }
}

} // verus!

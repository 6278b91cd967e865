//! Casting a vote.
use vstd::prelude::*;

use crate::address::Address;
use crate::error::{InstructionError, VotingError};
use crate::state::{
    participant_vote_fits, Candidate, CandidateView, ParticipantVote, ParticipantVoteView, Poll,
    PollView,
};

verus! {

/// The accounts of the instruction that casts a vote.
#[derive(Debug, Clone, Copy, PartialEq, Eq)]
pub struct Vote {
    /// The voter; pays for the vote record and must sign.
    pub participant: Address,
    /// Whether the participant signed the instruction.
    pub participant_signed: bool,
    /// The poll.
    pub poll: Address,
    /// The candidate voted for.
    pub candidate: Address,
    /// The participant's vote record in this poll, created if it does not
    /// exist yet.
    pub participant_vote: Address,
}

/// Why the vote cannot be cast at time `now`, if it cannot, in the order the
/// checks are made: the participant has voted already; voting has ended
/// (`now` is past the end time); voting has not started (`now` is not past
/// the start time); the candidate's counter is full.
pub open spec fn vote_error(
    poll: PollView,
    candidate: CandidateView,
    record: ParticipantVoteView,
    now: i64,
) -> Option<VotingError> {
    if record.vote_placed {
        Some(VotingError::VoteHaveBeenPlaced)
    } else if now > poll.end_time as i64 {
        Some(VotingError::VotingEnded)
    } else if now <= poll.start_time as i64 {
        Some(VotingError::VotingNotStarted)
    } else if candidate.candidate_votes == u64::MAX {
        Some(VotingError::Overflow)
    } else {
        None
    }
}

/// The candidate with one more vote.
pub open spec fn with_vote(candidate: CandidateView) -> CandidateView {
    CandidateView { candidate_votes: (candidate.candidate_votes + 1) as u64, ..candidate }
}

/// The record of `participant`'s vote for `candidate_name` in poll `poll_id`.
pub open spec fn cast_record(
    participant: Seq<u8>,
    poll_id: u64,
    candidate_name: Seq<char>,
) -> ParticipantVoteView {
    ParticipantVoteView { participant, poll_id, candidate_name, vote_placed: true }
}

/// Whether `r`, `candidate` and `record` are what casting the vote gives
/// from `old_candidate` and `old_record`: on failure the error of
/// [`vote_error`] and nothing changed, on success one more vote for the
/// candidate and the record filled in.
pub open spec fn vote_cast(
    poll: PollView,
    old_candidate: CandidateView,
    old_record: ParticipantVoteView,
    participant: Seq<u8>,
    poll_id: u64,
    candidate_name: Seq<char>,
    now: i64,
    r: Result<(), InstructionError>,
    candidate: CandidateView,
    record: ParticipantVoteView,
) -> bool {
    match vote_error(poll, old_candidate, old_record, now) {
        Some(e) => {
            &&& r == Err::<(), InstructionError>(InstructionError::Voting(e))
            &&& candidate == old_candidate
            &&& record == old_record
        },
        None => {
            &&& r is Ok
            &&& candidate == with_vote(old_candidate)
            &&& record == cast_record(participant, poll_id, candidate_name)
        },
    }
}

/// Whether `r`, `candidate` and `record` are what the vote instruction
/// gives once its signature and addresses are checked: as
/// [`vote_cast`], except that a vote that would be accepted fails with
/// `AccountDidNotSerialize`, changing nothing, when its record does not fit
/// in the record account.
pub open spec fn vote_applied(
    poll: PollView,
    old_candidate: CandidateView,
    old_record: ParticipantVoteView,
    participant: Seq<u8>,
    poll_id: u64,
    candidate_name: Seq<char>,
    now: i64,
    r: Result<(), InstructionError>,
    candidate: CandidateView,
    record: ParticipantVoteView,
) -> bool {
    if vote_error(poll, old_candidate, old_record, now) is None && !participant_vote_fits(
        cast_record(participant, poll_id, candidate_name),
    ) {
        &&& r == Err::<(), InstructionError>(InstructionError::AccountDidNotSerialize)
        &&& candidate == old_candidate
        &&& record == old_record
    } else {
        vote_cast(
            poll,
            old_candidate,
            old_record,
            participant,
            poll_id,
            candidate_name,
            now,
            r,
            candidate,
            record,
        )
    }
}

/// Why the vote cannot be cast at time `now`, if it cannot.
pub fn check(poll: &Poll, candidate: &Candidate, participant_vote: &ParticipantVote, now: i64) -> (r:
    Option<VotingError>)
    ensures
        r == vote_error(poll@, candidate@, participant_vote@, now),
{
    if participant_vote.vote_placed {
        Some(VotingError::VoteHaveBeenPlaced)
    } else if now > poll.end_time as i64 {
        Some(VotingError::VotingEnded)
    } else if now <= poll.start_time as i64 {
        Some(VotingError::VotingNotStarted)
    } else if candidate.candidate_votes == u64::MAX {
        Some(VotingError::Overflow)
    } else {
        None
    }
}

/// Casts `participant`'s vote for `candidate_name` in poll `poll_id`.
pub fn handler(
    poll: &Poll,
    candidate: &mut Candidate,
    participant_vote: &mut ParticipantVote,
    participant: &Address,
    poll_id: u64,
    candidate_name: String,
    now: i64,
) -> (r: Result<(), InstructionError>)
    ensures
        vote_cast(
            poll@,
            old(candidate)@,
            old(participant_vote)@,
            participant@,
            poll_id,
            candidate_name@,
            now,
            r,
            final(candidate)@,
            final(participant_vote)@,
        ),
{
    match check(poll, candidate, participant_vote, now) {
        Some(e) => Err(InstructionError::Voting(e)),
        None => {
            candidate.candidate_votes = candidate.candidate_votes + 1;
            participant_vote.participant = *participant;
            participant_vote.poll_id = poll_id;
            participant_vote.candidate_name = candidate_name;
            participant_vote.vote_placed = true;
            Ok(())
        },
    }
}

} // verus!

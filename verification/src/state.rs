//! Contents of the programs' accounts and the space allocated for them.
use vstd::prelude::*;
use vstd::utf8::encode_utf8;

use crate::address::Address;

verus! {

/// Bytes at the start of every account that identify its type.
pub const ANCHOR_DISCRIMINATOR_SIZE: usize = 8;

/// Space allocated for a poll account: the discriminator, the authority,
/// a name of at most 40 bytes and a description of at most 200 (each with a
/// 4-byte length), three `u64` fields and a winner's name of at most 20 bytes.
pub const POLL_ACCOUNT_SPACE: usize = 8 + 32 + (4 + 40) + (4 + 200) + 8 + 8 + 8 + (4 + 20);

/// Space allocated for a vote record: the discriminator, the participant, the
/// poll id, a candidate name of at most 20 bytes and the `vote_placed` flag.
pub const PARTICIPANT_VOTE_ACCOUNT_SPACE: usize = 8 + 32 + 8 + (4 + 20) + 1;

/// Space allocated for a manager account: the discriminator, the
/// administrator and the poll counter.
pub const MANAGER_ACCOUNT_SPACE: usize = 8 + 32 + 8;

/// Space allocated for the poll counter account: the discriminator and the
/// next poll id.
pub const POLL_COUNTER_ACCOUNT_SPACE: usize = 8 + 8;

/// The manager program's single counter of polls, shared by every
/// administrator: the id the next poll gets.
#[derive(Debug, Clone, Copy, PartialEq, Eq)]
pub struct PollCounter {
    pub next_poll_id: u64,
}

/// The mathematical value of a [`PollCounter`].
pub struct PollCounterView {
    pub next_poll_id: u64,
}

impl View for PollCounter {
    type V = PollCounterView;

    open spec fn view(&self) -> PollCounterView {
        PollCounterView { next_poll_id: self.next_poll_id }
    }
}

impl PollCounter {
    /// The counter as the program finds it when its account is first
    /// created: no poll yet.
    pub fn empty() -> (r: PollCounter)
        ensures
            r@.next_poll_id == 0,
    {
        PollCounter { next_poll_id: 0 }
    }
}

/// A poll.
#[derive(Debug, Clone, PartialEq, Eq)]
pub struct Poll {
    /// The account allowed to resolve the poll.
    pub authority: Address,
    pub poll_name: String,
    pub poll_description: String,
    /// Unix time at which voting starts; candidates can be added until then.
    pub start_time: u64,
    /// Unix time at which voting ends.
    pub end_time: u64,
    /// Number of candidates added to the poll.
    pub poll_option_index: u64,
    pub winning_candidate: String,
}

/// The mathematical value of a [`Poll`].
pub struct PollView {
    pub authority: Seq<u8>,
    pub poll_name: Seq<char>,
    pub poll_description: Seq<char>,
    pub start_time: u64,
    pub end_time: u64,
    pub poll_option_index: u64,
    pub winning_candidate: Seq<char>,
}

impl View for Poll {
    type V = PollView;

    open spec fn view(&self) -> PollView {
        PollView {
            authority: self.authority@,
            poll_name: self.poll_name@,
            poll_description: self.poll_description@,
            start_time: self.start_time,
            end_time: self.end_time,
            poll_option_index: self.poll_option_index,
            winning_candidate: self.winning_candidate@,
        }
    }
}

/// A candidate of a poll and the votes cast for it.
#[derive(Debug, Clone, PartialEq, Eq)]
pub struct Candidate {
    pub candidate_name: String,
    pub candidate_votes: u64,
}

/// The mathematical value of a [`Candidate`].
pub struct CandidateView {
    pub candidate_name: Seq<char>,
    pub candidate_votes: u64,
}

impl View for Candidate {
    type V = CandidateView;

    open spec fn view(&self) -> CandidateView {
        CandidateView { candidate_name: self.candidate_name@, candidate_votes: self.candidate_votes }
    }
}

/// The record of one participant's vote in one poll.
#[derive(Debug, Clone, PartialEq, Eq)]
pub struct ParticipantVote {
    pub participant: Address,
    pub poll_id: u64,
    /// The candidate the participant voted for.
    pub candidate_name: String,
    /// Whether the participant has voted.
    pub vote_placed: bool,
}

/// The mathematical value of a [`ParticipantVote`].
pub struct ParticipantVoteView {
    pub participant: Seq<u8>,
    pub poll_id: u64,
    pub candidate_name: Seq<char>,
    pub vote_placed: bool,
}

impl View for ParticipantVote {
    type V = ParticipantVoteView;

    open spec fn view(&self) -> ParticipantVoteView {
        ParticipantVoteView {
            participant: self.participant@,
            poll_id: self.poll_id,
            candidate_name: self.candidate_name@,
            vote_placed: self.vote_placed,
        }
    }
}

/// An administrator's manager account.
#[derive(Debug, Clone, PartialEq, Eq)]
pub struct Manager {
    pub authority: Address,
    /// Number of polls this manager has created.
    pub poll_count: u64,
}

/// The mathematical value of a [`Manager`].
pub struct ManagerView {
    pub authority: Seq<u8>,
    pub poll_count: u64,
}

impl View for Manager {
    type V = ManagerView;

    open spec fn view(&self) -> ManagerView {
        ManagerView { authority: self.authority@, poll_count: self.poll_count }
    }
}

/// Number of bytes a poll account's contents take when stored: the
/// discriminator, then each field, strings as a 4-byte length and their
/// UTF-8 bytes.
pub open spec fn poll_data_len(p: PollView) -> nat {
    8 + 32 + 4 + encode_utf8(p.poll_name).len() + 4 + encode_utf8(p.poll_description).len() + 8
        + 8 + 8 + 4 + encode_utf8(p.winning_candidate).len()
}

/// Whether a poll can be stored in a poll account.
pub open spec fn poll_fits(p: PollView) -> bool {
    poll_data_len(p) <= POLL_ACCOUNT_SPACE
}

/// Number of bytes a vote record takes when stored.
pub open spec fn participant_vote_data_len(v: ParticipantVoteView) -> nat {
    8 + 32 + 8 + 4 + encode_utf8(v.candidate_name).len() + 1
}

/// Whether a vote record can be stored in a vote record account.
pub open spec fn participant_vote_fits(v: ParticipantVoteView) -> bool {
    participant_vote_data_len(v) <= PARTICIPANT_VOTE_ACCOUNT_SPACE
}

impl Poll {
    /// Whether this poll can be stored in a poll account.
    pub fn fits(&self) -> (r: bool)
        ensures
            r == poll_fits(self@),
    {
        let name_len = self.poll_name.as_str().as_bytes().len();
        let description_len = self.poll_description.as_str().as_bytes().len();
        let winner_len = self.winning_candidate.as_str().as_bytes().len();
        if name_len > POLL_ACCOUNT_SPACE || description_len > POLL_ACCOUNT_SPACE || winner_len
            > POLL_ACCOUNT_SPACE {
            return false;
        }
        8 + 32 + 4 + name_len + 4 + description_len + 8 + 8 + 8 + 4 + winner_len
            <= POLL_ACCOUNT_SPACE
    }
}

impl ParticipantVote {
    /// A vote record as the program finds it when the account is first
    /// created: all bytes zero.
    pub fn empty() -> (r: ParticipantVote)
        ensures
            r@.participant == Seq::new(32, |i: int| 0u8),
            r@.poll_id == 0,
            r@.candidate_name == Seq::<char>::empty(),
            !r@.vote_placed,
    {
        let r = ParticipantVote {
            participant: Address { bytes: [0u8; 32] },
            poll_id: 0,
            candidate_name: String::new(),
            vote_placed: false,
        };
        assert(r@.participant =~= Seq::new(32, |i: int| 0u8));
        r
    }

    /// Whether this record can be stored in a vote record account.
    pub fn fits(&self) -> (r: bool)
        ensures
            r == participant_vote_fits(self@),
    {
        let name_len = self.candidate_name.as_str().as_bytes().len();
        name_len <= 20
    }
}

impl Candidate {
    /// A candidate account as the program finds it when it is first created:
    /// an empty name and no votes.
    pub fn empty() -> (r: Candidate)
        ensures
            r@.candidate_name == Seq::<char>::empty(),
            r@.candidate_votes == 0,
    {
        Candidate { candidate_name: String::new(), candidate_votes: 0 }
    }
}

} // verus!

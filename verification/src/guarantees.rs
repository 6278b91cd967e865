//! What each instruction guarantees, stated over the accounts' raw values:
//! when it is accepted, and what an accepted call produces.
use vstd::bytes::{lemma_auto_spec_u64_to_from_le_bytes, spec_u64_from_le_bytes};
use vstd::prelude::*;
use vstd::utf8::{decode_utf8, encode_utf8, encode_utf8_decode_utf8};

use crate::address::derives;
use crate::error::{InstructionError, VotingError, VotingManagerError};
use crate::laws::{law_no_votes_all_zero, law_tie_shared_maximum, law_winner_strictly_ahead};
use crate::seeds::{
    spec_candidate_seeds, spec_manager_seeds, spec_poll_counter_seeds, spec_poll_seeds,
    spec_vote_seeds,
};
use crate::state::{poll_fits, Candidate, CandidateView, ParticipantVoteView, PollView};
use crate::tally::PollOutcome;
use crate::voting::initialize_candidate::{adding_candidate_error, candidate_added};
use crate::voting::initialize_poll::new_poll;
use crate::voting::resolve_poll::{poll_resolved, sum_lamports, Resolution, ResolvePoll};
use crate::voting::vote::{vote_applied, vote_error};
use crate::voting_manager::create_event::{candidate_account_ok, CandidateSlot, CreateEvent};
use crate::voting_manager::create_event_failure;
use vstd::utf8::is_ascii_chars_encode_utf8;

verus! {

/// A candidate can be added exactly when the time is not past the poll's
/// start time and, for a new candidate account, the poll's candidate counter
/// can still grow; after the start time the refusal is
/// `AddingCandidateAfterVotingStart`.
pub proof fn law_adding_candidate_window(poll: PollView, now: i64, candidate_in_use: bool)
    ensures
        adding_candidate_error(poll, now, candidate_in_use) is None <==> (now <= poll.start_time as i64
            && (candidate_in_use || poll.poll_option_index < u64::MAX)),
        now > poll.start_time as i64 ==> adding_candidate_error(poll, now, candidate_in_use) == Some(
            VotingError::AddingCandidateAfterVotingStart,
        ),
{
}

/// An accepted addition happens no later than the start time, writes the
/// candidate's name with no votes, and raises the poll's candidate counter
/// by one for a new candidate account and not at all for an existing one,
/// leaving the poll's other fields as they were; a refused one changes
/// nothing.
pub proof fn law_candidate_addition_effect(
    old_poll: PollView,
    old_candidate: CandidateView,
    name: Seq<char>,
    now: i64,
    candidate_in_use: bool,
    r: Result<(), InstructionError>,
    poll: PollView,
    candidate: CandidateView,
)
    requires
        candidate_added(old_poll, old_candidate, name, now, candidate_in_use, r, poll, candidate),
    ensures
        r is Ok ==> {
            &&& now <= old_poll.start_time as i64
            &&& candidate.candidate_name == name
            &&& candidate.candidate_votes == 0
            &&& poll.poll_option_index == old_poll.poll_option_index + if candidate_in_use {
                0int
            } else {
                1int
            }
            &&& poll.authority == old_poll.authority
            &&& poll.poll_name == old_poll.poll_name
            &&& poll.poll_description == old_poll.poll_description
            &&& poll.start_time == old_poll.start_time
            &&& poll.end_time == old_poll.end_time
            &&& poll.winning_candidate == old_poll.winning_candidate
        },
        r is Err ==> poll == old_poll && candidate == old_candidate,
{
}

/// A vote is accepted exactly when the participant has not voted yet, the
/// time is after the poll's start time and not after its end time, and the
/// candidate's count can still grow.
pub proof fn law_vote_acceptance(
    poll: PollView,
    candidate: CandidateView,
    record: ParticipantVoteView,
    now: i64,
)
    ensures
        vote_error(poll, candidate, record, now) is None <==> {
            &&& !record.vote_placed
            &&& (poll.start_time as i64) < now
            &&& now <= (poll.end_time as i64)
            &&& candidate.candidate_votes < u64::MAX
        },
{
}

/// The effect of the vote instruction once its signature and addresses are
/// checked: a vote by a participant who has not voted, inside the voting
/// period, for a candidate whose count can grow and whose name fits the
/// record (at most 20 bytes), is accepted; an accepted vote adds exactly one
/// to the candidate's count, keeps its name, and records the participant,
/// the poll, the candidate and that the vote was placed; a refused vote
/// changes nothing.
pub proof fn law_vote_effect(
    poll: PollView,
    old_candidate: CandidateView,
    old_record: ParticipantVoteView,
    participant: Seq<u8>,
    poll_id: u64,
    candidate_name: Seq<char>,
    now: i64,
    r: Result<(), InstructionError>,
    candidate: CandidateView,
    record: ParticipantVoteView,
)
    requires
        vote_applied(
            poll,
            old_candidate,
            old_record,
            participant,
            poll_id,
            candidate_name,
            now,
            r,
            candidate,
            record,
        ),
    ensures
        !old_record.vote_placed && (poll.start_time as i64) < now && now <= (poll.end_time as i64)
            && old_candidate.candidate_votes < u64::MAX && encode_utf8(candidate_name).len() <= 20
            ==> r is Ok,
        r is Ok ==> {
            &&& !old_record.vote_placed
            &&& (poll.start_time as i64) < now
            &&& now <= (poll.end_time as i64)
            &&& candidate.candidate_votes == old_candidate.candidate_votes + 1
            &&& candidate.candidate_name == old_candidate.candidate_name
            &&& record.participant == participant
            &&& record.poll_id == poll_id
            &&& record.candidate_name == candidate_name
            &&& record.vote_placed
        },
        r is Err ==> candidate == old_candidate && record == old_record,
{
}

/// A poll is resolved exactly when its authority signs, it is at its
/// derived address, the signer is its authority and its end time has
/// passed.  An accepted resolution reports no votes exactly when every
/// candidate has none; a winner has a positive count held by exactly one
/// candidate, whose name it carries, and higher than every other
/// candidate's; a tie is a positive count held by at least two candidates
/// and exceeded by none.  The poll's and every candidate account's balance
/// ends at zero, and the receiver gets its old balance plus all of theirs.
pub proof fn law_resolution_outcome(
    program_id: Seq<u8>,
    accounts: ResolvePoll,
    poll_id: u64,
    poll: PollView,
    now: i64,
    candidates: Seq<Candidate>,
    old_lamports: Seq<u64>,
    poll_lamports: u64,
    receiver_lamports: u64,
    r: Result<Resolution, InstructionError>,
    lamports: Seq<u64>,
)
    requires
        poll_resolved(
            program_id,
            accounts,
            poll_id,
            poll,
            now,
            candidates,
            old_lamports,
            poll_lamports,
            receiver_lamports,
            r,
            lamports,
        ),
    ensures
        r is Ok <==> {
            &&& accounts.authority_signed
            &&& derives(spec_poll_seeds(poll_id), program_id, accounts.poll@)
            &&& poll.authority == accounts.authority@
            &&& now > poll.end_time as i64
        },
        r matches Ok(res) ==> {
            &&& res.poll_lamports == 0
            &&& res.receiver_lamports == receiver_lamports + poll_lamports + sum_lamports(old_lamports)
            &&& lamports.len() == candidates.len()
            &&& forall|j: int| 0 <= j < lamports.len() ==> #[trigger] lamports[j] == 0
            &&& (res.outcome is NoVotes <==> forall|j: int|
                0 <= j < candidates.len() ==> #[trigger] candidates[j].candidate_votes == 0)
            &&& (res.outcome matches PollOutcome::Winner { name, votes } ==> votes > 0 && exists|k: int|
                {
                    &&& 0 <= k < candidates.len()
                    &&& #[trigger] candidates[k].candidate_name@ == name@
                    &&& candidates[k].candidate_votes == votes
                    &&& forall|j: int|
                        0 <= j < candidates.len() && j != k ==> candidates[j].candidate_votes < votes
                })
            &&& (res.outcome matches PollOutcome::Tie { votes } ==> {
                &&& votes > 0
                &&& forall|j: int|
                    0 <= j < candidates.len() ==> #[trigger] candidates[j].candidate_votes <= votes
                &&& exists|a: int, b: int|
                    0 <= a < candidates.len() && 0 <= b < candidates.len() && a != b
                        && #[trigger] candidates[a].candidate_votes == votes
                        && #[trigger] candidates[b].candidate_votes == votes
            })
        },
{
    if r is Ok {
        let res = r->Ok_0;
        law_no_votes_all_zero(candidates);
        match res.outcome {
            PollOutcome::Winner { name, votes } => {
                law_winner_strictly_ahead(candidates, name, votes);
            },
            PollOutcome::Tie { votes } => {
                law_tie_shared_maximum(candidates, votes);
            },
            PollOutcome::NoVotes => {},
        }
    }
}

/// What a successful creation through the manager needs: the administrator
/// signed; the counter, the manager account and the poll are at their
/// derived addresses (the poll at the one of the counter's next id) and the
/// poll's address is free; there is exactly one candidate account per name,
/// each at the address derived from its name; candidates, if any, are added
/// no later than the start time; and neither the shared counter nor the
/// manager's count is full.
pub proof fn law_creation_requirements(
    manager_program: Seq<u8>,
    voting_program: Seq<u8>,
    accounts: CreateEvent,
    next_poll_id: u64,
    manager_count: u64,
    start_time: u64,
    end_time: u64,
    poll_name: Seq<char>,
    poll_description: Seq<char>,
    names: Seq<String>,
    candidate_accounts: Seq<CandidateSlot>,
    now: i64,
)
    requires
        create_event_failure(
            manager_program,
            voting_program,
            accounts,
            next_poll_id,
            manager_count,
            start_time,
            end_time,
            poll_name,
            poll_description,
            names,
            candidate_accounts,
            now,
        ) is None,
    ensures
        accounts.authority_signed,
        derives(spec_poll_counter_seeds(), manager_program, accounts.poll_counter@),
        derives(spec_manager_seeds(accounts.authority@), manager_program, accounts.manager@),
        derives(spec_poll_seeds(next_poll_id), voting_program, accounts.poll@),
        !accounts.poll_in_use,
        names.len() == candidate_accounts.len(),
        forall|i: int|
            0 <= i < names.len() ==> derives(
                spec_candidate_seeds(next_poll_id, #[trigger] names[i]@),
                voting_program,
                candidate_accounts[i].address@,
            ),
        names.len() > 0 ==> now <= start_time as i64,
        next_poll_id < u64::MAX,
        manager_count < u64::MAX,
{
    assert forall|i: int| 0 <= i < names.len() implies derives(
        spec_candidate_seeds(next_poll_id, #[trigger] names[i]@),
        voting_program,
        candidate_accounts[i].address@,
    ) by {
        assert(candidate_account_ok(voting_program, next_poll_id, names, candidate_accounts, i));
    }
    if names.len() > 0 {
        assert(candidate_account_ok(voting_program, next_poll_id, names, candidate_accounts, 0));
    }
}

/// A creation whose accounts are otherwise right but whose numbers of
/// candidate names and candidate accounts differ fails with
/// `CandidateCountMismatch`.
pub proof fn law_creation_count_mismatch(
    manager_program: Seq<u8>,
    voting_program: Seq<u8>,
    accounts: CreateEvent,
    next_poll_id: u64,
    manager_count: u64,
    start_time: u64,
    end_time: u64,
    poll_name: Seq<char>,
    poll_description: Seq<char>,
    names: Seq<String>,
    candidate_accounts: Seq<CandidateSlot>,
    now: i64,
)
    requires
        accounts.authority_signed,
        derives(spec_poll_counter_seeds(), manager_program, accounts.poll_counter@),
        derives(spec_manager_seeds(accounts.authority@), manager_program, accounts.manager@),
        derives(spec_poll_seeds(next_poll_id), voting_program, accounts.poll@),
        !accounts.poll_in_use,
        poll_fits(new_poll(accounts.manager@, start_time, end_time, poll_name, poll_description)),
        names.len() != candidate_accounts.len(),
    ensures
        create_event_failure(
            manager_program,
            voting_program,
            accounts,
            next_poll_id,
            manager_count,
            start_time,
            end_time,
            poll_name,
            poll_description,
            names,
            candidate_accounts,
            now,
        ) == Some(InstructionError::Manager(VotingManagerError::CandidateCountMismatch)),
{
}

/// A new poll belongs to the given authority, has the given name,
/// description and voting period, and counts no candidates.
pub proof fn law_new_poll_fields(
    authority: Seq<u8>,
    start_time: u64,
    end_time: u64,
    poll_name: Seq<char>,
    poll_description: Seq<char>,
)
    ensures
        ({
            let p = new_poll(authority, start_time, end_time, poll_name, poll_description);
            &&& p.authority == authority
            &&& p.poll_name == poll_name
            &&& p.poll_description == poll_description
            &&& p.start_time == start_time
            &&& p.end_time == end_time
            &&& p.poll_option_index == 0
        }),
{
}

/// The seeds of a poll hold its whole id: the second seed is 8 bytes that
/// read back, little-endian, as the id, so different polls have different
/// seeds.
pub proof fn law_poll_seeds_hold_the_id(a: u64, b: u64)
    ensures
        spec_poll_seeds(a).len() == 2,
        spec_poll_seeds(a)[1].len() == 8,
        spec_u64_from_le_bytes(spec_poll_seeds(a)[1]) == a,
        spec_poll_seeds(a) == spec_poll_seeds(b) ==> a == b,
{
    lemma_auto_spec_u64_to_from_le_bytes();
    if spec_poll_seeds(a) == spec_poll_seeds(b) {
        assert(spec_poll_seeds(a)[1] == spec_poll_seeds(b)[1]);
    }
}

/// The seeds of a candidate hold its poll's whole id and its whole name:
/// the second seed reads back as the id and the third decodes, as UTF-8, to
/// the name, so different candidates have different seeds.
pub proof fn law_candidate_seeds_hold_id_and_name(a: u64, name_a: Seq<char>, b: u64, name_b: Seq<char>)
    ensures
        spec_candidate_seeds(a, name_a).len() == 3,
        spec_u64_from_le_bytes(spec_candidate_seeds(a, name_a)[1]) == a,
        spec_candidate_seeds(a, name_a)[1].len() == 8,
        decode_utf8(spec_candidate_seeds(a, name_a)[2]) == name_a,
        spec_candidate_seeds(a, name_a) == spec_candidate_seeds(b, name_b) ==> a == b && name_a
            == name_b,
{
    lemma_auto_spec_u64_to_from_le_bytes();
    encode_utf8_decode_utf8(name_a);
    encode_utf8_decode_utf8(name_b);
    if spec_candidate_seeds(a, name_a) == spec_candidate_seeds(b, name_b) {
        assert(spec_candidate_seeds(a, name_a)[1] == spec_candidate_seeds(b, name_b)[1]);
        assert(spec_candidate_seeds(a, name_a)[2] == spec_candidate_seeds(b, name_b)[2]);
    }
}

/// The seeds of a vote record hold its poll's whole id and the whole
/// participant address, so different participants, or different polls, have
/// different vote records.
pub proof fn law_vote_seeds_hold_id_and_participant(a: u64, p: Seq<u8>, b: u64, q: Seq<u8>)
    ensures
        spec_vote_seeds(a, p).len() == 3,
        spec_vote_seeds(a, p)[1].len() == 8,
        spec_u64_from_le_bytes(spec_vote_seeds(a, p)[1]) == a,
        spec_vote_seeds(a, p)[2] == p,
        spec_vote_seeds(a, p) == spec_vote_seeds(b, q) ==> a == b && p == q,
{
    lemma_auto_spec_u64_to_from_le_bytes();
    if spec_vote_seeds(a, p) == spec_vote_seeds(b, q) {
        assert(spec_vote_seeds(a, p)[1] == spec_vote_seeds(b, q)[1]);
        assert(spec_vote_seeds(a, p)[2] == spec_vote_seeds(b, q)[2]);
    }
}

/// The seeds of a manager account hold the whole administrator address, so
/// different administrators have different manager seeds.
pub proof fn law_manager_seeds_hold_the_administrator(p: Seq<u8>, q: Seq<u8>)
    ensures
        spec_manager_seeds(p).len() == 2,
        spec_manager_seeds(p)[1] == p,
        spec_manager_seeds(p) == spec_manager_seeds(q) ==> p == q,
{
    if spec_manager_seeds(p) == spec_manager_seeds(q) {
        assert(spec_manager_seeds(p)[1] == spec_manager_seeds(q)[1]);
    }
}

/// The seed tags are the UTF-8 bytes of their names, and the seeds of
/// accounts of different kinds never coincide.
pub proof fn law_seed_kinds_differ(
    poll_id: u64,
    candidate_poll: u64,
    name: Seq<char>,
    vote_poll: u64,
    participant: Seq<u8>,
    authority: Seq<u8>,
)
    ensures
        spec_poll_seeds(poll_id)[0] == encode_utf8("poll_seed"@),
        spec_candidate_seeds(candidate_poll, name)[0] == encode_utf8("candidate_seed"@),
        spec_vote_seeds(vote_poll, participant)[0] == encode_utf8("vote_seed"@),
        spec_manager_seeds(authority)[0] == encode_utf8("manager_seed"@),
        spec_poll_counter_seeds()[0] == encode_utf8("poll_counter"@),
        spec_poll_seeds(poll_id) != spec_candidate_seeds(candidate_poll, name),
        spec_poll_seeds(poll_id) != spec_vote_seeds(vote_poll, participant),
        spec_poll_seeds(poll_id) != spec_manager_seeds(authority),
        spec_poll_seeds(poll_id) != spec_poll_counter_seeds(),
        spec_candidate_seeds(candidate_poll, name) != spec_vote_seeds(vote_poll, participant),
        spec_candidate_seeds(candidate_poll, name) != spec_manager_seeds(authority),
        spec_vote_seeds(vote_poll, participant) != spec_manager_seeds(authority),
        spec_manager_seeds(authority) != spec_poll_counter_seeds(),
{
    reveal_strlit("poll_seed");
    reveal_strlit("candidate_seed");
    reveal_strlit("vote_seed");
    reveal_strlit("manager_seed");
    reveal_strlit("poll_counter");
    is_ascii_chars_encode_utf8("poll_seed"@);
    is_ascii_chars_encode_utf8("candidate_seed"@);
    is_ascii_chars_encode_utf8("vote_seed"@);
    is_ascii_chars_encode_utf8("manager_seed"@);
    is_ascii_chars_encode_utf8("poll_counter"@);
    assert(spec_poll_seeds(poll_id)[0] =~= encode_utf8("poll_seed"@));
    assert(spec_candidate_seeds(candidate_poll, name)[0] =~= encode_utf8("candidate_seed"@));
    assert(spec_vote_seeds(vote_poll, participant)[0] =~= encode_utf8("vote_seed"@));
    assert(spec_manager_seeds(authority)[0] =~= encode_utf8("manager_seed"@));
    assert(spec_poll_counter_seeds()[0] =~= encode_utf8("poll_counter"@));
    assert(spec_poll_seeds(poll_id)[0] != spec_manager_seeds(authority)[0]);
    assert(spec_candidate_seeds(candidate_poll, name)[0] != spec_vote_seeds(vote_poll, participant)[0]);
}

} // verus!

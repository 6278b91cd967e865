//! Properties of the programs that relate several instructions, calls or
//! states.
use vstd::prelude::*;

use crate::error::{InstructionError, VotingError};
use crate::state::{
    participant_vote_fits, Candidate, CandidateView, ManagerView, ParticipantVoteView, PollView,
};
use crate::tally::{
    count_votes, first_index, lemma_max_votes_attained,
    lemma_max_votes_bounds, max_votes, outcome_matches, vote_counts, PollOutcome,
};
use crate::voting::initialize_candidate::adding_candidate_error;
use crate::voting::resolve_poll::{may_resolve, poll_resolved, sum_lamports, Resolution, ResolvePoll};
use crate::voting::vote::{cast_record, vote_applied, vote_error, with_vote};
use crate::address::derives;
use crate::seeds::spec_manager_seeds;
use crate::voting::initialize_candidate::candidate_added;
use crate::voting::initialize_poll::{initialize_poll_error, InitializePoll};
use crate::seeds::{spec_poll_counter_seeds, spec_poll_seeds};
use crate::state::PollCounterView;
use crate::voting_manager::create_event::{
    create_event_error, created_poll, with_id_taken, with_poll_counted, CandidateSlot,
};
use crate::voting_manager::initialize_manager::{
    initialize_manager_error, InitializeManager,
};
use crate::voting_manager::resolve_event::{event_resolved, ResolveEvent};

verus! {

/// A participant who has voted in a poll cannot vote in it again: after a
/// vote is cast with a record, any later vote with that record, for any
/// candidate and at any time, fails with `VoteHaveBeenPlaced`.
pub proof fn law_vote_once(
    poll: PollView,
    candidate: CandidateView,
    record: ParticipantVoteView,
    participant: Seq<u8>,
    poll_id: u64,
    candidate_name: Seq<char>,
    now: i64,
    later_poll: PollView,
    later_candidate: CandidateView,
    later_now: i64,
)
    requires
        vote_error(poll, candidate, record, now) is None,
    ensures
        vote_error(later_poll, later_candidate, cast_record(participant, poll_id, candidate_name), later_now)
            == Some(VotingError::VoteHaveBeenPlaced),
{
}

/// A vote is accepted only inside the poll's voting period: after the start
/// time and not after the end time.
pub proof fn law_vote_inside_period(
    poll: PollView,
    candidate: CandidateView,
    record: ParticipantVoteView,
    now: i64,
)
    requires
        vote_error(poll, candidate, record, now) is None,
    ensures
        (poll.start_time as i64) < now,
        now <= (poll.end_time as i64),
{
}

/// No candidate can be added to a poll at a time at which a vote in it is
/// accepted: candidates are added only until the start time, votes only
/// after it.
pub proof fn law_candidates_fixed_before_voting(
    poll: PollView,
    candidate_in_use: bool,
    candidate: CandidateView,
    record: ParticipantVoteView,
    now: i64,
)
    ensures
        !(adding_candidate_error(poll, now, candidate_in_use) is None && vote_error(
            poll,
            candidate,
            record,
            now,
        ) is None),
{
}

/// A count held by at most one position is held by no other position.
proof fn lemma_count_at_most_one(v: Seq<u64>, x: nat, a: int, b: int)
    requires
        count_votes(v, x) <= 1,
        0 <= a < v.len(),
        0 <= b < v.len(),
        v[a] == x,
        v[b] == x,
    ensures
        a == b,
    decreases v.len(),
{
    let w = v.drop_last();
    if a < v.len() - 1 && b < v.len() - 1 {
        assert(w[a] == x && w[b] == x);
        lemma_count_at_most_one(w, x, a, b);
    } else if a < v.len() - 1 {
        assert(w[a] == x);
        crate::tally::lemma_count_positive(w, x);
    } else if b < v.len() - 1 {
        assert(w[b] == x);
        crate::tally::lemma_count_positive(w, x);
    }
}

/// A count held at least twice is held at two different positions.
proof fn lemma_count_two(v: Seq<u64>, x: nat) -> (r: (int, int))
    requires
        count_votes(v, x) >= 2,
    ensures
        0 <= r.0 < v.len(),
        0 <= r.1 < v.len(),
        r.0 != r.1,
        v[r.0] == x,
        v[r.1] == x,
    decreases v.len(),
{
    let w = v.drop_last();
    if v.last() == x {
        crate::tally::lemma_count_positive(w, x);
        let a = choose|j: int| 0 <= j < w.len() && w[j] == x;
        (a, v.len() - 1)
    } else {
        let (a, b) = lemma_count_two(w, x);
        (a, b)
    }
}

/// A winner has strictly more votes than every other candidate, and the
/// winner's name and count are those of a candidate.
pub proof fn law_winner_strictly_ahead(c: Seq<Candidate>, name: String, votes: u64)
    requires
        outcome_matches(PollOutcome::Winner { name, votes }, c),
    ensures
        exists|k: int|
            {
                &&& 0 <= k < c.len()
                &&& #[trigger] c[k].candidate_name@ == name@
                &&& c[k].candidate_votes == votes
                &&& votes > 0
                &&& forall|j: int| 0 <= j < c.len() && j != k ==> c[j].candidate_votes < votes
            },
{
    let v = vote_counts(c);
    let m = max_votes(v);
    lemma_max_votes_attained(v);
    lemma_max_votes_bounds(v);
    let k = first_index(v, m);
    assert forall|j: int| 0 <= j < c.len() && j != k implies c[j].candidate_votes < votes by {
        assert(v[j] == c[j].candidate_votes);
        if v[j] == m {
            lemma_count_at_most_one(v, m, j, k);
        }
    }
    assert(c[k].candidate_name@ == name@);
}

/// A tie is between at least two candidates that share the highest,
/// non-zero, number of votes.
pub proof fn law_tie_shared_maximum(c: Seq<Candidate>, votes: u64)
    requires
        outcome_matches(PollOutcome::Tie { votes }, c),
    ensures
        votes > 0,
        forall|j: int| 0 <= j < c.len() ==> #[trigger] c[j].candidate_votes <= votes,
        exists|a: int, b: int|
            0 <= a < c.len() && 0 <= b < c.len() && a != b && #[trigger] c[a].candidate_votes == votes
                && #[trigger] c[b].candidate_votes == votes,
{
    let v = vote_counts(c);
    let m = max_votes(v);
    lemma_max_votes_bounds(v);
    assert forall|j: int| 0 <= j < c.len() implies #[trigger] c[j].candidate_votes <= votes by {
        assert(v[j] == c[j].candidate_votes);
    }
    let (a, b) = lemma_count_two(v, m);
    assert(c[a].candidate_votes == v[a]);
    assert(c[b].candidate_votes == v[b]);
}

/// A poll ends with no votes exactly when every candidate has none.
pub proof fn law_no_votes_all_zero(c: Seq<Candidate>)
    ensures
        outcome_matches(PollOutcome::NoVotes, c) <==> forall|j: int|
            0 <= j < c.len() ==> #[trigger] c[j].candidate_votes == 0,
{
    let v = vote_counts(c);
    lemma_max_votes_bounds(v);
    lemma_max_votes_attained(v);
    if max_votes(v) > 0 {
        let k = first_index(v, max_votes(v));
        assert(c[k].candidate_votes == v[k]);
    } else {
        assert forall|j: int| 0 <= j < c.len() implies #[trigger] c[j].candidate_votes == 0 by {
            assert(v[j] == c[j].candidate_votes);
        }
    }
}

/// A list of empty balances holds nothing.
proof fn lemma_sum_of_zeros(n: nat)
    ensures
        sum_lamports(Seq::new(n, |i: int| 0u64)) == 0,
    decreases n,
{
    if n > 0 {
        lemma_sum_of_zeros((n - 1) as nat);
        assert(Seq::new(n, |i: int| 0u64).drop_last() =~= Seq::new((n - 1) as nat, |i: int| 0u64));
    }
}

/// Resolving a poll moves lamports without creating or destroying any: the
/// receiver's balance after, plus what the poll and candidate accounts keep
/// (nothing), equals the receiver's, the poll's and the candidates' balances
/// before.
pub proof fn law_lamports_conserved(
    program_id: Seq<u8>,
    accounts: ResolvePoll,
    poll_id: u64,
    poll: PollView,
    now: i64,
    candidates: Seq<Candidate>,
    old_lamports: Seq<u64>,
    poll_lamports: u64,
    receiver_lamports: u64,
    r: Result<Resolution, InstructionError>,
    lamports: Seq<u64>,
)
    requires
        poll_resolved(
            program_id,
            accounts,
            poll_id,
            poll,
            now,
            candidates,
            old_lamports,
            poll_lamports,
            receiver_lamports,
            r,
            lamports,
        ),
    ensures
        r matches Ok(res) ==> res.receiver_lamports + sum_lamports(lamports) == receiver_lamports
            + poll_lamports + sum_lamports(old_lamports),
        r is Err ==> sum_lamports(lamports) == sum_lamports(old_lamports),
{
    lemma_sum_of_zeros(candidates.len());
}

/// Only the poll's authority, signing, can resolve it, and only after its
/// end time.
pub proof fn law_resolution_needs_authority_after_end(
    program_id: Seq<u8>,
    accounts: ResolvePoll,
    poll_id: u64,
    poll: PollView,
    now: i64,
    candidates: Seq<Candidate>,
    old_lamports: Seq<u64>,
    poll_lamports: u64,
    receiver_lamports: u64,
    r: Result<Resolution, InstructionError>,
    lamports: Seq<u64>,
)
    requires
        poll_resolved(
            program_id,
            accounts,
            poll_id,
            poll,
            now,
            candidates,
            old_lamports,
            poll_lamports,
            receiver_lamports,
            r,
            lamports,
        ),
        r is Ok,
    ensures
        accounts.authority_signed,
        may_resolve(poll, accounts.authority@, now),
        poll.authority == accounts.authority@,
        now > poll.end_time as i64,
{
}

/// One creation step: a successful poll creation takes the shared
/// counter's next id as the poll's id and leaves the counter one higher, and
/// counts one more poll in the creating manager.
pub proof fn law_poll_ids_increase(
    counter: PollCounterView,
    manager: ManagerView,
    manager_address: Seq<u8>,
    poll_address: Seq<u8>,
    voting_program: Seq<u8>,
    start_time: u64,
    end_time: u64,
    poll_name: Seq<char>,
    poll_description: Seq<char>,
    poll_in_use: bool,
    names: Seq<String>,
    candidate_accounts: Seq<CandidateSlot>,
    now: i64,
)
    requires
        create_event_error(
            manager_address,
            poll_address,
            voting_program,
            counter.next_poll_id,
            manager.poll_count,
            start_time,
            end_time,
            poll_name,
            poll_description,
            poll_in_use,
            names,
            candidate_accounts,
            now,
        ) is None,
    ensures
        counter.next_poll_id < u64::MAX,
        with_id_taken(counter).next_poll_id == counter.next_poll_id + 1,
        with_poll_counted(manager).poll_count == manager.poll_count + 1,
        with_poll_counted(manager).authority == manager.authority,
{
}

/// Every creation, by any administrator, uses the same counter account:
/// only one address is derived from the counter's seeds.
pub proof fn law_one_poll_counter(manager_program: Seq<u8>, a: Seq<u8>, b: Seq<u8>)
    requires
        derives(spec_poll_counter_seeds(), manager_program, a),
        derives(spec_poll_counter_seeds(), manager_program, b),
    ensures
        a == b,
{
}

/// The `j`-th counter state of a run of successful creations has next id `j`.
proof fn lemma_counter_in_sequence(counters: Seq<PollCounterView>, j: int)
    requires
        0 <= j < counters.len(),
        counters[0].next_poll_id == 0,
        forall|k: int|
            #![trigger counters[k]]
            0 <= k < counters.len() - 1 ==> counters[k].next_poll_id < u64::MAX && counters[k + 1]
                == with_id_taken(counters[k]),
    ensures
        counters[j].next_poll_id == j,
    decreases j,
{
    if j > 0 {
        lemma_counter_in_sequence(counters, j - 1);
        assert(counters[j - 1].next_poll_id < u64::MAX);
    }
}

/// Poll ids are unique over all administrators: in a run of successful
/// creations, by any administrators, from the new counter (each takes the
/// counter's next id and leaves it one higher, see
/// [`law_poll_ids_increase`]), the `j`-th creation gets id `j`, no two get
/// the same id, and after `m` creations the next id is `m`.
pub proof fn law_poll_ids_in_sequence(counters: Seq<PollCounterView>)
    requires
        counters.len() >= 1,
        counters[0].next_poll_id == 0,
        forall|k: int|
            #![trigger counters[k]]
            0 <= k < counters.len() - 1 ==> counters[k].next_poll_id < u64::MAX && counters[k + 1]
                == with_id_taken(counters[k]),
    ensures
        forall|j: int| 0 <= j < counters.len() ==> #[trigger] counters[j].next_poll_id == j,
        forall|i: int, j: int|
            0 <= i < j < counters.len() ==> #[trigger] counters[i].next_poll_id
                != #[trigger] counters[j].next_poll_id,
{
    assert forall|j: int| 0 <= j < counters.len() implies #[trigger] counters[j].next_poll_id == j by {
        lemma_counter_in_sequence(counters, j);
    }
}

/// Re-adding a candidate whose account already exists does not count it
/// again: the poll's candidate counter keeps the number of candidate
/// accounts.
pub proof fn law_readding_candidate_keeps_count(
    old_poll: PollView,
    old_candidate: CandidateView,
    name: Seq<char>,
    now: i64,
    r: Result<(), InstructionError>,
    poll: PollView,
    candidate: CandidateView,
)
    requires
        candidate_added(old_poll, old_candidate, name, now, true, r, poll, candidate),
    ensures
        poll.poll_option_index == old_poll.poll_option_index,
{
}

/// An account that already exists is never created again: creating a poll
/// or a manager account at an address in use fails.
pub proof fn law_existing_accounts_not_recreated(
    voting_program: Seq<u8>,
    poll_accounts: InitializePoll,
    poll_id: u64,
    poll: PollView,
    manager_program: Seq<u8>,
    manager_accounts: InitializeManager,
)
    ensures
        poll_accounts.poll_in_use ==> initialize_poll_error(voting_program, poll_accounts, poll_id, poll)
            is Some,
        manager_accounts.manager_in_use ==> initialize_manager_error(manager_program, manager_accounts)
            is Some,
{
}

/// A poll created through a manager can be resolved only with that manager
/// account as the signing authority.
pub proof fn law_created_poll_resolved_by_its_manager(
    manager_address: Seq<u8>,
    start_time: u64,
    end_time: u64,
    poll_name: Seq<char>,
    poll_description: Seq<char>,
    n: nat,
    program_id: Seq<u8>,
    accounts: ResolvePoll,
    poll_id: u64,
    now: i64,
    candidates: Seq<Candidate>,
    old_lamports: Seq<u64>,
    poll_lamports: u64,
    receiver_lamports: u64,
    r: Result<Resolution, InstructionError>,
    lamports: Seq<u64>,
)
    requires
        poll_resolved(
            program_id,
            accounts,
            poll_id,
            created_poll(manager_address, start_time, end_time, poll_name, poll_description, n),
            now,
            candidates,
            old_lamports,
            poll_lamports,
            receiver_lamports,
            r,
            lamports,
        ),
        r is Ok,
    ensures
        accounts.authority@ == manager_address,
{
}

/// Resolving a poll through a manager succeeds only for the administrator
/// who signed and whose manager account, derived from the administrator's
/// address, is the poll's authority.
pub proof fn law_resolve_event_needs_the_polls_administrator(
    manager_program: Seq<u8>,
    voting_program: Seq<u8>,
    accounts: ResolveEvent,
    poll_id: u64,
    poll: PollView,
    now: i64,
    candidates: Seq<Candidate>,
    old_lamports: Seq<u64>,
    poll_lamports: u64,
    receiver_lamports: u64,
    r: Result<Resolution, InstructionError>,
    lamports: Seq<u64>,
)
    requires
        event_resolved(
            manager_program,
            voting_program,
            accounts,
            poll_id,
            poll,
            now,
            candidates,
            old_lamports,
            poll_lamports,
            receiver_lamports,
            r,
            lamports,
        ),
        r is Ok,
    ensures
        accounts.authority_signed,
        derives(spec_manager_seeds(accounts.authority@), manager_program, poll.authority),
        now > poll.end_time as i64,
{
}

/// The administrator who created a poll through a manager can resolve it
/// after its end time: signing, with that manager account and the poll's
/// own address, the resolution succeeds and credits the administrator with
/// the lamports of the poll and of every candidate account given.
pub proof fn law_creator_can_resolve(
    manager_program: Seq<u8>,
    voting_program: Seq<u8>,
    accounts: ResolveEvent,
    poll_id: u64,
    start_time: u64,
    end_time: u64,
    poll_name: Seq<char>,
    poll_description: Seq<char>,
    n: nat,
    now: i64,
    candidates: Seq<Candidate>,
    old_lamports: Seq<u64>,
    poll_lamports: u64,
    receiver_lamports: u64,
    r: Result<Resolution, InstructionError>,
    lamports: Seq<u64>,
)
    requires
        accounts.authority_signed,
        derives(spec_manager_seeds(accounts.authority@), manager_program, accounts.manager@),
        derives(spec_poll_seeds(poll_id), voting_program, accounts.poll@),
        now > end_time as i64,
        event_resolved(
            manager_program,
            voting_program,
            accounts,
            poll_id,
            created_poll(accounts.manager@, start_time, end_time, poll_name, poll_description, n),
            now,
            candidates,
            old_lamports,
            poll_lamports,
            receiver_lamports,
            r,
            lamports,
        ),
    ensures
        r matches Ok(res) && res.receiver_lamports == receiver_lamports + poll_lamports + sum_lamports(
            old_lamports,
        ) && res.poll_lamports == 0,
        lamports == Seq::new(candidates.len(), |i: int| 0u64),
{
}

/// The voting state of one poll as its accounts hold it: the poll, its
/// candidates, and the vote record of each participant who has one.
pub struct PollLedger {
    pub poll: PollView,
    pub candidates: Seq<CandidateView>,
    pub records: Map<Seq<u8>, ParticipantVoteView>,
}

/// A vote record account as it is first created: all bytes zero.
pub open spec fn empty_record() -> ParticipantVoteView {
    ParticipantVoteView {
        participant: Seq::new(32, |i: int| 0u8),
        poll_id: 0,
        candidate_name: Seq::empty(),
        vote_placed: false,
    }
}

/// The vote record of `participant` in the ledger.
pub open spec fn record_of(l: PollLedger, participant: Seq<u8>) -> ParticipantVoteView {
    if l.records.dom().contains(participant) {
        l.records[participant]
    } else {
        empty_record()
    }
}

/// The ledger after `participant` tries to vote for candidate `k` of poll
/// `poll_id` at time `now`: the vote instruction's effect on the candidate
/// and on the participant's record when it succeeds, no change otherwise.
pub open spec fn ledger_vote(l: PollLedger, k: int, participant: Seq<u8>, poll_id: u64, now: i64) -> PollLedger {
    if 0 <= k < l.candidates.len() && vote_error(
        l.poll,
        l.candidates[k],
        record_of(l, participant),
        now,
    ) is None && participant_vote_fits(
        cast_record(participant, poll_id, l.candidates[k].candidate_name),
    ) {
        PollLedger {
            poll: l.poll,
            candidates: l.candidates.update(k, with_vote(l.candidates[k])),
            records: l.records.insert(
                participant,
                cast_record(participant, poll_id, l.candidates[k].candidate_name),
            ),
        }
    } else {
        l
    }
}

/// The ledger after the vote instruction, at candidate `k`, gave `r`, the
/// candidate `candidate` and the record `record`.
pub open spec fn ledger_after(
    l: PollLedger,
    k: int,
    participant: Seq<u8>,
    r: Result<(), InstructionError>,
    candidate: CandidateView,
    record: ParticipantVoteView,
) -> PollLedger {
    PollLedger {
        poll: l.poll,
        candidates: l.candidates.update(k, candidate),
        records: if r is Ok {
            l.records.insert(participant, record)
        } else {
            l.records
        },
    }
}

/// The ledger step is the vote instruction's own contract: whatever the
/// vote instruction gives by [`vote_applied`] (once its signature and
/// addresses are checked) for candidate `k` and the participant's record,
/// written back into the ledger, is [`ledger_vote`].
pub proof fn lemma_vote_contract_is_ledger_step(
    l: PollLedger,
    k: int,
    participant: Seq<u8>,
    poll_id: u64,
    now: i64,
    r: Result<(), InstructionError>,
    candidate: CandidateView,
    record: ParticipantVoteView,
)
    requires
        0 <= k < l.candidates.len(),
        vote_applied(
            l.poll,
            l.candidates[k],
            record_of(l, participant),
            participant,
            poll_id,
            l.candidates[k].candidate_name,
            now,
            r,
            candidate,
            record,
        ),
    ensures
        ledger_after(l, k, participant, r, candidate, record) == ledger_vote(l, k, participant, poll_id, now),
{
    let a = ledger_after(l, k, participant, r, candidate, record);
    let b = ledger_vote(l, k, participant, poll_id, now);
    if r is Ok {
        assert(a.candidates =~= b.candidates);
        assert(a.records =~= b.records);
    } else {
        assert(a.candidates =~= l.candidates);
        assert(a.records =~= l.records);
    }
}

/// The participants whose record shows a vote.
pub open spec fn voters(l: PollLedger) -> Set<Seq<u8>> {
    Set::new(|p: Seq<u8>| l.records.dom().contains(p) && l.records[p].vote_placed)
}

/// The votes counted over all candidates.
pub open spec fn total_votes(c: Seq<CandidateView>) -> nat
    decreases c.len(),
{
    if c.len() == 0 {
        0
    } else {
        total_votes(c.drop_last()) + c.last().candidate_votes as nat
    }
}

/// Whether every vote counted belongs to exactly one participant: the total
/// of the candidates' counts is the number of participants who voted.
pub open spec fn votes_match_voters(l: PollLedger) -> bool {
    &&& l.records.dom().finite()
    &&& total_votes(l.candidates) == voters(l).len()
}

/// One more vote for candidate `k` adds one to the total.
proof fn lemma_total_votes_add_one(c: Seq<CandidateView>, k: int)
    requires
        0 <= k < c.len(),
        c[k].candidate_votes < u64::MAX,
    ensures
        total_votes(c.update(k, with_vote(c[k]))) == total_votes(c) + 1,
    decreases c.len(),
{
    let d = c.update(k, with_vote(c[k]));
    if k == c.len() - 1 {
        assert(d.drop_last() =~= c.drop_last());
    } else {
        lemma_total_votes_add_one(c.drop_last(), k);
        assert(d.drop_last() =~= c.drop_last().update(k, with_vote(c[k])));
    }
}

/// A poll's ledger before any vote (candidates without votes, no records)
/// has as many votes as voters: none.
pub proof fn law_fresh_ledger_balanced(poll: PollView, candidates: Seq<CandidateView>)
    requires
        forall|i: int| 0 <= i < candidates.len() ==> #[trigger] candidates[i].candidate_votes == 0,
    ensures
        votes_match_voters(PollLedger { poll, candidates, records: Map::empty() }),
    decreases candidates.len(),
{
    let l = PollLedger { poll, candidates, records: Map::empty() };
    assert(voters(l) =~= Set::empty());
    if candidates.len() > 0 {
        law_fresh_ledger_balanced(poll, candidates.drop_last());
    }
}

/// Each participant counts at most once: from a ledger whose counted votes
/// match its voters, any vote attempt, accepted or refused, leaves a ledger
/// whose counted votes still match its voters.
pub proof fn law_votes_match_voters(l: PollLedger, k: int, participant: Seq<u8>, poll_id: u64, now: i64)
    requires
        votes_match_voters(l),
    ensures
        votes_match_voters(ledger_vote(l, k, participant, poll_id, now)),
{
    let n = ledger_vote(l, k, participant, poll_id, now);
    if n != l {
        lemma_total_votes_add_one(l.candidates, k);
        assert(!voters(l).contains(participant));
        assert(voters(n) =~= voters(l).insert(participant));
        vstd::set_lib::lemma_len_subset(voters(l), l.records.dom());
    }
}

/// The participants whose record shows a vote for the candidate `name`.
pub open spec fn voters_for(l: PollLedger, name: Seq<char>) -> Set<Seq<u8>> {
    Set::new(
        |p: Seq<u8>|
            l.records.dom().contains(p) && l.records[p].vote_placed && l.records[p].candidate_name
                == name,
    )
}

/// Whether each candidate's count is the number of participants whose
/// record shows a vote for it (the candidates having distinct names, as
/// their addresses are derived from their names).
pub open spec fn counts_match_records(l: PollLedger) -> bool {
    &&& l.records.dom().finite()
    &&& forall|j: int, k: int|
        0 <= j < l.candidates.len() && 0 <= k < l.candidates.len() && j != k
            ==> #[trigger] l.candidates[j].candidate_name != #[trigger] l.candidates[k].candidate_name
    &&& forall|k: int|
        0 <= k < l.candidates.len() ==> #[trigger] l.candidates[k].candidate_votes as nat == voters_for(
            l,
            l.candidates[k].candidate_name,
        ).len()
}

/// A poll's ledger before any vote, with distinctly named candidates
/// without votes and no records, counts exactly the recorded votes.
pub proof fn law_fresh_ledger_counts_records(poll: PollView, candidates: Seq<CandidateView>)
    requires
        forall|i: int| 0 <= i < candidates.len() ==> #[trigger] candidates[i].candidate_votes == 0,
        forall|j: int, k: int|
            0 <= j < candidates.len() && 0 <= k < candidates.len() && j != k
                ==> #[trigger] candidates[j].candidate_name != #[trigger] candidates[k].candidate_name,
    ensures
        counts_match_records(PollLedger { poll, candidates, records: Map::empty() }),
{
    let l = PollLedger { poll, candidates, records: Map::empty() };
    assert forall|k: int| 0 <= k < candidates.len() implies #[trigger] l.candidates[k].candidate_votes
        as nat == voters_for(l, l.candidates[k].candidate_name).len() by {
        assert(voters_for(l, l.candidates[k].candidate_name) =~= Set::empty());
    }
}

/// Each candidate's count is the number of participants who voted for it:
/// a ledger in which this holds keeps it through any vote attempt,
/// accepted or refused.
pub proof fn law_counts_match_records(l: PollLedger, k: int, participant: Seq<u8>, poll_id: u64, now: i64)
    requires
        counts_match_records(l),
    ensures
        counts_match_records(ledger_vote(l, k, participant, poll_id, now)),
{
    let n = ledger_vote(l, k, participant, poll_id, now);
    if n != l {
        let name_k = l.candidates[k].candidate_name;
        assert forall|j: int| 0 <= j < n.candidates.len() implies #[trigger] n.candidates[j].candidate_votes
            as nat == voters_for(n, n.candidates[j].candidate_name).len() by {
            let name_j = l.candidates[j].candidate_name;
            assert(n.candidates[j].candidate_name == name_j);
            assert(voters_for(l, name_j).subset_of(l.records.dom()));
            vstd::set_lib::lemma_len_subset(voters_for(l, name_j), l.records.dom());
            assert(!voters_for(l, name_j).contains(participant));
            if j == k {
                assert(voters_for(n, name_j) =~= voters_for(l, name_j).insert(participant));
            } else {
                assert(name_j != name_k);
                assert(voters_for(n, name_j) =~= voters_for(l, name_j));
            }
        }
        assert forall|i: int, j: int|
            0 <= i < n.candidates.len() && 0 <= j < n.candidates.len() && i != j
                implies #[trigger] n.candidates[i].candidate_name != #[trigger] n.candidates[j].candidate_name by {
            assert(n.candidates[i].candidate_name == l.candidates[i].candidate_name);
            assert(n.candidates[j].candidate_name == l.candidates[j].candidate_name);
        }
    }
}

} // verus!

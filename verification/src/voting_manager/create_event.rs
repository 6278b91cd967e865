//! Creating a poll with its candidates.
use vstd::prelude::*;

use crate::address::{derives, Address};
use crate::error::{InstructionError, VotingError, VotingManagerError};
use crate::seeds::{spec_candidate_seeds, spec_poll_seeds};
use crate::state::{
    poll_fits, Candidate, Manager, ManagerView, Poll, PollCounter, PollCounterView, PollView,
};
use crate::voting::initialize_candidate::{new_candidate, InitializeCandidate};
use crate::voting::initialize_poll::{new_poll, InitializePoll};
use crate::voting::{initialize_candidate, initialize_poll};

verus! {

/// The accounts of the instruction that creates a poll.  The candidate
/// accounts follow them as extra accounts, one per candidate name.
#[derive(Debug, Clone, Copy, PartialEq, Eq)]
pub struct CreateEvent {
    /// The administrator; pays for the new accounts and must sign.
    pub authority: Address,
    /// Whether the administrator signed the instruction.
    pub authority_signed: bool,
    /// The administrator's manager account; becomes the poll's authority.
    pub manager: Address,
    /// The poll counter shared by all administrators, created if it does
    /// not exist yet.
    pub poll_counter: Address,
    /// The new poll account.
    pub poll: Address,
    /// Whether an account already exists at the poll's address.
    pub poll_in_use: bool,
}

/// A candidate account passed to the instruction.
#[derive(Debug, Clone, Copy, PartialEq, Eq)]
pub struct CandidateSlot {
    pub address: Address,
    /// Whether the account existed before the instruction.
    pub in_use: bool,
}

/// A poll created with its candidates.
#[derive(Debug, Clone, PartialEq, Eq)]
pub struct CreatedEvent {
    /// The poll's id: the shared counter's next id before the creation.
    pub poll_id: u64,
    pub poll: Poll,
    /// The candidates, in the order of their names.
    pub candidates: Vec<Candidate>,
}

/// Whether the `i`-th candidate account is at the address derived from the
/// `i`-th candidate's seeds.
pub open spec fn candidate_account_ok(
    voting_program: Seq<u8>,
    poll_id: u64,
    names: Seq<String>,
    candidate_accounts: Seq<CandidateSlot>,
    i: int,
) -> bool {
    derives(spec_candidate_seeds(poll_id, names[i]@), voting_program, candidate_accounts[i].address@)
}

/// Whether the `j`-th candidate account already holds a candidate when it
/// is reached: it existed before, or an earlier entry is the same account.
pub open spec fn slot_in_use(slots: Seq<CandidateSlot>, j: int) -> bool {
    slots[j].in_use || exists|i: int| 0 <= i < j && slots[i].address@ == slots[j].address@
}

/// How many of the first `k` candidate accounts are new when reached: the
/// candidates the poll counts.
pub open spec fn fresh_count(slots: Seq<CandidateSlot>, k: nat) -> nat
    decreases k,
{
    if k == 0 {
        0
    } else {
        fresh_count(slots, (k - 1) as nat) + if !slot_in_use(slots, k - 1) {
            1nat
        } else {
            0nat
        }
    }
}

/// No more candidates are new than were reached.
pub proof fn lemma_fresh_count_bound(slots: Seq<CandidateSlot>, k: nat)
    ensures
        fresh_count(slots, k) <= k,
    decreases k,
{
    if k > 0 {
        lemma_fresh_count_bound(slots, (k - 1) as nat);
    }
}

/// Whether the `j`-th candidate account already holds a candidate when it
/// is reached.
pub fn reused(slots: &Vec<CandidateSlot>, j: usize) -> (r: bool)
    requires
        j < slots@.len(),
    ensures
        r == slot_in_use(slots@, j as int),
{
    if slots[j].in_use {
        return true;
    }
    let mut i: usize = 0;
    while i < j
        invariant
            j < slots@.len(),
            i <= j,
            forall|k: int| 0 <= k < i ==> slots@[k].address@ != slots@[j as int].address@,
        decreases j - i,
    {
        if slots[i].address.equals(&slots[j].address) {
            return true;
        }
        i = i + 1;
    }
    false
}

/// Why creating poll `poll_id` fails, if it does, in the order the checks
/// are made: the poll account's address; an account already at that
/// address; the poll's size; the number of candidate accounts; then,
/// candidate by candidate, the account's address and the time (candidates
/// are added only until the start time); last, the shared poll counter
/// (`poll_id`) and the manager's own count (`manager_count`).
pub open spec fn create_event_error(
    manager_address: Seq<u8>,
    poll_address: Seq<u8>,
    voting_program: Seq<u8>,
    poll_id: u64,
    manager_count: u64,
    start_time: u64,
    end_time: u64,
    poll_name: Seq<char>,
    poll_description: Seq<char>,
    poll_in_use: bool,
    names: Seq<String>,
    candidate_accounts: Seq<CandidateSlot>,
    now: i64,
) -> Option<InstructionError> {
    if !derives(spec_poll_seeds(poll_id), voting_program, poll_address) {
        Some(InstructionError::ConstraintSeeds)
    } else if poll_in_use {
        Some(InstructionError::AccountAlreadyInUse)
    } else if !poll_fits(
        new_poll(manager_address, start_time, end_time, poll_name, poll_description),
    ) {
        Some(InstructionError::AccountDidNotSerialize)
    } else if names.len() != candidate_accounts.len() {
        Some(InstructionError::Manager(VotingManagerError::CandidateCountMismatch))
    } else if names.len() > 0 && now > start_time as i64 && candidate_account_ok(
        voting_program,
        poll_id,
        names,
        candidate_accounts,
        0,
    ) {
        Some(InstructionError::Voting(VotingError::AddingCandidateAfterVotingStart))
    } else if exists|i: int|
        0 <= i < names.len() && !#[trigger] candidate_account_ok(
            voting_program,
            poll_id,
            names,
            candidate_accounts,
            i,
        ) {
        Some(InstructionError::ConstraintSeeds)
    } else if poll_id == u64::MAX || manager_count == u64::MAX {
        Some(InstructionError::Manager(VotingManagerError::Overflow))
    } else {
        None
    }
}

/// The poll created counting `n` candidates.
pub open spec fn created_poll(
    manager_address: Seq<u8>,
    start_time: u64,
    end_time: u64,
    poll_name: Seq<char>,
    poll_description: Seq<char>,
    n: nat,
) -> PollView {
    PollView {
        poll_option_index: n as u64,
        ..new_poll(manager_address, start_time, end_time, poll_name, poll_description)
    }
}

/// The counter after handing out one more id.
pub open spec fn with_id_taken(counter: PollCounterView) -> PollCounterView {
    PollCounterView { next_poll_id: (counter.next_poll_id + 1) as u64 }
}

/// The manager after one more poll.
pub open spec fn with_poll_counted(manager: ManagerView) -> ManagerView {
    ManagerView { poll_count: (manager.poll_count + 1) as u64, ..manager }
}

/// Creates the poll whose id is the shared counter's next id, and its
/// candidates, one per name, in the voting program, with the manager account
/// at `manager_address` as the poll's authority (signing for it), and counts
/// it in the counter and in the manager.  Fails with the
/// error of [`create_event_error`]; a failure changes nothing.  The poll
/// counts each distinct new candidate account once.
pub fn handler(
    counter: &mut PollCounter,
    manager: &mut Manager,
    manager_address: &Address,
    voting_program: &Address,
    accounts: &CreateEvent,
    candidate_accounts: &Vec<CandidateSlot>,
    start_time: u64,
    end_time: u64,
    poll_name: String,
    poll_description: String,
    candidate_names: &Vec<String>,
    now: i64,
) -> (r: Result<CreatedEvent, InstructionError>)
    ensures
        ({
            let err = create_event_error(
                manager_address@,
                accounts.poll@,
                voting_program@,
                old(counter)@.next_poll_id,
                old(manager)@.poll_count,
                start_time,
                end_time,
                poll_name@,
                poll_description@,
                accounts.poll_in_use,
                candidate_names@,
                candidate_accounts@,
                now,
            );
            match r {
                Err(e) => err == Some(e) && final(manager)@ == old(manager)@ && final(counter)@ == old(
                    counter,
                )@,
                Ok(event) => {
                    &&& err is None
                    &&& final(manager)@ == with_poll_counted(old(manager)@)
                    &&& final(counter)@ == with_id_taken(old(counter)@)
                    &&& event.poll_id == old(counter)@.next_poll_id
                    &&& event.poll@ == created_poll(
                        manager_address@,
                        start_time,
                        end_time,
                        poll_name@,
                        poll_description@,
                        fresh_count(candidate_accounts@, candidate_names@.len()),
                    )
                    &&& event.candidates@.len() == candidate_names@.len()
                    &&& forall|i: int|
                        0 <= i < candidate_names@.len() ==> #[trigger] event.candidates@[i]@
                            == new_candidate(candidate_names@[i]@)
                },
            }
        }),
{
    let poll_id = counter.next_poll_id;
    let poll_accounts = InitializePoll {
        payer: accounts.authority,
        payer_signed: true,
        authority: *manager_address,
        poll: accounts.poll,
        poll_in_use: accounts.poll_in_use,
    };
    let mut poll = match initialize_poll(
        voting_program,
        &poll_accounts,
        poll_id,
        start_time,
        end_time,
        poll_name,
        poll_description,
    ) {
        Ok(p) => p,
        Err(e) => {
            return Err(e);
        },
    };
    let n = candidate_names.len();
    if n != candidate_accounts.len() {
        return Err(InstructionError::Manager(VotingManagerError::CandidateCountMismatch));
    }
    let ghost names = candidate_names@;
    let ghost late = now > start_time as i64;
    let mut candidates: Vec<Candidate> = Vec::new();
    let mut i: usize = 0;
    while i < n
        invariant
            n == names.len(),
            names == candidate_names@,
            n == candidate_accounts@.len(),
            i <= n,
            poll@ == created_poll(
                manager_address@,
                start_time,
                end_time,
                poll_name@,
                poll_description@,
                fresh_count(candidate_accounts@, i as nat),
            ),
            derives(spec_poll_seeds(poll_id), voting_program@, accounts.poll@),
            !accounts.poll_in_use,
            poll_fits(new_poll(manager_address@, start_time, end_time, poll_name@, poll_description@)),
            manager@ == old(manager)@,
            counter@ == old(counter)@,
            poll_id == old(counter)@.next_poll_id,
            late == (now > start_time as i64),
            i > 0 ==> !late,
            forall|j: int|
                0 <= j < i ==> #[trigger] candidate_account_ok(
                    voting_program@,
                    poll_id,
                    names,
                    candidate_accounts@,
                    j,
                ),
            candidates@.len() == i,
            forall|j: int|
                0 <= j < i ==> #[trigger] candidates@[j]@ == new_candidate(names[j]@),
        decreases n - i,
    {
        let in_use = reused(candidate_accounts, i);
        let candidate_accounts_i = InitializeCandidate {
            authority: *manager_address,
            authority_signed: true,
            poll: accounts.poll,
            candidate: candidate_accounts[i].address,
            candidate_in_use: in_use,
        };
        proof {
            lemma_fresh_count_bound(candidate_accounts@, i as nat);
        }
        let mut candidate = Candidate::empty();
        let name = candidate_names[i].clone();
        assert(name@ == names[i as int]@);
        let added = initialize_candidate(
            voting_program,
            &candidate_accounts_i,
            poll_id,
            &mut poll,
            &mut candidate,
            name,
            now,
        );
        match added {
            Err(e) => {
                proof {
                    if !candidate_account_ok(
                        voting_program@,
                        poll_id,
                        names,
                        candidate_accounts@,
                        i as int,
                    ) {
                        assert(e == InstructionError::ConstraintSeeds);
                    } else {
                        assert(late);
                        assert(i == 0);
                    }
                }
                return Err(e);
            },
            Ok(()) => {},
        }
        candidates.push(candidate);
        i = i + 1;
    }
    if counter.next_poll_id == u64::MAX || manager.poll_count == u64::MAX {
        return Err(InstructionError::Manager(VotingManagerError::Overflow));
    }
    counter.next_poll_id = counter.next_poll_id + 1;
    manager.poll_count = manager.poll_count + 1;
    Ok(CreatedEvent { poll_id, poll, candidates })
}

} // verus!

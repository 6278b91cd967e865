//! The manager program: numbers polls with one counter shared by all
//! administrators, and creates and resolves them in the voting program on
//! an administrator's behalf.
use vstd::prelude::*;

use crate::address::{check_program_address, derives, Address};
use crate::error::InstructionError;
use crate::seeds::{
    manager_seeds, poll_counter_seeds, spec_manager_seeds, spec_poll_counter_seeds,
};
use crate::state::{Candidate, Manager, Poll, PollCounter};
use crate::voting::resolve_poll::{may_resolve, sum_lamports, Resolution};

pub mod create_event;
pub mod initialize_manager;
pub mod resolve_event;

use self::create_event::{
    create_event_error, created_poll, fresh_count, with_id_taken, with_poll_counted, CandidateSlot,
    CreateEvent, CreatedEvent,
};
use self::initialize_manager::{initialize_manager_error, new_manager, InitializeManager};
use self::resolve_event::{event_resolved, ResolveEvent};
use crate::voting::initialize_candidate::new_candidate;

verus! {

/// Creates the manager account of `accounts.authority`: fails with the
/// error of [`initialize_manager::initialize_manager_error`], else gives a
/// manager that has created no poll yet.
pub fn initialize_manager(program_id: &Address, accounts: &InitializeManager) -> (r: Result<
    Manager,
    InstructionError,
>)
    ensures
        match r {
            Ok(m) => initialize_manager_error(program_id@, *accounts) is None && m@ == new_manager(
                accounts.authority@,
            ),
            Err(e) => initialize_manager_error(program_id@, *accounts) == Some(e),
        },
{
    if !accounts.authority_signed {
        return Err(InstructionError::AccountNotSigner);
    }
    match check_program_address(&manager_seeds(&accounts.authority), program_id, &accounts.manager) {
        Err(e) => {
            return Err(e);
        },
        Ok(_) => {},
    }
    if accounts.manager_in_use {
        return Err(InstructionError::AccountAlreadyInUse);
    }
    Ok(initialize_manager::handler(&accounts.authority))
}

/// Why a creation of a poll through the manager fails, if it does, in the
/// order the checks are made: the administrator did not sign; the poll
/// counter is not at the address derived from its seeds; the manager
/// account is not at the address derived from the administrator's manager
/// seeds; else the error of [`create_event::create_event_error`] for the
/// counter's next id.
pub open spec fn create_event_failure(
    manager_program: Seq<u8>,
    voting_program: Seq<u8>,
    accounts: CreateEvent,
    next_poll_id: u64,
    manager_count: u64,
    start_time: u64,
    end_time: u64,
    poll_name: Seq<char>,
    poll_description: Seq<char>,
    names: Seq<String>,
    candidate_accounts: Seq<CandidateSlot>,
    now: i64,
) -> Option<InstructionError> {
    if !accounts.authority_signed {
        Some(InstructionError::AccountNotSigner)
    } else if !derives(spec_poll_counter_seeds(), manager_program, accounts.poll_counter@) {
        Some(InstructionError::ConstraintSeeds)
    } else if !derives(spec_manager_seeds(accounts.authority@), manager_program, accounts.manager@) {
        Some(InstructionError::ConstraintSeeds)
    } else {
        create_event_error(
            accounts.manager@,
            accounts.poll@,
            voting_program,
            next_poll_id,
            manager_count,
            start_time,
            end_time,
            poll_name,
            poll_description,
            accounts.poll_in_use,
            names,
            candidate_accounts,
            now,
        )
    }
}

/// Creates a poll of `accounts.authority`, with one candidate per name,
/// whose accounts are `candidate_accounts`, at time `now`.  The poll's id is
/// the next id of the counter shared by all administrators, so polls of
/// different administrators never share an id.  Fails with the error of
/// [`create_event_failure`]; a failure changes nothing.
pub fn create_event(
    manager_program: &Address,
    voting_program: &Address,
    accounts: &CreateEvent,
    counter: &mut PollCounter,
    manager: &mut Manager,
    candidate_accounts: &Vec<CandidateSlot>,
    start_time: u64,
    end_time: u64,
    poll_name: String,
    poll_description: String,
    candidate_names: &Vec<String>,
    now: i64,
) -> (r: Result<CreatedEvent, InstructionError>)
    ensures
        ({
            let err = create_event_failure(
                manager_program@,
                voting_program@,
                *accounts,
                old(counter)@.next_poll_id,
                old(manager)@.poll_count,
                start_time,
                end_time,
                poll_name@,
                poll_description@,
                candidate_names@,
                candidate_accounts@,
                now,
            );
            match r {
                Err(e) => err == Some(e) && final(manager)@ == old(manager)@ && final(counter)@ == old(
                    counter,
                )@,
                Ok(event) => {
                    &&& err is None
                    &&& final(counter)@ == with_id_taken(old(counter)@)
                    &&& final(manager)@ == with_poll_counted(old(manager)@)
                    &&& event.poll_id == old(counter)@.next_poll_id
                    &&& event.poll@ == created_poll(
                        accounts.manager@,
                        start_time,
                        end_time,
                        poll_name@,
                        poll_description@,
                        fresh_count(candidate_accounts@, candidate_names@.len()),
                    )
                    &&& event.candidates@.len() == candidate_names@.len()
                    &&& forall|i: int|
                        0 <= i < candidate_names@.len() ==> #[trigger] event.candidates@[i]@
                            == new_candidate(candidate_names@[i]@)
                },
            }
        }),
{
    if !accounts.authority_signed {
        return Err(InstructionError::AccountNotSigner);
    }
    match check_program_address(&poll_counter_seeds(), manager_program, &accounts.poll_counter) {
        Err(e) => {
            return Err(e);
        },
        Ok(_) => {},
    }
    match check_program_address(&manager_seeds(&accounts.authority), manager_program, &accounts.manager) {
        Err(e) => {
            return Err(e);
        },
        Ok(_) => {},
    }
    create_event::handler(
        counter,
        manager,
        &accounts.manager,
        voting_program,
        accounts,
        candidate_accounts,
        start_time,
        end_time,
        poll_name,
        poll_description,
        candidate_names,
        now,
    )
}

/// Resolves poll `poll_id` through the manager of `accounts.authority` at
/// time `now`: see [`resolve_event::event_resolved`].
pub fn resolve_event(
    manager_program: &Address,
    voting_program: &Address,
    accounts: &ResolveEvent,
    poll_id: u64,
    poll: &Poll,
    now: i64,
    candidates: &Vec<Candidate>,
    candidate_lamports: &mut Vec<u64>,
    poll_lamports: u64,
    receiver_lamports: u64,
) -> (r: Result<Resolution, InstructionError>)
    requires
        old(candidate_lamports)@.len() == candidates@.len(),
        may_resolve(poll@, accounts.manager@, now) ==> receiver_lamports + poll_lamports
            + sum_lamports(old(candidate_lamports)@) <= u64::MAX,
    ensures
        event_resolved(
            manager_program@,
            voting_program@,
            *accounts,
            poll_id,
            poll@,
            now,
            candidates@,
            old(candidate_lamports)@,
            poll_lamports,
            receiver_lamports,
            r,
            final(candidate_lamports)@,
        ),
{
    if !accounts.authority_signed {
        return Err(InstructionError::AccountNotSigner);
    }
    match check_program_address(&manager_seeds(&accounts.authority), manager_program, &accounts.manager) {
        Err(e) => {
            return Err(e);
        },
        Ok(_) => {},
    }
    resolve_event::handler(
        voting_program,
        accounts,
        poll_id,
        poll,
        now,
        candidates,
        candidate_lamports,
        poll_lamports,
        receiver_lamports,
    )
}

} // verus!

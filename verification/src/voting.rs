//! The voting program: polls, candidates, votes and the resolution of a poll.
use vstd::prelude::*;

use crate::address::{check_program_address, derives, Address};
use crate::error::{InstructionError, VotingError};
use crate::seeds::{
    candidate_seeds, poll_seeds, spec_candidate_seeds, spec_poll_seeds, spec_vote_seeds, vote_seeds,
};
use crate::state::{poll_fits, Candidate, ParticipantVote, Poll};
use vstd::utf8::encode_utf8;

pub mod initialize_candidate;
pub mod initialize_poll;
pub mod resolve_poll;
pub mod vote;

use self::initialize_candidate::{candidate_added, InitializeCandidate};
use self::initialize_poll::{initialize_poll_error, new_poll, InitializePoll};
use self::resolve_poll::{may_resolve, poll_resolved, sum_lamports, Resolution, ResolvePoll};
use self::vote::{vote_applied, Vote};

verus! {

/// Creates poll `poll_id`: fails with the error of
/// [`initialize_poll::initialize_poll_error`], else gives the new poll.
pub fn initialize_poll(
    program_id: &Address,
    accounts: &InitializePoll,
    poll_id: u64,
    start_time: u64,
    end_time: u64,
    poll_name: String,
    poll_description: String,
) -> (r: Result<Poll, InstructionError>)
    ensures
        ({
            let created = new_poll(accounts.authority@, start_time, end_time, poll_name@, poll_description@);
            let err = initialize_poll_error(program_id@, *accounts, poll_id, created);
            match r {
                Ok(p) => err is None && p@ == created,
                Err(e) => err == Some(e),
            }
        }),
{
    if !accounts.payer_signed {
        return Err(InstructionError::AccountNotSigner);
    }
    let seeds = poll_seeds(poll_id);
    match check_program_address(&seeds, program_id, &accounts.poll) {
        Err(e) => {
            return Err(e);
        },
        Ok(_) => {},
    }
    if accounts.poll_in_use {
        return Err(InstructionError::AccountAlreadyInUse);
    }
    let poll = initialize_poll::handler(
        &accounts.authority,
        start_time,
        end_time,
        poll_name,
        poll_description,
    );
    if !poll.fits() {
        return Err(InstructionError::AccountDidNotSerialize);
    }
    Ok(poll)
}

/// Whether the candidate account and the poll are at the addresses derived
/// from their seeds.
pub open spec fn candidate_seeds_ok(
    program_id: Seq<u8>,
    accounts: InitializeCandidate,
    poll_id: u64,
    candidate_name: Seq<char>,
) -> bool {
    &&& derives(spec_candidate_seeds(poll_id, candidate_name), program_id, accounts.candidate@)
    &&& derives(spec_poll_seeds(poll_id), program_id, accounts.poll@)
}

/// Adds the candidate `candidate_name` to poll `poll_id` at time `now`.
/// Fails with `AccountNotSigner` when the authority did not sign, with
/// `ConstraintSeeds` when the candidate account or the poll is not at the
/// address derived from its seeds (so always when the name is longer than
/// 32 bytes), with `ConstraintRaw` when the signer is not the poll's
/// authority, else as [`initialize_candidate::handler`] does.  A failure
/// changes neither account.
pub fn initialize_candidate(
    program_id: &Address,
    accounts: &InitializeCandidate,
    poll_id: u64,
    poll: &mut Poll,
    candidate: &mut Candidate,
    candidate_name: String,
    now: i64,
) -> (r: Result<(), InstructionError>)
    ensures
        ({
            let unchanged = final(poll)@ == old(poll)@ && final(candidate)@ == old(candidate)@;
            let seeds_ok = candidate_seeds_ok(program_id@, *accounts, poll_id, candidate_name@);
            let by_authority = old(poll)@.authority == accounts.authority@;
            &&& !accounts.authority_signed ==> r == Err::<(), InstructionError>(
                InstructionError::AccountNotSigner,
            ) && unchanged
            &&& accounts.authority_signed && !seeds_ok ==> r == Err::<(), InstructionError>(
                InstructionError::ConstraintSeeds,
            ) && unchanged
            &&& accounts.authority_signed && seeds_ok && !by_authority ==> r == Err::<
                (),
                InstructionError,
            >(InstructionError::ConstraintRaw) && unchanged
            &&& accounts.authority_signed && seeds_ok && by_authority ==> candidate_added(
                old(poll)@,
                old(candidate)@,
                candidate_name@,
                now,
                accounts.candidate_in_use,
                r,
                final(poll)@,
                final(candidate)@,
            )
        }),
        accounts.authority_signed && encode_utf8(candidate_name@).len() > 32 ==> r == Err::<
            (),
            InstructionError,
        >(InstructionError::ConstraintSeeds),
{
    if !accounts.authority_signed {
        return Err(InstructionError::AccountNotSigner);
    }
    let seeds = candidate_seeds(poll_id, &candidate_name);
    match check_program_address(&seeds, program_id, &accounts.candidate) {
        Err(e) => {
            return Err(e);
        },
        Ok(_) => {},
    }
    match check_program_address(&poll_seeds(poll_id), program_id, &accounts.poll) {
        Err(e) => {
            return Err(e);
        },
        Ok(_) => {},
    }
    if !poll.authority.equals(&accounts.authority) {
        return Err(InstructionError::ConstraintRaw);
    }
    initialize_candidate::handler(poll, candidate, candidate_name, now, accounts.candidate_in_use)
}

/// Casts the vote of `accounts.participant` for `candidate_name` in poll
/// `poll_id` at time `now`.  Fails with `AccountNotSigner` when the
/// participant did not sign; with `ConstraintSeeds` when the vote record,
/// the poll or the candidate is not at the address derived from its seeds;
/// else as [`vote::handler`] does; else with `AccountDidNotSerialize`
/// when the record, naming a candidate of more than 20 bytes, does not fit
/// in its account.  A failure changes neither account.
pub fn vote(
    program_id: &Address,
    accounts: &Vote,
    poll_id: u64,
    poll: &Poll,
    candidate: &mut Candidate,
    participant_vote: &mut ParticipantVote,
    candidate_name: String,
    now: i64,
) -> (r: Result<(), InstructionError>)
    ensures
        ({
            let seeds_ok = {
                &&& derives(spec_poll_seeds(poll_id), program_id@, accounts.poll@)
                &&& derives(
                    spec_candidate_seeds(poll_id, candidate_name@),
                    program_id@,
                    accounts.candidate@,
                )
                &&& derives(
                    spec_vote_seeds(poll_id, accounts.participant@),
                    program_id@,
                    accounts.participant_vote@,
                )
            };
            let unchanged = final(candidate)@ == old(candidate)@ && final(participant_vote)@ == old(
                participant_vote,
            )@;
            let signed = accounts.participant_signed;
            &&& !signed ==> r == Err::<(), InstructionError>(InstructionError::AccountNotSigner)
                && unchanged
            &&& signed && !seeds_ok ==> r == Err::<(), InstructionError>(
                InstructionError::ConstraintSeeds,
            ) && unchanged
            &&& signed && seeds_ok ==> vote_applied(
                poll@,
                old(candidate)@,
                old(participant_vote)@,
                accounts.participant@,
                poll_id,
                candidate_name@,
                now,
                r,
                final(candidate)@,
                final(participant_vote)@,
            )
        }),
        accounts.participant_signed && encode_utf8(candidate_name@).len() > 32 ==> r == Err::<
            (),
            InstructionError,
        >(InstructionError::ConstraintSeeds),
{
    if !accounts.participant_signed {
        return Err(InstructionError::AccountNotSigner);
    }
    match check_program_address(
        &vote_seeds(poll_id, &accounts.participant),
        program_id,
        &accounts.participant_vote,
    ) {
        Err(e) => {
            return Err(e);
        },
        Ok(_) => {},
    }
    match check_program_address(&poll_seeds(poll_id), program_id, &accounts.poll) {
        Err(e) => {
            return Err(e);
        },
        Ok(_) => {},
    }
    let seeds = candidate_seeds(poll_id, &candidate_name);
    match check_program_address(&seeds, program_id, &accounts.candidate) {
        Err(e) => {
            return Err(e);
        },
        Ok(_) => {},
    }
    let refused: Option<VotingError> = vote::check(poll, candidate, participant_vote, now);
    if refused.is_none() && candidate_name.as_str().as_bytes().len() > 20 {
        return Err(InstructionError::AccountDidNotSerialize);
    }
    vote::handler(poll, candidate, participant_vote, &accounts.participant, poll_id, candidate_name, now)
}

/// Resolves poll `poll_id`, whose candidate accounts hold `candidates` and
/// `candidate_lamports`, at time `now`, and closes the poll.  Fails with
/// `AccountNotSigner` when the authority did not sign, with
/// `ConstraintSeeds` when the poll is not at the address derived from its
/// seeds, and with `ConstraintRaw` when `accounts.authority` is not the
/// poll's authority or the poll has not ended.  On success the result is
/// that of [`crate::tally::tally`], and the receiver gets the lamports of the
/// poll and of every candidate account, which are left empty.
pub fn resolve_poll(
    program_id: &Address,
    accounts: &ResolvePoll,
    poll_id: u64,
    poll: &Poll,
    now: i64,
    candidates: &Vec<Candidate>,
    candidate_lamports: &mut Vec<u64>,
    poll_lamports: u64,
    receiver_lamports: u64,
) -> (r: Result<Resolution, InstructionError>)
    requires
        old(candidate_lamports)@.len() == candidates@.len(),
        may_resolve(poll@, accounts.authority@, now) ==> receiver_lamports + poll_lamports
            + sum_lamports(old(candidate_lamports)@) <= u64::MAX,
    ensures
        poll_resolved(
            program_id@,
            *accounts,
            poll_id,
            poll@,
            now,
            candidates@,
            old(candidate_lamports)@,
            poll_lamports,
            receiver_lamports,
            r,
            final(candidate_lamports)@,
        ),
{
    if !accounts.authority_signed {
        return Err(InstructionError::AccountNotSigner);
    }
    match check_program_address(&poll_seeds(poll_id), program_id, &accounts.poll) {
        Err(e) => {
            return Err(e);
        },
        Ok(_) => {},
    }
    if !poll.authority.equals(&accounts.authority) || !(now > poll.end_time as i64) {
        return Err(InstructionError::ConstraintRaw);
    }
    let (outcome, receiver) = resolve_poll::handler(candidates, candidate_lamports, receiver_lamports);
    Ok(Resolution { outcome, receiver_lamports: receiver + poll_lamports, poll_lamports: 0 })
}

} // verus!

//! Resolving a poll through its manager.
use vstd::prelude::*;

use crate::address::{derives, Address};
use crate::seeds::spec_manager_seeds;
use crate::error::InstructionError;
use crate::state::{Candidate, Poll, PollView};
use crate::voting::resolve_poll;
use crate::voting::resolve_poll::{may_resolve, poll_resolved, sum_lamports, Resolution, ResolvePoll};

verus! {

/// The accounts of the instruction that resolves a poll through the
/// manager.  The candidate accounts follow them as extra accounts.
#[derive(Debug, Clone, Copy, PartialEq, Eq)]
pub struct ResolveEvent {
    /// The administrator; receives the rent of the closed accounts and must
    /// sign.
    pub authority: Address,
    /// Whether the administrator signed the instruction.
    pub authority_signed: bool,
    /// The administrator's manager account, the poll's authority.
    pub manager: Address,
    /// The poll.
    pub poll: Address,
}

/// The accounts with which the manager asks the voting program to resolve
/// the poll: the manager account signs (the manager program signs for the
/// address derived from its seeds) as the poll's authority, and the
/// administrator receives the rent.
pub open spec fn forwarded(accounts: ResolveEvent) -> ResolvePoll {
    ResolvePoll {
        authority: accounts.manager,
        authority_signed: true,
        poll: accounts.poll,
        receiver: accounts.authority,
    }
}

/// Whether `r` and `lamports` are what resolving the poll through the
/// manager gives: `AccountNotSigner` when the administrator did not sign,
/// `ConstraintSeeds` when the manager account is not at the address derived
/// from the administrator's manager seeds (both changing no balance), else
/// what the voting program's resolution with the [`forwarded`] accounts
/// gives.
pub open spec fn event_resolved(
    manager_program: Seq<u8>,
    voting_program: Seq<u8>,
    accounts: ResolveEvent,
    poll_id: u64,
    poll: PollView,
    now: i64,
    candidates: Seq<Candidate>,
    old_lamports: Seq<u64>,
    poll_lamports: u64,
    receiver_lamports: u64,
    r: Result<Resolution, InstructionError>,
    lamports: Seq<u64>,
) -> bool {
    if !accounts.authority_signed {
        r == Err::<Resolution, InstructionError>(InstructionError::AccountNotSigner)
            && lamports == old_lamports
    } else if !derives(spec_manager_seeds(accounts.authority@), manager_program, accounts.manager@) {
        r == Err::<Resolution, InstructionError>(InstructionError::ConstraintSeeds)
            && lamports == old_lamports
    } else {
        poll_resolved(
            voting_program,
            forwarded(accounts),
            poll_id,
            poll,
            now,
            candidates,
            old_lamports,
            poll_lamports,
            receiver_lamports,
            r,
            lamports,
        )
    }
}

/// Resolves poll `poll_id` in the voting program, signing as the manager
/// account: the result is that of [`resolve_poll`] called with the
/// [`forwarded`] accounts.
pub fn handler(
    voting_program: &Address,
    accounts: &ResolveEvent,
    poll_id: u64,
    poll: &Poll,
    now: i64,
    candidates: &Vec<Candidate>,
    candidate_lamports: &mut Vec<u64>,
    poll_lamports: u64,
    receiver_lamports: u64,
) -> (r: Result<Resolution, InstructionError>)
    requires
        old(candidate_lamports)@.len() == candidates@.len(),
        may_resolve(poll@, accounts.manager@, now) ==> receiver_lamports + poll_lamports
            + sum_lamports(old(candidate_lamports)@) <= u64::MAX,
    ensures
        poll_resolved(voting_program@, forwarded(*accounts), poll_id, poll@, now, candidates@,
            old(candidate_lamports)@, poll_lamports, receiver_lamports, r, final(candidate_lamports)@),
{
    let forward = ResolvePoll {
        authority: accounts.manager,
        authority_signed: true,
        poll: accounts.poll,
        receiver: accounts.authority,
    };
    resolve_poll(
        voting_program,
        &forward,
        poll_id,
        poll,
        now,
        candidates,
        candidate_lamports,
        poll_lamports,
        receiver_lamports,
    )
}

} // verus!

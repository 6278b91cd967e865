//! Creating a poll.
use vstd::prelude::*;

use crate::address::{derives, Address};
use crate::error::InstructionError;
use crate::seeds::spec_poll_seeds;
use crate::state::{poll_fits, Poll, PollView};

verus! {

/// The accounts of the instruction that creates a poll.
#[derive(Debug, Clone, Copy, PartialEq, Eq)]
pub struct InitializePoll {
    /// Pays for the new account; must sign.
    pub payer: Address,
    /// Whether the payer signed the instruction.
    pub payer_signed: bool,
    /// Becomes the poll's authority.
    pub authority: Address,
    /// The new poll account.
    pub poll: Address,
    /// Whether an account already exists at the poll's address.
    pub poll_in_use: bool,
}

/// What a poll's `winning_candidate` holds until it is resolved.
pub open spec fn pending_winner() -> Seq<char> {
    "Jeszcze nie wyłoniono zwycięskiego kandydata"@
}

/// A new poll: no candidates yet, no winner yet.
pub open spec fn new_poll(
    authority: Seq<u8>,
    start_time: u64,
    end_time: u64,
    poll_name: Seq<char>,
    poll_description: Seq<char>,
) -> PollView {
    PollView {
        authority,
        poll_name,
        poll_description,
        start_time,
        end_time,
        poll_option_index: 0,
        winning_candidate: pending_winner(),
    }
}

/// Why creating poll `poll_id` with these accounts fails, if it does, in
/// the order the checks are made: the payer did not sign; the poll account
/// is not at the address derived from the poll's seeds; an account already
/// exists there; the new poll does not fit in its account.
pub open spec fn initialize_poll_error(
    program_id: Seq<u8>,
    accounts: InitializePoll,
    poll_id: u64,
    poll: PollView,
) -> Option<InstructionError> {
    if !accounts.payer_signed {
        Some(InstructionError::AccountNotSigner)
    } else if !derives(spec_poll_seeds(poll_id), program_id, accounts.poll@) {
        Some(InstructionError::ConstraintSeeds)
    } else if accounts.poll_in_use {
        Some(InstructionError::AccountAlreadyInUse)
    } else if !poll_fits(poll) {
        Some(InstructionError::AccountDidNotSerialize)
    } else {
        None
    }
}

/// The contents of a new poll with the given authority, voting period,
/// name and description.
pub fn handler(
    authority: &Address,
    start_time: u64,
    end_time: u64,
    poll_name: String,
    poll_description: String,
) -> (poll: Poll)
    ensures
        poll@ == new_poll(authority@, start_time, end_time, poll_name@, poll_description@),
{
    Poll {
        authority: *authority,
        poll_name,
        poll_description,
        start_time,
        end_time,
        poll_option_index: 0,
        winning_candidate: "Jeszcze nie wyłoniono zwycięskiego kandydata".to_owned(),
    }
}

} // verus!

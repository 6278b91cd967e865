//! Creating an administrator's manager account.
use vstd::prelude::*;

use crate::address::{derives, Address};
use crate::error::InstructionError;
use crate::seeds::spec_manager_seeds;
use crate::state::{Manager, ManagerView};

verus! {

/// The accounts of the instruction that creates a manager account.
#[derive(Debug, Clone, Copy, PartialEq, Eq)]
pub struct InitializeManager {
    /// The administrator; pays for the account and must sign.
    pub authority: Address,
    /// Whether the administrator signed the instruction.
    pub authority_signed: bool,
    /// The new manager account.
    pub manager: Address,
    /// Whether an account already exists at the manager's address.
    pub manager_in_use: bool,
}

/// A new manager of `authority`: no polls created yet.
pub open spec fn new_manager(authority: Seq<u8>) -> ManagerView {
    ManagerView { authority, poll_count: 0 }
}

/// Why creating the manager account fails, if it does, in the order the
/// checks are made: the administrator did not sign; the account is not at
/// the address derived from the manager's seeds; an account already exists
/// there.
pub open spec fn initialize_manager_error(program_id: Seq<u8>, accounts: InitializeManager) -> Option<
    InstructionError,
> {
    if !accounts.authority_signed {
        Some(InstructionError::AccountNotSigner)
    } else if !derives(spec_manager_seeds(accounts.authority@), program_id, accounts.manager@) {
        Some(InstructionError::ConstraintSeeds)
    } else if accounts.manager_in_use {
        Some(InstructionError::AccountAlreadyInUse)
    } else {
        None
    }
}

/// The contents of a new manager account of `authority`.
pub fn handler(authority: &Address) -> (manager: Manager)
    ensures
        manager@ == new_manager(authority@),
{
    Manager { authority: *authority, poll_count: 0 }
}

} // verus!

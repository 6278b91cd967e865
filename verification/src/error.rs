use vstd::prelude::*;

verus! {

/// Errors raised by the voting program's own instruction logic.
#[derive(Debug, Clone, Copy, PartialEq, Eq)]
pub enum VotingError {
    /// A candidate was added after the poll's start time.
    AddingCandidateAfterVotingStart,
    /// A counter would pass `u64::MAX`.
    Overflow,
    /// The participant has already voted in this poll.
    VoteHaveBeenPlaced,
    /// The vote came after the poll's end time.
    VotingEnded,
    /// The vote came before the poll started.
    VotingNotStarted,
}

/// Errors raised by the manager program's own instruction logic.
#[derive(Debug, Clone, Copy, PartialEq, Eq)]
pub enum VotingManagerError {
    /// The number of candidate names differs from the number of candidate accounts.
    CandidateCountMismatch,
    /// The poll counter would pass `u64::MAX`.
    Overflow,
}

/// Why an instruction failed: a violated account constraint or an error of
/// one of the two programs.  A failed instruction changes no account.
#[derive(Debug, Clone, Copy, PartialEq, Eq)]
pub enum InstructionError {
    /// An account that must sign the instruction did not.
    AccountNotSigner,
    /// An account to be created already exists.
    AccountAlreadyInUse,
    /// An account's address is not the program address derived from its seeds.
    ConstraintSeeds,
    /// A declared account constraint does not hold.
    ConstraintRaw,
    /// An account's new contents do not fit in the space allocated for it.
    AccountDidNotSerialize,
    /// The voting program rejected the instruction.
    Voting(VotingError),
    /// The manager program rejected the instruction.
    Manager(VotingManagerError),
}

} // verus!

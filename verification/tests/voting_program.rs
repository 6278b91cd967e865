use anchor_lang::prelude::Pubkey;
use voting::address::{check_program_address, match_derived, Address};
use voting::error::{InstructionError, VotingError};
use voting::seeds::{candidate_seeds, manager_seeds, poll_seeds, vote_seeds};
use voting::state::{Candidate, ParticipantVote, Poll, POLL_ACCOUNT_SPACE};
use voting::tally::{tally, PollOutcome};
use voting::voting::initialize_candidate::InitializeCandidate;
use voting::voting::initialize_poll::InitializePoll;
use voting::voting::resolve_poll::{sweep_lamports, ResolvePoll};
use voting::voting::vote::Vote;
use voting::voting::{initialize_candidate, initialize_poll, resolve_poll, vote};

const PROGRAM: [u8; 32] = [3u8; 32];

fn pda(seeds: &[&[u8]], program: [u8; 32]) -> Address {
    let (key, _) = Pubkey::find_program_address(seeds, &Pubkey::new_from_array(program));
    Address::new(key.to_bytes())
}

fn poll_address(poll_id: u64) -> Address {
    pda(&[b"poll_seed", &poll_id.to_le_bytes()], PROGRAM)
}

fn candidate_address(poll_id: u64, name: &str) -> Address {
    pda(&[b"candidate_seed", &poll_id.to_le_bytes(), name.as_bytes()], PROGRAM)
}

fn vote_address(poll_id: u64, participant: &Address) -> Address {
    pda(&[b"vote_seed", &poll_id.to_le_bytes(), &participant.bytes], PROGRAM)
}

fn authority() -> Address {
    Address::new([9u8; 32])
}

fn voter(n: u8) -> Address {
    Address::new([n; 32])
}

fn poll(start: u64, end: u64) -> Poll {
    Poll {
        authority: authority(),
        poll_name: "Wybory".to_string(),
        poll_description: "Opis".to_string(),
        start_time: start,
        end_time: end,
        poll_option_index: 2,
        winning_candidate: "Jeszcze nie wyłoniono zwycięskiego kandydata".to_string(),
    }
}

fn candidate(name: &str, votes: u64) -> Candidate {
    Candidate { candidate_name: name.to_string(), candidate_votes: votes }
}

fn vote_accounts(poll_id: u64, participant: Address, name: &str) -> Vote {
    Vote {
        participant,
        participant_signed: true,
        poll: poll_address(poll_id),
        candidate: candidate_address(poll_id, name),
        participant_vote: vote_address(poll_id, &participant),
    }
}

#[test]
fn address_equality_compares_every_byte() {
    let a = Address::new([1u8; 32]);
    let mut bytes = [1u8; 32];
    assert!(a.equals(&Address::new(bytes)));
    bytes[31] = 2;
    assert!(!a.equals(&Address::new(bytes)));
}

#[test]
fn seeds_hold_tags_ids_and_names() {
    assert_eq!(poll_seeds(1), vec![b"poll_seed".to_vec(), vec![1, 0, 0, 0, 0, 0, 0, 0]]);
    assert_eq!(
        candidate_seeds(258, &"Ala".to_string()),
        vec![b"candidate_seed".to_vec(), vec![2, 1, 0, 0, 0, 0, 0, 0], b"Ala".to_vec()]
    );
    assert_eq!(
        candidate_seeds(0, &"Łukasz".to_string())[2],
        "Łukasz".as_bytes().to_vec()
    );
    let p = voter(5);
    assert_eq!(vote_seeds(7, &p), vec![b"vote_seed".to_vec(), 7u64.to_le_bytes().to_vec(), vec![5u8; 32]]);
    assert_eq!(manager_seeds(&p), vec![b"manager_seed".to_vec(), vec![5u8; 32]]);
}

#[test]
fn program_address_check_finds_the_derived_address() {
    let seeds = poll_seeds(4);
    let expected = Pubkey::find_program_address(&[b"poll_seed", &4u64.to_le_bytes()], &Pubkey::new_from_array(PROGRAM));
    let r = check_program_address(&seeds, &Address::new(PROGRAM), &Address::new(expected.0.to_bytes()));
    assert_eq!(r, Ok(expected.1));
    let r = check_program_address(&seeds, &Address::new(PROGRAM), &poll_address(5));
    assert_eq!(r, Err(InstructionError::ConstraintSeeds));
}

#[test]
fn program_address_check_refuses_overlong_seeds() {
    let seeds = vec![vec![0u8; 33]];
    let r = check_program_address(&seeds, &Address::new(PROGRAM), &voter(1));
    assert_eq!(r, Err(InstructionError::ConstraintSeeds));
}

#[test]
fn match_derived_compares_addresses() {
    let a = voter(1);
    assert_eq!(match_derived(Some((a, 254)), &a), Ok(254));
    assert_eq!(match_derived(Some((a, 254)), &voter(2)), Err(InstructionError::ConstraintSeeds));
    assert_eq!(match_derived(None, &a), Err(InstructionError::ConstraintSeeds));
}

#[test]
fn tally_picks_a_single_leader() {
    let c = vec![candidate("A", 2), candidate("B", 5), candidate("C", 1)];
    assert_eq!(tally(&c), PollOutcome::Winner { name: "B".to_string(), votes: 5 });
}

#[test]
fn tally_reports_a_tie_at_the_top() {
    let c = vec![candidate("A", 3), candidate("B", 5), candidate("C", 5)];
    assert_eq!(tally(&c), PollOutcome::Tie { votes: 5 });
}

#[test]
fn tally_ignores_a_tie_below_the_top() {
    let c = vec![candidate("A", 2), candidate("B", 2), candidate("C", 3)];
    assert_eq!(tally(&c), PollOutcome::Winner { name: "C".to_string(), votes: 3 });
}

#[test]
fn tally_without_votes() {
    assert_eq!(tally(&vec![candidate("A", 0), candidate("B", 0)]), PollOutcome::NoVotes);
    assert_eq!(tally(&vec![]), PollOutcome::NoVotes);
}

#[test]
fn sweep_moves_every_balance() {
    let mut accounts = vec![10u64, 20, 30];
    assert_eq!(sweep_lamports(5, &mut accounts), 65);
    assert_eq!(accounts, vec![0, 0, 0]);
}

#[test]
fn initialize_poll_sets_every_field() {
    let accounts = InitializePoll { payer: authority(), payer_signed: true, authority: voter(4), poll: poll_address(0), poll_in_use: false };
    let p = initialize_poll(
        &Address::new(PROGRAM),
        &accounts,
        0,
        100,
        200,
        "Wybory".to_string(),
        "Opis".to_string(),
    )
    .unwrap();
    assert_eq!(p.authority, voter(4));
    assert_eq!(p.poll_name, "Wybory");
    assert_eq!(p.poll_description, "Opis");
    assert_eq!((p.start_time, p.end_time, p.poll_option_index), (100, 200, 0));
    assert_eq!(p.winning_candidate, "Jeszcze nie wyłoniono zwycięskiego kandydata");
    assert!(p.fits());
}

#[test]
fn initialize_poll_refuses_a_wrong_address() {
    let accounts = InitializePoll { payer: authority(), payer_signed: true, authority: authority(), poll: poll_address(1), poll_in_use: false };
    let r = initialize_poll(&Address::new(PROGRAM), &accounts, 0, 1, 2, "a".to_string(), "b".to_string());
    assert_eq!(r, Err(InstructionError::ConstraintSeeds));
}

#[test]
fn initialize_poll_refuses_texts_too_long_for_the_account() {
    assert_eq!(POLL_ACCOUNT_SPACE, 336);
    let accounts = InitializePoll { payer: authority(), payer_signed: true, authority: authority(), poll: poll_address(0), poll_in_use: false };
    // 122 fixed bytes with the pending winner's 46: name and description may
    // take 214 bytes together.
    let ok = initialize_poll(&Address::new(PROGRAM), &accounts, 0, 1, 2, "n".repeat(14), "d".repeat(200));
    assert!(ok.is_ok());
    let r = initialize_poll(&Address::new(PROGRAM), &accounts, 0, 1, 2, "n".repeat(15), "d".repeat(200));
    assert_eq!(r, Err(InstructionError::AccountDidNotSerialize));
}

fn candidate_accounts(poll_id: u64, name: &str) -> InitializeCandidate {
    InitializeCandidate {
        authority: authority(),
        authority_signed: true,
        poll: poll_address(poll_id),
        candidate: candidate_address(poll_id, name),
        candidate_in_use: false,
    }
}

#[test]
fn initialize_candidate_before_start() {
    let mut p = poll(100, 200);
    let mut c = candidate("old", 7);
    let r = initialize_candidate(
        &Address::new(PROGRAM),
        &candidate_accounts(3, "Ala"),
        3,
        &mut p,
        &mut c,
        "Ala".to_string(),
        100,
    );
    assert_eq!(r, Ok(()));
    assert_eq!(c, candidate("Ala", 0));
    assert_eq!(p.poll_option_index, 3);
}

#[test]
fn initialize_candidate_after_start_is_refused() {
    let mut p = poll(100, 200);
    let mut c = Candidate::empty();
    let r = initialize_candidate(
        &Address::new(PROGRAM),
        &candidate_accounts(3, "Ala"),
        3,
        &mut p,
        &mut c,
        "Ala".to_string(),
        101,
    );
    assert_eq!(r, Err(InstructionError::Voting(VotingError::AddingCandidateAfterVotingStart)));
    assert_eq!(p, poll(100, 200));
    assert_eq!(c, Candidate::empty());
}

#[test]
fn initialize_candidate_counter_overflow() {
    let mut p = poll(100, 200);
    p.poll_option_index = u64::MAX;
    let mut c = Candidate::empty();
    let r = initialize_candidate(
        &Address::new(PROGRAM),
        &candidate_accounts(3, "Ala"),
        3,
        &mut p,
        &mut c,
        "Ala".to_string(),
        0,
    );
    assert_eq!(r, Err(InstructionError::Voting(VotingError::Overflow)));
    assert_eq!(p.poll_option_index, u64::MAX);
}

#[test]
fn initialize_candidate_refuses_names_longer_than_32_bytes() {
    let mut p = poll(100, 200);
    let mut c = Candidate::empty();
    let accounts = InitializeCandidate {
        authority: authority(),
        authority_signed: true,
        poll: poll_address(3),
        candidate: voter(1),
        candidate_in_use: false,
    };
    let r = initialize_candidate(&Address::new(PROGRAM), &accounts, 3, &mut p, &mut c, "x".repeat(33), 0);
    assert_eq!(r, Err(InstructionError::ConstraintSeeds));
}

fn cast(
    poll_id: u64,
    p: &Poll,
    c: &mut Candidate,
    record: &mut ParticipantVote,
    who: Address,
    name: &str,
    now: i64,
) -> Result<(), InstructionError> {
    vote(&Address::new(PROGRAM), &vote_accounts(poll_id, who, name), poll_id, p, c, record, name.to_string(), now)
}

#[test]
fn vote_counts_once_per_participant() {
    let p = poll(100, 200);
    let mut c = candidate("Ala", 4);
    let mut record = ParticipantVote::empty();
    assert_eq!(cast(2, &p, &mut c, &mut record, voter(1), "Ala", 150), Ok(()));
    assert_eq!(c.candidate_votes, 5);
    assert_eq!(
        record,
        ParticipantVote { participant: voter(1), poll_id: 2, candidate_name: "Ala".to_string(), vote_placed: true }
    );
    let r = cast(2, &p, &mut c, &mut record, voter(1), "Ala", 160);
    assert_eq!(r, Err(InstructionError::Voting(VotingError::VoteHaveBeenPlaced)));
    assert_eq!(c.candidate_votes, 5);
}

#[test]
fn vote_inside_the_period_only() {
    let p = poll(100, 200);
    let mut c = candidate("Ala", 0);
    let mut record = ParticipantVote::empty();
    assert_eq!(
        cast(2, &p, &mut c, &mut record, voter(1), "Ala", 100),
        Err(InstructionError::Voting(VotingError::VotingNotStarted))
    );
    assert_eq!(
        cast(2, &p, &mut c, &mut record, voter(1), "Ala", 201),
        Err(InstructionError::Voting(VotingError::VotingEnded))
    );
    assert_eq!(c.candidate_votes, 0);
    assert_eq!(cast(2, &p, &mut c, &mut record, voter(1), "Ala", 200), Ok(()));
    assert_eq!(c.candidate_votes, 1);
}

#[test]
fn vote_counter_overflow() {
    let p = poll(100, 200);
    let mut c = candidate("Ala", u64::MAX);
    let mut record = ParticipantVote::empty();
    assert_eq!(
        cast(2, &p, &mut c, &mut record, voter(1), "Ala", 150),
        Err(InstructionError::Voting(VotingError::Overflow))
    );
    assert!(!record.vote_placed);
}

#[test]
fn vote_record_cannot_hold_a_long_name() {
    let p = poll(100, 200);
    let name = "n".repeat(21);
    let mut c = candidate(&name, 0);
    let mut record = ParticipantVote::empty();
    assert_eq!(
        cast(2, &p, &mut c, &mut record, voter(1), &name, 150),
        Err(InstructionError::AccountDidNotSerialize)
    );
    assert_eq!(c.candidate_votes, 0);
    assert!(!record.vote_placed);
    let name = "n".repeat(20);
    let mut c = candidate(&name, 0);
    assert_eq!(cast(2, &p, &mut c, &mut record, voter(1), &name, 150), Ok(()));
}

#[test]
fn vote_with_another_participants_record_is_refused() {
    let p = poll(100, 200);
    let mut c = candidate("Ala", 0);
    let mut record = ParticipantVote::empty();
    let mut accounts = vote_accounts(2, voter(1), "Ala");
    accounts.participant_vote = vote_address(2, &voter(2));
    let r = vote(&Address::new(PROGRAM), &accounts, 2, &p, &mut c, &mut record, "Ala".to_string(), 150);
    assert_eq!(r, Err(InstructionError::ConstraintSeeds));
    assert_eq!(c.candidate_votes, 0);
}

fn resolve_accounts(poll_id: u64, signer: Address) -> ResolvePoll {
    ResolvePoll { authority: signer, authority_signed: true, poll: poll_address(poll_id), receiver: voter(8) }
}

#[test]
fn resolve_poll_after_the_end_by_its_authority() {
    let p = poll(100, 200);
    let c = vec![candidate("A", 1), candidate("B", 4)];
    let mut lamports = vec![1000u64, 2000];
    let r = resolve_poll(
        &Address::new(PROGRAM),
        &resolve_accounts(6, authority()),
        6,
        &p,
        201,
        &c,
        &mut lamports,
        500,
        7,
    )
    .unwrap();
    assert_eq!(r.outcome, PollOutcome::Winner { name: "B".to_string(), votes: 4 });
    assert_eq!(r.receiver_lamports, 3507);
    assert_eq!(r.poll_lamports, 0);
    assert_eq!(lamports, vec![0, 0]);
}

#[test]
fn resolve_poll_refused_before_the_end_or_to_others() {
    let p = poll(100, 200);
    let c = vec![candidate("A", 1)];
    let mut lamports = vec![1000u64];
    let r = resolve_poll(&Address::new(PROGRAM), &resolve_accounts(6, authority()), 6, &p, 200, &c, &mut lamports, 1, 1);
    assert_eq!(r, Err(InstructionError::ConstraintRaw));
    let r = resolve_poll(&Address::new(PROGRAM), &resolve_accounts(6, voter(1)), 6, &p, 300, &c, &mut lamports, 1, 1);
    assert_eq!(r, Err(InstructionError::ConstraintRaw));
    let r = resolve_poll(&Address::new(PROGRAM), &resolve_accounts(7, authority()), 6, &p, 300, &c, &mut lamports, 1, 1);
    assert_eq!(r, Err(InstructionError::ConstraintSeeds));
    assert_eq!(lamports, vec![1000]);
}

#[test]
fn candidates_cannot_be_added_while_votes_are_accepted() {
    let p = poll(100, 200);
    for now in [99i64, 100, 101, 150, 200, 201] {
        let mut c = Candidate::empty();
        let mut q = p.clone();
        let added = initialize_candidate(
            &Address::new(PROGRAM),
            &candidate_accounts(3, "Ala"),
            3,
            &mut q,
            &mut c,
            "Ala".to_string(),
            now,
        );
        let mut target = candidate("Ala", 0);
        let mut record = ParticipantVote::empty();
        let voted = cast(3, &p, &mut target, &mut record, voter(1), "Ala", now);
        assert!(!(added.is_ok() && voted.is_ok()), "both accepted at {}", now);
    }
}

#[test]
fn counted_votes_match_distinct_voters() {
    let p = poll(100, 200);
    let mut candidates = vec![candidate("Ala", 0), candidate("Ola", 0)];
    let mut records: Vec<ParticipantVote> = (0..3).map(|_| ParticipantVote::empty()).collect();
    let attempts = [(0usize, 0usize), (1, 1), (0, 1), (2, 0), (1, 0)];
    for (who, k) in attempts {
        let name = candidates[k].candidate_name.clone();
        let _ = cast(2, &p, &mut candidates[k], &mut records[who], voter(who as u8 + 10), &name, 150);
    }
    let total: u64 = candidates.iter().map(|c| c.candidate_votes).sum();
    let voters = records.iter().filter(|r| r.vote_placed).count() as u64;
    assert_eq!(total, 3);
    assert_eq!(voters, 3);
    assert_eq!(candidates[0].candidate_votes, 2);
    assert_eq!(candidates[1].candidate_votes, 1);
}

#[test]
fn initialize_poll_refuses_an_existing_account_or_a_missing_signature() {
    let mut accounts = InitializePoll {
        payer: authority(),
        payer_signed: true,
        authority: authority(),
        poll: poll_address(0),
        poll_in_use: true,
    };
    let r = initialize_poll(&Address::new(PROGRAM), &accounts, 0, 1, 2, "a".to_string(), "b".to_string());
    assert_eq!(r, Err(InstructionError::AccountAlreadyInUse));
    accounts.poll_in_use = false;
    accounts.payer_signed = false;
    let r = initialize_poll(&Address::new(PROGRAM), &accounts, 0, 1, 2, "a".to_string(), "b".to_string());
    assert_eq!(r, Err(InstructionError::AccountNotSigner));
}

#[test]
fn readding_a_candidate_does_not_count_it_again() {
    let mut p = poll(100, 200);
    let mut c = candidate("Anna", 0);
    let accounts = candidate_accounts(3, "Anna");
    assert_eq!(
        initialize_candidate(&Address::new(PROGRAM), &accounts, 3, &mut p, &mut c, "Anna".to_string(), 50),
        Ok(())
    );
    assert_eq!(p.poll_option_index, 3);
    c.candidate_votes = 0;
    let mut again = accounts;
    again.candidate_in_use = true;
    assert_eq!(
        initialize_candidate(&Address::new(PROGRAM), &again, 3, &mut p, &mut c, "Anna".to_string(), 60),
        Ok(())
    );
    assert_eq!(p.poll_option_index, 3);
    assert_eq!(c, candidate("Anna", 0));
}

#[test]
fn initialize_candidate_needs_the_authoritys_signature() {
    let mut p = poll(100, 200);
    let mut c = Candidate::empty();
    let mut accounts = candidate_accounts(3, "Ala");
    accounts.authority_signed = false;
    let r = initialize_candidate(&Address::new(PROGRAM), &accounts, 3, &mut p, &mut c, "Ala".to_string(), 0);
    assert_eq!(r, Err(InstructionError::AccountNotSigner));
    assert_eq!(p.poll_option_index, 2);
}

#[test]
fn vote_needs_the_participants_signature() {
    let p = poll(100, 200);
    let mut c = candidate("Ala", 0);
    let mut record = ParticipantVote::empty();
    let mut accounts = vote_accounts(2, voter(1), "Ala");
    accounts.participant_signed = false;
    let r = vote(&Address::new(PROGRAM), &accounts, 2, &p, &mut c, &mut record, "Ala".to_string(), 150);
    assert_eq!(r, Err(InstructionError::AccountNotSigner));
    assert_eq!(c.candidate_votes, 0);
    assert!(!record.vote_placed);
}

#[test]
fn resolve_poll_needs_the_authoritys_signature() {
    let p = poll(100, 200);
    let c = vec![candidate("A", 1)];
    let mut lamports = vec![1000u64];
    let mut accounts = resolve_accounts(6, authority());
    accounts.authority_signed = false;
    let r = resolve_poll(&Address::new(PROGRAM), &accounts, 6, &p, 300, &c, &mut lamports, 1, 1);
    assert_eq!(r, Err(InstructionError::AccountNotSigner));
    assert_eq!(lamports, vec![1000]);
}

#[test]
fn only_the_polls_authority_adds_candidates() {
    let mut p = poll(100, 200);
    let mut c = Candidate::empty();
    let mut accounts = candidate_accounts(3, "Ala");
    accounts.authority = voter(1);
    let r = initialize_candidate(&Address::new(PROGRAM), &accounts, 3, &mut p, &mut c, "Ala".to_string(), 0);
    assert_eq!(r, Err(InstructionError::ConstraintRaw));
    assert_eq!(p.poll_option_index, 2);
    assert_eq!(c, Candidate::empty());
}

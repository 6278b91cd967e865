use anchor_lang::prelude::Pubkey;
use voting::address::Address;
use voting::error::{InstructionError, VotingError, VotingManagerError};
use voting::state::{Candidate, Manager, PollCounter};
use voting::tally::PollOutcome;
use voting::voting_manager::create_event::{CandidateSlot, CreateEvent};
use voting::voting_manager::initialize_manager::InitializeManager;
use voting::voting_manager::resolve_event::ResolveEvent;
use voting::voting_manager::{create_event, initialize_manager, resolve_event};

const MANAGER_PROGRAM: [u8; 32] = [4u8; 32];
const VOTING_PROGRAM: [u8; 32] = [3u8; 32];

fn pda(seeds: &[&[u8]], program: [u8; 32]) -> Address {
    let (key, _) = Pubkey::find_program_address(seeds, &Pubkey::new_from_array(program));
    Address::new(key.to_bytes())
}

fn admin() -> Address {
    Address::new([9u8; 32])
}

fn manager_address() -> Address {
    pda(&[b"manager_seed", &admin().bytes], MANAGER_PROGRAM)
}

fn poll_address(poll_id: u64) -> Address {
    pda(&[b"poll_seed", &poll_id.to_le_bytes()], VOTING_PROGRAM)
}

fn candidate_address(poll_id: u64, name: &str) -> Address {
    pda(&[b"candidate_seed", &poll_id.to_le_bytes(), name.as_bytes()], VOTING_PROGRAM)
}

fn counter_address() -> Address {
    pda(&[b"poll_counter"], MANAGER_PROGRAM)
}

fn create(
    manager: &mut Manager,
    names: &[&str],
    accounts_for: &[&str],
    start: u64,
    now: i64,
) -> Result<voting::voting_manager::create_event::CreatedEvent, InstructionError> {
    let mut counter = PollCounter { next_poll_id: manager.poll_count };
    create_for(&mut counter, admin(), manager, names, accounts_for, start, now)
}

fn create_for(
    counter: &mut PollCounter,
    administrator: Address,
    manager: &mut Manager,
    names: &[&str],
    accounts_for: &[&str],
    start: u64,
    now: i64,
) -> Result<voting::voting_manager::create_event::CreatedEvent, InstructionError> {
    let poll_id = counter.next_poll_id;
    let accounts = CreateEvent {
        authority: administrator,
        authority_signed: true,
        manager: pda(&[b"manager_seed", &administrator.bytes], MANAGER_PROGRAM),
        poll_counter: counter_address(),
        poll: poll_address(poll_id),
        poll_in_use: false,
    };
    let candidate_accounts: Vec<CandidateSlot> = accounts_for
        .iter()
        .map(|n| CandidateSlot { address: candidate_address(poll_id, n), in_use: false })
        .collect();
    let names: Vec<String> = names.iter().map(|n| n.to_string()).collect();
    create_event(
        &Address::new(MANAGER_PROGRAM),
        &Address::new(VOTING_PROGRAM),
        &accounts,
        counter,
        manager,
        &candidate_accounts,
        start,
        start + 100,
        "Wybory".to_string(),
        "Opis".to_string(),
        &names,
        now,
    )
}

#[test]
fn initialize_manager_starts_counting_at_zero() {
    let mut accounts = InitializeManager {
        authority: admin(),
        authority_signed: true,
        manager: manager_address(),
        manager_in_use: false,
    };
    let m = initialize_manager(&Address::new(MANAGER_PROGRAM), &accounts).unwrap();
    assert_eq!(m, Manager { authority: admin(), poll_count: 0 });
    accounts.manager_in_use = true;
    assert_eq!(initialize_manager(&Address::new(MANAGER_PROGRAM), &accounts), Err(InstructionError::AccountAlreadyInUse));
    accounts.manager_in_use = false;
    accounts.authority_signed = false;
    assert_eq!(initialize_manager(&Address::new(MANAGER_PROGRAM), &accounts), Err(InstructionError::AccountNotSigner));
    accounts.authority_signed = true;
    accounts.manager = admin();
    assert_eq!(initialize_manager(&Address::new(MANAGER_PROGRAM), &accounts), Err(InstructionError::ConstraintSeeds));
}

#[test]
fn create_event_numbers_polls_and_adds_candidates() {
    let mut manager = Manager { authority: admin(), poll_count: 0 };
    let first = create(&mut manager, &["Ala", "Ola"], &["Ala", "Ola"], 1000, 500).unwrap();
    assert_eq!(first.poll_id, 0);
    assert_eq!(first.poll.authority, manager_address());
    assert_eq!(first.poll.poll_option_index, 2);
    assert_eq!(
        first.candidates,
        vec![
            Candidate { candidate_name: "Ala".to_string(), candidate_votes: 0 },
            Candidate { candidate_name: "Ola".to_string(), candidate_votes: 0 },
        ]
    );
    assert_eq!(manager.poll_count, 1);
    let second = create(&mut manager, &["Ela"], &["Ela"], 1000, 500).unwrap();
    assert_eq!(second.poll_id, 1);
    assert_eq!(manager.poll_count, 2);
}

#[test]
fn create_event_candidate_count_mismatch() {
    let mut manager = Manager { authority: admin(), poll_count: 0 };
    let r = create(&mut manager, &["Ala", "Ola"], &["Ala"], 1000, 500);
    assert_eq!(r, Err(InstructionError::Manager(VotingManagerError::CandidateCountMismatch)));
    assert_eq!(manager.poll_count, 0);
}

#[test]
fn create_event_after_start_cannot_add_candidates() {
    let mut manager = Manager { authority: admin(), poll_count: 0 };
    let r = create(&mut manager, &["Ala"], &["Ala"], 1000, 1001);
    assert_eq!(r, Err(InstructionError::Voting(VotingError::AddingCandidateAfterVotingStart)));
    assert_eq!(manager.poll_count, 0);
    let r = create(&mut manager, &[], &[], 1000, 1001).unwrap();
    assert_eq!(r.poll.poll_option_index, 0);
}

#[test]
fn create_event_checks_candidate_addresses() {
    let mut manager = Manager { authority: admin(), poll_count: 0 };
    let r = create(&mut manager, &["Ala", "Ola"], &["Ala", "Ela"], 1000, 500);
    assert_eq!(r, Err(InstructionError::ConstraintSeeds));
    assert_eq!(manager.poll_count, 0);
}

#[test]
fn create_event_counter_overflow() {
    let mut manager = Manager { authority: admin(), poll_count: u64::MAX };
    let r = create(&mut manager, &["Ala"], &["Ala"], 1000, 500);
    assert_eq!(r, Err(InstructionError::Manager(VotingManagerError::Overflow)));
    assert_eq!(manager.poll_count, u64::MAX);
}

#[test]
fn create_event_refuses_a_foreign_manager_account() {
    let mut manager = Manager { authority: admin(), poll_count: 0 };
    let accounts = CreateEvent {
        authority: admin(),
        authority_signed: true,
        manager: admin(),
        poll_counter: counter_address(),
        poll: poll_address(0),
        poll_in_use: false,
    };
    let r = create_event(
        &Address::new(MANAGER_PROGRAM),
        &Address::new(VOTING_PROGRAM),
        &accounts,
        &mut PollCounter::empty(),
        &mut manager,
        &vec![],
        10,
        20,
        "a".to_string(),
        "b".to_string(),
        &vec![],
        0,
    );
    assert_eq!(r, Err(InstructionError::ConstraintSeeds));
}

#[test]
fn resolve_event_resolves_as_the_manager() {
    let mut manager = Manager { authority: admin(), poll_count: 0 };
    let event = create(&mut manager, &["Ala", "Ola"], &["Ala", "Ola"], 1000, 500).unwrap();
    let accounts = ResolveEvent {
        authority: admin(),
        authority_signed: true,
        manager: manager_address(),
        poll: poll_address(0),
    };
    let candidates = vec![
        Candidate { candidate_name: "Ala".to_string(), candidate_votes: 3 },
        Candidate { candidate_name: "Ola".to_string(), candidate_votes: 3 },
    ];
    let mut lamports = vec![10u64, 20];
    let r = resolve_event(
        &Address::new(MANAGER_PROGRAM),
        &Address::new(VOTING_PROGRAM),
        &accounts,
        0,
        &event.poll,
        1101,
        &candidates,
        &mut lamports,
        5,
        100,
    )
    .unwrap();
    assert_eq!(r.outcome, PollOutcome::Tie { votes: 3 });
    assert_eq!(r.receiver_lamports, 135);
    assert_eq!(lamports, vec![0, 0]);
    let early = resolve_event(
        &Address::new(MANAGER_PROGRAM),
        &Address::new(VOTING_PROGRAM),
        &accounts,
        0,
        &event.poll,
        1100,
        &candidates,
        &mut vec![1, 1],
        5,
        100,
    );
    assert_eq!(early, Err(InstructionError::ConstraintRaw));
}

#[test]
fn create_event_counts_a_repeated_candidate_once() {
    let mut manager = Manager { authority: admin(), poll_count: 0 };
    let event = create(&mut manager, &["Ala", "Ala", "Ola"], &["Ala", "Ala", "Ola"], 1000, 500).unwrap();
    assert_eq!(event.poll.poll_option_index, 2);
    assert_eq!(event.candidates.len(), 3);
}

#[test]
fn create_event_refuses_an_existing_poll_account() {
    let mut manager = Manager { authority: admin(), poll_count: 0 };
    let accounts = CreateEvent {
        authority: admin(),
        authority_signed: true,
        manager: manager_address(),
        poll_counter: counter_address(),
        poll: poll_address(0),
        poll_in_use: true,
    };
    let r = create_event(
        &Address::new(MANAGER_PROGRAM),
        &Address::new(VOTING_PROGRAM),
        &accounts,
        &mut PollCounter::empty(),
        &mut manager,
        &vec![],
        10,
        20,
        "a".to_string(),
        "b".to_string(),
        &vec![],
        0,
    );
    assert_eq!(r, Err(InstructionError::AccountAlreadyInUse));
    assert_eq!(manager.poll_count, 0);
}

#[test]
fn create_and_resolve_event_need_the_administrators_signature() {
    let mut manager = Manager { authority: admin(), poll_count: 0 };
    let accounts = CreateEvent {
        authority: admin(),
        authority_signed: false,
        manager: manager_address(),
        poll_counter: counter_address(),
        poll: poll_address(0),
        poll_in_use: false,
    };
    let r = create_event(
        &Address::new(MANAGER_PROGRAM),
        &Address::new(VOTING_PROGRAM),
        &accounts,
        &mut PollCounter::empty(),
        &mut manager,
        &vec![],
        10,
        20,
        "a".to_string(),
        "b".to_string(),
        &vec![],
        0,
    );
    assert_eq!(r, Err(InstructionError::AccountNotSigner));
    let event = create(&mut manager, &[], &[], 1000, 500).unwrap();
    let accounts = ResolveEvent {
        authority: admin(),
        authority_signed: false,
        manager: manager_address(),
        poll: poll_address(0),
    };
    let mut lamports: Vec<u64> = vec![];
    let r = resolve_event(
        &Address::new(MANAGER_PROGRAM),
        &Address::new(VOTING_PROGRAM),
        &accounts,
        0,
        &event.poll,
        2000,
        &vec![],
        &mut lamports,
        5,
        100,
    );
    assert_eq!(r, Err(InstructionError::AccountNotSigner));
}

#[test]
fn another_administrator_cannot_resolve_the_poll() {
    let mut manager = Manager { authority: admin(), poll_count: 0 };
    let event = create(&mut manager, &[], &[], 1000, 500).unwrap();
    let other = Address::new([8u8; 32]);
    let other_manager = pda(&[b"manager_seed", &other.bytes], MANAGER_PROGRAM);
    let accounts = ResolveEvent { authority: other, authority_signed: true, manager: other_manager, poll: poll_address(0) };
    let mut lamports: Vec<u64> = vec![];
    let r = resolve_event(
        &Address::new(MANAGER_PROGRAM),
        &Address::new(VOTING_PROGRAM),
        &accounts,
        0,
        &event.poll,
        2000,
        &vec![],
        &mut lamports,
        5,
        100,
    );
    assert_eq!(r, Err(InstructionError::ConstraintRaw));
}

#[test]
fn polls_of_different_administrators_get_different_ids() {
    let mut counter = PollCounter::empty();
    let first_admin = admin();
    let second_admin = Address::new([7u8; 32]);
    let mut first = Manager { authority: first_admin, poll_count: 0 };
    let mut second = Manager { authority: second_admin, poll_count: 0 };
    let a = create_for(&mut counter, first_admin, &mut first, &["Ala"], &["Ala"], 1000, 500).unwrap();
    let b = create_for(&mut counter, second_admin, &mut second, &["Ola"], &["Ola"], 1000, 500).unwrap();
    let c = create_for(&mut counter, first_admin, &mut first, &[], &[], 1000, 500).unwrap();
    assert_eq!((a.poll_id, b.poll_id, c.poll_id), (0, 1, 2));
    assert_eq!(counter.next_poll_id, 3);
    assert_eq!((first.poll_count, second.poll_count), (2, 1));
    assert_eq!(b.poll.authority, pda(&[b"manager_seed", &second_admin.bytes], MANAGER_PROGRAM));
}

#[test]
fn create_event_refuses_a_wrong_counter_account() {
    let mut manager = Manager { authority: admin(), poll_count: 0 };
    let accounts = CreateEvent {
        authority: admin(),
        authority_signed: true,
        manager: manager_address(),
        poll_counter: admin(),
        poll: poll_address(0),
        poll_in_use: false,
    };
    let r = create_event(
        &Address::new(MANAGER_PROGRAM),
        &Address::new(VOTING_PROGRAM),
        &accounts,
        &mut PollCounter::empty(),
        &mut manager,
        &vec![],
        10,
        20,
        "a".to_string(),
        "b".to_string(),
        &vec![],
        0,
    );
    assert_eq!(r, Err(InstructionError::ConstraintSeeds));
}

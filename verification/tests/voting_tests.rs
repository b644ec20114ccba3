use sol_programs::address::Address;
use sol_programs::voting::{
    create_state, create_voter, create_voting, declare_winner, get_winner, give_vote,
    set_max_participants, Error, State, Voter, Voting,
};

fn addr(n: u8) -> Address {
    Address::new([n; 32])
}

fn registry(owner: u8, max: u32) -> State {
    State { owner: addr(owner), voting_systems_addresses: Vec::new(), max_participants: max }
}

fn empty_voting() -> Voting {
    Voting {
        creator: Address::default(),
        start_time: 0,
        end_time: 0,
        participants: Vec::new(),
        participants_votes: Vec::new(),
        winner: Address::default(),
    }
}

fn running_voting(votes: Vec<i32>) -> Voting {
    Voting {
        creator: addr(9),
        start_time: 100,
        end_time: 200,
        participants: vec![addr(1), addr(2)],
        participants_votes: votes,
        winner: Address::default(),
    }
}

#[test]
fn create_state_sets_owner_and_cap() {
    let mut state = registry(0, 0);
    create_state(&mut state, addr(7), 5);
    assert_eq!(state.owner, addr(7));
    assert_eq!(state.max_participants, 5);
    assert!(state.voting_systems_addresses.is_empty());
}

#[test]
fn create_voter_sets_creator() {
    let mut voter = Voter { creator: Address::default(), voted_in: Vec::new() };
    create_voter(&mut voter, addr(3));
    assert_eq!(voter.creator, addr(3));
    assert!(voter.voted_in.is_empty());
}

#[test]
fn create_voting_records_voting_and_registry() {
    let mut state = registry(7, 3);
    let mut voting = empty_voting();
    let r = create_voting(&mut voting, &mut state, addr(9), addr(50), 100, 200, vec![addr(1), addr(2)], 50);
    assert_eq!(r, Ok(()));
    assert_eq!(voting.creator, addr(9));
    assert_eq!(voting.start_time, 100);
    assert_eq!(voting.end_time, 200);
    assert_eq!(voting.participants, vec![addr(1), addr(2)]);
    assert!(voting.participants_votes.is_empty());
    assert_eq!(state.voting_systems_addresses, vec![addr(50)]);
}

#[test]
fn create_voting_start_after_end() {
    let mut state = registry(7, 3);
    let mut voting = empty_voting();
    let r = create_voting(&mut voting, &mut state, addr(9), addr(50), 200, 200, vec![addr(1)], 50);
    assert_eq!(r, Err(Error::StartTimeIsGreater));
    assert!(state.voting_systems_addresses.is_empty());
    assert_eq!(voting.creator, Address::default());
}

#[test]
fn create_voting_start_not_in_future() {
    let mut state = registry(7, 3);
    let mut voting = empty_voting();
    let r = create_voting(&mut voting, &mut state, addr(9), addr(50), 100, 200, vec![addr(1)], 100);
    assert_eq!(r, Err(Error::GreaterThanCurrentTime));
}

#[test]
fn create_voting_too_many_participants() {
    let mut state = registry(7, 2);
    let mut voting = empty_voting();
    let r = create_voting(&mut voting, &mut state, addr(9), addr(50), 100, 200, vec![addr(1), addr(2), addr(3)], 50);
    assert_eq!(r, Err(Error::MaxParticipantsExceeds));
}

#[test]
fn create_voting_duplicate_participant() {
    let mut state = registry(7, 5);
    let mut voting = empty_voting();
    let r = create_voting(&mut voting, &mut state, addr(9), addr(50), 100, 200, vec![addr(1), addr(2), addr(1)], 50);
    assert_eq!(r, Err(Error::DuplicateParticipantAddress));
    assert!(state.voting_systems_addresses.is_empty());
}

#[test]
fn give_vote_counts_and_records() {
    let mut voter = Voter { creator: addr(4), voted_in: Vec::new() };
    let mut voting = running_voting(vec![0, 0]);
    let r = give_vote(&mut voter, &mut voting, addr(50), 1, 150);
    assert_eq!(r, Ok(()));
    assert_eq!(voting.participants_votes, vec![0, 1]);
    assert_eq!(voter.voted_in, vec![addr(50)]);
}

#[test]
fn give_vote_not_started() {
    let mut voter = Voter { creator: addr(4), voted_in: Vec::new() };
    let mut voting = running_voting(vec![0, 0]);
    assert_eq!(give_vote(&mut voter, &mut voting, addr(50), 0, 99), Err(Error::VotingNotStarted));
    assert_eq!(voting.participants_votes, vec![0, 0]);
}

#[test]
fn give_vote_ended() {
    let mut voter = Voter { creator: addr(4), voted_in: Vec::new() };
    let mut voting = running_voting(vec![0, 0]);
    assert_eq!(give_vote(&mut voter, &mut voting, addr(50), 0, 200), Err(Error::VotingEnded));
}

#[test]
fn give_vote_twice_refused() {
    let mut voter = Voter { creator: addr(4), voted_in: vec![addr(60)] };
    let mut voting = running_voting(vec![0, 0]);
    assert_eq!(give_vote(&mut voter, &mut voting, addr(50), 0, 150), Ok(()));
    assert_eq!(give_vote(&mut voter, &mut voting, addr(50), 0, 160), Err(Error::AlreadyVoted));
    assert_eq!(voting.participants_votes, vec![1, 0]);
    assert_eq!(voter.voted_in, vec![addr(60), addr(50)]);
}

#[test]
fn give_vote_first_recorded_voting_is_not_found() {
    let mut voter = Voter { creator: addr(4), voted_in: Vec::new() };
    let mut voting = running_voting(vec![0, 0]);
    assert_eq!(give_vote(&mut voter, &mut voting, addr(50), 0, 150), Ok(()));
    assert_eq!(give_vote(&mut voter, &mut voting, addr(50), 0, 160), Ok(()));
    assert_eq!(voting.participants_votes, vec![2, 0]);
}

#[test]
fn vote_adds_one_to_total() {
    let mut voter = Voter { creator: addr(4), voted_in: Vec::new() };
    let mut voting = running_voting(vec![3, 4]);
    let before: i32 = voting.participants_votes.iter().sum();
    give_vote(&mut voter, &mut voting, addr(50), 1, 150).unwrap();
    let after: i32 = voting.participants_votes.iter().sum();
    assert_eq!(after, before + 1);
}

#[test]
fn get_winner_scans_as_the_program_does() {
    assert_eq!(get_winner(&vec![]), Some(0));
    assert_eq!(get_winner(&vec![5]), Some(0));
    assert_eq!(get_winner(&vec![3, 1]), Some(0));
    assert_eq!(get_winner(&vec![1, 3, 2, 5]), Some(2));
    assert_eq!(get_winner(&vec![0, 4]), Some(0));
}

#[test]
fn declare_winner_only_creator() {
    let mut voting = running_voting(vec![0, 4]);
    assert_eq!(declare_winner(&mut voting, addr(8), 300), Err(Error::OnlyOwner));
    assert_eq!(voting.winner, Address::default());
}

#[test]
fn declare_winner_not_started() {
    let mut voting = running_voting(vec![0, 4]);
    assert_eq!(declare_winner(&mut voting, addr(9), 50), Err(Error::VotingNotStarted));
}

#[test]
fn declare_winner_not_ended() {
    let mut voting = running_voting(vec![0, 4]);
    assert_eq!(declare_winner(&mut voting, addr(9), 200), Err(Error::VotingNotEnded));
}

#[test]
fn declare_winner_takes_scanned_participant() {
    let mut voting = running_voting(vec![0, 4]);
    assert_eq!(declare_winner(&mut voting, addr(9), 201), Ok(()));
    assert_eq!(voting.winner, addr(1));
    let mut voting = running_voting(vec![1, 0]);
    assert_eq!(declare_winner(&mut voting, addr(9), 201), Ok(()));
    assert_eq!(voting.winner, addr(1));
}

#[test]
fn set_max_participants_owner_only() {
    let mut state = registry(7, 3);
    assert_eq!(set_max_participants(&mut state, addr(8), 10), Err(Error::OnlyOwner));
    assert_eq!(state.max_participants, 3);
    assert_eq!(set_max_participants(&mut state, addr(7), 10), Ok(()));
    assert_eq!(state.max_participants, 10);
}

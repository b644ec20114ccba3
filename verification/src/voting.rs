//! A voting program: an owner keeps a registry of votings with a cap on
//! the number of participants; voters vote while a voting runs, and a
//! second vote in the same voting is refused unless that voting is the first
//! entry of the voter's record (the program looks votings up by position
//! and treats position 0 as "not found"); the creator of a voting declares
//! its winner after it has ended.
use vstd::prelude::*;

use crate::address::{Address, all_distinct, position_of, position_or_zero_is_zero};

verus! {

/// The registry account.
pub struct State {
    pub owner: Address,
    pub voting_systems_addresses: Vec<Address>,
    pub max_participants: u32,
}

/// One voting.
pub struct Voting {
    pub creator: Address,
    pub start_time: i64,
    pub end_time: i64,
    pub participants: Vec<Address>,
    pub participants_votes: Vec<i32>,
    pub winner: Address,
}

/// A voter and the votings it has voted in.
pub struct Voter {
    pub creator: Address,
    pub voted_in: Vec<Address>,
}

/// The program's errors.
#[derive(Clone, Copy, Debug, PartialEq, Eq, Structural)]
pub enum Error {
    OnlyOwner,
    GreaterThanCurrentTime,
    StartTimeIsGreater,
    MaxParticipantsExceeds,
    ParticipantAddressRepeated,
    DuplicateParticipantAddress,
    VotingNotStarted,
    VotingEnded,
    AlreadyVoted,
    VotingNotEnded,
    NoOneIsWinner,
}

/// Makes `signer` the owner of a fresh registry with the given cap.
pub fn create_state(state: &mut State, signer: Address, max_participants: u32)
    ensures
        final(state).owner == signer,
        final(state).max_participants == max_participants,
        final(state).voting_systems_addresses@ == old(state).voting_systems_addresses@,
{
    state.owner = signer;
    state.max_participants = max_participants;
}

/// Makes `signer` the creator of a fresh voter account.
pub fn create_voter(voter: &mut Voter, signer: Address)
    ensures
        final(voter).creator == signer,
        final(voter).voted_in@ == old(voter).voted_in@,
{
    voter.creator = signer;
}

/// What `create_voting` answers: the first condition that fails, in the
/// program's order, or success.
pub open spec fn create_voting_outcome(
    max_participants: u32,
    start_time: i64,
    end_time: i64,
    participants: Seq<Address>,
    now: i64,
) -> Result<(), Error> {
    if !(start_time < end_time) {
        Err(Error::StartTimeIsGreater)
    } else if !(start_time > now) {
        Err(Error::GreaterThanCurrentTime)
    } else if !((participants.len() as u32) <= max_participants) {
        Err(Error::MaxParticipantsExceeds)
    } else if !all_distinct(participants) {
        Err(Error::DuplicateParticipantAddress)
    } else {
        Ok(())
    }
}

/// Whether no participant occurs twice: the program's nested scan, which
/// fails on the second match of some participant.
fn participants_unique(participants: &Vec<Address>) -> (r: bool)
    ensures
        r == all_distinct(participants@),
{
    let n = participants.len();
    let mut i: usize = 0;
    while i < n
        invariant
            n == participants@.len(),
            i <= n,
            forall|a: int, b: int|
                0 <= a < i && 0 <= b < n && a != b ==> participants@[a] != participants@[b],
        decreases n - i,
    {
        let mut total_keys: i32 = 0;
        let mut j: usize = 0;
        while j < n
            invariant
                n == participants@.len(),
                i < n,
                j <= n,
                total_keys == 0 || total_keys == 1,
                (total_keys == 1) == (exists|b: int|
                    0 <= b < j && participants@[b] == participants@[i as int]),
                forall|b1: int, b2: int|
                    0 <= b1 < j && 0 <= b2 < j && participants@[b1] == participants@[i as int]
                        && participants@[b2] == participants@[i as int] ==> b1 == b2,
            decreases n - j,
        {
            if participants[i].equals(&participants[j]) {
                if total_keys == 1 {
                    let ghost b = choose|b: int|
                        0 <= b < j && participants@[b] == participants@[i as int];
                    assert(participants@[b] == participants@[j as int]);
                    return false;
                } else {
                    total_keys = 1;
                }
            }
            j += 1;
        }
        assert forall|b: int| 0 <= b < n && b != i implies participants@[i as int]
            != participants@[b] by {
            assert(participants@[i as int] == participants@[i as int]);
        }
        i += 1;
    }
    true
}

/// Checks a new voting against the registry and the clock; on success
/// records it in `voting`, and appends its address to the registry.
pub fn create_voting(
    voting: &mut Voting,
    state: &mut State,
    signer: Address,
    new_voting_address: Address,
    start_time: i64,
    end_time: i64,
    participants: Vec<Address>,
    now: i64,
) -> (r: Result<(), Error>)
    ensures
        r == create_voting_outcome(
            old(state).max_participants,
            start_time,
            end_time,
            participants@,
            now,
        ),
        r is Ok ==> {
            &&& final(voting).creator == signer
            &&& final(voting).start_time == start_time
            &&& final(voting).end_time == end_time
            &&& final(voting).participants@ == participants@
            &&& final(voting).participants_votes@ == old(voting).participants_votes@
            &&& final(voting).winner == old(voting).winner
            &&& final(state).owner == old(state).owner
            &&& final(state).max_participants == old(state).max_participants
            &&& final(state).voting_systems_addresses@
                == old(state).voting_systems_addresses@.push(new_voting_address)
        },
        r is Err ==> *final(voting) == *old(voting) && *final(state) == *old(state),
{
    if !(start_time < end_time) {
        return Err(Error::StartTimeIsGreater);
    }
    if !(start_time > now) {
        return Err(Error::GreaterThanCurrentTime);
    }
    let total_participants = participants.len() as u32;
    if !(total_participants <= state.max_participants) {
        return Err(Error::MaxParticipantsExceeds);
    }
    if !participants_unique(&participants) {
        return Err(Error::DuplicateParticipantAddress);
    }
    voting.creator = signer;
    voting.start_time = start_time;
    voting.end_time = end_time;
    voting.participants = participants;
    state.voting_systems_addresses.push(new_voting_address);
    Ok(())
}

/// What `give_vote` answers.
pub open spec fn give_vote_outcome(
    voted_in: Seq<Address>,
    start_time: i64,
    end_time: i64,
    voting_key: Address,
    now: i64,
) -> Result<(), Error> {
    if !(start_time <= now) {
        Err(Error::VotingNotStarted)
    } else if !(end_time > now) {
        Err(Error::VotingEnded)
    } else if !position_or_zero_is_zero(voted_in, voting_key) {
        Err(Error::AlreadyVoted)
    } else {
        Ok(())
    }
}

/// The checks of `give_vote`, in the program's order.
pub fn check_give_vote(voter: &Voter, voting: &Voting, voting_key: Address, now: i64) -> (r: Result<
    (),
    Error,
>)
    ensures
        r == give_vote_outcome(voter.voted_in@, voting.start_time, voting.end_time, voting_key, now),
{
    if !(voting.start_time <= now) {
        return Err(Error::VotingNotStarted);
    }
    if !(voting.end_time > now) {
        return Err(Error::VotingEnded);
    }
    let voting_address_index: usize = match position_of(&voter.voted_in, &voting_key) {
        Some(i) => i,
        None => 0,
    };
    if !(voting_address_index == 0) {
        return Err(Error::AlreadyVoted);
    }
    Ok(())
}

/// Casts a vote in the voting at `voting_key` for the participant at
/// `participant_address_index`. The voter is refused when its first
/// recorded voting other than at position 0 is this one (the program looks
/// the voting up by position and treats position 0 as "not found").
pub fn give_vote(
    voter: &mut Voter,
    voting: &mut Voting,
    voting_key: Address,
    participant_address_index: i32,
    now: i64,
) -> (r: Result<(), Error>)
    requires
        give_vote_outcome(
            old(voter).voted_in@,
            old(voting).start_time,
            old(voting).end_time,
            voting_key,
            now,
        ) is Ok ==> {
            &&& 0 <= participant_address_index
            &&& participant_address_index < old(voting).participants_votes@.len()
            &&& old(voting).participants_votes@[participant_address_index as int] < i32::MAX
        },
    ensures
        r == give_vote_outcome(
            old(voter).voted_in@,
            old(voting).start_time,
            old(voting).end_time,
            voting_key,
            now,
        ),
        r is Ok ==> {
            &&& final(voter).creator == old(voter).creator
            &&& final(voter).voted_in@ == old(voter).voted_in@.push(voting_key)
            &&& final(voting).participants_votes@ == old(voting).participants_votes@.update(
                participant_address_index as int,
                (old(voting).participants_votes@[participant_address_index as int] + 1) as i32,
            )
            &&& final(voting).creator == old(voting).creator
            &&& final(voting).start_time == old(voting).start_time
            &&& final(voting).end_time == old(voting).end_time
            &&& final(voting).participants@ == old(voting).participants@
            &&& final(voting).winner == old(voting).winner
        },
        r is Err ==> *final(voter) == *old(voter) && *final(voting) == *old(voting),
{
    if let Err(e) = check_give_vote(voter, voting, voting_key, now) {
        return Err(e);
    }
    voter.voted_in.push(voting_key);
    let idx = participant_address_index as usize;
    let votes = voting.participants_votes[idx] + 1;
    voting.participants_votes.set(idx, votes);
    Ok(())
}

/// The state of the program's scan for a winner after the first `n` tallies:
/// the chosen index and the count of times the choice changed.
pub open spec fn winner_scan(votes: Seq<i32>, n: nat) -> (int, int)
    decreases n,
{
    if n == 0 {
        (0, 0)
    } else {
        let prev = winner_scan(votes, (n - 1) as nat);
        if votes[prev.0] < votes[n - 1] {
            (prev.1, prev.1 + 1)
        } else {
            prev
        }
    }
}

/// The index that the program's scan over all tallies settles on.
pub open spec fn winner_index(votes: Seq<i32>) -> int {
    winner_scan(votes, votes.len()).0
}

/// The scan's index stays inside the tallies it has read, and trails its
/// change count by one once it has changed.
pub proof fn lemma_winner_scan_bounds(votes: Seq<i32>, n: nat)
    requires
        n <= votes.len(),
    ensures
        0 <= winner_scan(votes, n).1 <= n,
        winner_scan(votes, n).1 == 0 ==> winner_scan(votes, n).0 == 0,
        winner_scan(votes, n).1 > 0 ==> winner_scan(votes, n).0 == winner_scan(votes, n).1 - 1,
        n > 0 ==> 0 <= winner_scan(votes, n).0 < n,
    decreases n,
{
    if n > 0 {
        lemma_winner_scan_bounds(votes, (n - 1) as nat);
    }
}

/// Scans the tallies for a winner. It always answers `Some`, with an index
/// inside the tallies when there are any (0 otherwise).
pub fn get_winner(participants: &Vec<i32>) -> (r: Option<usize>)
    ensures
        r is Some,
        r->0 == winner_index(participants@),
        participants@.len() == 0 ==> winner_index(participants@) == 0,
        participants@.len() > 0 ==> 0 <= winner_index(participants@) < participants@.len(),
{
    let mut winner_address_index: usize = 0;
    let mut i: usize = 0;
    let mut k: usize = 0;
    while k < participants.len()
        invariant
            k <= participants@.len(),
            winner_address_index == winner_scan(participants@, k as nat).0,
            i == winner_scan(participants@, k as nat).1,
        decreases participants@.len() - k,
    {
        proof {
            lemma_winner_scan_bounds(participants@, k as nat);
        }
        let total_votes = participants[k];
        if participants[winner_address_index] < total_votes {
            winner_address_index = i;
            i += 1;
        }
        k += 1;
    }
    proof {
        lemma_winner_scan_bounds(participants@, participants@.len());
    }
    Some(winner_address_index)
}

/// What `declare_winner` answers.
pub open spec fn declare_winner_outcome(
    creator: Address,
    start_time: i64,
    end_time: i64,
    signer: Address,
    now: i64,
) -> Result<(), Error> {
    if !(creator == signer) {
        Err(Error::OnlyOwner)
    } else if !(start_time <= now) {
        Err(Error::VotingNotStarted)
    } else if !(end_time < now) {
        Err(Error::VotingNotEnded)
    } else {
        Ok(())
    }
}

/// The checks of `declare_winner`, in the program's order.
pub fn check_declare_winner(voting: &Voting, signer: Address, now: i64) -> (r: Result<(), Error>)
    ensures
        r == declare_winner_outcome(voting.creator, voting.start_time, voting.end_time, signer, now),
{
    if !voting.creator.equals(&signer) {
        return Err(Error::OnlyOwner);
    }
    if !(voting.start_time <= now) {
        return Err(Error::VotingNotStarted);
    }
    if !(voting.end_time < now) {
        return Err(Error::VotingNotEnded);
    }
    Ok(())
}

/// Lets the creator declare the winner once the voting has ended: the
/// participant at the index that `get_winner` picks from the tallies.
pub fn declare_winner(voting: &mut Voting, signer: Address, now: i64) -> (r: Result<(), Error>)
    requires
        declare_winner_outcome(
            old(voting).creator,
            old(voting).start_time,
            old(voting).end_time,
            signer,
            now,
        ) is Ok ==> winner_index(old(voting).participants_votes@)
            < old(voting).participants@.len(),
    ensures
        r == declare_winner_outcome(
            old(voting).creator,
            old(voting).start_time,
            old(voting).end_time,
            signer,
            now,
        ),
        r is Ok ==> {
            &&& final(voting).winner == old(voting).participants@[winner_index(
                old(voting).participants_votes@,
            )]
            &&& final(voting).creator == old(voting).creator
            &&& final(voting).start_time == old(voting).start_time
            &&& final(voting).end_time == old(voting).end_time
            &&& final(voting).participants@ == old(voting).participants@
            &&& final(voting).participants_votes@ == old(voting).participants_votes@
        },
        r is Err ==> *final(voting) == *old(voting),
{
    if let Err(e) = check_declare_winner(voting, signer, now) {
        return Err(e);
    }
    match get_winner(&voting.participants_votes) {
        Some(winner_address_index) => {
            voting.winner = voting.participants[winner_address_index];
        },
        None => {
            return Err(Error::NoOneIsWinner);
        },
    }
    Ok(())
}

/// Lets the owner change the cap on participants.
pub fn set_max_participants(state: &mut State, signer: Address, new_max_participants_number: u32) -> (r:
    Result<(), Error>)
    ensures
        r is Ok <==> signer == old(state).owner,
        r is Err ==> r == Err::<(), Error>(Error::OnlyOwner) && *final(state) == *old(state),
        r is Ok ==> {
            &&& final(state).max_participants == new_max_participants_number
            &&& final(state).owner == old(state).owner
            &&& final(state).voting_systems_addresses@ == old(state).voting_systems_addresses@
        },
{
    if !signer.equals(&state.owner) {
        return Err(Error::OnlyOwner);
    }
    state.max_participants = new_max_participants_number;
    Ok(())
}

/// The sum of the tallies.
pub open spec fn total_votes(votes: Seq<i32>) -> int
    decreases votes.len(),
{
    if votes.len() == 0 {
        0
    } else {
        total_votes(votes.drop_last()) + votes.last()
    }
}

/// Each accepted vote adds exactly one to the sum of the tallies.
pub proof fn lemma_vote_adds_one(votes: Seq<i32>, idx: int)
    requires
        0 <= idx < votes.len(),
        votes[idx] < i32::MAX,
    ensures
        total_votes(votes.update(idx, (votes[idx] + 1) as i32)) == total_votes(votes) + 1,
    decreases votes.len(),
{
    let updated = votes.update(idx, (votes[idx] + 1) as i32);
    if idx == votes.len() - 1 {
        assert(updated.drop_last() =~= votes.drop_last());
    } else {
        lemma_vote_adds_one(votes.drop_last(), idx);
        assert(updated.drop_last() =~= votes.drop_last().update(idx, (votes[idx] + 1) as i32));
    }
}

/// Once a voter has voted in a running voting, a second vote there is
/// refused with `AlreadyVoted` (this needs the voter's record to have held
/// another voting first: a voting recorded at position 0 is not found).
pub proof fn lemma_second_vote_refused(
    voted_in: Seq<Address>,
    voting_key: Address,
    start_time: i64,
    end_time: i64,
    first_now: i64,
    now: i64,
)
    requires
        give_vote_outcome(voted_in, start_time, end_time, voting_key, first_now) is Ok,
        voted_in.len() > 0,
        voted_in[0] != voting_key,
        start_time <= now,
        end_time > now,
    ensures
        give_vote_outcome(voted_in.push(voting_key), start_time, end_time, voting_key, now)
            == Err::<(), Error>(Error::AlreadyVoted),
{
    assert(voted_in.push(voting_key)[voted_in.len() as int] == voting_key);
}

/// A declared winner is one of the voting's participants.
pub proof fn lemma_winner_is_participant(participants: Seq<Address>, votes: Seq<i32>)
    requires
        winner_index(votes) < participants.len(),
    ensures
        participants.contains(participants[winner_index(votes)]),
{
    lemma_winner_scan_bounds(votes, votes.len());
}

/// A chosen participant keeps the win while the tallies that follow are no
/// larger than its own: a later tally replaces the choice only when it is
/// strictly larger than the tally at the current choice (not than some
/// fixed tally), and equal tallies never move it.
pub proof fn lemma_winner_stays_while_not_beaten(votes: Seq<i32>, n: nat, m: nat)
    requires
        n <= m <= votes.len(),
        forall|k: int| n <= k < m ==> #[trigger] votes[k] <= votes[winner_scan(votes, n).0],
    ensures
        winner_scan(votes, m).0 == winner_scan(votes, n).0,
        winner_scan(votes, m).1 == winner_scan(votes, n).1,
    decreases m - n,
{
    if m > n {
        lemma_winner_stays_while_not_beaten(votes, n, (m - 1) as nat);
    }
}

/// The choice moves only on a tally strictly larger than the tally at the
/// choice it leaves.
pub proof fn lemma_winner_moves_only_when_beaten(votes: Seq<i32>, n: nat)
    requires
        n < votes.len(),
        winner_scan(votes, n + 1).0 != winner_scan(votes, n).0,
    ensures
        votes[winner_scan(votes, n).0] < votes[n as int],
{
}

/// When the first participant's tally is at least every other tally, the
/// first participant wins; and once the choice holds the strictly largest
/// tally read so far, no later tally that is not larger displaces it.
pub proof fn lemma_leader_holds(votes: Seq<i32>, n: nat)
    requires
        n <= votes.len(),
        forall|k: int| n <= k < votes.len() ==> #[trigger] votes[k] <= votes[winner_scan(votes, n).0],
    ensures
        winner_index(votes) == winner_scan(votes, n).0,
{
    lemma_winner_stays_while_not_beaten(votes, n, votes.len());
}

/// A vote in a running voting is refused with `AlreadyVoted` whenever the
/// voting occurs in the voter's record at some position after the first,
/// unless the record starts with it; it is accepted when the record does
/// not hold the voting at all.
pub proof fn lemma_vote_refused_when_recorded(
    voted_in: Seq<Address>,
    voting_key: Address,
    start_time: i64,
    end_time: i64,
    now: i64,
    i: int,
)
    requires
        start_time <= now,
        end_time > now,
    ensures
        0 < i < voted_in.len() && voted_in[i] == voting_key && voted_in[0] != voting_key
            ==> give_vote_outcome(voted_in, start_time, end_time, voting_key, now) == Err::<
            (),
            Error,
        >(Error::AlreadyVoted),
        (forall|j: int| 0 <= j < voted_in.len() ==> voted_in[j] != voting_key) ==> give_vote_outcome(
            voted_in,
            start_time,
            end_time,
            voting_key,
            now,
        ) == Ok::<(), Error>(()),
{
    if 0 < i < voted_in.len() && voted_in[i] == voting_key {
        assert(voted_in.contains(voting_key));
    }
}

/// A vote is refused before the voting starts and once it has ended.
pub proof fn lemma_vote_only_while_running(
    voted_in: Seq<Address>,
    voting_key: Address,
    start_time: i64,
    end_time: i64,
    now: i64,
)
    ensures
        now < start_time ==> give_vote_outcome(voted_in, start_time, end_time, voting_key, now)
            == Err::<(), Error>(Error::VotingNotStarted),
        start_time <= now && end_time <= now ==> give_vote_outcome(
            voted_in,
            start_time,
            end_time,
            voting_key,
            now,
        ) == Err::<(), Error>(Error::VotingEnded),
{
}

/// A voting is created only with pairwise distinct participants: two equal
/// participants at different positions always refuse it, and with the
/// times and the cap in order they refuse it with
/// `DuplicateParticipantAddress`.
pub proof fn lemma_created_voting_has_distinct_participants(
    max_participants: u32,
    start_time: i64,
    end_time: i64,
    participants: Seq<Address>,
    now: i64,
    i: int,
    j: int,
)
    ensures
        create_voting_outcome(max_participants, start_time, end_time, participants, now) is Ok
            ==> forall|a: int, b: int|
            0 <= a < participants.len() && 0 <= b < participants.len() && a != b
                ==> participants[a] != participants[b],
        0 <= i < participants.len() && 0 <= j < participants.len() && i != j && participants[i]
            == participants[j] ==> create_voting_outcome(
            max_participants,
            start_time,
            end_time,
            participants,
            now,
        ) is Err,
        0 <= i < participants.len() && 0 <= j < participants.len() && i != j && participants[i]
            == participants[j] && start_time < end_time && start_time > now && (participants.len() as u32)
            <= max_participants ==> create_voting_outcome(
            max_participants,
            start_time,
            end_time,
            participants,
            now,
        ) == Err::<(), Error>(Error::DuplicateParticipantAddress),
{
}

/// The winner is declared only by the voting's creator, and only after the
/// voting has ended.
pub proof fn lemma_declare_only_after_end(
    creator: Address,
    start_time: i64,
    end_time: i64,
    signer: Address,
    now: i64,
)
    ensures
        declare_winner_outcome(creator, start_time, end_time, signer, now) is Ok ==> signer
            == creator && start_time <= now && end_time < now,
{
}

} // verus!

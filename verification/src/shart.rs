//! A pooled game ("shart"): a maker opens a pot with a stake and a list of
//! addresses that may join; each joiner adds the same stake; after the end
//! time a winner is drawn from the clock, and the winner withdraws while
//! the maker takes a share. The program looks addresses up by position and
//! treats position 0 as "not found": the first listed address can never
//! join, and a pot that is the first entry of a user's joined list can be
//! joined again by that user.
use vstd::prelude::*;

use crate::address::{Address, Transfer, all_distinct, position_of, position_or_zero_is_zero};
use crate::constraint::HandlerError;

verus! {

/// A user account: its owner, how many pots it opened, the pots it joined.
pub struct User {
    pub authority: Address,
    pub total_sharts_created: u32,
    pub joined_sharts: Vec<Address>,
}

/// A pot.
pub struct Shart {
    pub maker: Address,
    pub maker_shares: u8,
    pub can_participate: Vec<Address>,
    pub participants: Vec<Address>,
    pub amount: u64,
    pub start_time: u64,
    pub end_time: u64,
    pub winner: Address,
    pub is_withdrawed: bool,
}

/// The program's errors.
#[derive(Clone, Copy, Debug, PartialEq, Eq, Structural)]
pub enum Errors {
    UnauthorizedUser,
    InsufficientBalance,
    StartTimeIsGreaterThanEndTime,
    TimeIsGreterThanCurTime,
    InvalidMakerShareAmount,
    MakerPubkeyInArray,
    DuplicatePubkeyInArray,
    AlreadyParticipated,
    InvalidParticipant,
    MakerCannotJoinShart,
    ShartNotStarted,
    ShartTimeOver,
    ShartIsLive,
    WinnerAlreadyDeclared,
    RewardWithdrawed,
}

/// The bytes a pot account takes.
pub fn calculate_space() -> (r: usize)
    ensures
        r == 8 + 32 + 1 + 4 + 1000 + 4 + 1000 + 8 + 8 + 8 + 32 + 1,
{
    8 + 32 + 1 + 4 + 1000 + 4 + 1000 + 8 + 8 + 8 + 32 + 1
}

/// Makes `signer` the owner of a fresh user account with no pots opened.
pub fn create_user_account(user: &mut User, signer: Address)
    ensures
        final(user).authority == signer,
        final(user).total_sharts_created == 0,
        final(user).joined_sharts@ == old(user).joined_sharts@,
{
    user.authority = signer;
    user.total_sharts_created = 0;
}

/// What `create_shart` answers: the account constraint first, then the
/// program's checks in its order. The maker's share may be at most 90
/// percent, as the program's error for it states ("Maker Shares Cannot Be
/// More Than 90%").
pub open spec fn create_shart_outcome(
    user_authority: Address,
    authority: Address,
    authority_lamports: u64,
    can_participate: Seq<Address>,
    maker_shares: u8,
    amount: u64,
    start_time: u64,
    end_time: u64,
    now: i64,
) -> Result<(), Errors> {
    if !(user_authority == authority) {
        Err(Errors::UnauthorizedUser)
    } else if !(authority_lamports >= amount) {
        Err(Errors::InsufficientBalance)
    } else if !(start_time < end_time) {
        Err(Errors::StartTimeIsGreaterThanEndTime)
    } else if !((now as u64) < end_time && (now as u64) <= start_time) {
        Err(Errors::TimeIsGreterThanCurTime)
    } else if !(maker_shares <= 90) {
        Err(Errors::InvalidMakerShareAmount)
    } else if can_participate.contains(authority) {
        Err(Errors::MakerPubkeyInArray)
    } else if !all_distinct(can_participate) {
        Err(Errors::DuplicatePubkeyInArray)
    } else {
        Ok(())
    }
}

/// Whether `key` is one of the addresses, scanned in order.
fn listed(list: &[Address; 2], key: &Address) -> (r: bool)
    ensures
        r == list@.contains(*key),
{
    let mut i: usize = 0;
    while i < 2
        invariant
            i <= 2,
            list@.len() == 2,
            forall|k: int| 0 <= k < i ==> list@[k] != *key,
        decreases 2 - i,
    {
        if list[i].equals(key) {
            assert(list@[i as int] == *key);
            return true;
        }
        i += 1;
    }
    false
}

/// The program's pairwise scan: each address against every later one.
fn pairwise_distinct(list: &[Address; 2]) -> (r: bool)
    ensures
        r == all_distinct(list@),
{
    let n: usize = 2;
    let mut i: usize = 0;
    while i < n
        invariant
            n == 2,
            list@.len() == 2,
            i <= n,
            forall|a: int, b: int| 0 <= a < i && a < b < n ==> list@[a] != list@[b],
        decreases n - i,
    {
        let mut j: usize = i;
        while j < n - 1
            invariant
                n == 2,
                list@.len() == 2,
                i < n,
                i <= j <= n - 1,
                forall|a: int, b: int| 0 <= a < i && a < b < n ==> list@[a] != list@[b],
                forall|b: int| i < b <= j ==> list@[i as int] != list@[b],
            decreases n - 1 - j,
        {
            if list[i].equals(&list[j + 1]) {
                return false;
            }
            j += 1;
        }
        i += 1;
    }
    true
}

/// The checks of `create_shart`, in the program's order.
pub fn check_create_shart(
    user: &User,
    authority: Address,
    authority_lamports: u64,
    can_participate: &[Address; 2],
    maker_shares: u8,
    amount: u64,
    start_time: u64,
    end_time: u64,
    now: i64,
) -> (r: Result<(), Errors>)
    ensures
        r == create_shart_outcome(
            user.authority,
            authority,
            authority_lamports,
            can_participate@,
            maker_shares,
            amount,
            start_time,
            end_time,
            now,
        ),
{
    if !user.authority.equals(&authority) {
        return Err(Errors::UnauthorizedUser);
    }
    if !(authority_lamports >= amount) {
        return Err(Errors::InsufficientBalance);
    }
    if !(start_time < end_time) {
        return Err(Errors::StartTimeIsGreaterThanEndTime);
    }
    let current_time = #[verifier::truncate] (now as u64);
    if !(current_time < end_time && current_time <= start_time) {
        return Err(Errors::TimeIsGreterThanCurTime);
    }
    if !(maker_shares <= 90) {
        return Err(Errors::InvalidMakerShareAmount);
    }
    if listed(can_participate, &authority) {
        return Err(Errors::MakerPubkeyInArray);
    }
    if !pairwise_distinct(can_participate) {
        return Err(Errors::DuplicatePubkeyInArray);
    }
    Ok(())
}

/// Opens a pot: checks the caller's account, balance, times, share and the
/// list of joiners; on success records the pot, counts it on the user, and
/// asks for the stake to move from the maker to the pot.
pub fn create_shart(
    user: &mut User,
    shart: &mut Shart,
    authority: Address,
    authority_lamports: u64,
    shart_key: Address,
    can_participate: [Address; 2],
    maker_shares: u8,
    amount: u64,
    start_time: u64,
    end_time: u64,
    now: i64,
) -> (r: Result<Transfer, Errors>)
    requires
        create_shart_outcome(
            old(user).authority,
            authority,
            authority_lamports,
            can_participate@,
            maker_shares,
            amount,
            start_time,
            end_time,
            now,
        ) is Ok ==> old(user).total_sharts_created < u32::MAX,
    ensures
        match r {
            Ok(t) => {
                &&& create_shart_outcome(
                    old(user).authority,
                    authority,
                    authority_lamports,
                    can_participate@,
                    maker_shares,
                    amount,
                    start_time,
                    end_time,
                    now,
                ) is Ok
                &&& t == (Transfer { from: authority, to: shart_key, amount })
                &&& final(shart).maker == authority
                &&& final(shart).maker_shares == maker_shares
                &&& final(shart).amount == amount
                &&& final(shart).start_time == start_time
                &&& final(shart).end_time == end_time
                &&& final(shart).is_withdrawed == false
                &&& final(shart).can_participate@ == old(shart).can_participate@
                    + can_participate@
                &&& final(shart).participants@ == old(shart).participants@
                &&& final(shart).winner == old(shart).winner
                &&& final(user).authority == old(user).authority
                &&& final(user).total_sharts_created == old(user).total_sharts_created + 1
                &&& final(user).joined_sharts@ == old(user).joined_sharts@
            },
            Err(e) => {
                &&& create_shart_outcome(
                    old(user).authority,
                    authority,
                    authority_lamports,
                    can_participate@,
                    maker_shares,
                    amount,
                    start_time,
                    end_time,
                    now,
                ) == Err::<(), Errors>(e)
                &&& *final(user) == *old(user)
                &&& *final(shart) == *old(shart)
            },
        },
{
    if let Err(e) = check_create_shart(
        user,
        authority,
        authority_lamports,
        &can_participate,
        maker_shares,
        amount,
        start_time,
        end_time,
        now,
    ) {
        return Err(e);
    }
    shart.maker = authority;
    shart.maker_shares = maker_shares;
    shart.amount = amount;
    shart.start_time = start_time;
    shart.end_time = end_time;
    shart.is_withdrawed = false;
    let ghost before = shart.can_participate@;
    let mut i: usize = 0;
    while i < 2
        invariant
            i <= 2,
            can_participate@.len() == 2,
            shart.can_participate@ == before + can_participate@.take(i as int),
            shart.maker == authority,
            shart.maker_shares == maker_shares,
            shart.amount == amount,
            shart.start_time == start_time,
            shart.end_time == end_time,
            shart.is_withdrawed == false,
            shart.participants@ == old(shart).participants@,
            shart.winner == old(shart).winner,
        decreases 2 - i,
    {
        shart.can_participate.push(can_participate[i]);
        assert(can_participate@.take(i + 1) == can_participate@.take(i as int).push(
            can_participate@[i as int],
        ));
        i += 1;
    }
    assert(can_participate@.take(2) == can_participate@);
    user.total_sharts_created = user.total_sharts_created + 1;
    Ok(Transfer { from: authority, to: shart_key, amount })
}

/// What `join_shart` answers: the two account constraints, then the
/// program's checks. A listed address at position 0 is refused, and a pot
/// recorded at position 0 of the user's joined pots does not count as
/// joined (the program looks both up by position and treats 0 as "not
/// found").
pub open spec fn join_shart_outcome(
    user_authority: Address,
    maker: Address,
    can_participate: Seq<Address>,
    joined_sharts: Seq<Address>,
    start_time: u64,
    end_time: u64,
    amount: u64,
    authority: Address,
    authority_lamports: u64,
    shart_key: Address,
    now: i64,
) -> Result<(), Errors> {
    if !(user_authority == authority) {
        Err(Errors::UnauthorizedUser)
    } else if !(maker != authority) {
        Err(Errors::MakerCannotJoinShart)
    } else if position_or_zero_is_zero(can_participate, authority) {
        Err(Errors::InvalidParticipant)
    } else if !position_or_zero_is_zero(joined_sharts, shart_key) {
        Err(Errors::AlreadyParticipated)
    } else if !((now as u64) >= start_time) {
        Err(Errors::ShartNotStarted)
    } else if !((now as u64) <= end_time) {
        Err(Errors::ShartTimeOver)
    } else if !(authority_lamports >= amount) {
        Err(Errors::InsufficientBalance)
    } else {
        Ok(())
    }
}

/// Joins a pot: on success records the pot on the user and the user on the
/// pot, and asks for the stake to move from the joiner to the pot.
pub fn join_shart(
    user: &mut User,
    shart: &mut Shart,
    authority: Address,
    authority_lamports: u64,
    shart_key: Address,
    now: i64,
) -> (r: Result<Transfer, Errors>)
    ensures
        match r {
            Ok(t) => {
                &&& join_shart_outcome(
                    old(user).authority,
                    old(shart).maker,
                    old(shart).can_participate@,
                    old(user).joined_sharts@,
                    old(shart).start_time,
                    old(shart).end_time,
                    old(shart).amount,
                    authority,
                    authority_lamports,
                    shart_key,
                    now,
                ) is Ok
                &&& t == (Transfer { from: authority, to: shart_key, amount: old(shart).amount })
                &&& final(user).joined_sharts@ == old(user).joined_sharts@.push(shart_key)
                &&& final(user).authority == old(user).authority
                &&& final(user).total_sharts_created == old(user).total_sharts_created
                &&& final(shart).participants@ == old(shart).participants@.push(authority)
                &&& final(shart).maker == old(shart).maker
                &&& final(shart).maker_shares == old(shart).maker_shares
                &&& final(shart).can_participate@ == old(shart).can_participate@
                &&& final(shart).amount == old(shart).amount
                &&& final(shart).start_time == old(shart).start_time
                &&& final(shart).end_time == old(shart).end_time
                &&& final(shart).winner == old(shart).winner
                &&& final(shart).is_withdrawed == old(shart).is_withdrawed
            },
            Err(e) => {
                &&& join_shart_outcome(
                    old(user).authority,
                    old(shart).maker,
                    old(shart).can_participate@,
                    old(user).joined_sharts@,
                    old(shart).start_time,
                    old(shart).end_time,
                    old(shart).amount,
                    authority,
                    authority_lamports,
                    shart_key,
                    now,
                ) == Err::<(), Errors>(e)
                &&& *final(user) == *old(user)
                &&& *final(shart) == *old(shart)
            },
        },
{
    if !user.authority.equals(&authority) {
        return Err(Errors::UnauthorizedUser);
    }
    if shart.maker.equals(&authority) {
        return Err(Errors::MakerCannotJoinShart);
    }
    let listed_at: usize = match position_of(&shart.can_participate, &authority) {
        Some(i) => i,
        None => 0,
    };
    if !(listed_at != 0) {
        return Err(Errors::InvalidParticipant);
    }
    let joined_at: usize = match position_of(&user.joined_sharts, &shart_key) {
        Some(i) => i,
        None => 0,
    };
    if !(joined_at == 0) {
        return Err(Errors::AlreadyParticipated);
    }
    let current_time = #[verifier::truncate] (now as u64);
    if !(current_time >= shart.start_time) {
        return Err(Errors::ShartNotStarted);
    }
    if !(current_time <= shart.end_time) {
        return Err(Errors::ShartTimeOver);
    }
    if !(authority_lamports >= shart.amount) {
        return Err(Errors::InsufficientBalance);
    }
    user.joined_sharts.push(shart_key);
    shart.participants.push(authority);
    Ok(Transfer { from: authority, to: shart_key, amount: shart.amount })
}

/// Rust's `%` on signed integers: the remainder takes the sign of the
/// dividend.
pub open spec fn truncated_remainder(a: int, m: int) -> int {
    if a >= 0 {
        a % m
    } else {
        -((-a) % m)
    }
}

/// The position drawn from the clock among `n` participants and the maker
/// (position `n` stands for the maker).
pub open spec fn draw(now: i64, n: nat) -> int {
    truncated_remainder(now as int, (n + 1) as int)
}

/// What `declare_winner` answers.
pub open spec fn declare_winner_outcome(winner: Address, end_time: u64, now: i64) -> Result<
    (),
    Errors,
> {
    if !winner.is_default() {
        Err(Errors::WinnerAlreadyDeclared)
    } else if !((now as u64) >= end_time) {
        Err(Errors::ShartIsLive)
    } else {
        Ok(())
    }
}

/// The address that the draw designates: a participant, or the maker.
pub open spec fn drawn_winner(shart: Shart, now: i64) -> Address {
    let k = draw(now, shart.participants@.len());
    if k == shart.participants@.len() {
        shart.maker
    } else {
        shart.participants@[k]
    }
}

/// The checks of `declare_winner`, in the program's order.
pub fn check_declare_winner(shart: &Shart, now: i64) -> (r: Result<(), Errors>)
    ensures
        r == declare_winner_outcome(shart.winner, shart.end_time, now),
{
    if !shart.winner.is_zero() {
        return Err(Errors::WinnerAlreadyDeclared);
    }
    if !(#[verifier::truncate] (now as u64) >= shart.end_time) {
        return Err(Errors::ShartIsLive);
    }
    Ok(())
}

/// Draws the winner of an ended pot from the clock, once.
pub fn declare_winner(shart: &mut Shart, now: i64) -> (r: Result<(), Errors>)
    requires
        old(shart).participants@.len() < i64::MAX,
        declare_winner_outcome(old(shart).winner, old(shart).end_time, now) is Ok ==> draw(
            now,
            old(shart).participants@.len(),
        ) >= 0,
    ensures
        r == declare_winner_outcome(old(shart).winner, old(shart).end_time, now),
        r is Ok ==> {
            &&& final(shart).winner == drawn_winner(*old(shart), now)
            &&& final(shart).maker == old(shart).maker
            &&& final(shart).maker_shares == old(shart).maker_shares
            &&& final(shart).can_participate@ == old(shart).can_participate@
            &&& final(shart).participants@ == old(shart).participants@
            &&& final(shart).amount == old(shart).amount
            &&& final(shart).start_time == old(shart).start_time
            &&& final(shart).end_time == old(shart).end_time
            &&& final(shart).is_withdrawed == old(shart).is_withdrawed
        },
        r is Err ==> *final(shart) == *old(shart),
{
    if let Err(e) = check_declare_winner(shart, now) {
        return Err(e);
    }
    let total_participants = shart.participants.len() as i64;
    let rand = now % (total_participants + 1);
    assert(rand == truncated_remainder(now as int, total_participants + 1));
    let rand_number = rand as usize;
    let winner: Address;
    if rand_number == shart.participants.len() {
        winner = shart.maker;
    } else {
        winner = shart.participants[rand_number];
    }
    shart.winner = winner;
    Ok(())
}

/// The whole pot: the stake times the participants and the maker.
pub open spec fn pot(amount: u64, participants: nat) -> int {
    amount * (participants + 1)
}

/// The maker's cut of a pot, in percent rounded down.
pub open spec fn maker_cut(total: int, maker_shares: u8) -> int {
    (total * maker_shares) / 100
}

/// The lamports that a withdrawal moves out of the pot account.
#[derive(Clone, Copy, Debug, PartialEq, Eq)]
pub struct Payout {
    /// Lamports moved to the winner (the program moves a fixed 1000).
    pub to_winner: u64,
    /// Lamports moved to the maker: the maker's cut of the pot.
    pub to_maker: u64,
    /// The pot less the maker's cut, which the program announces as the
    /// winner's amount.
    pub winner_amount: u64,
}

/// What `withdraw_winning_amount` answers: the two `has_one` constraints
/// (winner, then maker), then whether the pot was already paid out.
pub open spec fn withdraw_outcome(shart: Shart, winner: Address, maker: Address) -> Result<
    (),
    HandlerError<Errors>,
> {
    if !(shart.winner == winner) {
        Err(HandlerError::ConstraintHasOne)
    } else if !(shart.maker == maker) {
        Err(HandlerError::ConstraintHasOne)
    } else if !(shart.is_withdrawed == false) {
        Err(HandlerError::Custom(Errors::RewardWithdrawed))
    } else {
        Ok(())
    }
}

/// The checks of `withdraw_winning_amount`, in the program's order.
pub fn check_withdraw(shart: &Shart, winner: Address, maker: Address) -> (r: Result<
    (),
    HandlerError<Errors>,
>)
    ensures
        r == withdraw_outcome(*shart, winner, maker),
{
    if !shart.winner.equals(&winner) {
        return Err(HandlerError::ConstraintHasOne);
    }
    if !shart.maker.equals(&maker) {
        return Err(HandlerError::ConstraintHasOne);
    }
    if !(shart.is_withdrawed == false) {
        return Err(HandlerError::Custom(Errors::RewardWithdrawed));
    }
    Ok(())
}

/// Pays out a pot once: marks it withdrawn and says what moves where.
pub fn withdraw_winning_amount(shart: &mut Shart, winner: Address, maker: Address) -> (r: Result<
    Payout,
    HandlerError<Errors>,
>)
    requires
        withdraw_outcome(*old(shart), winner, maker) is Ok ==> {
            &&& pot(old(shart).amount, old(shart).participants@.len()) <= u64::MAX
            &&& pot(old(shart).amount, old(shart).participants@.len()) * old(shart).maker_shares
                <= u64::MAX
            &&& maker_cut(
                pot(old(shart).amount, old(shart).participants@.len()),
                old(shart).maker_shares,
            ) <= pot(old(shart).amount, old(shart).participants@.len())
        },
        old(shart).participants@.len() < u64::MAX,
    ensures
        match r {
            Ok(p) => {
                let total = pot(old(shart).amount, old(shart).participants@.len());
                &&& withdraw_outcome(*old(shart), winner, maker) is Ok
                &&& p.to_winner == 1000
                &&& p.to_maker == maker_cut(total, old(shart).maker_shares)
                &&& p.winner_amount == total - maker_cut(total, old(shart).maker_shares)
                &&& final(shart).is_withdrawed == true
                &&& final(shart).maker == old(shart).maker
                &&& final(shart).maker_shares == old(shart).maker_shares
                &&& final(shart).can_participate@ == old(shart).can_participate@
                &&& final(shart).participants@ == old(shart).participants@
                &&& final(shart).amount == old(shart).amount
                &&& final(shart).start_time == old(shart).start_time
                &&& final(shart).end_time == old(shart).end_time
                &&& final(shart).winner == old(shart).winner
            },
            Err(e) => {
                &&& withdraw_outcome(*old(shart), winner, maker) == Err::<(), HandlerError<Errors>>(e)
                &&& *final(shart) == *old(shart)
            },
        },
{
    if let Err(e) = check_withdraw(shart, winner, maker) {
        return Err(e);
    }
    shart.is_withdrawed = true;
    let total_amount = shart.amount * (shart.participants.len() as u64 + 1);
    let maker_amount = (total_amount * shart.maker_shares as u64) / 100;
    let winner_amount = total_amount - maker_amount;
    Ok(Payout { to_winner: 1000, to_maker: maker_amount, winner_amount })
}

/// A pot that the program opened pays out without running below zero:
/// the maker's cut is at most the pot.
pub proof fn lemma_payout_within_pot(total: int, maker_shares: u8)
    requires
        0 <= total,
        maker_shares <= 100,
    ensures
        0 <= maker_cut(total, maker_shares) <= total,
        maker_cut(total, maker_shares) + (total - maker_cut(total, maker_shares)) == total,
{
    assert(0 <= total * maker_shares <= total * 100) by (nonlinear_arith)
        requires
            0 <= total,
            maker_shares <= 100,
    ;
}

/// A pot that was paid out is refused a second payout.
pub proof fn lemma_withdraw_once(shart: Shart, winner: Address, maker: Address)
    requires
        withdraw_outcome(shart, winner, maker) is Ok,
    ensures
        withdraw_outcome(Shart { is_withdrawed: true, ..shart }, winner, maker) == Err::<
            (),
            HandlerError<Errors>,
        >(HandlerError::Custom(Errors::RewardWithdrawed)),
{
}

/// The drawn winner is one of the participants or the maker.
pub proof fn lemma_winner_is_player(shart: Shart, now: i64)
    requires
        draw(now, shart.participants@.len()) >= 0,
    ensures
        drawn_winner(shart, now) == shart.maker || shart.participants@.contains(
            drawn_winner(shart, now),
        ),
{
    let n = shart.participants@.len();
    let k = draw(now, n);
    assert(0 <= k <= n);
    if k < n {
        assert(shart.participants@[k] == drawn_winner(shart, now));
    }
}

/// Once a winner other than the default address is drawn, a second draw
/// is refused with `WinnerAlreadyDeclared`.
pub proof fn lemma_declare_once(shart: Shart, now: i64, later: i64)
    requires
        declare_winner_outcome(shart.winner, shart.end_time, now) is Ok,
        !drawn_winner(shart, now).is_default(),
    ensures
        declare_winner_outcome(drawn_winner(shart, now), shart.end_time, later) == Err::<
            (),
            Errors,
        >(Errors::WinnerAlreadyDeclared),
{
}

/// Once a user has joined a pot, joining it again is refused with
/// `AlreadyParticipated` (this needs the user's record to have held another
/// pot first: a pot recorded at position 0 is not found).
pub proof fn lemma_join_once(
    user_authority: Address,
    maker: Address,
    can_participate: Seq<Address>,
    joined_sharts: Seq<Address>,
    start_time: u64,
    end_time: u64,
    amount: u64,
    authority: Address,
    first_lamports: u64,
    lamports: u64,
    shart_key: Address,
    first_now: i64,
    now: i64,
)
    requires
        join_shart_outcome(
            user_authority,
            maker,
            can_participate,
            joined_sharts,
            start_time,
            end_time,
            amount,
            authority,
            first_lamports,
            shart_key,
            first_now,
        ) is Ok,
        joined_sharts.len() > 0,
        joined_sharts[0] != shart_key,
    ensures
        join_shart_outcome(
            user_authority,
            maker,
            can_participate,
            joined_sharts.push(shart_key),
            start_time,
            end_time,
            amount,
            authority,
            lamports,
            shart_key,
            now,
        ) == Err::<(), Errors>(Errors::AlreadyParticipated),
{
    assert(joined_sharts.push(shart_key)[joined_sharts.len() as int] == shart_key);
}

/// A pot that `create_shart` accepted keeps the maker's share at most 90%.
pub proof fn lemma_created_share_bounded(
    user_authority: Address,
    authority: Address,
    authority_lamports: u64,
    can_participate: Seq<Address>,
    maker_shares: u8,
    amount: u64,
    start_time: u64,
    end_time: u64,
    now: i64,
)
    requires
        create_shart_outcome(
            user_authority,
            authority,
            authority_lamports,
            can_participate,
            maker_shares,
            amount,
            start_time,
            end_time,
            now,
        ) is Ok,
    ensures
        maker_shares <= 90,
        !can_participate.contains(authority),
        all_distinct(can_participate),
{
}

/// Joining is refused with `AlreadyParticipated` whenever the pot occurs in
/// the user's joined list at a position after the first (and the list does
/// not start with it), wherever in the list that is, provided the user's
/// account, the maker and the listing let the user through.
pub proof fn lemma_join_refused_when_joined(
    user_authority: Address,
    maker: Address,
    can_participate: Seq<Address>,
    joined_sharts: Seq<Address>,
    start_time: u64,
    end_time: u64,
    amount: u64,
    authority: Address,
    authority_lamports: u64,
    shart_key: Address,
    now: i64,
    i: int,
)
    requires
        user_authority == authority,
        maker != authority,
        can_participate.contains(authority),
        can_participate[0] != authority,
        0 < i < joined_sharts.len(),
        joined_sharts[i] == shart_key,
        joined_sharts[0] != shart_key,
    ensures
        join_shart_outcome(
            user_authority,
            maker,
            can_participate,
            joined_sharts,
            start_time,
            end_time,
            amount,
            authority,
            authority_lamports,
            shart_key,
            now,
        ) == Err::<(), Errors>(Errors::AlreadyParticipated),
{
    assert(joined_sharts.contains(shart_key));
}

/// A successful join has a listed joiner, other than the first listed
/// address, who is not the maker, owns the user account, and has not
/// recorded this pot after the first position of its joined list; and it
/// happens inside the pot's time window with enough lamports for the stake.
pub proof fn lemma_join_accepted(
    user_authority: Address,
    maker: Address,
    can_participate: Seq<Address>,
    joined_sharts: Seq<Address>,
    start_time: u64,
    end_time: u64,
    amount: u64,
    authority: Address,
    authority_lamports: u64,
    shart_key: Address,
    now: i64,
)
    requires
        join_shart_outcome(
            user_authority,
            maker,
            can_participate,
            joined_sharts,
            start_time,
            end_time,
            amount,
            authority,
            authority_lamports,
            shart_key,
            now,
        ) is Ok,
    ensures
        user_authority == authority,
        maker != authority,
        exists|k: int| 0 < k < can_participate.len() && can_participate[k] == authority,
        can_participate[0] != authority,
        forall|k: int|
            0 < k < joined_sharts.len() && #[trigger] joined_sharts[k] == shart_key ==> joined_sharts[0]
                == shart_key,
        start_time <= (now as u64) <= end_time,
        authority_lamports >= amount,
{
    let k = choose|k: int| 0 <= k < can_participate.len() && can_participate[k] == authority;
    assert(0 < k);
    assert forall|k: int| 0 < k < joined_sharts.len() && #[trigger] joined_sharts[k] == shart_key implies joined_sharts[0]
        == shart_key by {
        assert(joined_sharts.contains(shart_key));
    }
}

/// Rust's `%` with a positive divisor: the remainder differs from the
/// dividend by a multiple of the divisor, is smaller than the divisor in
/// size, and is never of the opposite sign to the dividend.
pub proof fn lemma_truncated_remainder(a: int, m: int)
    requires
        m > 0,
    ensures
        (a - truncated_remainder(a, m)) % m == 0,
        a >= 0 ==> 0 <= truncated_remainder(a, m) < m,
        a < 0 ==> -m < truncated_remainder(a, m) <= 0,
{
    if a < 0 {
        vstd::arithmetic::div_mod::lemma_fundamental_div_mod(-a, m);
        let q = (-a) / m;
        vstd::arithmetic::div_mod::lemma_mod_multiples_basic(-q, m);
        assert(m * (-q) == -(m * q)) by (nonlinear_arith);
        assert(a - truncated_remainder(a, m) == (-q) * m);
    } else {
        vstd::arithmetic::div_mod::lemma_fundamental_div_mod(a, m);
        vstd::arithmetic::div_mod::lemma_mod_multiples_basic(a / m, m);
        assert(m * (a / m) == (a / m) * m) by (nonlinear_arith);
        assert(a - truncated_remainder(a, m) == (a / m) * m);
    }
}

/// The pot grows by one stake per participant, starting from the maker's.
pub proof fn lemma_pot_grows_by_stake(amount: u64, participants: nat)
    ensures
        pot(amount, 0) == amount,
        pot(amount, participants + 1) == pot(amount, participants) + amount,
{
    assert(amount * (0nat + 1) == amount) by (nonlinear_arith);
    assert(amount * (participants + 1 + 1) == amount * (participants + 1) + amount) by (nonlinear_arith);
}

/// The maker's cut is the largest whole number of lamports that is at most
/// `maker_shares` percent of the pot.
pub proof fn lemma_maker_cut_is_percentage(total: int, maker_shares: u8)
    requires
        0 <= total,
    ensures
        maker_cut(total, maker_shares) * 100 <= total * maker_shares,
        total * maker_shares < (maker_cut(total, maker_shares) + 1) * 100,
{
    let p = total * maker_shares;
    vstd::arithmetic::div_mod::lemma_fundamental_div_mod(p, 100);
}

/// What an accepted request tells of its inputs: a pot is opened only by
/// the owner of the user account, with the stake in hand, a start before
/// the end and not in the past, and a share of at most 90%; a winner is
/// drawn only once none is set and the pot has ended; a pot pays out only
/// to its winner and maker, and only once.
pub proof fn lemma_accepted_pot_requests(
    user_authority: Address,
    authority: Address,
    authority_lamports: u64,
    can_participate: Seq<Address>,
    maker_shares: u8,
    amount: u64,
    start_time: u64,
    end_time: u64,
    now: i64,
    shart: Shart,
    winner: Address,
    maker: Address,
)
    ensures
        create_shart_outcome(
            user_authority,
            authority,
            authority_lamports,
            can_participate,
            maker_shares,
            amount,
            start_time,
            end_time,
            now,
        ) is Ok ==> {
            &&& user_authority == authority
            &&& authority_lamports >= amount
            &&& start_time < end_time
            &&& (now as u64) <= start_time
            &&& maker_shares <= 90
        },
        declare_winner_outcome(shart.winner, shart.end_time, now) is Ok <==> shart.winner.is_default()
            && (now as u64) >= shart.end_time,
        withdraw_outcome(shart, winner, maker) is Ok <==> shart.winner == winner && shart.maker
            == maker && !shart.is_withdrawed,
{
}

} // verus!

//! A token escrow: user A deposits an amount of token A into an escrow
//! account and names the amount of token B it wants; user B completes the
//! swap by sending token B to A and receiving the escrowed token A; user A
//! may cancel a swap that is still waiting; the program's authority can put
//! the whole program on hold.
use vstd::prelude::*;

use crate::address::Address;
use crate::constraint::HandlerError;

verus! {

/// The program-wide account.
pub struct ProgramStats {
    pub authority: Address,
    pub bump: u8,
    pub is_swap_in_hold: bool,
    pub total_swap_created: u64,
}

/// A user's record of the swaps it created and joined.
pub struct UserStats {
    pub authority: Address,
    pub swaps_created: Vec<Address>,
    pub swaps_joined: Vec<Address>,
}

/// Where a swap stands.
#[derive(Clone, Copy, Debug, PartialEq, Eq, Structural)]
pub enum SwapStatus {
    UserADepositedTokens,
    UserBDepositedTokens,
    SwapCompleted,
    SwapCancelled,
}

/// One swap.
pub struct SwapEscrow {
    pub id: u64,
    pub user_a_address: Address,
    pub user_b_address: Address,
    pub token_a_address: Address,
    pub token_b_address: Address,
    pub token_a_amount: u64,
    pub token_b_amount: u64,
    pub user_a_token_b_account_address: Address,
    pub user_b_token_a_account_address: Address,
    pub swap_status: SwapStatus,
}

/// The program's errors.
#[derive(Clone, Copy, Debug, PartialEq, Eq, Structural)]
pub enum Errors {
    ProgramIsOnHold,
    InsufficientBalance,
    InvalidTokenAccount,
    InvalidTokenBAmount,
    NoStatusForSwap,
    OnlyUserACanAccessThisMethod,
    SwapCannotBeCancelled,
}

/// The two token transfers that complete a swap.
#[derive(Clone, Copy, Debug, PartialEq, Eq)]
pub struct SwapTransfers {
    /// Token B moved from user B's account to the account given as user
    /// A's, signed by user B.
    pub token_b_to_user_a: u64,
    /// Token A moved from the escrow account to user B's account, signed by
    /// the program's account with this bump.
    pub token_a_to_user_b: u64,
    pub program_stats_bump: u8,
}

/// The bytes a user-stats account takes.
pub fn user_stats_space() -> (r: usize)
    ensures
        r == 8 + 32 + 4 + 1000,
{
    8 + 32 + 4 + 1000
}

/// Sets up the program-wide account: `signer` is its authority, the
/// program is not on hold and no swap has been created.
pub fn create_program_stats(program_stats: &mut ProgramStats, signer: Address, bump: u8)
    ensures
        final(program_stats).authority == signer,
        final(program_stats).is_swap_in_hold == false,
        final(program_stats).total_swap_created == 0,
        final(program_stats).bump == bump,
{
    program_stats.authority = signer;
    program_stats.is_swap_in_hold = false;
    program_stats.total_swap_created = 0;
    program_stats.bump = bump;
}

/// Makes `signer` the owner of a fresh user-stats account.
pub fn create_user_stats(user_stats: &mut UserStats, signer: Address)
    ensures
        final(user_stats).authority == signer,
        final(user_stats).swaps_created@ == old(user_stats).swaps_created@,
        final(user_stats).swaps_joined@ == old(user_stats).swaps_joined@,
{
    user_stats.authority = signer;
}

/// What `create_swap` answers.
pub open spec fn create_swap_outcome(
    is_swap_in_hold: bool,
    user_a_token_a_balance: u64,
    token_a_amount: u64,
) -> Result<(), Errors> {
    if !(is_swap_in_hold == false) {
        Err(Errors::ProgramIsOnHold)
    } else if !(user_a_token_a_balance >= token_a_amount) {
        Err(Errors::InsufficientBalance)
    } else {
        Ok(())
    }
}

/// Opens a swap: on success the swap takes the next id, records both sides,
/// waits for user B, is listed among user A's swaps, and the amount of
/// token A to move from user A's account into escrow is returned.
pub fn create_swap(
    swap_escrow_stats: &mut SwapEscrow,
    program_stats: &mut ProgramStats,
    user_a_stats: &mut UserStats,
    signer: Address,
    token_a_key: Address,
    swap_escrow_key: Address,
    user_a_token_a_balance: u64,
    token_b_address: Address,
    token_a_amount: u64,
    token_b_amount: u64,
    user_a_token_b_account_address: Address,
    user_b_address: Address,
) -> (r: Result<u64, Errors>)
    requires
        create_swap_outcome(old(program_stats).is_swap_in_hold, user_a_token_a_balance, token_a_amount)
            is Ok ==> old(program_stats).total_swap_created < u64::MAX,
    ensures
        match r {
            Ok(deposit) => {
                &&& create_swap_outcome(
                    old(program_stats).is_swap_in_hold,
                    user_a_token_a_balance,
                    token_a_amount,
                ) is Ok
                &&& deposit == token_a_amount
                &&& final(swap_escrow_stats).id == old(program_stats).total_swap_created
                &&& final(swap_escrow_stats).user_a_address == signer
                &&& final(swap_escrow_stats).user_b_address == user_b_address
                &&& final(swap_escrow_stats).token_a_address == token_a_key
                &&& final(swap_escrow_stats).token_b_address == token_b_address
                &&& final(swap_escrow_stats).token_a_amount == token_a_amount
                &&& final(swap_escrow_stats).token_b_amount == token_b_amount
                &&& final(swap_escrow_stats).user_a_token_b_account_address
                    == user_a_token_b_account_address
                &&& final(swap_escrow_stats).user_b_token_a_account_address
                    == old(swap_escrow_stats).user_b_token_a_account_address
                &&& final(swap_escrow_stats).swap_status == SwapStatus::UserADepositedTokens
                &&& final(program_stats).total_swap_created == old(program_stats).total_swap_created
                    + 1
                &&& final(program_stats).authority == old(program_stats).authority
                &&& final(program_stats).bump == old(program_stats).bump
                &&& final(program_stats).is_swap_in_hold == old(program_stats).is_swap_in_hold
                &&& final(user_a_stats).swaps_created@ == old(user_a_stats).swaps_created@.push(
                    swap_escrow_key,
                )
                &&& final(user_a_stats).swaps_joined@ == old(user_a_stats).swaps_joined@
                &&& final(user_a_stats).authority == old(user_a_stats).authority
            },
            Err(e) => {
                &&& create_swap_outcome(
                    old(program_stats).is_swap_in_hold,
                    user_a_token_a_balance,
                    token_a_amount,
                ) == Err::<(), Errors>(e)
                &&& *final(swap_escrow_stats) == *old(swap_escrow_stats)
                &&& *final(program_stats) == *old(program_stats)
                &&& *final(user_a_stats) == *old(user_a_stats)
            },
        },
{
    if !(program_stats.is_swap_in_hold == false) {
        return Err(Errors::ProgramIsOnHold);
    }
    if !(user_a_token_a_balance >= token_a_amount) {
        return Err(Errors::InsufficientBalance);
    }
    swap_escrow_stats.id = program_stats.total_swap_created;
    program_stats.total_swap_created = program_stats.total_swap_created + 1;
    swap_escrow_stats.user_a_address = signer;
    swap_escrow_stats.user_b_address = user_b_address;
    swap_escrow_stats.token_a_address = token_a_key;
    swap_escrow_stats.token_b_address = token_b_address;
    swap_escrow_stats.token_a_amount = token_a_amount;
    swap_escrow_stats.token_b_amount = token_b_amount;
    swap_escrow_stats.user_a_token_b_account_address = user_a_token_b_account_address;
    swap_escrow_stats.swap_status = SwapStatus::UserADepositedTokens;
    user_a_stats.swaps_created.push(swap_escrow_key);
    Ok(token_a_amount)
}

/// What `swap_tokens` answers.
pub open spec fn swap_tokens_outcome(
    is_swap_in_hold: bool,
    swap: SwapEscrow,
    token_a_key: Address,
    token_b_key: Address,
    user_b_token_b_balance: u64,
) -> Result<(), Errors> {
    if !(is_swap_in_hold == false) {
        Err(Errors::ProgramIsOnHold)
    } else if !(swap.swap_status == SwapStatus::UserADepositedTokens) {
        Err(Errors::NoStatusForSwap)
    } else if !(token_a_key == swap.token_a_address && token_b_key == swap.token_b_address) {
        Err(Errors::InvalidTokenAccount)
    } else if !(user_b_token_b_balance >= swap.token_b_amount) {
        Err(Errors::InsufficientBalance)
    } else {
        Ok(())
    }
}

/// Completes a waiting swap: marks the swap data it is given completed and
/// returns the two transfers (token B to user A, then token A out of escrow
/// to user B). The program's account list takes the swap account
/// read-only, so the completed status is never stored on chain: it lives
/// only in the data handed to this function, and the stored swap still
/// waits and can be completed again.
pub fn swap_tokens(
    swap_escrow_stats: &mut SwapEscrow,
    program_stats: &ProgramStats,
    token_a_key: Address,
    token_b_key: Address,
    user_b_token_b_balance: u64,
) -> (r: Result<SwapTransfers, Errors>)
    ensures
        match r {
            Ok(t) => {
                &&& swap_tokens_outcome(
                    program_stats.is_swap_in_hold,
                    *old(swap_escrow_stats),
                    token_a_key,
                    token_b_key,
                    user_b_token_b_balance,
                ) is Ok
                &&& t == (SwapTransfers {
                    token_b_to_user_a: old(swap_escrow_stats).token_b_amount,
                    token_a_to_user_b: old(swap_escrow_stats).token_a_amount,
                    program_stats_bump: program_stats.bump,
                })
                &&& *final(swap_escrow_stats) == (SwapEscrow {
                    swap_status: SwapStatus::SwapCompleted,
                    ..*old(swap_escrow_stats)
                })
            },
            Err(e) => {
                &&& swap_tokens_outcome(
                    program_stats.is_swap_in_hold,
                    *old(swap_escrow_stats),
                    token_a_key,
                    token_b_key,
                    user_b_token_b_balance,
                ) == Err::<(), Errors>(e)
                &&& *final(swap_escrow_stats) == *old(swap_escrow_stats)
            },
        },
{
    if !(program_stats.is_swap_in_hold == false) {
        return Err(Errors::ProgramIsOnHold);
    }
    if !(swap_escrow_stats.swap_status == SwapStatus::UserADepositedTokens) {
        return Err(Errors::NoStatusForSwap);
    }
    if !(token_a_key.equals(&swap_escrow_stats.token_a_address) && token_b_key.equals(
        &swap_escrow_stats.token_b_address,
    )) {
        return Err(Errors::InvalidTokenAccount);
    }
    if !(user_b_token_b_balance >= swap_escrow_stats.token_b_amount) {
        return Err(Errors::InsufficientBalance);
    }
    swap_escrow_stats.swap_status = SwapStatus::SwapCompleted;
    Ok(
        SwapTransfers {
            token_b_to_user_a: swap_escrow_stats.token_b_amount,
            token_a_to_user_b: swap_escrow_stats.token_a_amount,
            program_stats_bump: program_stats.bump,
        },
    )
}

/// What `cancel_swap` answers.
pub open spec fn cancel_swap_outcome(swap: SwapEscrow, signer: Address) -> Result<(), Errors> {
    if !(swap.user_a_address == signer) {
        Err(Errors::OnlyUserACanAccessThisMethod)
    } else if !(swap.swap_status == SwapStatus::UserADepositedTokens) {
        Err(Errors::SwapCannotBeCancelled)
    } else {
        Ok(())
    }
}

/// Lets user A cancel a swap that is still waiting. Nothing is refunded:
/// the escrowed token A stays where it is.
pub fn cancel_swap(swap_escrow_stats: &mut SwapEscrow, signer: Address) -> (r: Result<(), Errors>)
    ensures
        r == cancel_swap_outcome(*old(swap_escrow_stats), signer),
        r is Ok ==> *final(swap_escrow_stats) == (SwapEscrow {
            swap_status: SwapStatus::SwapCancelled,
            ..*old(swap_escrow_stats)
        }),
        r is Err ==> *final(swap_escrow_stats) == *old(swap_escrow_stats),
{
    if !swap_escrow_stats.user_a_address.equals(&signer) {
        return Err(Errors::OnlyUserACanAccessThisMethod);
    }
    if !(swap_escrow_stats.swap_status == SwapStatus::UserADepositedTokens) {
        return Err(Errors::SwapCannotBeCancelled);
    }
    swap_escrow_stats.swap_status = SwapStatus::SwapCancelled;
    Ok(())
}

/// Lets the program's authority put the program on hold (there is no way
/// back).
pub fn hold_escrow_swap(program_stats: &mut ProgramStats, authority: Address) -> (r: Result<
    (),
    HandlerError<Errors>,
>)
    ensures
        r is Ok <==> old(program_stats).authority == authority,
        r is Err ==> r == Err::<(), HandlerError<Errors>>(HandlerError::ConstraintHasOne)
            && *final(program_stats) == *old(program_stats),
        r is Ok ==> *final(program_stats) == (ProgramStats {
            is_swap_in_hold: true,
            ..*old(program_stats)
        }),
{
    if !program_stats.authority.equals(&authority) {
        return Err(HandlerError::ConstraintHasOne);
    }
    program_stats.is_swap_in_hold = true;
    Ok(())
}

/// Swap data whose status is cancelled or completed can be neither
/// completed nor cancelled. A cancellation is stored on chain; a completion
/// is not (see `swap_tokens`), so on chain this holds of cancelled swaps.
pub proof fn lemma_settled_swap_is_final(
    swap: SwapEscrow,
    token_a_key: Address,
    token_b_key: Address,
    user_b_token_b_balance: u64,
)
    requires
        swap.swap_status == SwapStatus::SwapCancelled || swap.swap_status
            == SwapStatus::SwapCompleted,
    ensures
        swap_tokens_outcome(false, swap, token_a_key, token_b_key, user_b_token_b_balance)
            == Err::<(), Errors>(Errors::NoStatusForSwap),
        cancel_swap_outcome(swap, swap.user_a_address) == Err::<(), Errors>(
            Errors::SwapCannotBeCancelled,
        ),
{
}

/// While the program is on hold, no swap is opened and none is completed.
pub proof fn lemma_hold_blocks_swaps(
    swap: SwapEscrow,
    token_a_key: Address,
    token_b_key: Address,
    user_b_token_b_balance: u64,
    user_a_token_a_balance: u64,
    token_a_amount: u64,
)
    ensures
        create_swap_outcome(true, user_a_token_a_balance, token_a_amount) == Err::<(), Errors>(
            Errors::ProgramIsOnHold,
        ),
        swap_tokens_outcome(true, swap, token_a_key, token_b_key, user_b_token_b_balance)
            == Err::<(), Errors>(Errors::ProgramIsOnHold),
{
}

/// A swap that was just opened can be completed by a holder of enough
/// token B who names the swap's two tokens, and cancelled by its creator.
pub proof fn lemma_open_swap_is_live(swap: SwapEscrow, user_b_token_b_balance: u64)
    requires
        swap.swap_status == SwapStatus::UserADepositedTokens,
        user_b_token_b_balance >= swap.token_b_amount,
    ensures
        swap_tokens_outcome(
            false,
            swap,
            swap.token_a_address,
            swap.token_b_address,
            user_b_token_b_balance,
        ) is Ok,
        cancel_swap_outcome(swap, swap.user_a_address) is Ok,
{
}

/// What an accepted request tells of its inputs: a swap is opened only while
/// the program runs and user A holds the deposit; completed only while the
/// program runs, the swap waits, the two tokens are the swap's and user B
/// holds the amount of token B; cancelled only by user A while it waits.
pub proof fn lemma_accepted_requests(
    is_swap_in_hold: bool,
    swap: SwapEscrow,
    token_a_key: Address,
    token_b_key: Address,
    user_b_token_b_balance: u64,
    user_a_token_a_balance: u64,
    token_a_amount: u64,
    signer: Address,
)
    ensures
        create_swap_outcome(is_swap_in_hold, user_a_token_a_balance, token_a_amount) is Ok
            <==> !is_swap_in_hold && user_a_token_a_balance >= token_a_amount,
        swap_tokens_outcome(is_swap_in_hold, swap, token_a_key, token_b_key, user_b_token_b_balance)
            is Ok <==> {
            &&& !is_swap_in_hold
            &&& swap.swap_status == SwapStatus::UserADepositedTokens
            &&& token_a_key == swap.token_a_address
            &&& token_b_key == swap.token_b_address
            &&& user_b_token_b_balance >= swap.token_b_amount
        },
        cancel_swap_outcome(swap, signer) is Ok <==> signer == swap.user_a_address
            && swap.swap_status == SwapStatus::UserADepositedTokens,
{
}

} // verus!

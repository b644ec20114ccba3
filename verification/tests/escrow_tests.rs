use sol_programs::address::Address;
use sol_programs::constraint::HandlerError;
use sol_programs::escrow::{
    cancel_swap, create_program_stats, create_swap, create_user_stats, hold_escrow_swap,
    swap_tokens, user_stats_space, Errors, ProgramStats, SwapEscrow, SwapStatus, SwapTransfers,
    UserStats,
};

fn addr(n: u8) -> Address {
    Address::new([n; 32])
}

const USER_A: u8 = 1;
const TOKEN_A: u8 = 20;
const TOKEN_B: u8 = 21;

fn program(hold: bool) -> ProgramStats {
    ProgramStats { authority: addr(99), bump: 254, is_swap_in_hold: hold, total_swap_created: 0 }
}

fn stats(owner: u8) -> UserStats {
    UserStats { authority: addr(owner), swaps_created: Vec::new(), swaps_joined: Vec::new() }
}

fn blank_swap() -> SwapEscrow {
    SwapEscrow {
        id: 0,
        user_a_address: Address::default(),
        user_b_address: Address::default(),
        token_a_address: Address::default(),
        token_b_address: Address::default(),
        token_a_amount: 0,
        token_b_amount: 0,
        user_a_token_b_account_address: Address::default(),
        user_b_token_a_account_address: Address::default(),
        swap_status: SwapStatus::UserBDepositedTokens,
    }
}

fn opened(ps: &mut ProgramStats, us: &mut UserStats, key: u8) -> SwapEscrow {
    let mut swap = blank_swap();
    let r = create_swap(&mut swap, ps, us, addr(USER_A), addr(TOKEN_A), addr(key), 500, addr(TOKEN_B), 300, 40, addr(30), addr(2));
    assert_eq!(r, Ok(300));
    swap
}

#[test]
fn user_stats_space_value() {
    assert_eq!(user_stats_space(), 1044);
}

#[test]
fn create_program_stats_initialises() {
    let mut ps = ProgramStats { authority: Address::default(), bump: 0, is_swap_in_hold: true, total_swap_created: 9 };
    create_program_stats(&mut ps, addr(99), 253);
    assert_eq!(ps.authority, addr(99));
    assert_eq!(ps.bump, 253);
    assert!(!ps.is_swap_in_hold);
    assert_eq!(ps.total_swap_created, 0);
}

#[test]
fn create_user_stats_sets_owner() {
    let mut us = stats(0);
    create_user_stats(&mut us, addr(4));
    assert_eq!(us.authority, addr(4));
}

#[test]
fn create_swap_takes_consecutive_ids() {
    let mut ps = program(false);
    let mut us = stats(USER_A);
    let first = opened(&mut ps, &mut us, 70);
    let second = opened(&mut ps, &mut us, 71);
    assert_eq!(first.id, 0);
    assert_eq!(second.id, 1);
    assert_eq!(ps.total_swap_created, 2);
    assert_eq!(us.swaps_created, vec![addr(70), addr(71)]);
    assert_eq!(first.user_a_address, addr(USER_A));
    assert_eq!(first.user_b_address, addr(2));
    assert_eq!(first.token_a_address, addr(TOKEN_A));
    assert_eq!(first.token_b_address, addr(TOKEN_B));
    assert_eq!(first.token_a_amount, 300);
    assert_eq!(first.token_b_amount, 40);
    assert_eq!(first.user_a_token_b_account_address, addr(30));
    assert_eq!(first.swap_status, SwapStatus::UserADepositedTokens);
}

#[test]
fn create_swap_on_hold() {
    let mut ps = program(true);
    let mut us = stats(USER_A);
    let mut swap = blank_swap();
    let r = create_swap(&mut swap, &mut ps, &mut us, addr(USER_A), addr(TOKEN_A), addr(70), 500, addr(TOKEN_B), 300, 40, addr(30), addr(2));
    assert_eq!(r, Err(Errors::ProgramIsOnHold));
    assert_eq!(ps.total_swap_created, 0);
    assert!(us.swaps_created.is_empty());
}

#[test]
fn create_swap_insufficient_balance() {
    let mut ps = program(false);
    let mut us = stats(USER_A);
    let mut swap = blank_swap();
    let r = create_swap(&mut swap, &mut ps, &mut us, addr(USER_A), addr(TOKEN_A), addr(70), 299, addr(TOKEN_B), 300, 40, addr(30), addr(2));
    assert_eq!(r, Err(Errors::InsufficientBalance));
}

#[test]
fn swap_tokens_completes() {
    let mut ps = program(false);
    let mut us = stats(USER_A);
    let mut swap = opened(&mut ps, &mut us, 70);
    let r = swap_tokens(&mut swap, &ps, addr(TOKEN_A), addr(TOKEN_B), 40);
    assert_eq!(r, Ok(SwapTransfers { token_b_to_user_a: 40, token_a_to_user_b: 300, program_stats_bump: 254 }));
    assert_eq!(swap.swap_status, SwapStatus::SwapCompleted);
}

#[test]
fn swap_tokens_on_hold() {
    let mut ps = program(false);
    let mut us = stats(USER_A);
    let mut swap = opened(&mut ps, &mut us, 70);
    ps.is_swap_in_hold = true;
    assert_eq!(swap_tokens(&mut swap, &ps, addr(TOKEN_A), addr(TOKEN_B), 40), Err(Errors::ProgramIsOnHold));
}

#[test]
fn swap_tokens_after_cancel() {
    let mut ps = program(false);
    let mut us = stats(USER_A);
    let mut swap = opened(&mut ps, &mut us, 70);
    assert_eq!(cancel_swap(&mut swap, addr(USER_A)), Ok(()));
    assert_eq!(swap_tokens(&mut swap, &ps, addr(TOKEN_A), addr(TOKEN_B), 40), Err(Errors::NoStatusForSwap));
    assert_eq!(swap.swap_status, SwapStatus::SwapCancelled);
}

#[test]
fn swap_tokens_wrong_token() {
    let mut ps = program(false);
    let mut us = stats(USER_A);
    let mut swap = opened(&mut ps, &mut us, 70);
    assert_eq!(swap_tokens(&mut swap, &ps, addr(TOKEN_B), addr(TOKEN_B), 40), Err(Errors::InvalidTokenAccount));
    assert_eq!(swap_tokens(&mut swap, &ps, addr(TOKEN_A), addr(TOKEN_A), 40), Err(Errors::InvalidTokenAccount));
}

#[test]
fn swap_tokens_insufficient_balance() {
    let mut ps = program(false);
    let mut us = stats(USER_A);
    let mut swap = opened(&mut ps, &mut us, 70);
    assert_eq!(swap_tokens(&mut swap, &ps, addr(TOKEN_A), addr(TOKEN_B), 39), Err(Errors::InsufficientBalance));
    assert_eq!(swap.swap_status, SwapStatus::UserADepositedTokens);
}

#[test]
fn cancel_swap_only_user_a() {
    let mut ps = program(false);
    let mut us = stats(USER_A);
    let mut swap = opened(&mut ps, &mut us, 70);
    assert_eq!(cancel_swap(&mut swap, addr(2)), Err(Errors::OnlyUserACanAccessThisMethod));
    assert_eq!(swap.swap_status, SwapStatus::UserADepositedTokens);
}

#[test]
fn cancel_swap_after_completion() {
    let mut ps = program(false);
    let mut us = stats(USER_A);
    let mut swap = opened(&mut ps, &mut us, 70);
    assert!(swap_tokens(&mut swap, &ps, addr(TOKEN_A), addr(TOKEN_B), 40).is_ok());
    assert_eq!(cancel_swap(&mut swap, addr(USER_A)), Err(Errors::SwapCannotBeCancelled));
}

#[test]
fn hold_by_authority_only() {
    let mut ps = program(false);
    assert_eq!(hold_escrow_swap(&mut ps, addr(1)), Err(HandlerError::ConstraintHasOne));
    assert!(!ps.is_swap_in_hold);
    assert_eq!(hold_escrow_swap(&mut ps, addr(99)), Ok(()));
    assert!(ps.is_swap_in_hold);
}

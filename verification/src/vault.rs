//! A lamport vault: anyone deposits lamports into the program's account and
//! anyone withdraws them back out of it.
use vstd::prelude::*;

use crate::address::{Address, Transfer, move_lamports};

verus! {

/// The vault account.
pub struct Stats {
    pub bump: u8,
}

/// Records the bump of the vault's program address.
pub fn create_stats(stats: &mut Stats, bump: u8)
    ensures
        final(stats).bump == bump,
{
    stats.bump = bump;
}

/// The transfer that a deposit asks the system program for.
pub fn deposite_sol(user: Address, stats_key: Address, amount: u64) -> (t: Transfer)
    ensures
        t == (Transfer { from: user, to: stats_key, amount }),
{
    Transfer { from: user, to: stats_key, amount }
}

/// The balances of a debited and a credited account after `amount`
/// lamports move between them.
pub open spec fn moved(from_balance: int, to_balance: int, amount: int) -> (int, int) {
    (from_balance - amount, to_balance + amount)
}

/// The balances after a withdrawal: the vault's less `amount`, the user's
/// plus `amount`. The program panics when the vault holds less than
/// `amount` or the user's balance would overflow.
pub fn withdraw_sol(stats_lamports: u64, user_lamports: u64, amount: u64) -> (r: (u64, u64))
    requires
        amount <= stats_lamports,
        user_lamports + amount <= u64::MAX,
    ensures
        (r.0 as int, r.1 as int) == moved(stats_lamports as int, user_lamports as int, amount as int),
{
    move_lamports(stats_lamports, user_lamports, amount)
}

/// A withdrawal of what was just deposited gives both balances back. The
/// deposit is the transfer that `deposite_sol` asks for: `amount` moves from
/// the user to the vault. A withdrawal of the same `amount` is then never
/// refused by a panic, and leaves the vault and the user where they started.
pub proof fn lemma_withdraw_undoes_deposit(user_lamports: u64, stats_lamports: u64, amount: u64)
    requires
        amount <= user_lamports,
        stats_lamports + amount <= u64::MAX,
    ensures
        ({
            let (user_after_deposit, stats_after_deposit) = moved(
                user_lamports as int,
                stats_lamports as int,
                amount as int,
            );
            &&& amount <= stats_after_deposit
            &&& user_after_deposit + amount <= u64::MAX
            &&& moved(stats_after_deposit, user_after_deposit, amount as int) == (
                stats_lamports as int,
                user_lamports as int,
            )
        }),
{
}

} // verus!

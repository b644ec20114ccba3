//! A growable store of strings: each call appends one string, and the
//! account is reallocated to hold it.
use vstd::prelude::*;
use vstd::string::StringSliceAdditionalSpecFns;

use crate::address::Address;

verus! {

/// The store.
pub struct GlobalStats {
    pub authority: Address,
    pub data: Vec<String>,
}

/// Makes `signer` the owner of a fresh store and appends the first string.
pub fn create_global_account(global_stats: &mut GlobalStats, signer: Address, data: String)
    ensures
        final(global_stats).authority == signer,
        final(global_stats).data@ == old(global_stats).data@.push(data),
{
    global_stats.authority = signer;
    global_stats.data.push(data);
}

/// Appends a string.
pub fn store_data(global_stats: &mut GlobalStats, data: String)
    ensures
        final(global_stats).authority == old(global_stats).authority,
        final(global_stats).data@ == old(global_stats).data@.push(data),
{
    global_stats.data.push(data);
}

/// The bytes a fresh store is created with: discriminator, the in-memory
/// size of the store, and the first string's UTF-8 bytes.
pub fn get_space(data: &str) -> (r: usize)
    requires
        8 + vstd::layout::size_of::<GlobalStats>() + data.spec_bytes().len() <= usize::MAX,
    ensures
        r == 8 + vstd::layout::size_of::<GlobalStats>() + data.spec_bytes().len(),
{
    8 + core::mem::size_of::<GlobalStats>() + data.len()
}

/// The bytes a store is grown to before a string is appended: its current
/// length, a 4-byte length prefix and the string's UTF-8 bytes.
pub fn get_extended_account_space(account_data_len: usize, data: &str) -> (r: usize)
    requires
        account_data_len + 4 + data.spec_bytes().len() <= usize::MAX,
    ensures
        r == account_data_len + 4 + data.spec_bytes().len(),
{
    account_data_len + 4 + data.len()
}

} // verus!

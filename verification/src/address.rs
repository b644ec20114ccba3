use vstd::prelude::*;

verus! {

/// A 32-byte account address.
#[derive(Clone, Copy, Debug, PartialEq, Eq)]
pub struct Address {
    pub bytes: [u8; 32],
}

impl Address {
    /// The address with the given bytes.
    pub fn new(bytes: [u8; 32]) -> (a: Address)
        ensures
            a.bytes == bytes,
    {
        Address { bytes }
    }

    /// Whether every byte of the address is zero (the default address).
    pub open spec fn is_default(self) -> bool {
        forall|i: int| 0 <= i < 32 ==> self.bytes[i] == 0
    }

    /// Compares two addresses byte by byte.
    pub fn equals(&self, other: &Address) -> (r: bool)
        ensures
            r == (*self == *other),
    {
        let mut i: usize = 0;
        while i < 32
            invariant
                i <= 32,
                forall|k: int| 0 <= k < i ==> self.bytes[k] == other.bytes[k],
            decreases 32 - i,
        {
            if self.bytes[i] != other.bytes[i] {
                return false;
            }
            i += 1;
        }
        assert(self.bytes =~= other.bytes);
        true
    }

    /// Whether this is the default (all-zero) address.
    pub fn is_zero(&self) -> (r: bool)
        ensures
            r == self.is_default(),
    {
        let mut i: usize = 0;
        while i < 32
            invariant
                i <= 32,
                forall|k: int| 0 <= k < i ==> self.bytes[k] == 0,
            decreases 32 - i,
        {
            if self.bytes[i] != 0 {
                return false;
            }
            i += 1;
        }
        true
    }
}

impl Default for Address {
    fn default() -> (a: Address)
        ensures
            a.is_default(),
    {
        Address { bytes: [0u8; 32] }
    }
}

/// The index at which `key` first occurs in `list`, if it occurs.
pub fn position_of(list: &Vec<Address>, key: &Address) -> (r: Option<usize>)
    ensures
        match r {
            Some(i) => i < list@.len() && list@[i as int] == *key && forall|j: int|
                0 <= j < i ==> list@[j] != *key,
            None => !list@.contains(*key),
        },
{
    let mut i: usize = 0;
    while i < list.len()
        invariant
            i <= list@.len(),
            forall|j: int| 0 <= j < i ==> list@[j] != *key,
        decreases list@.len() - i,
    {
        if list[i].equals(key) {
            return Some(i);
        }
        i += 1;
    }
    None
}

/// The index of the first occurrence of `key` in `list`, or 0 when it does
/// not occur, is 0 exactly when `key` does not occur or occurs first.
pub open spec fn position_or_zero_is_zero(list: Seq<Address>, key: Address) -> bool {
    !list.contains(key) || list[0] == key
}

/// Whether no address occurs twice in `s`.
pub open spec fn all_distinct(s: Seq<Address>) -> bool {
    forall|i: int, j: int| 0 <= i < s.len() && 0 <= j < s.len() && i != j ==> s[i] != s[j]
}

/// A movement of lamports that a program asks the system program for.
#[derive(Clone, Copy, Debug, PartialEq, Eq)]
pub struct Transfer {
    pub from: Address,
    pub to: Address,
    pub amount: u64,
}

/// Moves `amount` lamports from a balance to another; the program panics
/// when the debit would go below zero or the credit above `u64::MAX`.
pub fn move_lamports(from_balance: u64, to_balance: u64, amount: u64) -> (r: (u64, u64))
    requires
        amount <= from_balance,
        to_balance + amount <= u64::MAX,
    ensures
        r.0 == from_balance - amount,
        r.1 == to_balance + amount,
        r.0 + r.1 == from_balance + to_balance,
{
    (from_balance - amount, to_balance + amount)
}

} // verus!

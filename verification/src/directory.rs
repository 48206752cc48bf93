//! The account directory: an in-memory, read-only mapping from address
//! to balance, fixed when it is built. Lookup is deterministic — when an
//! address occurs more than once, the earliest entry wins — and an
//! unknown address always yields `None`, never a default balance.

use vstd::prelude::*;

use crate::ledger::{transfer_sol, TransferError};
use crate::text::str_eq;

verus! {

/// One directory entry: an opaque address and its balance.
#[derive(Debug, Clone, PartialEq, Eq)]
pub struct Account {
    pub address: String,
    pub balance: u64,
}

/// A fixed table of accounts.
#[derive(Debug, Clone)]
pub struct Directory {
    accounts: Vec<Account>,
}

/// The balance of the first entry in `entries` whose address reads
/// `address`, or `None` when no entry does.
pub open spec fn lookup_in(entries: Seq<Account>, address: Seq<char>) -> Option<u64>
    decreases entries.len(),
{
    if entries.len() == 0 {
        None
    } else if entries[0].address@ == address {
        Some(entries[0].balance)
    } else {
        lookup_in(entries.drop_first(), address)
    }
}

impl View for Directory {
    type V = Seq<Account>;

    closed spec fn view(&self) -> Seq<Account> {
        self.accounts@
    }
}

impl Directory {
    /// What `lookup` returns for an address: a pure function of the
    /// directory's entries and the address alone.
    pub open spec fn spec_lookup(&self, address: Seq<char>) -> Option<u64> {
        lookup_in(self@, address)
    }

    /// Builds the directory over the given accounts.
    pub fn new(accounts: Vec<Account>) -> (r: Directory)
        ensures
            r@ == accounts@,
    {
        Directory { accounts }
    }

    /// Returns the balance recorded for the address, or `None` when the
    /// address is not in the table.
    pub fn lookup(&self, address: &str) -> (r: Option<u64>)
        ensures
            r == self.spec_lookup(address@),
    {
        proof {
            assert(self@.subrange(0, self@.len() as int) =~= self@);
        }
        let mut i: usize = 0;
        while i < self.accounts.len()
            invariant
                i <= self.accounts.len(),
                lookup_in(self@, address@) == lookup_in(
                    self@.subrange(i as int, self@.len() as int),
                    address@,
                ),
                self@ == self.accounts@,
            decreases self.accounts.len() - i,
        {
            proof {
                assert(self@.subrange(i as int, self@.len() as int)[0] == self@[i as int]);
                assert(self@.subrange(i as int, self@.len() as int).drop_first() =~= self@.subrange(
                    i + 1,
                    self@.len() as int,
                ));
            }
            if str_eq(self.accounts[i].address.as_str(), address) {
                return Some(self.accounts[i].balance);
            }
            i = i + 1;
        }
        proof {
            assert(self@.subrange(i as int, self@.len() as int).len() == 0);
        }
        None
    }

    /// Looks both addresses up, failing on the first missing one before
    /// any balance arithmetic, then delegates to [`transfer_sol`].
    pub fn complex_transfer(&self, from: &str, to: &str, amount: u64) -> (r: Result<
        u64,
        TransferError,
    >)
        ensures
            self.spec_lookup(from@) is None ==> r == Err::<u64, TransferError>(
                TransferError::SourceAccountNotFound,
            ),
            self.spec_lookup(from@) is Some && self.spec_lookup(to@) is None ==> r == Err::<
                u64,
                TransferError,
            >(TransferError::DestinationAccountNotFound),
            self.spec_lookup(from@) is Some && self.spec_lookup(to@) is Some ==> {
                let balance = self.spec_lookup(from@).unwrap();
                &&& amount > balance ==> r == Err::<u64, TransferError>(
                    TransferError::InsufficientBalance,
                )
                &&& amount <= balance ==> r == Ok::<u64, TransferError>((balance - amount) as u64)
            },
    {
        let from_balance = match self.lookup(from) {
            Some(balance) => balance,
            None => {
                return Err(TransferError::SourceAccountNotFound);
            },
        };
        match self.lookup(to) {
            Some(_) => {},
            None => {
                return Err(TransferError::DestinationAccountNotFound);
            },
        }
        transfer_sol(from_balance, amount)
    }
}

/// An address that no entry carries is never found: lookup fails closed,
/// and never yields a default balance.
pub proof fn lemma_unknown_address_not_found(entries: Seq<Account>, address: Seq<char>)
    requires
        forall|i: int| 0 <= i < entries.len() ==> entries[i].address@ != address,
    ensures
        lookup_in(entries, address) is None,
    decreases entries.len(),
{
    if entries.len() > 0 {
        assert(entries[0].address@ != address);
        assert(forall|i: int|
            0 <= i < entries.drop_first().len() ==> entries.drop_first()[i] == entries[i + 1]);
        lemma_unknown_address_not_found(entries.drop_first(), address);
    }
}

/// The directory is immutable within a run, so two lookups of equal
/// addresses always yield the same result.
pub proof fn lemma_lookup_idempotent(directory: &Directory, first: Seq<char>, second: Seq<char>)
    requires
        first == second,
    ensures
        directory.spec_lookup(first) == directory.spec_lookup(second),
{
}

} // verus!

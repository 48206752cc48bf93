//! Account types and the `Summary` capability they share: each account
//! can produce a human-readable summary, and an account is valid exactly
//! when that summary is non-empty.

use vstd::prelude::*;
use vstd::string::StringExecFns;

use crate::text::{decimal_digits, u64_to_string};

verus! {

/// The capability of producing a one-line summary of an account.
pub trait Summary {
    /// The characters that `summarize` returns.
    spec fn spec_summary(&self) -> Seq<char>;

    /// Produces the account's summary.
    fn summarize(&self) -> (r: String)
        ensures
            r@ == self.spec_summary(),
    ;

    /// An account is valid exactly when its summary is non-empty.
    fn validate(&self) -> (r: bool)
        ensures
            r == (self.spec_summary().len() > 0),
    {
        !self.summarize().as_str().is_empty()
    }
}

/// A token account: a mint, an owner, and an amount of tokens.
#[derive(Debug, Clone, PartialEq, Eq)]
pub struct TokenAccount {
    pub mint: String,
    pub owner: String,
    pub amount: u64,
}

impl Summary for TokenAccount {
    open spec fn spec_summary(&self) -> Seq<char> {
        "Token账户: owner="@ + self.owner@ + ", mint="@ + self.mint@ + ", amount="@
            + decimal_digits(self.amount as int)
    }

    fn summarize(&self) -> (r: String) {
        let mut r = String::from_str("Token账户: owner=");
        r.append(self.owner.as_str());
        r.append(", mint=");
        r.append(self.mint.as_str());
        r.append(", amount=");
        r.append(u64_to_string(self.amount).as_str());
        proof {
            assert(r@ =~= self.spec_summary());
        }
        r
    }
}

/// A user account: a username, a balance, and a creation time.
#[derive(Debug, Clone, PartialEq, Eq)]
pub struct UserAccount {
    pub username: String,
    pub balance: u64,
    pub created_at: i64,
}

impl Summary for UserAccount {
    open spec fn spec_summary(&self) -> Seq<char> {
        "用户账户: "@ + self.username@ + ", 余额: "@ + decimal_digits(self.balance as int)
    }

    fn summarize(&self) -> (r: String) {
        let mut r = String::from_str("用户账户: ");
        r.append(self.username.as_str());
        r.append(", 余额: ");
        r.append(u64_to_string(self.balance).as_str());
        proof {
            assert(r@ =~= self.spec_summary());
        }
        r
    }
}

/// Wraps a value of any account data type together with the key it is
/// stored under and the program that owns it.
#[derive(Debug)]
pub struct AccountWrapper<T> {
    pub key: String,
    pub data: T,
    pub owner: String,
}

impl<T> AccountWrapper<T> {
    /// Builds a wrapper from its three parts.
    pub fn new(key: String, data: T, owner: String) -> (r: Self)
        ensures
            r.key == key,
            r.data == data,
            r.owner == owner,
    {
        Self { key, data, owner }
    }

    /// The key the wrapped data is stored under.
    pub fn get_key(&self) -> (r: &String)
        ensures
            r == &self.key,
    {
        &self.key
    }

    /// The wrapped data.
    pub fn get_data(&self) -> (r: &T)
        ensures
            r == &self.data,
    {
        &self.data
    }
}

impl<T: Summary> Summary for AccountWrapper<T> {
    open spec fn spec_summary(&self) -> Seq<char> {
        "包装账户 ["@ + self.key@ + "]: "@ + self.data.spec_summary()
    }

    fn summarize(&self) -> (r: String) {
        let mut r = String::from_str("包装账户 [");
        r.append(self.key.as_str());
        r.append("]: ");
        r.append(self.data.summarize().as_str());
        proof {
            assert(r@ =~= self.spec_summary());
        }
        r
    }
}

/// The summary of any account that has one.
pub fn get_summary<T: Summary>(item: &T) -> (r: String)
    ensures
        r@ == item.spec_summary(),
{
    item.summarize()
}

} // verus!

//! The transfer engine and its fixed account table: looking an address up,
//! moving an amount out of a balance, and the composite transfer that
//! looks both sides up before it touches any balance.

use vstd::prelude::*;
use vstd::string::StringExecFns;

use crate::text::{decimal_digits, str_eq, u64_to_string};

verus! {

/// The outcome variants of a balance-moving operation. Every consumer
/// must handle all three.
#[derive(Debug, Clone, Copy, PartialEq, Eq)]
pub enum TransferResult {
    Success,
    InsufficientBalance,
    AccountNotFound,
}

impl TransferResult {
    /// The human-readable description of the outcome.
    pub fn message(&self) -> (r: String)
        ensures
            *self is Success ==> r@ == "转账成功"@,
            *self is InsufficientBalance ==> r@ == "余额不足"@,
            *self is AccountNotFound ==> r@ == "账户不存在"@,
    {
        match self {
            TransferResult::Success => String::from_str("转账成功"),
            TransferResult::InsufficientBalance => String::from_str("余额不足"),
            TransferResult::AccountNotFound => String::from_str("账户不存在"),
        }
    }
}

/// The closed set of instructions a caller can hand to an account.
#[derive(Debug, Clone, PartialEq, Eq)]
pub enum SolanaInstruction {
    Transfer { amount: u64, to_address: String },
    CreateAccount { initial_balance: u64 },
    CloseAccount,
}

impl SolanaInstruction {
    /// The characters that `describe` returns.
    pub open spec fn spec_describe(&self) -> Seq<char> {
        match self {
            SolanaInstruction::Transfer { amount, to_address } => "转账 "@ + decimal_digits(
                *amount as int,
            ) + " 到 "@ + to_address@,
            SolanaInstruction::CreateAccount { initial_balance } => "创建账户，初始余额 "@
                + decimal_digits(*initial_balance as int),
            SolanaInstruction::CloseAccount => "关闭账户"@,
        }
    }

    /// The human-readable description of the instruction.
    pub fn describe(&self) -> (r: String)
        ensures
            r@ == self.spec_describe(),
    {
        match self {
            SolanaInstruction::Transfer { amount, to_address } => {
                let mut r = String::from_str("转账 ");
                r.append(u64_to_string(*amount).as_str());
                r.append(" 到 ");
                r.append(to_address.as_str());
                proof {
                    assert(r@ =~= self.spec_describe());
                }
                r
            },
            SolanaInstruction::CreateAccount { initial_balance } => {
                let mut r = String::from_str("创建账户，初始余额 ");
                r.append(u64_to_string(*initial_balance).as_str());
                r
            },
            SolanaInstruction::CloseAccount => String::from_str("关闭账户"),
        }
    }
}

/// The errors a transfer can end in, each tied to the input that causes it.
#[derive(Debug, Clone, Copy, PartialEq, Eq)]
pub enum TransferError {
    SourceAccountNotFound,
    DestinationAccountNotFound,
    InsufficientBalance,
}

impl TransferError {
    /// The human-readable description of the error.
    pub fn message(&self) -> (r: String)
        ensures
            *self is SourceAccountNotFound ==> r@ == "发送方账户不存在"@,
            *self is DestinationAccountNotFound ==> r@ == "接收方账户不存在"@,
            *self is InsufficientBalance ==> r@ == "余额不足"@,
    {
        match self {
            TransferError::SourceAccountNotFound => String::from_str("发送方账户不存在"),
            TransferError::DestinationAccountNotFound => String::from_str("接收方账户不存在"),
            TransferError::InsufficientBalance => String::from_str("余额不足"),
        }
    }
}

/// The balance that the fixed account table holds for an address, or
/// `None` for every address outside the table.
pub open spec fn spec_find_account(address: Seq<char>) -> Option<u64> {
    if address == "0x1234567890"@ {
        Some(100u64)
    } else if address == "0x1234567891"@ {
        Some(200u64)
    } else if address == "0x1234567892"@ {
        Some(300u64)
    } else {
        None
    }
}

/// Looks an address up in the fixed account table. An unknown address
/// yields `None`, never a default balance.
pub fn find_account(address: &str) -> (r: Option<u64>)
    ensures
        r == spec_find_account(address@),
{
    if str_eq(address, "0x1234567890") {
        Some(100)
    } else if str_eq(address, "0x1234567891") {
        Some(200)
    } else if str_eq(address, "0x1234567892") {
        Some(300)
    } else {
        None
    }
}

/// An address outside the fixed account table is never found: lookup
/// fails closed, and never yields a default balance.
pub proof fn lemma_unknown_address_not_in_table(address: Seq<char>)
    requires
        address != "0x1234567890"@,
        address != "0x1234567891"@,
        address != "0x1234567892"@,
    ensures
        spec_find_account(address) is None,
{
}

/// The fixed account table is immutable within a run, so two lookups of
/// equal addresses always yield the same result.
pub proof fn lemma_find_account_idempotent(first: Seq<char>, second: Seq<char>)
    requires
        first == second,
    ensures
        spec_find_account(first) == spec_find_account(second),
{
}

/// Moves `amount` out of `from_balance`. Fails with `InsufficientBalance`
/// exactly when the amount exceeds the balance; otherwise returns exactly
/// the balance minus the amount, with no partial transfer and no wraparound.
pub fn transfer_sol(from_balance: u64, amount: u64) -> (r: Result<u64, TransferError>)
    ensures
        amount > from_balance ==> r == Err::<u64, TransferError>(
            TransferError::InsufficientBalance,
        ),
        amount <= from_balance ==> r == Ok::<u64, TransferError>((from_balance - amount) as u64),
{
    if amount > from_balance {
        Err(TransferError::InsufficientBalance)
    } else {
        Ok(from_balance - amount)
    }
}

/// Looks both addresses up in the fixed account table, failing on the
/// first missing one before any balance arithmetic, then delegates to
/// [`transfer_sol`].
pub fn complex_transfer(from: &str, to: &str, amount: u64) -> (r: Result<u64, TransferError>)
    ensures
        spec_find_account(from@) is None ==> r == Err::<u64, TransferError>(
            TransferError::SourceAccountNotFound,
        ),
        spec_find_account(from@) is Some && spec_find_account(to@) is None ==> r == Err::<
            u64,
            TransferError,
        >(TransferError::DestinationAccountNotFound),
        spec_find_account(from@) is Some && spec_find_account(to@) is Some ==> {
            let balance = spec_find_account(from@).unwrap();
            &&& amount > balance ==> r == Err::<u64, TransferError>(
                TransferError::InsufficientBalance,
            )
            &&& amount <= balance ==> r == Ok::<u64, TransferError>((balance - amount) as u64)
        },
{
    let from_balance = match find_account(from) {
        Some(balance) => balance,
        None => {
            return Err(TransferError::SourceAccountNotFound);
        },
    };
    match find_account(to) {
        Some(_) => {},
        None => {
            return Err(TransferError::DestinationAccountNotFound);
        },
    }
    transfer_sol(from_balance, amount)
}

} // verus!

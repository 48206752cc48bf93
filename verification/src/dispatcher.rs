//! The instruction dispatcher: a single-shot dispatch over a closed set
//! of program instructions, and the generic token-transfer entry point.
//! The dispatcher is descriptive, not enforcing: its exercised paths
//! always succeed, while the result type still enumerates the failure
//! cases for its consumers to handle.

use vstd::prelude::*;
use vstd::string::StringExecFns;

use crate::accounts::Summary;
use crate::text::{decimal_digits, u64_to_string};

verus! {

/// The outcome variants of a dispatched transaction. Every consumer must
/// handle all three.
#[derive(Debug, Clone, Copy, PartialEq, Eq)]
pub enum TransactionResult {
    Success,
    InsufficientFunds,
    InvalidAccount,
}

impl TransactionResult {
    /// The human-readable description of the outcome.
    pub fn message(&self) -> (r: String)
        ensures
            *self is Success ==> r@ == "✅ 交易成功!"@,
            *self is InsufficientFunds ==> r@ == "❌ 余额不足!"@,
            *self is InvalidAccount ==> r@ == "❌ 账户无效!"@,
    {
        match self {
            TransactionResult::Success => String::from_str("✅ 交易成功!"),
            TransactionResult::InsufficientFunds => String::from_str("❌ 余额不足!"),
            TransactionResult::InvalidAccount => String::from_str("❌ 账户无效!"),
        }
    }
}

/// Classifies a transfer between any two summarizable accounts: a zero
/// amount is an invalid request, an amount over 10000 exceeds the funds,
/// and anything in between succeeds.
pub fn transfer_tokens<T: Summary, U: Summary>(from: &T, to: &U, amount: u64) -> (r:
    TransactionResult)
    ensures
        amount == 0 ==> r == TransactionResult::InvalidAccount,
        amount > 10000 ==> r == TransactionResult::InsufficientFunds,
        0 < amount <= 10000 ==> r == TransactionResult::Success,
{
    if amount == 0 {
        TransactionResult::InvalidAccount
    } else if amount > 10000 {
        TransactionResult::InsufficientFunds
    } else {
        TransactionResult::Success
    }
}

/// The closed set of instructions the program processor dispatches on.
#[derive(Debug, Clone, Copy, PartialEq, Eq)]
pub enum ProgramInstruction {
    Initialize { initial_supply: u64 },
    Transfer { amount: u64 },
    Mint { amount: u64 },
}

impl ProgramInstruction {
    /// The characters that `describe` returns.
    pub open spec fn spec_describe(&self) -> Seq<char> {
        match self {
            ProgramInstruction::Initialize { initial_supply } => "初始化程序，初始供应量: "@
                + decimal_digits(*initial_supply as int),
            ProgramInstruction::Transfer { amount } => "执行转账，金额: "@ + decimal_digits(
                *amount as int,
            ),
            ProgramInstruction::Mint { amount } => "铸造代币，数量: "@ + decimal_digits(
                *amount as int,
            ),
        }
    }

    /// The human-readable description of the instruction.
    pub fn describe(&self) -> (r: String)
        ensures
            r@ == self.spec_describe(),
    {
        match self {
            ProgramInstruction::Initialize { initial_supply } => {
                let mut r = String::from_str("初始化程序，初始供应量: ");
                r.append(u64_to_string(*initial_supply).as_str());
                r
            },
            ProgramInstruction::Transfer { amount } => {
                let mut r = String::from_str("执行转账，金额: ");
                r.append(u64_to_string(*amount).as_str());
                r
            },
            ProgramInstruction::Mint { amount } => {
                let mut r = String::from_str("铸造代币，数量: ");
                r.append(u64_to_string(*amount).as_str());
                r
            },
        }
    }
}

/// Dispatches program instructions against summarizable accounts.
pub struct ProgramProcessor;

impl ProgramProcessor {
    /// Dispatches one instruction. Every exercised path succeeds: the
    /// dispatch is single-shot and keeps no state between calls.
    pub fn process_instruction<T: Summary>(
        instruction: ProgramInstruction,
        accounts: Vec<&T>,
    ) -> (r: TransactionResult)
        ensures
            r == TransactionResult::Success,
    {
        match instruction {
            ProgramInstruction::Initialize { initial_supply: _ } => TransactionResult::Success,
            ProgramInstruction::Transfer { amount: _ } => TransactionResult::Success,
            ProgramInstruction::Mint { amount: _ } => TransactionResult::Success,
        }
    }
}

} // verus!

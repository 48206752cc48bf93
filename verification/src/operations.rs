//! Result-typed operations over a second fixed account table: checked
//! division, lookup, a guarded transfer, and a composite operation that
//! reports the remaining balance as text.

use vstd::prelude::*;
use vstd::string::StringExecFns;

use crate::ledger::TransferError;
use crate::text::{decimal_digits, str_eq, u64_to_string};

verus! {

/// The one error a division can end in.
#[derive(Debug, Clone, Copy, PartialEq, Eq)]
pub enum DivideError {
    DivisionByZero,
}

/// The quotient of dividing `a` by `b`, rounded toward zero.
pub open spec fn truncated_div(a: int, b: int) -> int
    recommends
        b != 0,
{
    let magnitude = (if a < 0 {
        -a
    } else {
        a
    }) / (if b < 0 {
        -b
    } else {
        b
    });
    if (a < 0) != (b < 0) {
        -magnitude
    } else {
        magnitude
    }
}

/// Divides `a` by `b`, failing exactly when `b` is zero. The quotient
/// rounds toward zero.
pub fn divide(a: i32, b: i32) -> (r: Result<i32, DivideError>)
    requires
        !(a == i32::MIN && b == -1),
    ensures
        b == 0 ==> r == Err::<i32, DivideError>(DivideError::DivisionByZero),
        b != 0 ==> r is Ok,
        b > 0 ==> r == Ok::<i32, DivideError>(truncated_div(a as int, b as int) as i32),
{
    if b == 0 {
        Err(DivideError::DivisionByZero)
    } else {
        Ok(a / b)
    }
}

/// The balance that this module's fixed account table holds for an
/// address, or `None` for every address outside the table.
pub open spec fn spec_find_account(address: Seq<char>) -> Option<u64> {
    if address == "0x1234567890"@ {
        Some(1000u64)
    } else if address == "0x1234567891"@ {
        Some(500u64)
    } else if address == "0x1234567892"@ {
        Some(800u64)
    } else {
        None
    }
}

/// Looks an address up in this module's fixed account table. An unknown
/// address yields `None`, never a default balance.
pub fn find_account(address: &str) -> (r: Option<u64>)
    ensures
        r == spec_find_account(address@),
{
    if str_eq(address, "0x1234567890") {
        Some(1000)
    } else if str_eq(address, "0x1234567891") {
        Some(500)
    } else if str_eq(address, "0x1234567892") {
        Some(800)
    } else {
        None
    }
}

/// Looks both addresses up, failing on the first missing one before any
/// balance arithmetic, then moves `amount` out of the source balance.
pub fn safe_transfer(from: &str, to: &str, amount: u64) -> (r: Result<u64, TransferError>)
    ensures
        spec_find_account(from@) is None ==> r == Err::<u64, TransferError>(
            TransferError::SourceAccountNotFound,
        ),
        spec_find_account(from@) is Some && spec_find_account(to@) is None ==> r == Err::<
            u64,
            TransferError,
        >(TransferError::DestinationAccountNotFound),
        spec_find_account(from@) is Some && spec_find_account(to@) is Some ==> {
            let balance = spec_find_account(from@).unwrap();
            &&& balance < amount ==> r == Err::<u64, TransferError>(
                TransferError::InsufficientBalance,
            )
            &&& balance >= amount ==> r == Ok::<u64, TransferError>((balance - amount) as u64)
        },
{
    let from_balance = match find_account(from) {
        Some(balance) => balance,
        None => {
            return Err(TransferError::SourceAccountNotFound);
        },
    };
    match find_account(to) {
        Some(_) => {},
        None => {
            return Err(TransferError::DestinationAccountNotFound);
        },
    }
    if from_balance < amount {
        return Err(TransferError::InsufficientBalance);
    }
    Ok(from_balance - amount)
}

/// The text that [`complex_operation`] returns on success for the given
/// remaining balance.
pub open spec fn spec_operation_message(remaining: int) -> Seq<char> {
    "操作成功，剩余余额: "@ + decimal_digits(remaining)
}

/// Looks the address up, failing before any balance arithmetic when it is
/// missing, then checks the balance and reports the remaining balance as
/// text.
pub fn complex_operation(address: &str, amount: u64) -> (r: Result<String, TransferError>)
    ensures
        spec_find_account(address@) is None ==> r == Err::<String, TransferError>(
            TransferError::SourceAccountNotFound,
        ),
        spec_find_account(address@) is Some ==> {
            let balance = spec_find_account(address@).unwrap();
            &&& balance < amount ==> r == Err::<String, TransferError>(
                TransferError::InsufficientBalance,
            )
            &&& balance >= amount ==> (r matches Ok(message) && message@ == spec_operation_message(
                (balance - amount) as int,
            ))
        },
{
    let balance = match find_account(address) {
        Some(balance) => balance,
        None => {
            return Err(TransferError::SourceAccountNotFound);
        },
    };
    if balance >= amount {
        let remaining = balance - amount;
        let mut message = String::from_str("操作成功，剩余余额: ");
        message.append(u64_to_string(remaining).as_str());
        Ok(message)
    } else {
        Err(TransferError::InsufficientBalance)
    }
}

} // verus!

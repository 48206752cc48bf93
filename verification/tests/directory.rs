use miniledger::directory::{Account, Directory};
use miniledger::ledger::{transfer_sol, TransferError};

fn two_account_directory() -> Directory {
    let accounts = vec![
        Account { address: "A".to_string(), balance: 100 },
        Account { address: "B".to_string(), balance: 200 },
    ];
    Directory::new(accounts)
}

#[test]
fn scenario_two_accounts() {
    let directory = two_account_directory();
    assert_eq!(transfer_sol(100, 30), Ok(70));
    assert_eq!(transfer_sol(100, 150), Err(TransferError::InsufficientBalance));
    assert_eq!(directory.complex_transfer("A", "B", 50), Ok(50));
    assert_eq!(
        directory.complex_transfer("A", "Z", 50),
        Err(TransferError::DestinationAccountNotFound)
    );
}

#[test]
fn directory_lookup() {
    let directory = two_account_directory();
    assert_eq!(directory.lookup("A"), Some(100));
    assert_eq!(directory.lookup("B"), Some(200));
    assert_eq!(directory.lookup("Z"), None);
    assert_eq!(directory.lookup(""), None);
}

#[test]
fn directory_lookup_twice_same_result() {
    let directory = two_account_directory();
    assert_eq!(directory.lookup("A"), directory.lookup("A"));
    assert_eq!(directory.lookup("Z"), directory.lookup("Z"));
}

#[test]
fn directory_earliest_entry_wins() {
    let accounts = vec![
        Account { address: "A".to_string(), balance: 100 },
        Account { address: "A".to_string(), balance: 999 },
    ];
    let directory = Directory::new(accounts);
    assert_eq!(directory.lookup("A"), Some(100));
}

#[test]
fn directory_transfer_unknown_source() {
    let directory = two_account_directory();
    assert_eq!(
        directory.complex_transfer("Z", "B", 50),
        Err(TransferError::SourceAccountNotFound)
    );
}

#[test]
fn directory_transfer_insufficient_balance() {
    let directory = two_account_directory();
    assert_eq!(
        directory.complex_transfer("A", "B", 101),
        Err(TransferError::InsufficientBalance)
    );
}

#[test]
fn empty_directory_finds_nothing() {
    let directory = Directory::new(Vec::new());
    assert_eq!(directory.lookup("A"), None);
    assert_eq!(
        directory.complex_transfer("A", "B", 1),
        Err(TransferError::SourceAccountNotFound)
    );
}

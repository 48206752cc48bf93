use miniledger::accounts::{get_summary, AccountWrapper, Summary, TokenAccount, UserAccount};
use miniledger::dispatcher::{ProgramInstruction, ProgramProcessor, TransactionResult};

#[test]
fn test_trait_implementation() {
    let token = TokenAccount {
        mint: "test_mint".to_string(),
        owner: "test_owner".to_string(),
        amount: 100,
    };

    assert!(token.validate());
    assert!(token.summarize().contains("Token账户"));
}

#[test]
fn test_generic_wrapper() {
    let user = UserAccount {
        username: "test_user".to_string(),
        balance: 1000,
        created_at: 1640995200,
    };

    let wrapped = AccountWrapper::new(
        "test_key".to_string(),
        user,
        "test_owner".to_string(),
    );

    assert_eq!(wrapped.get_key(), "test_key");
    assert!(wrapped.summarize().contains("包装账户"));
}

#[test]
fn test_program_processor() {
    let token = TokenAccount {
        mint: "test_mint".to_string(),
        owner: "test_owner".to_string(),
        amount: 100,
    };

    let instruction = ProgramInstruction::Initialize { initial_supply: 1000 };
    let result = ProgramProcessor::process_instruction(instruction, vec![&token]);

    assert_eq!(result, TransactionResult::Success);
}

#[test]
fn token_account_summary_exact() {
    let token = TokenAccount {
        mint: "test_mint".to_string(),
        owner: "test_owner".to_string(),
        amount: 100,
    };
    assert_eq!(
        token.summarize(),
        "Token账户: owner=test_owner, mint=test_mint, amount=100"
    );
}

#[test]
fn user_account_summary_exact() {
    let user = UserAccount {
        username: "alice".to_string(),
        balance: 5000,
        created_at: 1640995200,
    };
    assert_eq!(user.summarize(), "用户账户: alice, 余额: 5000");
    assert!(user.validate());
}

#[test]
fn wrapped_account_summary_exact() {
    let token = TokenAccount {
        mint: "m".to_string(),
        owner: "o".to_string(),
        amount: 7,
    };
    let wrapped = AccountWrapper::new("TokenAccount123".to_string(), token, "SystemProgram".to_string());
    assert_eq!(
        wrapped.summarize(),
        "包装账户 [TokenAccount123]: Token账户: owner=o, mint=m, amount=7"
    );
    assert!(wrapped.validate());
}

#[test]
fn wrapper_returns_its_parts() {
    let wrapped = AccountWrapper::new("key1".to_string(), 42u64, "owner1".to_string());
    assert_eq!(wrapped.get_key(), "key1");
    assert_eq!(*wrapped.get_data(), 42u64);
    assert_eq!(wrapped.owner, "owner1");
}

#[test]
fn get_summary_matches_summarize() {
    let user = UserAccount {
        username: "bob".to_string(),
        balance: 12,
        created_at: 0,
    };
    assert_eq!(get_summary(&user), user.summarize());
}

use pumpfun::address::Address;
use pumpfun::amount::parse_amount;
use pumpfun::error::TradeError;
use pumpfun::trade::common::{
    get_associated_token_address, get_sol_balance, get_token_balance, transfer_sol, BalanceRead,
    Need, Step, TokenAmountRead,
};
use pumpfun::instruction::{Instruction, Route, Submission, Transaction};

fn owner() -> Address {
    Address { bytes: [31u8; 32] }
}

fn token() -> Address {
    Address { bytes: [32u8; 32] }
}

#[test]
fn amounts_are_decimal_digits() {
    assert_eq!(parse_amount("0"), Some(0));
    assert_eq!(parse_amount("7"), Some(7));
    assert_eq!(parse_amount("000123"), Some(123));
    assert_eq!(parse_amount("1000000000"), Some(1_000_000_000));
    assert_eq!(parse_amount("+42"), Some(42));
    assert_eq!(parse_amount("18446744073709551615"), Some(u64::MAX));
}

#[test]
fn amounts_agree_with_the_standard_parser() {
    for text in [
        "", "+", "-", "-1", "+0", "++1", "1+", " 1", "1 ", "1_000", "0x10", "12a", "١٢", "1.5",
        "18446744073709551615", "18446744073709551616", "99999999999999999999999", "0000000000000000000001",
        "+18446744073709551615", "9", "10",
    ] {
        assert_eq!(parse_amount(text), text.parse::<u64>().ok(), "{:?}", text);
    }
}

#[test]
fn amounts_that_do_not_fit_are_refused() {
    assert_eq!(parse_amount("18446744073709551616"), None);
    assert_eq!(parse_amount("184467440737095516150"), None);
    assert_eq!(parse_amount(""), None);
    assert_eq!(parse_amount("+"), None);
    assert_eq!(parse_amount("12x"), None);
}

#[test]
fn token_balance_probes_then_reads() {
    let account = get_associated_token_address(&owner(), &token()).unwrap();
    assert_eq!(
        get_token_balance(&owner(), &token(), None, &TokenAmountRead::Pending),
        Ok(Step::Read(Need::AccountExists(account)))
    );
    assert_eq!(
        get_token_balance(&owner(), &token(), Some(false), &TokenAmountRead::Pending),
        Ok(Step::Ready(0))
    );
    assert_eq!(
        get_token_balance(&owner(), &token(), Some(false), &TokenAmountRead::Amount("5".to_string())),
        Ok(Step::Ready(0))
    );
    assert_eq!(
        get_token_balance(&owner(), &token(), Some(true), &TokenAmountRead::Pending),
        Ok(Step::Read(Need::TokenBalance(account)))
    );
    assert_eq!(
        get_token_balance(&owner(), &token(), Some(true), &TokenAmountRead::Amount("123456".to_string())),
        Ok(Step::Ready(123_456))
    );
}

#[test]
fn token_balance_errors_by_kind() {
    assert_eq!(
        get_token_balance(&owner(), &token(), Some(true), &TokenAmountRead::Failed),
        Err(TradeError::TransportFailure)
    );
    assert_eq!(
        get_token_balance(&owner(), &token(), Some(true), &TokenAmountRead::Amount("12.5".to_string())),
        Err(TradeError::DeserializationFailed)
    );
}

#[test]
fn sol_balance_is_what_was_read() {
    assert_eq!(get_sol_balance(&owner(), BalanceRead::Pending), Ok(Step::Read(Need::Balance(owner()))));
    assert_eq!(get_sol_balance(&owner(), BalanceRead::Failed), Err(TradeError::TransportFailure));
    assert_eq!(get_sol_balance(&owner(), BalanceRead::Lamports(9)), Ok(Step::Ready(9)));
}

#[test]
fn transfer_of_nothing_is_refused_before_the_balance_is_read() {
    assert_eq!(transfer_sol(&owner(), &token(), 0, BalanceRead::Pending), Err(TradeError::InvalidInput));
    assert_eq!(
        transfer_sol(&owner(), &token(), 0, BalanceRead::Lamports(10)),
        Err(TradeError::InvalidInput)
    );
    assert_eq!(transfer_sol(&owner(), &token(), 0, BalanceRead::Failed), Err(TradeError::InvalidInput));
}

#[test]
fn transfer_needs_the_balance() {
    assert_eq!(
        transfer_sol(&owner(), &token(), 5, BalanceRead::Pending),
        Ok(Step::Read(Need::Balance(owner())))
    );
    assert_eq!(transfer_sol(&owner(), &token(), 5, BalanceRead::Failed), Err(TradeError::TransportFailure));
    assert_eq!(
        transfer_sol(&owner(), &token(), 5, BalanceRead::Lamports(4)),
        Err(TradeError::InsufficientBalance)
    );
}

#[test]
fn transfer_moves_the_amount() {
    let expected = Submission {
        transaction: Transaction {
            instructions: vec![Instruction::Transfer { from: owner(), to: token(), lamports: 5 }],
            payer: owner(),
            signers: vec![owner()],
        },
        route: Route::SendAndConfirm,
    };
    assert_eq!(
        transfer_sol(&owner(), &token(), 5, BalanceRead::Lamports(5)),
        Ok(Step::Ready(expected.clone()))
    );
    assert_eq!(
        transfer_sol(&owner(), &token(), 5, BalanceRead::Lamports(u64::MAX)),
        Ok(Step::Ready(expected))
    );
}

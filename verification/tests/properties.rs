use bank::contract::{
    execute, instantiate, query, query_account, query_balance, receive_deposit, try_create,
    try_transfer, try_withdraw,
};
use bank::error::ContractError;
use bank::msg::{ExecuteMsg, Outcome, QueryMsg, ReceiveEnvelope, ReceiveMsg};
use bank::state::Ledger;

const TOKEN: &str = "cosmos2contract";

fn fresh_ledger() -> Ledger {
    let (ledger, _res) = instantiate("creator".to_string(), Some(TOKEN.to_string())).unwrap();
    ledger
}

fn create(ledger: &mut Ledger, owner: &str, name: &str) {
    let sender = owner.to_string();
    try_create(ledger, &sender, name.to_string()).unwrap();
}

fn deposit(ledger: &mut Ledger, account: &str, amount: u128) {
    receive_deposit(ledger, account.to_string(), amount, "depositor".to_string()).unwrap();
}

fn balance_of(ledger: &Ledger, account: &str) -> u128 {
    query_balance(ledger, account.to_string()).unwrap().balance
}

#[test]
fn new_account_has_zero_balance() {
    let mut ledger = fresh_ledger();
    create(&mut ledger, "user1", "Account 1");
    assert_eq!(balance_of(&ledger, "Account 1"), 0);
}

#[test]
fn second_creation_leaves_first_record_alone() {
    let mut ledger = fresh_ledger();
    create(&mut ledger, "user1", "Account 1");
    deposit(&mut ledger, "Account 1", 7);

    let other = "user2".to_string();
    let res = try_create(&mut ledger, &other, "Account 1".to_string());
    assert_eq!(res.unwrap_err(), ContractError::AlreadyExists);

    // the first creation's record is untouched, owner included
    assert_eq!(balance_of(&ledger, "Account 1"), 7);
    let names = query_account(&ledger, "user1".to_string()).unwrap().account;
    assert_eq!(names, vec!["Account 1"]);
    assert!(query_account(&ledger, "user2".to_string()).is_err());
}

#[test]
fn owner_index_keeps_creation_order() {
    let mut ledger = fresh_ledger();
    create(&mut ledger, "user1", "A");
    create(&mut ledger, "user1", "B");
    let names = query_account(&ledger, "user1".to_string()).unwrap().account;
    assert_eq!(names, vec!["A", "B"]);
}

#[test]
fn deposit_to_missing_account_creates_no_record() {
    let mut ledger = fresh_ledger();
    let res = receive_deposit(&mut ledger, "ghost".to_string(), 55, "depositor".to_string());
    assert_eq!(res.unwrap_err(), ContractError::NotFound);
    let res = query_balance(&ledger, "ghost".to_string());
    assert_eq!(res.unwrap_err(), ContractError::NotFound);
}

#[test]
fn deposit_unauthorized_sender_changes_nothing() {
    let mut ledger = fresh_ledger();
    create(&mut ledger, "user1", "Account 1");
    let msg = ExecuteMsg::Receive(ReceiveEnvelope {
        sender: "someone".to_string(),
        amount: 55,
        msg: ReceiveMsg::Deposit {
            account: "Account 1".to_string(),
        },
    });
    let res = execute(&mut ledger, "not_the_token".to_string(), msg);
    assert_eq!(res.unwrap_err(), ContractError::Unauthorized);
    assert_eq!(balance_of(&ledger, "Account 1"), 0);
}

#[test]
fn deposit_overflow_is_explicit() {
    let mut ledger = fresh_ledger();
    create(&mut ledger, "user1", "Account 1");
    deposit(&mut ledger, "Account 1", u128::MAX);
    let res = receive_deposit(&mut ledger, "Account 1".to_string(), 1, "depositor".to_string());
    assert_eq!(res.unwrap_err(), ContractError::ArithmeticOverflow);
    assert_eq!(balance_of(&ledger, "Account 1"), u128::MAX);
}

#[test]
fn withdraw_pays_the_owner() {
    let mut ledger = fresh_ledger();
    create(&mut ledger, "user1", "Account 1");
    deposit(&mut ledger, "Account 1", 55);

    let owner = "user1".to_string();
    let res = try_withdraw(&mut ledger, &owner, "Account 1".to_string(), 16).unwrap();
    match res {
        Outcome::Withdrawn {
            owner,
            address,
            amount,
            instruction,
        } => {
            assert_eq!(owner, "user1");
            assert_eq!(address, "Account 1");
            assert_eq!(amount, 16);
            assert_eq!(instruction.currency, TOKEN);
            assert_eq!(instruction.recipient, "user1");
            assert_eq!(instruction.amount, 16);
        }
        other => panic!("unexpected outcome {:?}", other),
    }
    assert_eq!(balance_of(&ledger, "Account 1"), 39);
}

#[test]
fn withdraw_by_non_owner_is_unauthorized() {
    let mut ledger = fresh_ledger();
    create(&mut ledger, "user1", "Account 1");
    deposit(&mut ledger, "Account 1", 55);

    let intruder = "user2".to_string();
    let res = try_withdraw(&mut ledger, &intruder, "Account 1".to_string(), 16);
    assert_eq!(res.unwrap_err(), ContractError::Unauthorized);
    assert_eq!(balance_of(&ledger, "Account 1"), 55);
}

#[test]
fn withdraw_beyond_balance_is_insufficient() {
    let mut ledger = fresh_ledger();
    create(&mut ledger, "user1", "Account 1");
    deposit(&mut ledger, "Account 1", 10);
    let owner = "user1".to_string();
    let res = try_withdraw(&mut ledger, &owner, "Account 1".to_string(), 11);
    assert_eq!(res.unwrap_err(), ContractError::InsufficientBalance);
    assert_eq!(balance_of(&ledger, "Account 1"), 10);
}

#[test]
fn cross_owner_transfer_charges_one_percent() {
    let mut ledger = fresh_ledger();
    create(&mut ledger, "user1", "From");
    create(&mut ledger, "user2", "To");
    deposit(&mut ledger, "From", 150);

    let sender = "user1".to_string();
    let res = try_transfer(&mut ledger, &sender, "From".to_string(), "To".to_string(), 100)
        .unwrap();
    match res {
        Outcome::Transferred { amount, fee, .. } => {
            assert_eq!(amount, 100);
            assert_eq!(fee, 1);
        }
        other => panic!("unexpected outcome {:?}", other),
    }
    assert_eq!(balance_of(&ledger, "From"), 50);
    assert_eq!(balance_of(&ledger, "To"), 99);
}

#[test]
fn same_owner_transfer_is_free() {
    let mut ledger = fresh_ledger();
    create(&mut ledger, "user1", "From");
    create(&mut ledger, "user1", "To");
    deposit(&mut ledger, "From", 100);

    let sender = "user1".to_string();
    let res = try_transfer(&mut ledger, &sender, "From".to_string(), "To".to_string(), 100)
        .unwrap();
    match res {
        Outcome::Transferred { fee, .. } => assert_eq!(fee, 0),
        other => panic!("unexpected outcome {:?}", other),
    }
    assert_eq!(balance_of(&ledger, "From"), 0);
    assert_eq!(balance_of(&ledger, "To"), 100);
}

#[test]
fn small_cross_owner_transfer_has_zero_fee() {
    let mut ledger = fresh_ledger();
    create(&mut ledger, "user1", "From");
    create(&mut ledger, "user2", "To");
    deposit(&mut ledger, "From", 99);

    let sender = "user1".to_string();
    let res = try_transfer(&mut ledger, &sender, "From".to_string(), "To".to_string(), 99)
        .unwrap();
    match res {
        Outcome::Transferred { fee, .. } => assert_eq!(fee, 0),
        other => panic!("unexpected outcome {:?}", other),
    }
    assert_eq!(balance_of(&ledger, "To"), 99);
}

#[test]
fn transfer_beyond_balance_changes_neither_account() {
    let mut ledger = fresh_ledger();
    create(&mut ledger, "user1", "From");
    create(&mut ledger, "user2", "To");
    deposit(&mut ledger, "From", 40);
    deposit(&mut ledger, "To", 5);

    let sender = "user1".to_string();
    let res = try_transfer(&mut ledger, &sender, "From".to_string(), "To".to_string(), 41);
    assert_eq!(res.unwrap_err(), ContractError::InsufficientBalance);
    assert_eq!(balance_of(&ledger, "From"), 40);
    assert_eq!(balance_of(&ledger, "To"), 5);
}

#[test]
fn transfer_source_checks_come_first() {
    let mut ledger = fresh_ledger();
    create(&mut ledger, "user1", "From");
    deposit(&mut ledger, "From", 10);

    // an intruder asking for a transfer to a missing account hears about
    // the authorization, not about the destination
    let intruder = "user2".to_string();
    let res = try_transfer(&mut ledger, &intruder, "From".to_string(), "Ghost".to_string(), 1);
    assert_eq!(res.unwrap_err(), ContractError::Unauthorized);

    // the owner asking the same hears the destination is missing
    let owner = "user1".to_string();
    let res = try_transfer(&mut ledger, &owner, "From".to_string(), "Ghost".to_string(), 1);
    assert_eq!(res.unwrap_err(), ContractError::NotFound);

    // a missing source is reported before anything else
    let res = try_transfer(&mut ledger, &owner, "Ghost".to_string(), "From".to_string(), 1);
    assert_eq!(res.unwrap_err(), ContractError::NotFound);
}

#[test]
fn transfer_credit_overflow_is_explicit() {
    let mut ledger = fresh_ledger();
    create(&mut ledger, "user1", "From");
    create(&mut ledger, "user2", "To");
    deposit(&mut ledger, "From", 200);
    deposit(&mut ledger, "To", u128::MAX - 10);

    let sender = "user1".to_string();
    let res = try_transfer(&mut ledger, &sender, "From".to_string(), "To".to_string(), 200);
    assert_eq!(res.unwrap_err(), ContractError::ArithmeticOverflow);
    assert_eq!(balance_of(&ledger, "From"), 200);
    assert_eq!(balance_of(&ledger, "To"), u128::MAX - 10);
}

#[test]
fn change_currency_is_admin_only() {
    let mut ledger = fresh_ledger();
    let msg = ExecuteMsg::ChangeCurrency {
        currency: Some("newtoken".to_string()),
    };
    let res = execute(&mut ledger, "user1".to_string(), msg);
    assert_eq!(res.unwrap_err(), ContractError::Unauthorized);
    assert_eq!(ledger.state.currency, TOKEN);

    let msg = ExecuteMsg::ChangeCurrency {
        currency: Some("newtoken".to_string()),
    };
    execute(&mut ledger, "creator".to_string(), msg).unwrap();
    assert_eq!(ledger.state.currency, "newtoken");
    assert_eq!(ledger.state.owner, "creator");
}

#[test]
fn change_currency_rejects_invalid_reference() {
    let mut ledger = fresh_ledger();
    let msg = ExecuteMsg::ChangeCurrency { currency: None };
    let res = execute(&mut ledger, "creator".to_string(), msg);
    assert_eq!(res.unwrap_err(), ContractError::InvalidAddress);
    assert_eq!(ledger.state.currency, TOKEN);
}

#[test]
fn instantiate_rejects_invalid_currency() {
    let res = instantiate("creator".to_string(), None);
    assert_eq!(res.unwrap_err(), ContractError::InvalidAddress);
}

#[test]
fn withdrawal_reads_currency_at_call_time() {
    let mut ledger = fresh_ledger();
    create(&mut ledger, "user1", "Account 1");
    deposit(&mut ledger, "Account 1", 20);

    let msg = ExecuteMsg::ChangeCurrency {
        currency: Some("newtoken".to_string()),
    };
    execute(&mut ledger, "creator".to_string(), msg).unwrap();

    let owner = "user1".to_string();
    let res = try_withdraw(&mut ledger, &owner, "Account 1".to_string(), 5).unwrap();
    match res {
        Outcome::Withdrawn { instruction, .. } => {
            assert_eq!(instruction.currency, "newtoken");
        }
        other => panic!("unexpected outcome {:?}", other),
    }
}

#[test]
fn queries_miss_with_not_found() {
    let ledger = fresh_ledger();
    let res = query(
        &ledger,
        QueryMsg::GetAccount {
            address: "nobody".to_string(),
        },
    );
    assert_eq!(res.unwrap_err(), ContractError::NotFound);
    let res = query(
        &ledger,
        QueryMsg::GetBalance {
            account: "nothing".to_string(),
        },
    );
    assert_eq!(res.unwrap_err(), ContractError::NotFound);
}

#[test]
fn self_transfer_keeps_balance() {
    let mut ledger = fresh_ledger();
    create(&mut ledger, "user1", "Account 1");
    deposit(&mut ledger, "Account 1", 120);

    let sender = "user1".to_string();
    let res = try_transfer(
        &mut ledger,
        &sender,
        "Account 1".to_string(),
        "Account 1".to_string(),
        100,
    )
    .unwrap();
    match res {
        Outcome::Transferred { fee, .. } => assert_eq!(fee, 0),
        other => panic!("unexpected outcome {:?}", other),
    }
    assert_eq!(balance_of(&ledger, "Account 1"), 120);
}

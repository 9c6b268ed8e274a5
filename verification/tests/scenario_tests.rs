use bankaccount::command::{Deposit, OpenBankAccount, Withdraw};
use bankaccount::error::{BankAccountAppError, BankAccountError};
use bankaccount::event::{BankAccountEvent, BankAccountWithdrawalRefused, DomainMessage};
use bankaccount::event_store::{stream_is_wf, to_events, BankAccountEventStoreError};
use bankaccount::handler::{
    example_open_bank_account, DepositHandler, OpenBankAccountHandler, WithdrawHandler,
};
use bankaccount::model::{events_replay_ok, BankAccountAggregate, BankAccountState};
use bankaccount::repository::{BankAccountRepository, InMemoryEventStore};

#[test]
fn scenario_deposits_and_refused_withdrawal() {
    let t: i64 = 11;
    let mut agg = BankAccountAggregate::new();
    agg.open_acc(100, 20, t).unwrap();

    agg.deposit(49, t).unwrap();
    let state = agg.get_state().unwrap();
    assert_eq!(49, state.balance);
    assert_eq!(2, state.generation);

    agg.deposit(49, t).unwrap();
    let state = agg.get_state().unwrap();
    assert_eq!(98, state.balance);
    assert_eq!(3, state.generation);

    agg.withdraw(9, t).unwrap();
    let state = agg.get_state().unwrap();
    assert_eq!(89, state.balance);
    assert_eq!(4, state.generation);

    agg.withdraw(1000, t).unwrap();
    let state = agg.get_state().unwrap();
    assert_eq!(89, state.balance);
    assert_eq!(5, state.generation);

    let expected_refusal = BankAccountEvent::WithdrawalRefused(BankAccountWithdrawalRefused {
        id: 100,
        amount: 1000,
        balance_at_refusal: 89,
        refused_at: t,
    });
    let recorded = agg.get_new_events();
    assert_eq!(5, recorded.len());
    assert_eq!(expected_refusal, recorded[4].event);
    assert_eq!(5, recorded[4].generation);
}

#[test]
fn replaying_the_same_events_twice_gives_identical_state() {
    let t: i64 = 2;
    let events = vec![
        BankAccountEvent::acc_opened(8, 3, t),
        BankAccountEvent::credited(8, 120, t),
        BankAccountEvent::debited(8, 20, t),
        BankAccountEvent::withdrawal_refused(8, 500, 100, t),
    ];

    let first = BankAccountAggregate::apply_events(events.clone()).unwrap();
    let second = BankAccountAggregate::apply_events(events).unwrap();

    assert_eq!(first, second);
}

#[test]
fn generation_counts_every_applied_event() {
    let t: i64 = 2;
    let events = vec![
        BankAccountEvent::acc_opened(8, 3, t),
        BankAccountEvent::credited(8, 120, t),
        BankAccountEvent::withdrawal_refused(8, 500, 120, t),
        BankAccountEvent::debited(8, 20, t),
    ];

    let state = BankAccountAggregate::apply_events(events).unwrap();

    // Four events replayed, generation four — the refusal counts too.
    assert_eq!(4, state.generation);
}

#[test]
fn balance_is_credits_minus_debits() {
    let t: i64 = 2;
    let events = vec![
        BankAccountEvent::acc_opened(8, 3, t),
        BankAccountEvent::credited(8, 50, t),
        BankAccountEvent::credited(8, 7, t),
        BankAccountEvent::withdrawal_refused(8, 500, 57, t),
        BankAccountEvent::debited(8, 30, t),
    ];

    let state = BankAccountAggregate::apply_events(events).unwrap();

    assert_eq!(50 + 7 - 30, state.balance);
}

#[test]
fn deposit_on_unopened_account_fails() {
    let mut agg = BankAccountAggregate::new();
    assert_eq!(Err(BankAccountError::NotOpened), agg.deposit(10, 1));
}

#[test]
fn withdraw_on_unopened_account_fails() {
    let mut agg = BankAccountAggregate::new();
    assert_eq!(Err(BankAccountError::NotOpened), agg.withdraw(10, 1));
}

#[test]
fn opening_twice_fails() {
    let mut agg = BankAccountAggregate::new();
    agg.open_acc(1, 2, 1).unwrap();
    assert_eq!(Err(BankAccountError::AlreadyOpened), agg.open_acc(1, 2, 1));
}

#[test]
fn replaying_an_empty_history_yields_no_state() {
    assert_eq!(
        Err(BankAccountError::NotOpened),
        BankAccountAggregate::apply_events(Vec::new())
    );
}

#[test]
fn replaying_a_second_opened_event_fails() {
    let t: i64 = 2;
    let events = vec![
        BankAccountEvent::acc_opened(8, 3, t),
        BankAccountEvent::acc_opened(8, 3, t),
    ];
    assert_eq!(
        Err(BankAccountError::AlreadyOpened),
        BankAccountAggregate::apply_events(events)
    );
}

#[test]
fn error_classification_is_preserved() {
    assert_eq!(
        BankAccountAppError::DomainError,
        BankAccountAppError::from(BankAccountError::NotOpened)
    );
    assert_eq!(
        BankAccountError::CantSaveEvent,
        BankAccountError::from(BankAccountEventStoreError::ConcurrencyConflict)
    );
    let serde_error = serde_json::from_str::<serde_json::Value>("{").unwrap_err();
    assert_eq!(
        BankAccountEventStoreError::SerdeError,
        BankAccountEventStoreError::from(serde_error)
    );
    let io_error = std::io::Error::new(std::io::ErrorKind::NotFound, "missing");
    assert_eq!(
        BankAccountEventStoreError::IoError,
        BankAccountEventStoreError::from(io_error)
    );
}

#[test]
fn replay_checker_accepts_a_recorded_history() {
    let t: i64 = 2;
    let events = vec![
        BankAccountEvent::acc_opened(8, 3, t),
        BankAccountEvent::credited(8, 50, t),
        BankAccountEvent::debited(8, 50, t),
    ];
    assert!(events_replay_ok(&events));
}

#[test]
fn replay_checker_rejects_unreplayable_histories() {
    let t: i64 = 2;
    // A debit the balance cannot cover would underflow.
    let underflow = vec![
        BankAccountEvent::acc_opened(8, 3, t),
        BankAccountEvent::debited(8, 1, t),
    ];
    assert!(!events_replay_ok(&underflow));
    // Credits past the machine word would overflow.
    let overflow = vec![
        BankAccountEvent::acc_opened(8, 3, t),
        BankAccountEvent::credited(8, u64::MAX, t),
        BankAccountEvent::credited(8, 1, t),
    ];
    assert!(!events_replay_ok(&overflow));
    // A credit before the account was opened does not apply.
    let unopened = vec![BankAccountEvent::credited(8, 1, t)];
    assert!(!events_replay_ok(&unopened));
}

#[test]
fn stream_checker_accepts_own_stream_and_rejects_foreign_records() {
    let t: i64 = 2;
    let good = vec![
        DomainMessage::new(8, BankAccountEvent::acc_opened(8, 3, t), 1, t),
        DomainMessage::new(8, BankAccountEvent::credited(8, 50, t), 2, t),
    ];
    assert!(stream_is_wf(&good, 8));

    let foreign = vec![DomainMessage::new(
        8,
        BankAccountEvent::acc_opened(9, 3, t),
        1,
        t,
    )];
    assert!(!stream_is_wf(&foreign, 8));
}

#[test]
fn handler_flow_keeps_streams_independent() {
    // Two accounts, each opened and credited once; neither stream sees the
    // other's records.
    let repository = BankAccountRepository::new(InMemoryEventStore::new());
    let mut open_handler = OpenBankAccountHandler::new(repository);
    open_handler.handle(OpenBankAccount::new(100, 20)).unwrap();
    open_handler.handle(OpenBankAccount::new(101, 20)).unwrap();

    let mut deposit_handler = DepositHandler::new(open_handler.into_repository());
    deposit_handler.handle(Deposit::new(100, 40)).unwrap();
    deposit_handler.handle(Deposit::new(101, 7)).unwrap();

    let repository = deposit_handler.into_repository();
    let first = repository.load(100).unwrap().get_state().unwrap();
    let second = repository.load(101).unwrap().get_state().unwrap();

    assert_eq!(
        BankAccountState { id: 100, customer_id: 20, balance: 40, generation: 2 },
        first
    );
    assert_eq!(
        BankAccountState { id: 101, customer_id: 20, balance: 7, generation: 2 },
        second
    );
}

#[test]
fn handler_flow_withdrawal_and_refusal() {
    let repository = BankAccountRepository::new(InMemoryEventStore::new());
    let mut open_handler = OpenBankAccountHandler::new(repository);
    open_handler.handle(OpenBankAccount::new(100, 20)).unwrap();

    let mut deposit_handler = DepositHandler::new(open_handler.into_repository());
    deposit_handler.handle(Deposit::new(100, 49)).unwrap();

    let mut withdraw_handler = WithdrawHandler::new(deposit_handler.into_repository());
    withdraw_handler.handle(Withdraw::new(100, 9)).unwrap();
    withdraw_handler.handle(Withdraw::new(100, 1000)).unwrap();

    let repository = withdraw_handler.into_repository();
    let state = repository.load(100).unwrap().get_state().unwrap();
    assert_eq!(40, state.balance);
    // Open, deposit, debit, refusal: four recorded facts.
    assert_eq!(4, state.generation);
}

#[test]
fn handler_deposit_to_unopened_account_is_a_domain_error() {
    let repository = BankAccountRepository::new(InMemoryEventStore::new());
    let mut handler = DepositHandler::new(repository);
    assert_eq!(
        Err(BankAccountAppError::DomainError),
        handler.handle(Deposit::new(5, 10))
    );
}

#[test]
fn handler_withdraw_from_unopened_account_is_a_domain_error() {
    let repository = BankAccountRepository::new(InMemoryEventStore::new());
    let mut handler = WithdrawHandler::new(repository);
    assert_eq!(
        Err(BankAccountAppError::DomainError),
        handler.handle(Withdraw::new(5, 10))
    );
}

#[test]
fn to_events_projects_messages_in_order() {
    let t: i64 = 2;
    let opened = BankAccountEvent::acc_opened(8, 3, t);
    let credited = BankAccountEvent::credited(8, 50, t);
    let messages = vec![
        DomainMessage::new(8, opened, 1, t),
        DomainMessage::new(8, credited, 2, t),
    ];
    assert_eq!(vec![opened, credited], to_events(&messages));
}

#[test]
fn example_entry_point_reports_success() {
    assert_eq!(Ok(()), example_open_bank_account());
}

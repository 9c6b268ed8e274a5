use bankaccount::error::BankAccountError;
use bankaccount::event::{BankAccountEvent, DomainMessage};
use bankaccount::model::BankAccountAggregate;

type TestResult = Result<(), BankAccountError>;

fn build_aggregate_with(events: Vec<BankAccountEvent>) -> BankAccountAggregate {
    let mut agg = BankAccountAggregate::new();
    agg.replay(&events).unwrap();
    agg
}

#[test]
fn open_bank_account() -> TestResult {
    // Arrange
    let id: u64 = 100;
    let customer_id: u64 = 4;
    let t: i64 = 7;

    let acc_opened = BankAccountEvent::acc_opened(id, customer_id, t);

    let expected = vec![DomainMessage::new(id, acc_opened, 1, t)];

    // Act
    let mut agg = BankAccountAggregate::new();
    agg.open_acc(id, customer_id, t)?;
    let events = agg.get_new_events();

    // Assert
    assert_eq!(expected, *events);
    Ok(())
}

#[test]
fn deposit_money() -> TestResult {
    // Arrange
    let id: u64 = 100;
    let customer_id: u64 = 4;
    let t: i64 = 7;

    let acc_opened = BankAccountEvent::acc_opened(id, customer_id, t);
    let acc_credited = BankAccountEvent::credited(id, 67, t);

    let expected = vec![
        DomainMessage::new(id, acc_opened, 1, t),
        DomainMessage::new(id, acc_credited, 2, t),
    ];

    let mut agg = BankAccountAggregate::new();
    agg.open_acc(id, customer_id, t)?;
    // Act
    agg.deposit(67, t)?;
    let events = agg.get_new_events();

    // Assert
    assert_eq!(expected, *events);
    Ok(())
}

#[test]
fn withdraw_money() -> TestResult {
    // Arrange
    let id: u64 = 100;
    let customer_id: u64 = 4;
    let t: i64 = 7;

    let acc_opened = BankAccountEvent::acc_opened(id, customer_id, t);
    let acc_credited = BankAccountEvent::credited(id, 67, t);
    let acc_debited = BankAccountEvent::debited(id, 34, t);

    let expected = vec![
        DomainMessage::new(id, acc_opened, 1, t),
        DomainMessage::new(id, acc_credited, 2, t),
        DomainMessage::new(id, acc_debited, 3, t),
    ];

    let mut agg = BankAccountAggregate::new();
    agg.open_acc(id, customer_id, t)?;
    agg.deposit(67, t)?;
    // Act
    agg.withdraw(34, t)?;
    let events = agg.get_new_events();

    // Assert
    assert_eq!(expected, *events);
    Ok(())
}

#[test]
fn withdrawing_money_refused() -> TestResult {
    // Arrange
    let (id, customer_id): (u64, u64) = (100, 4);
    let t: i64 = 7;

    let acc_opened = BankAccountEvent::acc_opened(id, customer_id, t);
    let acc_credited = BankAccountEvent::credited(id, 67, t);
    let refused = BankAccountEvent::withdrawal_refused(id, 100, 67, t);

    let expected = vec![
        DomainMessage::new(id, acc_opened, 1, t),
        DomainMessage::new(id, acc_credited, 2, t),
        DomainMessage::new(id, refused, 3, t),
    ];

    let mut agg = BankAccountAggregate::new();
    agg.open_acc(id, customer_id, t)?;
    agg.deposit(67, t)?;

    // Act
    agg.withdraw(100, t)?;
    let events = agg.get_new_events();

    // Assert
    assert_eq!(expected, *events);
    Ok(())
}

#[test]
fn withdrawing_money_refused2() -> TestResult {
    // Arrange
    let id: u64 = 100;
    let customer_id: u64 = 4;
    let t: i64 = 7;

    let acc_opened = BankAccountEvent::acc_opened(id, customer_id, t);
    let acc_credited = BankAccountEvent::credited(id, 67, t);
    let refused = BankAccountEvent::withdrawal_refused(id, 100, 67, t);

    let initial_events = vec![acc_opened, acc_credited];

    let mut agg = build_aggregate_with(initial_events);

    let expected = vec![DomainMessage::new(id, refused, 3, t)];

    // Act
    agg.withdraw(100, t)?;
    let events = agg.get_new_events();

    // Assert
    assert_eq!(expected, *events);
    Ok(())
}

#[test]
fn model_open_bank_account() -> TestResult {
    // Arrange
    let account_id: u64 = 123;
    let customer_id: u64 = 5000;
    let t: i64 = 9;

    let acc_opened = BankAccountEvent::acc_opened(account_id, customer_id, t);

    let mut agg = BankAccountAggregate::new();

    let expected = vec![DomainMessage::new(account_id, acc_opened, 1, t)];

    // Act
    agg.open_acc(account_id, customer_id, t)?;

    // Assert
    let events = agg.get_new_events();
    assert_eq!(expected, *events);
    Ok(())
}

#[test]
fn model_deposit_money() -> TestResult {
    // Arrange
    let account_id: u64 = 123;
    let customer_id: u64 = 5000;
    let t: i64 = 9;

    let acc_opened = BankAccountEvent::acc_opened(account_id, customer_id, t);
    let acc_credited = BankAccountEvent::credited(account_id, 67, t);

    let initial_events = vec![acc_opened];
    let mut agg = build_aggregate_with(initial_events);

    let expected = vec![DomainMessage::new(account_id, acc_credited, 2, t)];

    // Act
    agg.deposit(67, t)?;

    // Assert
    let events = agg.get_new_events();
    assert_eq!(expected, *events);
    Ok(())
}

#[test]
fn model_withdraw_money() -> TestResult {
    // Arrange
    let account_id: u64 = 123;
    let customer_id: u64 = 5000;
    let t: i64 = 9;

    let acc_opened = BankAccountEvent::acc_opened(account_id, customer_id, t);
    let acc_credited = BankAccountEvent::credited(account_id, 67, t);
    let acc_debited = BankAccountEvent::debited(account_id, 34, t);

    let initial_events = vec![acc_opened, acc_credited];
    let mut agg = build_aggregate_with(initial_events);

    let expected = vec![DomainMessage::new(account_id, acc_debited, 3, t)];

    // Act
    agg.withdraw(34, t)?;

    // Assert
    let events = agg.get_new_events();
    assert_eq!(expected, *events);
    Ok(())
}

#[test]
fn model_withdrawing_money_refused() -> TestResult {
    // Arrange
    let account_id: u64 = 123;
    let customer_id: u64 = 5000;
    let t: i64 = 9;

    let acc_opened = BankAccountEvent::acc_opened(account_id, customer_id, t);
    let acc_credited = BankAccountEvent::credited(account_id, 67, t);
    let refused = BankAccountEvent::withdrawal_refused(account_id, 100, 67, t);

    let initial_events = vec![acc_opened, acc_credited];
    let mut agg = build_aggregate_with(initial_events);

    let expected = vec![DomainMessage::new(account_id, refused, 3, t)];

    // Act
    agg.withdraw(100, t)?;

    // Assert
    let events = agg.get_new_events();

    assert_eq!(expected, *events);
    Ok(())
}

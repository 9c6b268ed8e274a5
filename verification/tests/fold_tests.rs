use bankaccount::command::BankAccountCommand;
use bankaccount::event::BankAccountEvent;
use bankaccount::model::{BankAccountAggregate, BankAccountState};

#[test]
fn first_account_credited_event_will_set_state_correctly() {
    // Arrange
    let t: i64 = 5;
    let events = vec![
        BankAccountEvent::acc_opened(100, 20, t),
        BankAccountEvent::credited(100, 49, t),
    ];
    let expected = Ok(BankAccountState {
        id: 100,
        customer_id: 20,
        balance: 49,
        generation: 2,
    });

    // Act
    let result = BankAccountAggregate::apply_events(events);

    // Assert
    assert_eq!(expected, result);
}

#[test]
fn account_credited_event_will_set_state_correctly() {
    // Arrange
    let t: i64 = 5;
    let events = vec![
        BankAccountEvent::acc_opened(100, 20, t),
        BankAccountEvent::credited(100, 49, t),
        BankAccountEvent::credited(100, 49, t),
    ];
    let expected = Ok(BankAccountState {
        id: 100,
        customer_id: 20,
        balance: 98,
        generation: 3,
    });

    // Act
    let result = BankAccountAggregate::apply_events(events);

    // Assert
    assert_eq!(expected, result);
}

#[test]
fn withdrawing_money_emits_debited_event() {
    // Arrange
    let t: i64 = 5;
    let initial_events = vec![
        BankAccountEvent::acc_opened(100, 20, t),
        BankAccountEvent::credited(100, 49, t),
    ];
    let withdraw = BankAccountCommand::withdraw(100, 9);
    let expected = Ok(vec![BankAccountEvent::debited(100, 9, t)]);

    // Act
    let state = BankAccountAggregate::apply_events(initial_events).unwrap();
    let result = BankAccountAggregate::handle(Some(state), withdraw, t);

    // Assert
    assert_eq!(expected, result);
}

#[test]
fn account_debited_event_will_set_state_correctly() {
    // Arrange
    let t: i64 = 5;
    let events = vec![
        BankAccountEvent::acc_opened(100, 20, t),
        BankAccountEvent::credited(100, 49, t),
        BankAccountEvent::debited(100, 9, t),
    ];
    let expected = Ok(BankAccountState {
        id: 100,
        customer_id: 20,
        balance: 40,
        generation: 3,
    });

    // Act
    let result = BankAccountAggregate::apply_events(events);

    // Assert
    assert_eq!(expected, result);
}

use vstd::prelude::*;

use crate::{BankAccountId, CustomerId};

verus! {

/// Request to open the account `id` for customer `customer_id`.
#[derive(Clone, Copy, Debug, PartialEq, Eq, Structural)]
pub struct OpenBankAccount {
    pub id: BankAccountId,
    pub customer_id: CustomerId,
}

impl OpenBankAccount {
    pub fn new(id: BankAccountId, customer_id: CustomerId) -> (r: OpenBankAccount)
        ensures
            r == (OpenBankAccount { id, customer_id }),
    {
        OpenBankAccount { id, customer_id }
    }
}

/// Request to credit `amount` to the account `id`.
#[derive(Clone, Copy, Debug, PartialEq, Eq, Structural)]
pub struct Deposit {
    pub id: BankAccountId,
    pub amount: u64,
}

impl Deposit {
    pub fn new(id: BankAccountId, amount: u64) -> (r: Deposit)
        ensures
            r == (Deposit { id, amount }),
    {
        Deposit { id, amount }
    }
}

/// Request to withdraw `amount` from the account `id`.
#[derive(Clone, Copy, Debug, PartialEq, Eq, Structural)]
pub struct Withdraw {
    pub id: BankAccountId,
    pub amount: u64,
}

impl Withdraw {
    pub fn new(id: BankAccountId, amount: u64) -> (r: Withdraw)
        ensures
            r == (Withdraw { id, amount }),
    {
        Withdraw { id, amount }
    }
}

/// The closed set of commands an account accepts: plain data records with no
/// side effects of their own.
#[derive(Clone, Copy, Debug, PartialEq, Eq, Structural)]
pub enum BankAccountCommand {
    Open(OpenBankAccount),
    Deposit(Deposit),
    Withdraw(Withdraw),
}

impl BankAccountCommand {
    pub fn open(id: BankAccountId, customer_id: CustomerId) -> (r: BankAccountCommand)
        ensures
            r == BankAccountCommand::Open(OpenBankAccount { id, customer_id }),
    {
        BankAccountCommand::Open(OpenBankAccount::new(id, customer_id))
    }

    pub fn deposit(id: BankAccountId, amount: u64) -> (r: BankAccountCommand)
        ensures
            r == BankAccountCommand::Deposit(Deposit { id, amount }),
    {
        BankAccountCommand::Deposit(Deposit::new(id, amount))
    }

    pub fn withdraw(id: BankAccountId, amount: u64) -> (r: BankAccountCommand)
        ensures
            r == BankAccountCommand::Withdraw(Withdraw { id, amount }),
    {
        BankAccountCommand::Withdraw(Withdraw::new(id, amount))
    }
}

} // verus!

use vstd::prelude::*;

use crate::{BankAccountId, CustomerId, Timestamp};

verus! {

/// Marker for immutable domain facts.
pub trait Event {}

/// The account identified by `id` was opened for customer `customer_id`.
#[derive(Clone, Copy, Debug, PartialEq, Eq, Structural)]
pub struct BankAccountOpened {
    pub id: BankAccountId,
    pub customer_id: CustomerId,
    pub opened_at: Timestamp,
}

/// `amount` was credited to the account identified by `id`.
#[derive(Clone, Copy, Debug, PartialEq, Eq, Structural)]
pub struct BankAccountCredited {
    pub id: BankAccountId,
    pub amount: u64,
    pub credited_at: Timestamp,
}

/// `amount` was debited from the account identified by `id`.
#[derive(Clone, Copy, Debug, PartialEq, Eq, Structural)]
pub struct BankAccountDebited {
    pub id: BankAccountId,
    pub amount: u64,
    pub debited_at: Timestamp,
}

/// A withdrawal of `amount` was refused because the balance at that moment,
/// recorded here as `balance_at_refusal`, was too low. A refusal is a recorded
/// business fact, not an error.
#[derive(Clone, Copy, Debug, PartialEq, Eq, Structural)]
pub struct BankAccountWithdrawalRefused {
    pub id: BankAccountId,
    pub amount: u64,
    pub balance_at_refusal: u64,
    pub refused_at: Timestamp,
}

/// One immutable fact about one account stream.
#[derive(Clone, Copy, Debug, PartialEq, Eq, Structural)]
pub enum BankAccountEvent {
    Opened(BankAccountOpened),
    Credited(BankAccountCredited),
    Debited(BankAccountDebited),
    WithdrawalRefused(BankAccountWithdrawalRefused),
}

impl Event for BankAccountEvent {}

impl BankAccountEvent {
    /// The stream this fact belongs to.
    pub open spec fn spec_aggregate_id(self) -> BankAccountId {
        match self {
            BankAccountEvent::Opened(p) => p.id,
            BankAccountEvent::Credited(p) => p.id,
            BankAccountEvent::Debited(p) => p.id,
            BankAccountEvent::WithdrawalRefused(p) => p.id,
        }
    }

    /// The stream this fact belongs to.
    pub fn get_aggregate_id(&self) -> (r: BankAccountId)
        ensures
            r == self.spec_aggregate_id(),
    {
        match self {
            BankAccountEvent::Opened(p) => p.id,
            BankAccountEvent::Credited(p) => p.id,
            BankAccountEvent::Debited(p) => p.id,
            BankAccountEvent::WithdrawalRefused(p) => p.id,
        }
    }

    pub fn acc_opened(id: BankAccountId, customer_id: CustomerId, opened_at: Timestamp) -> (r:
        BankAccountEvent)
        ensures
            r == (BankAccountEvent::Opened(
                BankAccountOpened { id, customer_id, opened_at },
            )),
    {
        BankAccountEvent::Opened(BankAccountOpened { id, customer_id, opened_at })
    }

    pub fn credited(id: BankAccountId, amount: u64, credited_at: Timestamp) -> (r:
        BankAccountEvent)
        ensures
            r == (BankAccountEvent::Credited(
                BankAccountCredited { id, amount, credited_at },
            )),
    {
        BankAccountEvent::Credited(BankAccountCredited { id, amount, credited_at })
    }

    pub fn debited(id: BankAccountId, amount: u64, debited_at: Timestamp) -> (r: BankAccountEvent)
        ensures
            r == (BankAccountEvent::Debited(
                BankAccountDebited { id, amount, debited_at },
            )),
    {
        BankAccountEvent::Debited(BankAccountDebited { id, amount, debited_at })
    }

    pub fn withdrawal_refused(
        id: BankAccountId,
        amount: u64,
        balance: u64,
        refused_at: Timestamp,
    ) -> (r: BankAccountEvent)
        ensures
            r == (BankAccountEvent::WithdrawalRefused(
                BankAccountWithdrawalRefused { id, amount, balance_at_refusal: balance, refused_at },
            )),
    {
        BankAccountEvent::WithdrawalRefused(
            BankAccountWithdrawalRefused { id, amount, balance_at_refusal: balance, refused_at },
        )
    }
}

/// An event wrapped with the routing metadata that makes it storable: the
/// stream it belongs to, its per-stream generation token, and the moment it
/// was recorded.
#[derive(Clone, Copy, Debug, PartialEq, Eq, Structural)]
pub struct DomainMessage {
    pub id: BankAccountId,
    pub event: BankAccountEvent,
    pub generation: u64,
    pub created_at: Timestamp,
}

/// The message recorded when account `id` is opened for `customer_id` at
/// time `t`. The first fact of a stream always carries generation one.
pub open spec fn opened_message(id: BankAccountId, customer_id: CustomerId, t: Timestamp) -> DomainMessage {
    DomainMessage {
        id,
        event: BankAccountEvent::Opened(BankAccountOpened { id, customer_id, opened_at: t }),
        generation: 1,
        created_at: t,
    }
}

/// The message recorded when `amount` is credited to account `id` at time
/// `t`, reaching `generation`.
pub open spec fn credited_message(
    id: BankAccountId,
    amount: u64,
    generation: u64,
    t: Timestamp,
) -> DomainMessage {
    DomainMessage {
        id,
        event: BankAccountEvent::Credited(BankAccountCredited { id, amount, credited_at: t }),
        generation,
        created_at: t,
    }
}

/// The message recorded when `amount` is debited from account `id` at time
/// `t`, reaching `generation`.
pub open spec fn debited_message(
    id: BankAccountId,
    amount: u64,
    generation: u64,
    t: Timestamp,
) -> DomainMessage {
    DomainMessage {
        id,
        event: BankAccountEvent::Debited(BankAccountDebited { id, amount, debited_at: t }),
        generation,
        created_at: t,
    }
}

/// The message recorded when withdrawing `amount` from account `id` is
/// refused at time `t` because only `balance` was available.
pub open spec fn refusal_message(
    id: BankAccountId,
    amount: u64,
    balance: u64,
    generation: u64,
    t: Timestamp,
) -> DomainMessage {
    DomainMessage {
        id,
        event: BankAccountEvent::WithdrawalRefused(
            BankAccountWithdrawalRefused { id, amount, balance_at_refusal: balance, refused_at: t },
        ),
        generation,
        created_at: t,
    }
}

impl DomainMessage {
    pub fn new(
        id: BankAccountId,
        event: BankAccountEvent,
        generation: u64,
        created_at: Timestamp,
    ) -> (r: DomainMessage)
        ensures
            r == (DomainMessage { id, event, generation, created_at }),
    {
        DomainMessage { id, event, generation, created_at }
    }
}

} // verus!

use vstd::prelude::*;

use crate::error::BankAccountAppError;
use crate::event::DomainMessage;
use crate::event_store::{continues, events_of, stream_of, to_events, BankAccountEventStore};
use crate::model::{replay_in_bounds, replay_model, BankAccountAggregate};
use crate::BankAccountId;

verus! {

/// The transient store under its short name.
pub type InMemoryEventStore = crate::event_store::in_memory::InMemoryBankAccountEventStore;

/// The composition layer between handlers and the event store: it loads an
/// aggregate by replaying its stored stream and persists the messages a
/// command produced. It owns no record itself; it borrows the store.
pub struct BankAccountRepository<S: BankAccountEventStore> {
    event_store: S,
}

impl<S: BankAccountEventStore> BankAccountRepository<S> {
    /// The abstract contents of the borrowed store.
    pub closed spec fn log(&self) -> Seq<DomainMessage> {
        self.event_store.log()
    }

    pub fn new(event_store: S) -> (r: Self)
        ensures
            r.log() == event_store.log(),
    {
        BankAccountRepository { event_store }
    }

    /// Hands the borrowed store back to the caller.
    pub fn into_store(self) -> (r: S)
        ensures
            r.log() == self.log(),
    {
        self.event_store
    }

    /// Forwards freshly produced messages to the store's append. A store
    /// failure, a generation conflict included, surfaces as
    /// `RepositoryError` and leaves the log unchanged.
    pub fn save(&mut self, messages: Vec<DomainMessage>) -> (r: Result<(), BankAccountAppError>)
        ensures
            r is Ok ==> final(self).log() == old(self).log() + messages@ && continues(
                old(self).log(),
                messages@,
            ),
            r is Err ==> final(self).log() == old(self).log() && r == Err::<(), BankAccountAppError>(
                BankAccountAppError::RepositoryError,
            ),
            !continues(old(self).log(), messages@) ==> r is Err,
    {
        match self.event_store.save_events(messages) {
            Ok(_) => Ok(()),
            Err(_) => Err(BankAccountAppError::RepositoryError),
        }
    }

    /// Loads the aggregate of `id` by fetching its stream and replaying it.
    /// An empty stream loads as a valid, still unopened aggregate; a store
    /// failure surfaces as `RepositoryError`; a stream that does not replay
    /// surfaces as `DomainError`.
    pub fn load(&self, id: BankAccountId) -> (r: Result<BankAccountAggregate, BankAccountAppError>)
        requires
            replay_in_bounds(events_of(stream_of(self.log(), id))),
        ensures
            (r matches Ok(agg) ==> replay_model(events_of(stream_of(self.log(), id))) matches Ok(st)
                && agg.state_model() == st && agg.buffered() == Seq::<DomainMessage>::empty()),
            r == Err::<BankAccountAggregate, BankAccountAppError>(BankAccountAppError::DomainError)
                ==> replay_model(events_of(stream_of(self.log(), id))) is Err,
            replay_model(events_of(stream_of(self.log(), id))) is Err ==> r is Err,
    {
        let messages = match self.event_store.get_events(id) {
            Ok(v) => v,
            Err(_) => {
                return Err(BankAccountAppError::RepositoryError);
            },
        };
        let events = to_events(&messages);
        let mut aggregate = BankAccountAggregate::new();
        match aggregate.replay(&events) {
            Ok(_) => Ok(aggregate),
            Err(_) => Err(BankAccountAppError::DomainError),
        }
    }
}

} // verus!

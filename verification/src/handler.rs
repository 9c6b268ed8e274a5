use vstd::prelude::*;

use crate::clock::now_utc_seconds;
use crate::command::{Deposit, OpenBankAccount, Withdraw};
use crate::error::BankAccountAppError;
use crate::event::{credited_message, debited_message, opened_message, refusal_message,
    DomainMessage};
use crate::event_store::{events_of, lemma_wf_stream_push, stream_of, wf_stream,
    BankAccountEventStore};
use crate::model::{
    lemma_generation_counts_events, lemma_replay_own_id, replay_model, BankAccountAggregate,
};
use crate::repository::BankAccountRepository;
use crate::Timestamp;

verus! {

/// Handles `OpenBankAccount`: builds a fresh aggregate, applies the open
/// command, and persists the one message it produced. The store's own
/// generation check rejects the append when the stream already holds records,
/// so a re-open of an existing account surfaces as `RepositoryError`.
pub struct OpenBankAccountHandler<S: BankAccountEventStore> {
    repository: BankAccountRepository<S>,
}

impl<S: BankAccountEventStore> OpenBankAccountHandler<S> {
    /// The abstract contents of the store behind the repository.
    pub closed spec fn log(&self) -> Seq<DomainMessage> {
        self.repository.log()
    }

    pub fn new(repository: BankAccountRepository<S>) -> (r: Self)
        ensures
            r.log() == repository.log(),
    {
        OpenBankAccountHandler { repository }
    }

    /// Hands the repository back, so that another handler can take over the
    /// same store.
    pub fn into_repository(self) -> (r: BankAccountRepository<S>)
        ensures
            r.log() == self.log(),
    {
        self.repository
    }

    pub fn handle(&mut self, command: OpenBankAccount) -> (r: Result<(), BankAccountAppError>)
        ensures
            r is Ok ==> stream_of(old(self).log(), command.id).len() == 0 && exists|t: Timestamp|
                final(self).log() == old(self).log().push(
                    #[trigger] opened_message(command.id, command.customer_id, t),
                ),
            r is Err ==> r == Err::<(), BankAccountAppError>(BankAccountAppError::RepositoryError)
                && final(self).log() == old(self).log(),
            stream_of(old(self).log(), command.id).len() != 0 ==> r is Err,
            r is Ok ==> wf_stream(final(self).log(), command.id),
    {
        let mut agg = BankAccountAggregate::new();
        let opened_at = now_utc_seconds();
        match agg.open_acc(command.id, command.customer_id, opened_at) {
            Ok(_) => {},
            Err(_) => {
                return unreached();
            },
        }
        let to_save = agg.drain_new_events();
        proof {
            let message = opened_message(command.id, command.customer_id, opened_at);
            assert(to_save@ =~= Seq::<DomainMessage>::empty().push(message));
            assert(to_save@.take(0) =~= Seq::<DomainMessage>::empty());
        }
        match self.repository.save(to_save) {
            Ok(_) => {
                proof {
                    let message = opened_message(command.id, command.customer_id, opened_at);
                    assert(final(self).log() =~= old(self).log().push(message));
                    // The append succeeded, so generation one continued the
                    // stream: it must have been empty.
                    assert(to_save@[0] == message);
                    assert(stream_of(to_save@.take(0), command.id).len() == 0);
                    assert(stream_of(old(self).log(), command.id).len() == 0);
                    // An empty stream is trivially well formed, and stays so
                    // once its opening fact is recorded.
                    assert(stream_of(old(self).log(), command.id) =~= Seq::<
                        DomainMessage,
                    >::empty());
                    lemma_wf_stream_push(old(self).log(), command.id, message);
                    assert(old(self).log().push(message) =~= final(self).log());
                }
                Ok(())
            },
            Err(e) => Err(e),
        }
    }
}

/// Handles `Deposit`: loads the aggregate by replay, credits the amount, and
/// persists the one message produced.
pub struct DepositHandler<S: BankAccountEventStore> {
    repository: BankAccountRepository<S>,
}

impl<S: BankAccountEventStore> DepositHandler<S> {
    /// The abstract contents of the store behind the repository.
    pub closed spec fn log(&self) -> Seq<DomainMessage> {
        self.repository.log()
    }

    pub fn new(repository: BankAccountRepository<S>) -> (r: Self)
        ensures
            r.log() == repository.log(),
    {
        DepositHandler { repository }
    }

    /// Hands the repository back, so that another handler can take over the
    /// same store.
    pub fn into_repository(self) -> (r: BankAccountRepository<S>)
        ensures
            r.log() == self.log(),
    {
        self.repository
    }

    pub fn handle(&mut self, command: Deposit) -> (r: Result<(), BankAccountAppError>)
        requires
            wf_stream(old(self).log(), command.id),
            (replay_model(events_of(stream_of(old(self).log(), command.id))) matches Ok(st) ==> (
            st matches Some(s) ==> s.balance + command.amount <= u64::MAX)),
        ensures
            r is Err ==> final(self).log() == old(self).log(),
            stream_of(old(self).log(), command.id).len() == 0 ==> r is Err,
            r == Err::<(), BankAccountAppError>(BankAccountAppError::DomainError) ==> stream_of(
                old(self).log(),
                command.id,
            ).len() == 0,
            (replay_model(events_of(stream_of(old(self).log(), command.id))) matches Ok(st) ==> (
            st matches Some(s) ==> (r is Ok ==> exists|t: Timestamp|
                final(self).log() == old(self).log().push(
                    #[trigger] credited_message(
                        command.id,
                        command.amount,
                        (s.generation + 1) as u64,
                        t,
                    ),
                )))),
            (stream_of(old(self).log(), command.id).len() + 1 < u64::MAX && r is Ok)
                ==> wf_stream(final(self).log(), command.id),
    {
        let ghost stream = stream_of(old(self).log(), command.id);
        let ghost evs = events_of(stream);
        proof {
            lemma_generation_counts_events(evs);
            assert forall|i: int|
                0 <= i < evs.len() implies (#[trigger] evs[i]).spec_aggregate_id()
                == command.id by {
                assert(stream[i].event.spec_aggregate_id() == command.id);
            }
            lemma_replay_own_id(evs, command.id);
        }
        let mut agg = match self.repository.load(command.id) {
            Ok(a) => a,
            Err(e) => {
                return Err(e);
            },
        };
        let credited_at = now_utc_seconds();
        match agg.deposit(command.amount, credited_at) {
            Ok(_) => {},
            Err(_) => {
                return Err(BankAccountAppError::DomainError);
            },
        }
        let to_save = agg.drain_new_events();
        proof {
            let s = replay_model(evs)->Ok_0->0;
            let message = credited_message(
                command.id,
                command.amount,
                (s.generation + 1) as u64,
                credited_at,
            );
            assert(to_save@ =~= Seq::<DomainMessage>::empty().push(message));
            assert(to_save@.take(0) =~= Seq::<DomainMessage>::empty());
        }
        match self.repository.save(to_save) {
            Ok(_) => {
                proof {
                    let s = replay_model(evs)->Ok_0->0;
                    let message = credited_message(
                        command.id,
                        command.amount,
                        (s.generation + 1) as u64,
                        credited_at,
                    );
                    assert(final(self).log() =~= old(self).log().push(message));
                    if stream.len() + 1 < u64::MAX {
                        lemma_wf_stream_push(old(self).log(), command.id, message);
                        assert(old(self).log().push(message) =~= final(self).log());
                    }
                }
                Ok(())
            },
            Err(e) => Err(e),
        }
    }
}

/// Handles `Withdraw`: loads the aggregate by replay, attempts the
/// withdrawal, and persists the one message that records the outcome —
/// a debit when the balance covers the amount, a refusal otherwise.
pub struct WithdrawHandler<S: BankAccountEventStore> {
    repository: BankAccountRepository<S>,
}

impl<S: BankAccountEventStore> WithdrawHandler<S> {
    /// The abstract contents of the store behind the repository.
    pub closed spec fn log(&self) -> Seq<DomainMessage> {
        self.repository.log()
    }

    pub fn new(repository: BankAccountRepository<S>) -> (r: Self)
        ensures
            r.log() == repository.log(),
    {
        WithdrawHandler { repository }
    }

    /// Hands the repository back, so that another handler can take over the
    /// same store.
    pub fn into_repository(self) -> (r: BankAccountRepository<S>)
        ensures
            r.log() == self.log(),
    {
        self.repository
    }

    pub fn handle(&mut self, command: Withdraw) -> (r: Result<(), BankAccountAppError>)
        requires
            wf_stream(old(self).log(), command.id),
        ensures
            r is Err ==> final(self).log() == old(self).log(),
            stream_of(old(self).log(), command.id).len() == 0 ==> r is Err,
            r == Err::<(), BankAccountAppError>(BankAccountAppError::DomainError) ==> stream_of(
                old(self).log(),
                command.id,
            ).len() == 0,
            (replay_model(events_of(stream_of(old(self).log(), command.id))) matches Ok(st) ==> (
            st matches Some(s) ==> (r is Ok ==> {
                &&& s.balance >= command.amount ==> exists|t: Timestamp|
                    final(self).log() == old(self).log().push(
                        #[trigger] debited_message(
                            command.id,
                            command.amount,
                            (s.generation + 1) as u64,
                            t,
                        ),
                    )
                &&& s.balance < command.amount ==> exists|t: Timestamp|
                    final(self).log() == old(self).log().push(
                        #[trigger] refusal_message(
                            command.id,
                            command.amount,
                            s.balance as u64,
                            (s.generation + 1) as u64,
                            t,
                        ),
                    )
            }))),
            (stream_of(old(self).log(), command.id).len() + 1 < u64::MAX && r is Ok)
                ==> wf_stream(final(self).log(), command.id),
    {
        let ghost stream = stream_of(old(self).log(), command.id);
        let ghost evs = events_of(stream);
        proof {
            lemma_generation_counts_events(evs);
            assert forall|i: int|
                0 <= i < evs.len() implies (#[trigger] evs[i]).spec_aggregate_id()
                == command.id by {
                assert(stream[i].event.spec_aggregate_id() == command.id);
            }
            lemma_replay_own_id(evs, command.id);
        }
        let mut agg = match self.repository.load(command.id) {
            Ok(a) => a,
            Err(e) => {
                return Err(e);
            },
        };
        let at = now_utc_seconds();
        match agg.withdraw(command.amount, at) {
            Ok(_) => {},
            Err(_) => {
                return Err(BankAccountAppError::DomainError);
            },
        }
        let to_save = agg.drain_new_events();
        proof {
            let s = replay_model(evs)->Ok_0->0;
            let debit = debited_message(command.id, command.amount, (s.generation + 1) as u64, at);
            let refusal = refusal_message(
                command.id,
                command.amount,
                s.balance as u64,
                (s.generation + 1) as u64,
                at,
            );
            if s.balance >= command.amount {
                assert(to_save@ =~= Seq::<DomainMessage>::empty().push(debit));
            } else {
                assert(to_save@ =~= Seq::<DomainMessage>::empty().push(refusal));
            }
            assert(to_save@.take(0) =~= Seq::<DomainMessage>::empty());
        }
        match self.repository.save(to_save) {
            Ok(_) => {
                proof {
                    let s = replay_model(evs)->Ok_0->0;
                    let debit = debited_message(
                        command.id,
                        command.amount,
                        (s.generation + 1) as u64,
                        at,
                    );
                    let refusal = refusal_message(
                        command.id,
                        command.amount,
                        s.balance as u64,
                        (s.generation + 1) as u64,
                        at,
                    );
                    if s.balance >= command.amount {
                        assert(final(self).log() =~= old(self).log().push(debit));
                        if stream.len() + 1 < u64::MAX {
                            lemma_wf_stream_push(old(self).log(), command.id, debit);
                            assert(old(self).log().push(debit) =~= final(self).log());
                        }
                    } else {
                        assert(final(self).log() =~= old(self).log().push(refusal));
                        if stream.len() + 1 < u64::MAX {
                            lemma_wf_stream_push(old(self).log(), command.id, refusal);
                            assert(old(self).log().push(refusal) =~= final(self).log());
                        }
                    }
                }
                Ok(())
            },
            Err(e) => Err(e),
        }
    }
}

/// Example entry point of the demo wiring. It has no work of its own — the
/// handlers above do the opening — so it only reports success.
pub fn example_open_bank_account() -> (r: Result<(), ()>)
    ensures
        r is Ok,
{
    Ok(())
}

} // verus!

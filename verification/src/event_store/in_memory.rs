use vstd::prelude::*;

use crate::event::DomainMessage;
use crate::event_store::{continues, stream_of, BankAccountEventStore, BankAccountEventStoreError};
use crate::BankAccountId;

verus! {

/// The transient reference implementation of the event store: one single
/// append-only log held in memory, scanned linearly per stream.
pub struct InMemoryBankAccountEventStore {
    events: Vec<DomainMessage>,
}

/// Counts the messages of stream `id` among the first `upto` entries.
fn count_matching(messages: &Vec<DomainMessage>, id: BankAccountId, upto: usize) -> (n: usize)
    requires
        upto <= messages@.len(),
    ensures
        n == stream_of(messages@.take(upto as int), id).len(),
{
    let mut n: usize = 0;
    let mut k: usize = 0;
    while k < upto
        invariant
            0 <= k <= upto <= messages@.len(),
            n == stream_of(messages@.take(k as int), id).len(),
            n <= k,
        decreases upto - k,
    {
        proof {
            assert(messages@.take(k + 1).drop_last() =~= messages@.take(k as int));
        }
        if messages[k].id == id {
            n = n + 1;
        }
        k = k + 1;
    }
    n
}

impl InMemoryBankAccountEventStore {
    /// A store with an empty log.
    pub fn new() -> (r: InMemoryBankAccountEventStore)
        ensures
            r.log() == Seq::<DomainMessage>::empty(),
    {
        InMemoryBankAccountEventStore { events: Vec::new() }
    }

    /// The whole log, in append order — what a write-through mirror of this
    /// store persists on every append.
    pub fn all_messages(&self) -> (r: &Vec<DomainMessage>)
        ensures
            r@ == self.log(),
    {
        &self.events
    }
}

impl BankAccountEventStore for InMemoryBankAccountEventStore {
    closed spec fn log(&self) -> Seq<DomainMessage> {
        self.events@
    }

    /// The in-memory scan never fails.
    fn get_events(&self, id: BankAccountId) -> (r: Result<
        Vec<DomainMessage>,
        BankAccountEventStoreError,
    >)
        ensures
            r matches Ok(v) && v@ == stream_of(self.log(), id),
    {
        let mut values: Vec<DomainMessage> = Vec::new();
        let mut i: usize = 0;
        while i < self.events.len()
            invariant
                0 <= i <= self.events@.len(),
                values@ == stream_of(self.events@.take(i as int), id),
            decreases self.events@.len() - i,
        {
            proof {
                assert(self.events@.take(i + 1).drop_last() =~= self.events@.take(i as int));
            }
            let m = self.events[i];
            if m.id == id {
                values.push(m);
            }
            i = i + 1;
        }
        proof {
            assert(self.events@.take(self.events@.len() as int) =~= self.events@);
        }
        Ok(values)
    }

    /// The in-memory append fails only on a generation conflict.
    fn save_events(&mut self, messages: Vec<DomainMessage>) -> (r: Result<
        (),
        BankAccountEventStoreError,
    >)
        ensures
            r is Ok <==> continues(old(self).log(), messages@),
    {
        let ghost old_log = self.events@;
        // First pass: every message must carry the generation its stream
        // reaches next, counting what this very batch already adds to it.
        let mut i: usize = 0;
        while i < messages.len()
            invariant
                0 <= i <= messages@.len(),
                self.events@ == old_log,
                forall|j: int|
                    0 <= j < i ==> (#[trigger] messages@[j]).generation == stream_of(
                        old_log,
                        messages@[j].id,
                    ).len() + stream_of(messages@.take(j), messages@[j].id).len() + 1,
            decreases messages@.len() - i,
        {
            let m_id = messages[i].id;
            let in_log = count_matching(&self.events, m_id, self.events.len());
            let in_batch = count_matching(&messages, m_id, i);
            proof {
                assert(self.events@.take(self.events@.len() as int) =~= self.events@);
            }
            let expected: u128 = in_log as u128 + in_batch as u128 + 1;
            if (messages[i].generation as u128) != expected {
                return Err(BankAccountEventStoreError::ConcurrencyConflict);
            }
            i = i + 1;
        }
        // Second pass: the batch continues every stream it touches, so append
        // it whole, in order.
        let mut k: usize = 0;
        proof {
            assert(old_log + messages@.take(0) =~= old_log);
        }
        while k < messages.len()
            invariant
                0 <= k <= messages@.len(),
                self.events@ == old_log + messages@.take(k as int),
            decreases messages@.len() - k,
        {
            self.events.push(messages[k]);
            proof {
                assert(old_log + messages@.take(k + 1) =~= (old_log + messages@.take(
                    k as int,
                )).push(messages@[k as int]));
            }
            k = k + 1;
        }
        proof {
            assert(messages@.take(messages@.len() as int) =~= messages@);
        }
        Ok(())
    }
}

} // verus!

use vstd::prelude::*;

use crate::error::BankAccountError;
use crate::event::DomainMessage;
use crate::model::{apply_model, replay_in_bounds, replay_model, state_in_bounds};
use crate::BankAccountId;

pub mod in_memory;

verus! {

/// Failures of an event store backend.
#[derive(Clone, Copy, Debug, PartialEq, Eq, Structural)]
pub enum BankAccountEventStoreError {
    TestFailed,
    IoError,
    SerdeError,
    /// The generations of the appended messages do not continue the stream:
    /// some other writer advanced it since the aggregate was loaded.
    ConcurrencyConflict,
}

impl From<BankAccountEventStoreError> for BankAccountError {
    fn from(error: BankAccountEventStoreError) -> (r: BankAccountError) {
        BankAccountError::CantSaveEvent
    }
}

impl vstd::std_specs::convert::FromSpecImpl<BankAccountEventStoreError> for BankAccountError {
    open spec fn obeys_from_spec() -> bool {
        true
    }

    open spec fn from_spec(error: BankAccountEventStoreError) -> Self {
        BankAccountError::CantSaveEvent
    }
}

/// Declares serde_json's error type so that it can appear in signatures here.
/// A value of it is only ever carried through and classified, never inspected.
#[verifier::external_type_specification]
#[verifier::external_body]
pub struct ExSerdeJsonError(serde_json::Error);

impl From<serde_json::Error> for BankAccountEventStoreError {
    fn from(error: serde_json::Error) -> (r: BankAccountEventStoreError) {
        BankAccountEventStoreError::SerdeError
    }
}

impl vstd::std_specs::convert::FromSpecImpl<serde_json::Error> for BankAccountEventStoreError {
    open spec fn obeys_from_spec() -> bool {
        true
    }

    open spec fn from_spec(error: serde_json::Error) -> Self {
        BankAccountEventStoreError::SerdeError
    }
}

/// Declares std's I/O error type so that it can appear in signatures here.
/// A value of it is only ever carried through and classified, never inspected.
#[verifier::external_type_specification]
#[verifier::external_body]
pub struct ExIoError(std::io::Error);

impl From<std::io::Error> for BankAccountEventStoreError {
    fn from(error: std::io::Error) -> (r: BankAccountEventStoreError) {
        BankAccountEventStoreError::IoError
    }
}

impl vstd::std_specs::convert::FromSpecImpl<std::io::Error> for BankAccountEventStoreError {
    open spec fn obeys_from_spec() -> bool {
        true
    }

    open spec fn from_spec(error: std::io::Error) -> Self {
        BankAccountEventStoreError::IoError
    }
}

/// The stream of `id`: the messages of the log that belong to that account,
/// in log order.
pub open spec fn stream_of(log: Seq<DomainMessage>, id: BankAccountId) -> Seq<DomainMessage>
    decreases log.len(),
{
    if log.len() == 0 {
        Seq::empty()
    } else if log.last().id == id {
        stream_of(log.drop_last(), id).push(log.last())
    } else {
        stream_of(log.drop_last(), id)
    }
}

/// The bare events of a message sequence, in order.
pub open spec fn events_of(messages: Seq<DomainMessage>) -> Seq<crate::event::BankAccountEvent> {
    messages.map_values(|m: DomainMessage| m.event)
}

/// The appended messages continue each touched stream without a gap: every
/// message carries the generation its stream would reach next. This is the
/// optimistic-concurrency token an append is checked against.
pub open spec fn continues(log: Seq<DomainMessage>, messages: Seq<DomainMessage>) -> bool {
    forall|i: int|
        0 <= i < messages.len() ==> (#[trigger] messages[i]).generation == stream_of(
            log,
            messages[i].id,
        ).len() + stream_of(messages.take(i), messages[i].id).len() + 1
}

/// A stored stream that is a possible history of its account: every message
/// and every event reference the stream's own id, the history replays
/// successfully within machine bounds, and there is room for one more
/// generation token.
pub open spec fn wf_stream_msgs(stream: Seq<DomainMessage>, id: BankAccountId) -> bool {
    &&& forall|i: int|
        0 <= i < stream.len() ==> (#[trigger] stream[i]).id == id
            && stream[i].event.spec_aggregate_id() == id
    &&& replay_model(events_of(stream)) is Ok
    &&& replay_in_bounds(events_of(stream))
    &&& stream.len() < u64::MAX
}

/// The stream of `id` inside `log` is a well-formed history.
pub open spec fn wf_stream(log: Seq<DomainMessage>, id: BankAccountId) -> bool {
    wf_stream_msgs(stream_of(log, id), id)
}

/// The capability contract of an append-only event store. `log()` is the
/// abstract contents: every message ever appended, in append order.
pub trait BankAccountEventStore: Sized {
    /// The full log, in append order.
    spec fn log(&self) -> Seq<DomainMessage>;

    /// Returns exactly the messages previously appended for `stream_id`, in
    /// append order. An unknown id yields an empty sequence, not an error.
    fn get_events(&self, id: BankAccountId) -> (r: Result<
        Vec<DomainMessage>,
        BankAccountEventStoreError,
    >)
        ensures
            (r matches Ok(v) ==> v@ == stream_of(self.log(), id)),
    ;

    /// Appends `messages` to the log, preserving their order, neither
    /// reordering nor deduplicating. The append succeeds only if every message
    /// continues its stream's generation sequence; a gap or overlap is
    /// reported as `ConcurrencyConflict`. A failed append leaves the log
    /// unchanged.
    fn save_events(&mut self, messages: Vec<DomainMessage>) -> (r: Result<
        (),
        BankAccountEventStoreError,
    >)
        ensures
            r is Ok ==> final(self).log() == old(self).log() + messages@ && continues(
                old(self).log(),
                messages@,
            ),
            r is Err ==> final(self).log() == old(self).log(),
            r == Err::<(), BankAccountEventStoreError>(
                BankAccountEventStoreError::ConcurrencyConflict,
            ) <==> !continues(old(self).log(), messages@),
    ;
}

/// The bare events of a fetched message sequence, in order.
pub fn to_events(messages: &Vec<DomainMessage>) -> (r: Vec<crate::event::BankAccountEvent>)
    ensures
        r@ == events_of(messages@),
{
    let mut out: Vec<crate::event::BankAccountEvent> = Vec::new();
    let mut i: usize = 0;
    while i < messages.len()
        invariant
            0 <= i <= messages@.len(),
            out@ == events_of(messages@.take(i as int)),
        decreases messages@.len() - i,
    {
        out.push(messages[i].event);
        proof {
            assert(events_of(messages@.take(i + 1)) =~= events_of(messages@.take(i as int)).push(
                messages@[i as int].event,
            ));
        }
        i = i + 1;
    }
    proof {
        assert(messages@.take(messages@.len() as int) =~= messages@);
    }
    out
}

/// Decides at run time whether a fetched stream is a well-formed history of
/// the account `id` — the condition under which the repository may load it.
pub fn stream_is_wf(stream: &Vec<DomainMessage>, id: BankAccountId) -> (b: bool)
    ensures
        b == wf_stream_msgs(stream@, id),
{
    if stream.len() as u64 >= u64::MAX {
        return false;
    }
    let mut i: usize = 0;
    while i < stream.len()
        invariant
            0 <= i <= stream@.len(),
            forall|j: int|
                0 <= j < i ==> (#[trigger] stream@[j]).id == id
                    && stream@[j].event.spec_aggregate_id() == id,
        decreases stream@.len() - i,
    {
        if stream[i].id != id {
            return false;
        }
        if stream[i].event.get_aggregate_id() != id {
            return false;
        }
        i = i + 1;
    }
    let events = to_events(stream);
    crate::model::events_replay_ok(&events)
}

/// Every message of a stream carries the stream's id: `get_events` never hands
/// out another account's records.
pub proof fn lemma_stream_own_id(log: Seq<DomainMessage>, id: BankAccountId)
    ensures
        forall|i: int| 0 <= i < stream_of(log, id).len() ==> (#[trigger] stream_of(log, id)[i]).id
            == id,
    decreases log.len(),
{
    if log.len() > 0 {
        lemma_stream_own_id(log.drop_last(), id);
    }
}

/// Law (store round trip, first half): appending messages that all belong to
/// stream `id` extends exactly that stream with exactly those messages, in
/// order.
pub proof fn lemma_stream_after_append(
    log: Seq<DomainMessage>,
    messages: Seq<DomainMessage>,
    id: BankAccountId,
)
    requires
        forall|i: int| 0 <= i < messages.len() ==> (#[trigger] messages[i]).id == id,
    ensures
        stream_of(log + messages, id) == stream_of(log, id) + messages,
    decreases messages.len(),
{
    if messages.len() == 0 {
        assert(log + messages =~= log);
        assert(stream_of(log, id) + messages =~= stream_of(log, id));
    } else {
        lemma_stream_after_append(log, messages.drop_last(), id);
        assert((log + messages).drop_last() =~= log + messages.drop_last());
        assert(stream_of(log, id) + messages =~= (stream_of(log, id) + messages.drop_last()).push(
            messages.last(),
        ));
    }
}

/// Law (stream isolation): appending messages of other accounts leaves the
/// stream of `id` untouched.
pub proof fn lemma_stream_unaffected(
    log: Seq<DomainMessage>,
    messages: Seq<DomainMessage>,
    id: BankAccountId,
)
    requires
        forall|i: int| 0 <= i < messages.len() ==> (#[trigger] messages[i]).id != id,
    ensures
        stream_of(log + messages, id) == stream_of(log, id),
    decreases messages.len(),
{
    if messages.len() == 0 {
        assert(log + messages =~= log);
    } else {
        lemma_stream_unaffected(log, messages.drop_last(), id);
        assert((log + messages).drop_last() =~= log + messages.drop_last());
    }
}

/// Law (history preservation): a well-formed stream stays well-formed when
/// one more of its own messages is appended, provided the recorded event
/// applies to the replayed state within machine bounds and the stream has
/// room for another generation token. This is what lets one command
/// verifiably follow another on the same store.
pub proof fn lemma_wf_stream_push(
    log: Seq<DomainMessage>,
    id: BankAccountId,
    message: DomainMessage,
)
    requires
        wf_stream(log, id),
        message.id == id,
        message.event.spec_aggregate_id() == id,
        stream_of(log, id).len() + 1 < u64::MAX,
        (apply_model(
            replay_model(events_of(stream_of(log, id)))->Ok_0,
            message.event,
        ) matches Ok(s) && state_in_bounds(s)),
    ensures
        wf_stream(log.push(message), id),
{
    let stream = stream_of(log, id);
    let events = events_of(stream);
    lemma_stream_after_append(log, seq![message], id);
    assert(log.push(message) =~= log + seq![message]);
    assert(stream_of(log.push(message), id) =~= stream.push(message));
    let extended = stream.push(message);
    let events2 = events_of(extended);
    assert(events2 =~= events.push(message.event));
    assert(events2.drop_last() =~= events);
}

/// Law (store round trip, second half): an id that no message of the log
/// carries has an empty stream.
pub proof fn lemma_unknown_stream_empty(log: Seq<DomainMessage>, id: BankAccountId)
    requires
        forall|i: int| 0 <= i < log.len() ==> (#[trigger] log[i]).id != id,
    ensures
        stream_of(log, id) == Seq::<DomainMessage>::empty(),
    decreases log.len(),
{
    if log.len() > 0 {
        lemma_unknown_stream_empty(log.drop_last(), id);
    }
}

} // verus!

use vstd::prelude::*;

use crate::command::BankAccountCommand;
use crate::error::BankAccountError;
use crate::event::{
    credited_message, debited_message, opened_message, refusal_message, BankAccountCredited,
    BankAccountDebited, BankAccountEvent, BankAccountOpened, BankAccountWithdrawalRefused,
    DomainMessage,
};
use crate::{BankAccountId, CustomerId, Timestamp};

verus! {

/// The mathematical state of one opened account. Balance and generation are
/// unbounded integers here, so that the fold over events can be stated without
/// committing to a machine word size; the executable state is tied to this
/// model through [`BankAccountState::model`].
pub ghost struct StateModel {
    pub id: BankAccountId,
    pub customer_id: CustomerId,
    pub balance: int,
    pub generation: int,
}

/// The single deterministic fold step shared by command handling and replay:
/// what applying one event does to the (possibly still absent) account state.
///
/// `Opened` initializes the state and is valid only when no state exists yet;
/// every other variant demands an opened account. A refusal changes no
/// balance. Every successful application increments the generation by one.
pub open spec fn apply_model(state: Option<StateModel>, event: BankAccountEvent) -> Result<
    StateModel,
    BankAccountError,
> {
    match event {
        BankAccountEvent::Opened(p) => match state {
            Option::None => Ok(
                StateModel { id: p.id, customer_id: p.customer_id, balance: 0, generation: 1 },
            ),
            Option::Some(_) => Err(BankAccountError::AlreadyOpened),
        },
        BankAccountEvent::Credited(p) => match state {
            Option::None => Err(BankAccountError::NotOpened),
            Option::Some(s) => Ok(
                StateModel {
                    id: s.id,
                    customer_id: s.customer_id,
                    balance: s.balance + p.amount,
                    generation: s.generation + 1,
                },
            ),
        },
        BankAccountEvent::Debited(p) => match state {
            Option::None => Err(BankAccountError::NotOpened),
            Option::Some(s) => Ok(
                StateModel {
                    id: s.id,
                    customer_id: s.customer_id,
                    balance: s.balance - p.amount,
                    generation: s.generation + 1,
                },
            ),
        },
        BankAccountEvent::WithdrawalRefused(_) => match state {
            Option::None => Err(BankAccountError::NotOpened),
            Option::Some(s) => Ok(
                StateModel {
                    id: s.id,
                    customer_id: s.customer_id,
                    balance: s.balance,
                    generation: s.generation + 1,
                },
            ),
        },
    }
}

/// Replaying an ordered event sequence from scratch: the left fold of
/// [`apply_model`] starting from the unopened state. The first failing
/// application decides the overall result.
pub open spec fn replay_model(events: Seq<BankAccountEvent>) -> Result<
    Option<StateModel>,
    BankAccountError,
>
    decreases events.len(),
{
    if events.len() == 0 {
        Ok(Option::None)
    } else {
        match replay_model(events.drop_last()) {
            Ok(state) => match apply_model(state, events.last()) {
                Ok(s) => Ok(Option::Some(s)),
                Err(e) => Err(e),
            },
            Err(e) => Err(e),
        }
    }
}

/// The balance and generation of this state fit in the unsigned machine words
/// that the executable representation uses.
pub open spec fn state_in_bounds(s: StateModel) -> bool {
    &&& 0 <= s.balance <= u64::MAX
    &&& 0 <= s.generation <= u64::MAX
}

/// Replaying `events` never drives the balance below zero or past `u64::MAX`
/// at any intermediate point. A sequence that some run of commands actually
/// produced always satisfies this; a tampered or reordered one may not.
pub open spec fn replay_in_bounds(events: Seq<BankAccountEvent>) -> bool
    decreases events.len(),
{
    if events.len() == 0 {
        true
    } else {
        &&& replay_in_bounds(events.drop_last())
        &&& (replay_model(events) matches Ok(st) ==> (st matches Some(s) ==> state_in_bounds(s)))
    }
}

/// The reconstructed, ephemeral state of one opened account.
#[derive(Clone, Copy, Debug, PartialEq, Eq, Structural)]
pub struct BankAccountState {
    pub id: BankAccountId,
    pub customer_id: CustomerId,
    pub balance: u64,
    pub generation: u64,
}

impl BankAccountState {
    /// The mathematical reading of this state.
    pub open spec fn model(self) -> StateModel {
        StateModel {
            id: self.id,
            customer_id: self.customer_id,
            balance: self.balance as int,
            generation: self.generation as int,
        }
    }

    /// The state right after the opening event: a zero balance at generation
    /// one.
    pub fn new(id: BankAccountId, customer_id: CustomerId) -> (r: BankAccountState)
        ensures
            r == (BankAccountState { id, customer_id, balance: 0, generation: 1 }),
    {
        BankAccountState { id, customer_id, balance: 0, generation: 1 }
    }
}

/// The mathematical reading of a possibly absent state.
pub open spec fn model_opt(state: Option<BankAccountState>) -> Option<StateModel> {
    match state {
        Option::None => Option::None,
        Option::Some(s) => Option::Some(s.model()),
    }
}

/// The in-memory state machine for one account stream: the state reconstructed
/// so far, plus the buffer of messages produced by commands since this
/// aggregate was built. The buffer is never persisted by the aggregate itself;
/// the repository drains it into the event store.
pub struct BankAccountAggregate {
    state: Option<BankAccountState>,
    new_events: Vec<DomainMessage>,
}

impl BankAccountAggregate {
    /// The mathematical reading of the current state: `None` while unopened.
    pub closed spec fn state_model(&self) -> Option<StateModel> {
        model_opt(self.state)
    }

    /// The messages produced by commands since construction, in order.
    pub closed spec fn buffered(&self) -> Seq<DomainMessage> {
        self.new_events@
    }

    /// A fresh, unopened aggregate with an empty buffer.
    pub fn new() -> (r: BankAccountAggregate)
        ensures
            r.state_model() is None,
            r.buffered() == Seq::<DomainMessage>::empty(),
    {
        BankAccountAggregate { state: Option::None, new_events: Vec::new() }
    }

    /// The identity of the opened account.
    pub fn get_id(&mut self) -> (r: BankAccountId)
        requires
            old(self).state_model() is Some,
        ensures
            *final(self) == *old(self),
            old(self).state_model() matches Some(s) && r == s.id,
    {
        match &self.state {
            Option::Some(s) => s.id,
            Option::None => unreached(),
        }
    }

    /// The reconstructed state, if the account has been opened.
    pub fn get_state(&self) -> (r: Option<BankAccountState>)
        ensures
            model_opt(r) == self.state_model(),
    {
        self.state
    }

    /// One executable fold step, tied exactly to [`apply_model`].
    fn apply_step(state: &Option<BankAccountState>, event: &BankAccountEvent) -> (r: Result<
        BankAccountState,
        BankAccountError,
    >)
        requires
            (apply_model(model_opt(*state), *event) matches Ok(s) ==> state_in_bounds(s)),
        ensures
            (match apply_model(model_opt(*state), *event) {
                Ok(s) => r matches Ok(t) && t.model() == s,
                Err(e) => r == Err::<BankAccountState, BankAccountError>(e),
            }),
    {
        match event {
            BankAccountEvent::Opened(p) => match state {
                Option::None => Ok(BankAccountState::new(p.id, p.customer_id)),
                Option::Some(_) => Err(BankAccountError::AlreadyOpened),
            },
            BankAccountEvent::Credited(p) => match state {
                Option::None => Err(BankAccountError::NotOpened),
                Option::Some(s) => Ok(
                    BankAccountState {
                        id: s.id,
                        customer_id: s.customer_id,
                        balance: s.balance + p.amount,
                        generation: s.generation + 1,
                    },
                ),
            },
            BankAccountEvent::Debited(p) => match state {
                Option::None => Err(BankAccountError::NotOpened),
                Option::Some(s) => Ok(
                    BankAccountState {
                        id: s.id,
                        customer_id: s.customer_id,
                        balance: s.balance - p.amount,
                        generation: s.generation + 1,
                    },
                ),
            },
            BankAccountEvent::WithdrawalRefused(_) => match state {
                Option::None => Err(BankAccountError::NotOpened),
                Option::Some(s) => Ok(
                    BankAccountState {
                        id: s.id,
                        customer_id: s.customer_id,
                        balance: s.balance,
                        generation: s.generation + 1,
                    },
                ),
            },
        }
    }

    /// Applies one freshly produced event and, on success, appends the
    /// corresponding message to the buffer of not-yet-persisted output.
    fn record_event(&mut self, event: &BankAccountEvent, recorded_at: Timestamp) -> (r: Result<
        (),
        BankAccountError,
    >)
        requires
            (apply_model(old(self).state_model(), *event) matches Ok(s) ==> state_in_bounds(s)),
        ensures
            (match apply_model(old(self).state_model(), *event) {
                Ok(s) => {
                    &&& r is Ok
                    &&& final(self).state_model() == Some(s)
                    &&& final(self).buffered() == old(self).buffered().push(
                        (DomainMessage {
                            id: s.id,
                            event: *event,
                            generation: s.generation as u64,
                            created_at: recorded_at,
                        }),
                    )
                },
                Err(e) => r == Err::<(), BankAccountError>(e) && *final(self) == *old(self),
            }),
    {
        match Self::apply_step(&self.state, event) {
            Ok(st) => {
                let message = DomainMessage::new(st.id, *event, st.generation, recorded_at);
                self.state = Some(st);
                self.new_events.push(message);
                Ok(())
            },
            Err(e) => Err(e),
        }
    }

    /// Opens the account. Valid only while unopened; a second open fails with
    /// `AlreadyOpened` and changes nothing.
    pub fn open_acc(
        &mut self,
        id: BankAccountId,
        customer_id: CustomerId,
        opened_at: Timestamp,
    ) -> (r: Result<(), BankAccountError>)
        ensures
            old(self).state_model() is Some ==> r == Err::<(), BankAccountError>(
                BankAccountError::AlreadyOpened,
            ) && *final(self) == *old(self),
            old(self).state_model() is None ==> {
                &&& r is Ok
                &&& final(self).state_model() == Some(
                    StateModel { id, customer_id, balance: 0, generation: 1 },
                )
                &&& final(self).buffered() == old(self).buffered().push(
                    opened_message(id, customer_id, opened_at),
                )
            },
    {
        let event = BankAccountEvent::acc_opened(id, customer_id, opened_at);
        self.record_event(&event, opened_at)
    }

    /// Credits `amount`. Valid only once opened; always succeeds business-wise
    /// and records a `Credited` event.
    pub fn deposit(&mut self, amount: u64, credited_at: Timestamp) -> (r: Result<
        (),
        BankAccountError,
    >)
        requires
            old(self).state_model() matches Some(s) ==> s.balance + amount <= u64::MAX
                && s.generation + 1 <= u64::MAX,
        ensures
            old(self).state_model() is None ==> r == Err::<(), BankAccountError>(
                BankAccountError::NotOpened,
            ) && *final(self) == *old(self),
            old(self).state_model() matches Some(s) ==> {
                &&& r is Ok
                &&& final(self).state_model() == Some(
                    StateModel {
                        id: s.id,
                        customer_id: s.customer_id,
                        balance: s.balance + amount,
                        generation: s.generation + 1,
                    },
                )
                &&& final(self).buffered() == old(self).buffered().push(
                    credited_message(s.id, amount, (s.generation + 1) as u64, credited_at),
                )
            },
    {
        let id = match &self.state {
            Option::Some(s) => s.id,
            Option::None => {
                return Err(BankAccountError::NotOpened);
            },
        };
        let event = BankAccountEvent::credited(id, amount, credited_at);
        self.record_event(&event, credited_at)
    }

    /// Withdraws `amount`. Valid only once opened. When the balance covers the
    /// amount, records exactly one `Debited` event and decreases the balance
    /// by that amount; otherwise records exactly one `WithdrawalRefused` event
    /// carrying the pre-withdrawal balance and leaves the balance unchanged.
    /// The refusal is a successful operation, not an error.
    pub fn withdraw(&mut self, amount: u64, at: Timestamp) -> (r: Result<(), BankAccountError>)
        requires
            old(self).state_model() matches Some(s) ==> s.generation + 1 <= u64::MAX,
        ensures
            old(self).state_model() is None ==> r == Err::<(), BankAccountError>(
                BankAccountError::NotOpened,
            ) && *final(self) == *old(self),
            old(self).state_model() matches Some(s) ==> {
                &&& r is Ok
                &&& s.balance >= amount ==> {
                    &&& final(self).state_model() == Some(
                        StateModel {
                            id: s.id,
                            customer_id: s.customer_id,
                            balance: s.balance - amount,
                            generation: s.generation + 1,
                        },
                    )
                    &&& final(self).buffered() == old(self).buffered().push(
                        debited_message(s.id, amount, (s.generation + 1) as u64, at),
                    )
                }
                &&& s.balance < amount ==> {
                    &&& final(self).state_model() == Some(
                        StateModel {
                            id: s.id,
                            customer_id: s.customer_id,
                            balance: s.balance,
                            generation: s.generation + 1,
                        },
                    )
                    &&& final(self).buffered() == old(self).buffered().push(
                        refusal_message(
                            s.id,
                            amount,
                            s.balance as u64,
                            (s.generation + 1) as u64,
                            at,
                        ),
                    )
                }
            },
    {
        let event = match &self.state {
            Option::Some(s) => {
                if s.balance >= amount {
                    BankAccountEvent::debited(s.id, amount, at)
                } else {
                    BankAccountEvent::withdrawal_refused(s.id, amount, s.balance, at)
                }
            },
            Option::None => {
                return Err(BankAccountError::NotOpened);
            },
        };
        self.record_event(&event, at)
    }

    /// The messages produced by the commands handled since construction. The
    /// buffer is returned as-is and not cleared.
    pub fn get_new_events(&self) -> (r: &Vec<DomainMessage>)
        ensures
            r@ == self.buffered(),
    {
        &self.new_events
    }

    /// The buffered messages as an owned vector, ready to be handed to the
    /// repository. The buffer itself is not cleared.
    pub fn drain_new_events(&self) -> (r: Vec<DomainMessage>)
        ensures
            r@ == self.buffered(),
    {
        let mut out: Vec<DomainMessage> = Vec::new();
        let mut i: usize = 0;
        while i < self.new_events.len()
            invariant
                0 <= i <= self.new_events@.len(),
                out@ == self.new_events@.take(i as int),
            decreases self.new_events@.len() - i,
        {
            out.push(self.new_events[i]);
            proof {
                assert(self.new_events@.take(i + 1) =~= self.new_events@.take(i as int).push(
                    self.new_events@[i as int],
                ));
            }
            i = i + 1;
        }
        proof {
            assert(self.new_events@.take(self.new_events@.len() as int) =~= self.new_events@);
        }
        out
    }

    /// Folds an event sequence from the unopened state, stopping at the first
    /// event that fails to apply.
    fn fold_events(events: &Vec<BankAccountEvent>) -> (r: Result<
        Option<BankAccountState>,
        BankAccountError,
    >)
        requires
            replay_in_bounds(events@),
        ensures
            (match replay_model(events@) {
                Ok(st) => r matches Ok(o) && model_opt(o) == st,
                Err(e) => r == Err::<Option<BankAccountState>, BankAccountError>(e),
            }),
    {
        let mut state: Option<BankAccountState> = None;
        let mut i: usize = 0;
        while i < events.len()
            invariant
                0 <= i <= events@.len(),
                replay_in_bounds(events@),
                replay_model(events@.take(i as int)) matches Ok(m) && model_opt(state) == m,
            decreases events@.len() - i,
        {
            proof {
                lemma_replay_in_bounds_prefix(events@, i + 1);
                assert(events@.take(i + 1).drop_last() =~= events@.take(i as int));
                assert(events@.take(i + 1).last() == events@[i as int]);
            }
            match Self::apply_step(&state, &events[i]) {
                Ok(st) => {
                    state = Some(st);
                },
                Err(e) => {
                    proof {
                        lemma_replay_error_prefix(events@, i + 1);
                    }
                    return Err(e);
                },
            }
            i = i + 1;
        }
        proof {
            assert(events@.take(events@.len() as int) =~= events@);
        }
        Ok(state)
    }

    /// Reconstructs state by folding a stored event history into this fresh
    /// aggregate, without re-validating business rules and without buffering
    /// any output. On a failing history nothing is changed.
    pub fn replay(&mut self, events: &Vec<BankAccountEvent>) -> (r: Result<(), BankAccountError>)
        requires
            old(self).state_model() is None,
            old(self).buffered() == Seq::<DomainMessage>::empty(),
            replay_in_bounds(events@),
        ensures
            (match replay_model(events@) {
                Ok(st) => {
                    &&& r is Ok
                    &&& final(self).state_model() == st
                    &&& final(self).buffered() == Seq::<DomainMessage>::empty()
                },
                Err(e) => r == Err::<(), BankAccountError>(e) && *final(self) == *old(self),
            }),
    {
        match Self::fold_events(events) {
            Ok(st) => {
                self.state = st;
                Ok(())
            },
            Err(e) => Err(e),
        }
    }

    /// Replays a complete history and returns the resulting state. An empty
    /// history leaves no state to return and fails with `NotOpened`.
    pub fn apply_events(events: Vec<BankAccountEvent>) -> (r: Result<
        BankAccountState,
        BankAccountError,
    >)
        requires
            replay_in_bounds(events@),
        ensures
            (match replay_model(events@) {
                Ok(st) => match st {
                    Some(s) => r matches Ok(t) && t.model() == s,
                    None => r == Err::<BankAccountState, BankAccountError>(
                        BankAccountError::NotOpened,
                    ),
                },
                Err(e) => r == Err::<BankAccountState, BankAccountError>(e),
            }),
    {
        match Self::fold_events(&events) {
            Ok(Some(s)) => Ok(s),
            Ok(None) => Err(BankAccountError::NotOpened),
            Err(e) => Err(e),
        }
    }
}

/// The pure decision rule of command handling: from the current state and one
/// inbound command to the recorded outcome. Opening demands an unopened
/// account; depositing and withdrawing demand an opened one; an uncovered
/// withdrawal decides for a refusal event rather than an error.
pub open spec fn decide(
    state: Option<BankAccountState>,
    command: BankAccountCommand,
    at: Timestamp,
) -> Result<Seq<BankAccountEvent>, BankAccountError> {
    match command {
        BankAccountCommand::Open(c) => match state {
            Option::None => Ok(
                seq![
                    BankAccountEvent::Opened(
                        BankAccountOpened { id: c.id, customer_id: c.customer_id, opened_at: at },
                    ),
                ],
            ),
            Option::Some(_) => Err(BankAccountError::AlreadyOpened),
        },
        BankAccountCommand::Deposit(c) => match state {
            Option::None => Err(BankAccountError::NotOpened),
            Option::Some(s) => Ok(
                seq![
                    BankAccountEvent::Credited(
                        BankAccountCredited { id: s.id, amount: c.amount, credited_at: at },
                    ),
                ],
            ),
        },
        BankAccountCommand::Withdraw(c) => match state {
            Option::None => Err(BankAccountError::NotOpened),
            Option::Some(s) => if s.balance >= c.amount {
                Ok(
                    seq![
                        BankAccountEvent::Debited(
                            BankAccountDebited { id: s.id, amount: c.amount, debited_at: at },
                        ),
                    ],
                )
            } else {
                Ok(
                    seq![
                        BankAccountEvent::WithdrawalRefused(
                            BankAccountWithdrawalRefused {
                                id: s.id,
                                amount: c.amount,
                                balance_at_refusal: s.balance,
                                refused_at: at,
                            },
                        ),
                    ],
                )
            },
        },
    }
}

impl BankAccountAggregate {
    /// The decision step of command handling as a standalone function: given a
    /// reconstructed state and one command, produce the events that record the
    /// outcome, exactly as [`decide`] says, without touching any store.
    pub fn handle(
        state: Option<BankAccountState>,
        command: BankAccountCommand,
        at: Timestamp,
    ) -> (r: Result<Vec<BankAccountEvent>, BankAccountError>)
        ensures
            (match decide(state, command, at) {
                Ok(events) => r matches Ok(v) && v@ == events,
                Err(e) => r == Err::<Vec<BankAccountEvent>, BankAccountError>(e),
            }),
    {
        let decision: Result<BankAccountEvent, BankAccountError> = match command {
            BankAccountCommand::Open(c) => match &state {
                Option::None => Ok(BankAccountEvent::acc_opened(c.id, c.customer_id, at)),
                Option::Some(_) => Err(BankAccountError::AlreadyOpened),
            },
            BankAccountCommand::Deposit(c) => match &state {
                Option::None => Err(BankAccountError::NotOpened),
                Option::Some(s) => Ok(BankAccountEvent::credited(s.id, c.amount, at)),
            },
            BankAccountCommand::Withdraw(c) => match &state {
                Option::None => Err(BankAccountError::NotOpened),
                Option::Some(s) => {
                    if s.balance >= c.amount {
                        Ok(BankAccountEvent::debited(s.id, c.amount, at))
                    } else {
                        Ok(BankAccountEvent::withdrawal_refused(s.id, c.amount, s.balance, at))
                    }
                },
            },
        };
        match decision {
            Ok(event) => {
                let mut v: Vec<BankAccountEvent> = Vec::new();
                v.push(event);
                proof {
                    assert(v@ =~= seq![event]);
                }
                Ok(v)
            },
            Err(e) => Err(e),
        }
    }
}

/// Every prefix of an in-bounds event sequence is itself in bounds.
pub proof fn lemma_replay_in_bounds_prefix(events: Seq<BankAccountEvent>, k: int)
    requires
        0 <= k <= events.len(),
        replay_in_bounds(events),
    ensures
        replay_in_bounds(events.take(k)),
    decreases events.len() - k,
{
    if k == events.len() {
        assert(events.take(k) =~= events);
    } else {
        lemma_replay_in_bounds_prefix(events, k + 1);
        assert(events.take(k + 1).drop_last() =~= events.take(k));
    }
}

/// Once a prefix of a history fails to replay, the whole history fails with
/// that same error: the first failing event decides the outcome.
pub proof fn lemma_replay_error_prefix(events: Seq<BankAccountEvent>, k: int)
    requires
        0 <= k <= events.len(),
        replay_model(events.take(k)) is Err,
    ensures
        replay_model(events) == replay_model(events.take(k)),
    decreases events.len() - k,
{
    if k == events.len() {
        assert(events.take(k) =~= events);
    } else {
        assert(events.take(k + 1).drop_last() =~= events.take(k));
        lemma_replay_error_prefix(events, k + 1);
    }
}

/// The sum of all credited amounts in a history.
pub open spec fn sum_credited(events: Seq<BankAccountEvent>) -> int
    decreases events.len(),
{
    if events.len() == 0 {
        0
    } else {
        sum_credited(events.drop_last()) + (match events.last() {
            BankAccountEvent::Credited(p) => p.amount as int,
            _ => 0,
        })
    }
}

/// The sum of all debited amounts in a history.
pub open spec fn sum_debited(events: Seq<BankAccountEvent>) -> int
    decreases events.len(),
{
    if events.len() == 0 {
        0
    } else {
        sum_debited(events.drop_last()) + (match events.last() {
            BankAccountEvent::Debited(p) => p.amount as int,
            _ => 0,
        })
    }
}

/// Law: after any successful replay, the balance equals the sum of all
/// credited amounts minus the sum of all debited amounts in the history.
/// Refused withdrawals contribute nothing.
pub proof fn lemma_balance_is_credits_minus_debits(events: Seq<BankAccountEvent>)
    requires
        replay_model(events) is Ok,
    ensures
        (replay_model(events) matches Ok(st) ==> (st matches Some(s) ==> s.balance == sum_credited(
            events,
        ) - sum_debited(events))),
    decreases events.len(),
{
    if events.len() > 0 {
        let prefix = events.drop_last();
        lemma_balance_is_credits_minus_debits(prefix);
        // A successful replay with no resulting state means nothing was
        // replayed, so both sums over the shorter history are zero.
        lemma_generation_counts_events(prefix);
        match replay_model(prefix) {
            Ok(pst) => match pst {
                Option::None => {
                    assert(prefix.len() == 0);
                    assert(sum_credited(prefix) == 0);
                    assert(sum_debited(prefix) == 0);
                },
                Option::Some(s0) => {
                    assert(s0.balance == sum_credited(prefix) - sum_debited(prefix));
                },
            },
            Err(_) => {},
        }
    }
}

/// Law: after replaying `N` events the generation is exactly `N`, regardless
/// of the mix of variants; an account with no state has replayed nothing.
pub proof fn lemma_generation_counts_events(events: Seq<BankAccountEvent>)
    requires
        replay_model(events) is Ok,
    ensures
        (replay_model(events) matches Ok(st) ==> (match st {
            Some(s) => s.generation == events.len(),
            None => events.len() == 0,
        })),
    decreases events.len(),
{
    if events.len() > 0 {
        lemma_generation_counts_events(events.drop_last());
    }
}

/// A history whose events all reference the account `id` reconstructs a state
/// that carries `id`.
pub proof fn lemma_replay_own_id(events: Seq<BankAccountEvent>, id: BankAccountId)
    requires
        forall|i: int| 0 <= i < events.len() ==> (#[trigger] events[i]).spec_aggregate_id() == id,
        replay_model(events) is Ok,
    ensures
        (replay_model(events) matches Ok(st) ==> (st matches Some(s) ==> s.id == id)),
    decreases events.len(),
{
    if events.len() > 0 {
        lemma_replay_own_id(events.drop_last(), id);
    }
}

/// Decides at run time whether a history replays successfully and stays
/// within the machine bounds of the executable state — the condition under
/// which [`BankAccountAggregate::replay`] may be called on it.
pub fn events_replay_ok(events: &Vec<BankAccountEvent>) -> (b: bool)
    ensures
        b == (replay_model(events@) is Ok && replay_in_bounds(events@)),
{
    let mut state: Option<BankAccountState> = None;
    let mut i: usize = 0;
    while i < events.len()
        invariant
            0 <= i <= events@.len(),
            replay_model(events@.take(i as int)) matches Ok(m) && model_opt(state) == m,
            replay_in_bounds(events@.take(i as int)),
        decreases events@.len() - i,
    {
        proof {
            assert(events@.take(i + 1).drop_last() =~= events@.take(i as int));
            assert(events@.take(i + 1).last() == events@[i as int]);
        }
        let next: BankAccountState = match (&state, &events[i]) {
            (Option::None, BankAccountEvent::Opened(p)) => BankAccountState::new(
                p.id,
                p.customer_id,
            ),
            (Option::Some(_), BankAccountEvent::Opened(_)) => {
                proof {
                    lemma_replay_error_prefix(events@, i + 1);
                }
                return false;
            },
            (Option::None, _) => {
                proof {
                    lemma_replay_error_prefix(events@, i + 1);
                }
                return false;
            },
            (Option::Some(s), BankAccountEvent::Credited(p)) => {
                if p.amount > u64::MAX - s.balance || s.generation == u64::MAX {
                    proof {
                        if replay_in_bounds(events@) {
                            lemma_replay_in_bounds_prefix(events@, i + 1);
                        }
                    }
                    return false;
                }
                BankAccountState {
                    id: s.id,
                    customer_id: s.customer_id,
                    balance: s.balance + p.amount,
                    generation: s.generation + 1,
                }
            },
            (Option::Some(s), BankAccountEvent::Debited(p)) => {
                if s.balance < p.amount || s.generation == u64::MAX {
                    proof {
                        if replay_in_bounds(events@) {
                            lemma_replay_in_bounds_prefix(events@, i + 1);
                        }
                    }
                    return false;
                }
                BankAccountState {
                    id: s.id,
                    customer_id: s.customer_id,
                    balance: s.balance - p.amount,
                    generation: s.generation + 1,
                }
            },
            (Option::Some(s), BankAccountEvent::WithdrawalRefused(_)) => {
                if s.generation == u64::MAX {
                    proof {
                        if replay_in_bounds(events@) {
                            lemma_replay_in_bounds_prefix(events@, i + 1);
                        }
                    }
                    return false;
                }
                BankAccountState {
                    id: s.id,
                    customer_id: s.customer_id,
                    balance: s.balance,
                    generation: s.generation + 1,
                }
            },
        };
        state = Some(next);
        i = i + 1;
    }
    proof {
        assert(events@.take(events@.len() as int) =~= events@);
    }
    true
}

/// Law: replay is deterministic. The outcome is a function of the event
/// sequence alone, so two replays of the same history from fresh aggregates
/// reach the same final state.
pub proof fn lemma_replay_deterministic(
    events1: Seq<BankAccountEvent>,
    events2: Seq<BankAccountEvent>,
)
    requires
        events1 == events2,
    ensures
        replay_model(events1) == replay_model(events2),
{
}

} // verus!

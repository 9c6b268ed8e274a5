use vstd::prelude::*;

verus! {

/// Errors reported by the bank account aggregate itself.
///
/// Business refusals (a withdrawal exceeding the balance) are *not* errors:
/// they are recorded as events. These variants mark precondition violations
/// and infrastructure failures only.
#[derive(Clone, Copy, Debug, PartialEq, Eq, Structural)]
pub enum BankAccountError {
    /// A balance-affecting operation ran before the account was opened.
    NotOpened,
    /// A second open was applied to an account that already has state.
    AlreadyOpened,
    /// Newly produced events could not be handed to the event store.
    CantSaveEvent,
}

/// The coarse error classification that command handlers report: either the
/// business rules rejected the command, or the infrastructure underneath the
/// repository failed.
#[derive(Clone, Copy, Debug, PartialEq, Eq, Structural)]
pub enum BankAccountAppError {
    DomainError,
    RepositoryError,
}

impl From<BankAccountError> for BankAccountAppError {
    fn from(error: BankAccountError) -> (r: Self)
        ensures
            r == BankAccountAppError::DomainError,
    {
        BankAccountAppError::DomainError
    }
}

impl vstd::std_specs::convert::FromSpecImpl<BankAccountError> for BankAccountAppError {
    open spec fn obeys_from_spec() -> bool {
        true
    }

    open spec fn from_spec(error: BankAccountError) -> Self {
        BankAccountAppError::DomainError
    }
}

} // verus!

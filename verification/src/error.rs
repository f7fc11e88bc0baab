//! Errors of the domain services and of the use cases built on them.
use vstd::prelude::*;

verus! {

/// Why a domain service could not do what it was asked.
#[derive(Clone, Debug)]
pub enum DomainError {
    /// The browser session failed; the message says where.
    AutomationError(String),
    /// The backend refused the request or answered with something unreadable.
    RuleViolation,
    /// The backend refused the request because a quota is used up.
    LimitReached,
    /// What was waited for never happened.
    NotFound,
}

/// Why a use case failed.
#[derive(Clone, Debug)]
pub enum UseCasesError {
    Domain(DomainError),
}

impl From<DomainError> for UseCasesError {
    fn from(e: DomainError) -> (r: UseCasesError) {
        UseCasesError::Domain(e)
    }
}

impl vstd::std_specs::convert::FromSpecImpl<DomainError> for UseCasesError {
    open spec fn obeys_from_spec() -> bool {
        true
    }

    open spec fn from_spec(e: DomainError) -> UseCasesError {
        UseCasesError::Domain(e)
    }
}

} // verus!

//! Responders: the unconfigured one, which answers "not implemented", and
//! the fixed one, which answers with one configured outcome.

use vstd::prelude::*;
use tonic::Status;
use crate::{Request, Responder};

verus! {

#[verifier::external_type_specification]
#[verifier::external_body]
pub struct ExStatus(Status);

/// What tonic's `Status::unimplemented` builds from a message.
pub uninterp spec fn unimplemented_status(message: Seq<char>) -> Status;

/// Relies on tonic's `Status::unimplemented`: a status with code
/// `Unimplemented` and the given message, built from the message alone.
#[verifier::external_body]
fn status_unimplemented(message: &str) -> (r: Status)
    ensures
        r == unimplemented_status(message@),
{
    Status::unimplemented(message)
}

/// The message of the error that an unconfigured method answers with.
pub open spec fn not_implemented_message() -> Seq<char> {
    "Method is not implemented"@
}

/// Relies on tonic's derived `Clone` for `Status`.
pub assume_specification[ <Status as Clone>::clone ](s: &Status) -> Status;

/// The responder of a method that has not been configured: every call gets
/// the "not implemented" status.
pub struct Unimplemented;

impl<T, U> Responder<T, U> for Unimplemented {
    open spec fn responds(&self, request: Request<T>, outcome: Result<U, Status>) -> bool {
        outcome == Err::<U, Status>(unimplemented_status(not_implemented_message()))
    }

    fn respond(&self, request: Request<T>) -> (r: Result<U, Status>) {
        Err(status_unimplemented("Method is not implemented"))
    }
}

/// A responder configured once with a response message or an error, which
/// it hands back on every call.
pub struct FixedResponse<U> {
    response: Result<U, Status>,
}

impl<U> FixedResponse<U> {
    /// The configured outcome.
    pub closed spec fn outcome(&self) -> Result<U, Status> {
        self.response
    }

    /// Answers every call with the response message `u`.
    pub fn ok(u: U) -> (r: Self)
        ensures
            r.outcome() == Ok::<U, Status>(u),
    {
        FixedResponse { response: Ok(u) }
    }

    /// Answers every call with the error `s`.
    pub fn err(s: Status) -> (r: Self)
        ensures
            r.outcome() == Err::<U, Status>(s),
    {
        FixedResponse { response: Err(s) }
    }
}

impl<U: Default> FixedResponse<U> {
    /// Answers every call with the response message that `U`'s `Default`
    /// gives.
    pub fn default_ok() -> (r: Self)
        ensures
            r.outcome() is Ok,
            call_ensures(U::default, (), r.outcome()->Ok_0),
    {
        FixedResponse { response: Ok(U::default()) }
    }
}

/// Whether `outcome` is a copy of `configured` made by `Clone`: the same
/// variant, holding a clone of the same value.
pub open spec fn clone_of<U: Clone>(configured: Result<U, Status>, outcome: Result<U, Status>) -> bool {
    match (configured, outcome) {
        (Ok(u), Ok(v)) => cloned(u, v),
        (Err(s), Err(t)) => cloned(s, t),
        _ => false,
    }
}

impl<T, U: Clone> Responder<T, U> for FixedResponse<U> {
    open spec fn responds(&self, request: Request<T>, outcome: Result<U, Status>) -> bool {
        clone_of(self.outcome(), outcome)
    }

    fn respond(&self, request: Request<T>) -> (r: Result<U, Status>) {
        match &self.response {
            Ok(u) => Ok(u.clone()),
            Err(s) => Err(s.clone()),
        }
    }
}

/// A fixed responder answers any two calls alike, whatever the requests and
/// whatever the matchers made of them: both outcomes are clones of the
/// configured one, of its variant; and when it is a response message whose
/// type clones exactly, the two outcomes are equal.
pub proof fn lemma_fixed_response_repeats<T, U: Clone>(
    fixed: FixedResponse<U>,
    first: Request<T>,
    second: Request<T>,
    r1: Result<U, Status>,
    r2: Result<U, Status>,
)
    requires
        <FixedResponse<U> as Responder<T, U>>::responds(&fixed, first, r1),
        <FixedResponse<U> as Responder<T, U>>::responds(&fixed, second, r2),
    ensures
        clone_of(fixed.outcome(), r1),
        clone_of(fixed.outcome(), r2),
        r1 is Ok == fixed.outcome() is Ok,
        r2 is Ok == fixed.outcome() is Ok,
        (fixed.outcome() is Ok && forall|a: U, b: U| #[trigger] cloned(a, b) ==> a == b) ==> r1
            == fixed.outcome() && r2 == fixed.outcome(),
{
}

} // verus!

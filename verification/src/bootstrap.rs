use vstd::prelude::*;
use crate::error::{Error, ErrorKind};
use crate::types::Credentials;

verus! {

/// What to do after the "create" credential call: keep its credentials, fall
/// back to the idempotent "derive" call, or propagate the failure.
#[derive(Clone, Debug)]
pub enum BootstrapStep {
    Done(Credentials),
    TryDerive,
    Fail(Error),
}

/// The create-or-derive resolution as one function of both calls' outcomes;
/// the derive outcome is consulted only when create fails with a status-class
/// error. "Create" is not idempotent across restarts, "derive" is: the
/// fallback converts the non-idempotent failure into the idempotent path.
pub open spec fn bootstrap_resolution(
    create: Result<Credentials, Error>,
    derive: Result<Credentials, Error>,
) -> Result<Credentials, Error> {
    match create {
        Ok(c) => Ok(c),
        Err(e) => if e.kind_spec() is Status {
            derive
        } else {
            Err(e)
        },
    }
}

/// Given a status-class create failure (for instance a 409 for an already
/// registered wallet) and a successful derive, bootstrap yields the derive
/// credentials and the create error is not propagated.
pub proof fn lemma_bootstrap_falls_back(create_error: Error, derived: Credentials)
    requires
        create_error is Status,
    ensures
        bootstrap_resolution(Err(create_error), Ok(derived)) == Ok::<Credentials, Error>(derived),
{
}

/// A failure that is not status-class (transport, decode) propagates without
/// consulting derive at all.
pub proof fn lemma_bootstrap_propagates_other_failures(
    create_error: Error,
    derive: Result<Credentials, Error>,
)
    requires
        !(create_error is Status),
    ensures
        bootstrap_resolution(Err(create_error), derive) == Err::<Credentials, Error>(create_error),
{
}

/// Classifies the outcome of the "create" call. The unverified transport
/// performs the calls and feeds the outcomes back through here, so the
/// decision itself is checked: only a status-class failure reaches the
/// fallback, and success or any other failure is final.
pub fn classify_create_outcome(outcome: Result<Credentials, Error>) -> (r: BootstrapStep)
    ensures
        outcome matches Ok(c) ==> r == BootstrapStep::Done(c),
        outcome matches Err(e) ==> ((e is Status ==> r is TryDerive) && (!(e is Status) ==> r
            == BootstrapStep::Fail(e))),
        forall|derive: Result<Credentials, Error>|
            (r is TryDerive ==> #[trigger] bootstrap_resolution(outcome, derive) == derive),
        r matches BootstrapStep::Done(c) ==> forall|derive: Result<Credentials, Error>|
            #[trigger] bootstrap_resolution(outcome, derive) == Ok::<Credentials, Error>(c),
        r matches BootstrapStep::Fail(e) ==> forall|derive: Result<Credentials, Error>|
            #[trigger] bootstrap_resolution(outcome, derive) == Err::<Credentials, Error>(e),
    {
    match outcome {
        Ok(c) => BootstrapStep::Done(c),
        Err(e) => {
            if matches!(e.kind(), ErrorKind::Status) {
                BootstrapStep::TryDerive
            } else {
                BootstrapStep::Fail(e)
            }
        },
    }
}

} // verus!

//! The gateway's errors: their kinds, and how each kind reaches the caller.

use crate::abuse::ProviderError;
use crate::capability::AuthorizationError;
use crate::entity::{SubmissionFailure, UpstreamError, ValidationError};
use crate::grant::AuthenticationError;
use crate::notifier::NotifyError;
use vstd::prelude::*;

verus! {

/// The kinds of error that the gateway knows.
#[derive(Clone, Copy, Debug, PartialEq, Eq, Structural, Hash)]
pub enum ErrorKind {
    /// The caller's credential is invalid.
    Authentication,
    /// The caller is identified and may not do what it asked.
    Authorization,
    /// The order request is not well formed.
    Validation,
    /// The abuse-check provider gave no verdict.
    Provider,
    /// The order backend did not create the order.
    Upstream,
    /// The operator channel did not take the notification.
    Notify,
}

/// How an error of some kind travels.
#[derive(Clone, Copy, Debug, PartialEq, Eq, Structural, Hash)]
pub enum Propagation {
    /// The caller receives this error alone, and no data with it.
    SoleError,
    /// The caller receives the error for the operation that failed; the
    /// other operations of the request keep their results.
    PerOperation,
    /// The caller never sees it; it is recorded for the operators.
    SideChannel,
}

/// The rule of propagation for each kind.
pub open spec fn propagation_of(kind: ErrorKind) -> Propagation {
    match kind {
        ErrorKind::Authentication => Propagation::SoleError,
        ErrorKind::Authorization => Propagation::SoleError,
        ErrorKind::Validation => Propagation::PerOperation,
        ErrorKind::Provider => Propagation::PerOperation,
        ErrorKind::Upstream => Propagation::PerOperation,
        ErrorKind::Notify => Propagation::SideChannel,
    }
}

impl ErrorKind {
    /// How an error of this kind travels.
    pub fn propagation(self) -> (p: Propagation)
        ensures
            p == propagation_of(self),
    {
        match self {
            ErrorKind::Authentication => Propagation::SoleError,
            ErrorKind::Authorization => Propagation::SoleError,
            ErrorKind::Validation => Propagation::PerOperation,
            ErrorKind::Provider => Propagation::PerOperation,
            ErrorKind::Upstream => Propagation::PerOperation,
            ErrorKind::Notify => Propagation::SideChannel,
        }
    }
}

/// An error that a caller can receive. A failed notification is not among
/// them: the type has no place for one.
#[derive(Clone, Copy, Debug, PartialEq, Eq, Structural, Hash)]
pub enum GatewayError {
    Authentication(AuthenticationError),
    Authorization(AuthorizationError),
    Validation(ValidationError),
    Provider(ProviderError),
    Upstream(UpstreamError),
}

impl GatewayError {
    /// The kind that this error belongs to.
    pub open spec fn spec_kind(self) -> ErrorKind {
        match self {
            GatewayError::Authentication(_) => ErrorKind::Authentication,
            GatewayError::Authorization(_) => ErrorKind::Authorization,
            GatewayError::Validation(_) => ErrorKind::Validation,
            GatewayError::Provider(_) => ErrorKind::Provider,
            GatewayError::Upstream(_) => ErrorKind::Upstream,
        }
    }

    /// Whether this error is the only thing that the caller receives.
    pub open spec fn is_sole(self) -> bool {
        propagation_of(self.spec_kind()) == Propagation::SoleError
    }

    /// The error under which a failed submission reaches the caller: a
    /// rejection by the abuse gate is a refusal of authorization, the other
    /// two keep their kind.
    pub open spec fn of_failure(failure: SubmissionFailure) -> GatewayError {
        match failure {
            SubmissionFailure::Rejected => GatewayError::Authorization(
                AuthorizationError::AbuseRejected,
            ),
            SubmissionFailure::AbuseCheckFailed(e) => GatewayError::Provider(e),
            SubmissionFailure::SubmitFailed(e) => GatewayError::Upstream(e),
        }
    }

    /// The kind that this error belongs to.
    pub fn kind(&self) -> (kind: ErrorKind)
        ensures
            kind == self.spec_kind(),
            kind != ErrorKind::Notify,
    {
        match self {
            GatewayError::Authentication(_) => ErrorKind::Authentication,
            GatewayError::Authorization(_) => ErrorKind::Authorization,
            GatewayError::Validation(_) => ErrorKind::Validation,
            GatewayError::Provider(_) => ErrorKind::Provider,
            GatewayError::Upstream(_) => ErrorKind::Upstream,
        }
    }

    /// The error under which a failed submission reaches the caller.
    pub fn from_failure(failure: SubmissionFailure) -> (error: GatewayError)
        ensures
            error == GatewayError::of_failure(failure),
    {
        match failure {
            SubmissionFailure::Rejected => GatewayError::Authorization(
                AuthorizationError::AbuseRejected,
            ),
            SubmissionFailure::AbuseCheckFailed(e) => GatewayError::Provider(e),
            SubmissionFailure::SubmitFailed(e) => GatewayError::Upstream(e),
        }
    }
}

/// The kind of a failed notification, which travels by the side channel only.
pub fn notify_error_kind(error: NotifyError) -> (kind: ErrorKind)
    ensures
        kind == ErrorKind::Notify,
        propagation_of(kind) == Propagation::SideChannel,
{
    ErrorKind::Notify
}

/// No error that a caller can receive travels by the side channel, and the
/// only kind that does is the failed notification.
pub proof fn lemma_side_channel_is_notify_only(error: GatewayError, kind: ErrorKind)
    ensures
        propagation_of(error.spec_kind()) != Propagation::SideChannel,
        propagation_of(kind) == Propagation::SideChannel <==> kind == ErrorKind::Notify,
{
}

} // verus!

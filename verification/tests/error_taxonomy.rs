use order_gateway::abuse::ProviderError;
use order_gateway::capability::{AuthorizationError, Operation};
use order_gateway::entity::{SubmissionFailure, UpstreamError, ValidationError};
use order_gateway::error::{notify_error_kind, ErrorKind, GatewayError, Propagation};
use order_gateway::grant::{AuthenticationError, Role};
use order_gateway::notifier::NotifyError;

#[test]
fn propagation_rules() {
    assert_eq!(ErrorKind::Authentication.propagation(), Propagation::SoleError);
    assert_eq!(ErrorKind::Authorization.propagation(), Propagation::SoleError);
    assert_eq!(ErrorKind::Validation.propagation(), Propagation::PerOperation);
    assert_eq!(ErrorKind::Provider.propagation(), Propagation::PerOperation);
    assert_eq!(ErrorKind::Upstream.propagation(), Propagation::PerOperation);
    assert_eq!(ErrorKind::Notify.propagation(), Propagation::SideChannel);
}

#[test]
fn kinds_of_caller_errors() {
    assert_eq!(
        GatewayError::Authentication(AuthenticationError::Malformed).kind(),
        ErrorKind::Authentication
    );
    assert_eq!(
        GatewayError::Authentication(AuthenticationError::Expired).kind(),
        ErrorKind::Authentication
    );
    assert_eq!(
        GatewayError::Authorization(AuthorizationError::AbuseRejected).kind(),
        ErrorKind::Authorization
    );
    assert_eq!(
        GatewayError::Authorization(AuthorizationError::Forbidden {
            operation: Operation::ListOrders,
            role: Role::Guest
        })
        .kind(),
        ErrorKind::Authorization
    );
    assert_eq!(GatewayError::Validation(ValidationError::NoItems).kind(), ErrorKind::Validation);
    assert_eq!(GatewayError::Provider(ProviderError::TimedOut).kind(), ErrorKind::Provider);
    assert_eq!(GatewayError::Upstream(UpstreamError::Unavailable).kind(), ErrorKind::Upstream);
}

#[test]
fn abuse_rejection_is_an_authorization_error() {
    assert_eq!(
        GatewayError::from_failure(SubmissionFailure::Rejected),
        GatewayError::Authorization(AuthorizationError::AbuseRejected)
    );
}

#[test]
fn failed_abuse_check_is_a_provider_error() {
    assert_eq!(
        GatewayError::from_failure(SubmissionFailure::AbuseCheckFailed(ProviderError::TimedOut)),
        GatewayError::Provider(ProviderError::TimedOut)
    );
    assert_eq!(
        GatewayError::from_failure(SubmissionFailure::AbuseCheckFailed(ProviderError::Malformed)),
        GatewayError::Provider(ProviderError::Malformed)
    );
}

#[test]
fn failed_submission_is_an_upstream_error() {
    for error in [UpstreamError::Rejected, UpstreamError::Unavailable, UpstreamError::TimedOut] {
        assert_eq!(
            GatewayError::from_failure(SubmissionFailure::SubmitFailed(error)),
            GatewayError::Upstream(error)
        );
    }
}

#[test]
fn notify_errors_travel_by_the_side_channel() {
    for error in [NotifyError::Refused, NotifyError::Unavailable, NotifyError::TimedOut] {
        let kind = notify_error_kind(error);
        assert_eq!(kind, ErrorKind::Notify);
        assert_eq!(kind.propagation(), Propagation::SideChannel);
    }
}

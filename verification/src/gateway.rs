//! The request gateway: the entry point of every request.
//!
//! The gateway derives the caller's role before anything else happens, binds
//! it into the execution context, and leaves the rest to the executor, which
//! reads the context and never derives an identity of its own.

use crate::abuse::{AbuseVerificationToken, FailurePolicy};
use crate::capability::{authorize, dispatch_check, AuthorizationError, Operation};
use crate::entity::{OrderRequest, OrderRequestView, OrderResultView};
use crate::error::GatewayError;
use crate::grant::{extract, role_of, AuthenticationError, Credential, CredentialView, Role, RoleData};
use crate::history::{submission, Exchange};
use crate::orchestrator::{EventView, OrchestratorView, OrderOrchestrator, StateView};
use vstd::prelude::*;

verus! {

/// What travels with one request through every handler: the identity of the
/// caller. A value, made once and handed on by reference.
#[derive(Clone, Copy, Debug, PartialEq, Eq, Structural, Hash)]
pub struct ExecutionContext {
    caller: RoleData,
}

impl View for ExecutionContext {
    type V = Role;

    closed spec fn view(&self) -> Role {
        self.caller@
    }
}

/// The admission of a request that asks for an order: the role that goes
/// on, or the first thing that stands in the way. The credential is judged
/// first, the caller's permission second, the request's form last.
pub open spec fn admission(credential: CredentialView, now: u64, request: OrderRequestView) -> Result<
    Role,
    GatewayError,
> {
    match role_of(credential, now) {
        Err(error) => Err(GatewayError::Authentication(error)),
        Ok(role) => match dispatch_check(Operation::SubmitOrder, role) {
            Err(error) => Err(GatewayError::Authorization(error)),
            Ok(_) => match request.checked() {
                Err(error) => Err(GatewayError::Validation(error)),
                Ok(_) => Ok(role),
            },
        },
    }
}

/// What became of a request that asked for an order.
pub ghost struct Served {
    /// What the caller is told, once there is something to tell: the
    /// identifier of the confirmed order, or the error.
    pub answer: Option<Result<Seq<char>, GatewayError>>,
    /// The exchanges with the collaborators' driver that took place.
    pub log: Seq<Exchange>,
}

/// What the caller is told of a submission's outcome.
pub open spec fn answer_of(result: OrderResultView) -> Result<Seq<char>, GatewayError> {
    match result {
        OrderResultView::Confirmed(order_id) => Ok(order_id),
        OrderResultView::Failed(failure) => Err(GatewayError::of_failure(failure)),
    }
}

/// The whole course of a request that asks for an order: admission, and for
/// a request that passes, the submission run over `events`.
pub open spec fn served(
    policy: FailurePolicy,
    credential: CredentialView,
    now: u64,
    request: OrderRequestView,
    token: Seq<char>,
    events: Seq<EventView>,
) -> Served {
    match admission(credential, now, request) {
        Err(error) => Served { answer: Some(Err(error)), log: Seq::empty() },
        Ok(_) => {
            let r = submission(policy, request, token, events);
            Served {
                answer: match r.state.outcome() {
                    Some(result) => Some(answer_of(result)),
                    None => None,
                },
                log: r.log,
            }
        },
    }
}

/// The entry point of every request.
pub struct RequestGateway;

impl RequestGateway {
    /// Derives the caller's role from `credential` and binds it into a fresh
    /// execution context. An invalid credential ends the request here.
    pub fn authenticate(credential: &Credential, now: u64) -> (r: Result<
        ExecutionContext,
        AuthenticationError,
    >)
        ensures
            match role_of(credential@, now) {
                Ok(role) => r matches Ok(context) && context@ == role,
                Err(error) => r == Err::<ExecutionContext, AuthenticationError>(error),
            },
            credential@ is Absent ==> (r matches Ok(context) && context@ == Role::Guest),
    {
        match extract(credential, now) {
            Ok(role) => Ok(ExecutionContext::new(RoleData::new(role))),
            Err(error) => Err(error),
        }
    }

    /// Takes a request that asks for an order from its credential to the
    /// point where the orchestrator can begin: the caller is identified, its
    /// permission to submit is checked, and the request is checked for its
    /// form, in this order. The first check that fails ends the request, and
    /// no orchestrator comes to be.
    pub fn open_submission(
        credential: &Credential,
        now: u64,
        request: OrderRequest,
        token: AbuseVerificationToken,
        policy: FailurePolicy,
    ) -> (r: Result<(ExecutionContext, OrderOrchestrator), GatewayError>)
        ensures
            match admission(credential@, now, request@) {
                Ok(role) => r matches Ok((context, machine)) && context@ == role && machine@ == (
                OrchestratorView {
                    policy,
                    state: StateView::Received { request: request@, token: token@ },
                }),
                Err(error) => r matches Err(e) && e == error,
            },
    {
        let context = match Self::authenticate(credential, now) {
            Ok(context) => context,
            Err(error) => { return Err(GatewayError::Authentication(error)); },
        };
        match context.submit(request, token, policy) {
            Ok(machine) => Ok((context, machine)),
            Err(error) => Err(error),
        }
    }
}

impl ExecutionContext {
    /// The context of a request whose caller is `caller`.
    pub fn new(caller: RoleData) -> (context: ExecutionContext)
        ensures
            context@ == caller@,
    {
        ExecutionContext { caller }
    }

    /// The caller's role, as it was bound.
    pub fn role_data(&self) -> (data: &RoleData)
        ensures
            data@ == self@,
    {
        &self.caller
    }

    /// The check at dispatch: whether the caller may invoke `operation`.
    pub fn dispatch(&self, operation: Operation) -> (r: Result<(), AuthorizationError>)
        ensures
            r == dispatch_check(operation, self@),
    {
        authorize(operation, &self.caller)
    }

    /// Begins the submission of an order on behalf of the caller: checks the
    /// caller's permission, then the request's form, and hands out the
    /// orchestrator for it.
    pub fn submit(
        &self,
        request: OrderRequest,
        token: AbuseVerificationToken,
        policy: FailurePolicy,
    ) -> (r: Result<OrderOrchestrator, GatewayError>)
        ensures
            match dispatch_check(Operation::SubmitOrder, self@) {
                Err(error) => r matches Err(e) && e == GatewayError::Authorization(error),
                Ok(_) => match request@.checked() {
                    Err(error) => r matches Err(e) && e == GatewayError::Validation(error),
                    Ok(_) => r matches Ok(machine) && machine@ == (OrchestratorView {
                        policy,
                        state: StateView::Received { request: request@, token: token@ },
                    }),
                },
            },
    {
        match self.dispatch(Operation::SubmitOrder) {
            Err(error) => Err(GatewayError::Authorization(error)),
            Ok(_) => match OrderOrchestrator::receive(request, token, policy) {
                Err(error) => Err(GatewayError::Validation(error)),
                Ok(machine) => Ok(machine),
            },
        }
    }
}

/// A request without a credential is a guest's request: it is never refused
/// for want of a credential, and what becomes of it is decided by the check
/// at dispatch alone.
pub proof fn lemma_no_credential_is_guest(now: u64, operation: Operation, request: OrderRequestView)
    ensures
        role_of(CredentialView::Absent, now) == Ok::<Role, AuthenticationError>(Role::Guest),
        !(admission(CredentialView::Absent, now, request) matches Err(
            GatewayError::Authentication(_),
        )),
        dispatch_check(operation, Role::Guest) is Ok <==> crate::capability::permitted_roles(
            operation,
        ).contains(Role::Guest),
{
}

/// A request whose credential is invalid is answered with the error of its
/// authentication and nothing else, and no collaborator is asked anything,
/// whatever else the request holds and whatever events arrive.
pub proof fn lemma_invalid_credential_reaches_no_collaborator(
    policy: FailurePolicy,
    credential: CredentialView,
    now: u64,
    request: OrderRequestView,
    token: Seq<char>,
    events: Seq<EventView>,
)
    requires
        role_of(credential, now) is Err,
    ensures
        served(policy, credential, now, request, token, events).answer == Some(
            Err::<Seq<char>, GatewayError>(
                GatewayError::Authentication(role_of(credential, now)->Err_0),
            ),
        ),
        served(policy, credential, now, request, token, events).log.len() == 0,
{
}

/// A request that is refused at admission, for whatever reason, reaches no
/// collaborator.
pub proof fn lemma_refused_request_reaches_no_collaborator(
    policy: FailurePolicy,
    credential: CredentialView,
    now: u64,
    request: OrderRequestView,
    token: Seq<char>,
    events: Seq<EventView>,
)
    requires
        admission(credential, now, request) is Err,
    ensures
        served(policy, credential, now, request, token, events).answer == Some(
            Err::<Seq<char>, GatewayError>(admission(credential, now, request)->Err_0),
        ),
        served(policy, credential, now, request, token, events).log.len() == 0,
{
}

/// A malformed credential in particular: one that does not decode, or that
/// claims a role that does not exist, is an invalid credential at every time.
pub proof fn lemma_malformed_credential_is_invalid(credential: CredentialView, now: u64)
    requires
        credential is Undecodable || (credential matches CredentialView::Claim { role, .. }
            && crate::grant::role_named(role) is None),
    ensures
        role_of(credential, now) == Err::<Role, AuthenticationError>(
            AuthenticationError::Malformed,
        ),
{
}

} // verus!

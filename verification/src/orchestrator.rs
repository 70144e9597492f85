//! The order orchestrator: one submission as a state machine.
//!
//! The machine decides and a driver acts. Each step takes what became of the
//! last call (an [`Event`]) and answers with the next thing to do (an
//! [`Effect`]): ask the abuse gate, ask the order backend, tell the
//! operators, or answer the caller. The machine makes no call itself.

use crate::abuse::{AbuseVerdict, AbuseVerificationToken, FailurePolicy, ProviderError};
use crate::entity::{
    OrderId, OrderRequest, OrderRequestView, OrderResult, OrderResultView, SubmissionFailure,
    UpstreamError, ValidationError,
};
use crate::notifier::{announcement, NotificationMessage, NotifyError};
use vstd::prelude::*;

verus! {

/// Where a submission stands.
#[derive(Debug, PartialEq, Eq)]
#[allow(inconsistent_fields)]
pub enum State {
    /// The request was taken; nothing has been asked of anyone.
    Received { request: OrderRequest, token: AbuseVerificationToken },
    /// The abuse gate has the token; its verdict is awaited.
    AbuseChecking { request: OrderRequest },
    /// The order backend has the request; its answer is awaited.
    Submitting,
    /// The backend confirmed the order; the operators are being told.
    Submitted { order_id: OrderId },
    /// Ended: the abuse gate rejected the caller.
    Rejected,
    /// Ended: the abuse gate gave no verdict, and the gateway fails closed.
    AbuseCheckFailed { error: ProviderError },
    /// Ended: the backend did not create the order.
    SubmitFailed { error: UpstreamError },
    /// Ended: the order stands and the operators know.
    Notified { order_id: OrderId },
    /// Ended: the order stands; telling the operators failed.
    NotifyFailed { order_id: OrderId, error: NotifyError },
}

/// The mathematical content of a [`State`].
#[allow(inconsistent_fields)]
pub ghost enum StateView {
    Received { request: OrderRequestView, token: Seq<char> },
    AbuseChecking { request: OrderRequestView },
    Submitting,
    Submitted { order_id: Seq<char> },
    Rejected,
    AbuseCheckFailed { error: ProviderError },
    SubmitFailed { error: UpstreamError },
    Notified { order_id: Seq<char> },
    NotifyFailed { order_id: Seq<char>, error: NotifyError },
}

impl View for State {
    type V = StateView;

    open spec fn view(&self) -> StateView {
        match self {
            State::Received { request, token } => StateView::Received {
                request: request@,
                token: token@,
            },
            State::AbuseChecking { request } => StateView::AbuseChecking { request: request@ },
            State::Submitting => StateView::Submitting,
            State::Submitted { order_id } => StateView::Submitted { order_id: order_id@ },
            State::Rejected => StateView::Rejected,
            State::AbuseCheckFailed { error } => StateView::AbuseCheckFailed { error: *error },
            State::SubmitFailed { error } => StateView::SubmitFailed { error: *error },
            State::Notified { order_id } => StateView::Notified { order_id: order_id@ },
            State::NotifyFailed { order_id, error } => StateView::NotifyFailed {
                order_id: order_id@,
                error: *error,
            },
        }
    }
}

/// What became of the call that the machine last asked for.
#[derive(Debug, PartialEq, Eq)]
pub enum Event {
    /// The driver is ready to begin.
    Start,
    /// The abuse gate answered.
    AbuseVerdict(AbuseVerdict),
    /// The order backend answered, or failed to.
    Upstream(Result<OrderId, UpstreamError>),
    /// The operator channel acknowledged, or failed to.
    Notifier(Result<(), NotifyError>),
}

/// The content of the order backend's answer.
pub open spec fn reply_view(reply: Result<OrderId, UpstreamError>) -> Result<
    Seq<char>,
    UpstreamError,
> {
    match reply {
        Ok(id) => Ok(id@),
        Err(error) => Err(error),
    }
}

/// The mathematical content of an [`Event`].
pub ghost enum EventView {
    Start,
    AbuseVerdict(AbuseVerdict),
    Upstream(Result<Seq<char>, UpstreamError>),
    Notifier(Result<(), NotifyError>),
}

impl View for Event {
    type V = EventView;

    open spec fn view(&self) -> EventView {
        match self {
            Event::Start => EventView::Start,
            Event::AbuseVerdict(verdict) => EventView::AbuseVerdict(*verdict),
            Event::Upstream(reply) => EventView::Upstream(reply_view(*reply)),
            Event::Notifier(outcome) => EventView::Notifier(*outcome),
        }
    }
}

/// What the driver is to do next.
#[derive(Debug, PartialEq, Eq)]
pub enum Effect {
    /// Hand the token to the abuse gate.
    VerifyToken(AbuseVerificationToken),
    /// Ask the order backend to create the order. Where the gateway fails
    /// open and went on although the provider gave no verdict, `bypassed`
    /// holds the provider's failure, which belongs in the operators' record.
    CreateOrder { request: OrderRequest, bypassed: Option<ProviderError> },
    /// Send the message to the operators.
    Notify(NotificationMessage),
    /// Answer the caller with `result`. `unreported` holds the failure of the
    /// notification, if it failed: it goes to the operators' record and never
    /// to the caller.
    Respond { result: OrderResult, unreported: Option<NotifyError> },
}

/// The mathematical content of an [`Effect`].
pub ghost enum EffectView {
    VerifyToken(Seq<char>),
    CreateOrder { request: OrderRequestView, bypassed: Option<ProviderError> },
    Notify(Seq<char>),
    Respond { result: OrderResultView, unreported: Option<NotifyError> },
}

impl View for Effect {
    type V = EffectView;

    open spec fn view(&self) -> EffectView {
        match self {
            Effect::VerifyToken(token) => EffectView::VerifyToken(token@),
            Effect::CreateOrder { request, bypassed } => EffectView::CreateOrder {
                request: request@,
                bypassed: *bypassed,
            },
            Effect::Notify(message) => EffectView::Notify(message@),
            Effect::Respond { result, unreported } => EffectView::Respond {
                result: result@,
                unreported: *unreported,
            },
        }
    }
}

impl StateView {
    /// The states in which a submission has ended.
    pub open spec fn is_terminal(self) -> bool {
        match self {
            StateView::Rejected => true,
            StateView::AbuseCheckFailed { .. } => true,
            StateView::SubmitFailed { .. } => true,
            StateView::Notified { .. } => true,
            StateView::NotifyFailed { .. } => true,
            _ => false,
        }
    }

    /// What the caller is told once the submission has ended. A failed
    /// notification does not show in it.
    pub open spec fn outcome(self) -> Option<OrderResultView> {
        match self {
            StateView::Rejected => Some(OrderResultView::Failed(SubmissionFailure::Rejected)),
            StateView::AbuseCheckFailed { error } => Some(
                OrderResultView::Failed(SubmissionFailure::AbuseCheckFailed(error)),
            ),
            StateView::SubmitFailed { error } => Some(
                OrderResultView::Failed(SubmissionFailure::SubmitFailed(error)),
            ),
            StateView::Notified { order_id } => Some(OrderResultView::Confirmed(order_id)),
            StateView::NotifyFailed { order_id, .. } => Some(OrderResultView::Confirmed(order_id)),
            _ => None,
        }
    }

    /// How far a submission has come: every step moves to a higher stage.
    pub open spec fn stage(self) -> nat {
        match self {
            StateView::Received { .. } => 0,
            StateView::AbuseChecking { .. } => 1,
            StateView::Submitting => 2,
            StateView::Submitted { .. } => 3,
            _ => 4,
        }
    }
}

/// Where the machine goes, and what it asks for, once the abuse gate has
/// answered for `request`.
pub open spec fn after_verdict(
    policy: FailurePolicy,
    request: OrderRequestView,
    verdict: AbuseVerdict,
) -> (StateView, EffectView) {
    match verdict {
        AbuseVerdict::Accept => (
            StateView::Submitting,
            EffectView::CreateOrder { request, bypassed: None },
        ),
        AbuseVerdict::Reject => (
            StateView::Rejected,
            EffectView::Respond {
                result: OrderResultView::Failed(SubmissionFailure::Rejected),
                unreported: None,
            },
        ),
        AbuseVerdict::ProviderError(error) => match policy {
            FailurePolicy::FailClosed => (
                StateView::AbuseCheckFailed { error },
                EffectView::Respond {
                    result: OrderResultView::Failed(SubmissionFailure::AbuseCheckFailed(error)),
                    unreported: None,
                },
            ),
            FailurePolicy::FailOpen => (
                StateView::Submitting,
                EffectView::CreateOrder { request, bypassed: Some(error) },
            ),
        },
    }
}

/// Where the machine goes, and what it asks for, once the order backend has
/// answered.
pub open spec fn after_upstream(reply: Result<Seq<char>, UpstreamError>) -> (
    StateView,
    EffectView,
) {
    match reply {
        Ok(order_id) => (
            StateView::Submitted { order_id },
            EffectView::Notify(announcement(order_id)),
        ),
        Err(error) => (
            StateView::SubmitFailed { error },
            EffectView::Respond {
                result: OrderResultView::Failed(SubmissionFailure::SubmitFailed(error)),
                unreported: None,
            },
        ),
    }
}

/// Where the machine goes, and what it asks for, once the operator channel
/// has answered for the order confirmed under `order_id`.
pub open spec fn after_notifier(order_id: Seq<char>, outcome: Result<(), NotifyError>) -> (
    StateView,
    EffectView,
) {
    match outcome {
        Ok(_) => (
            StateView::Notified { order_id },
            EffectView::Respond {
                result: OrderResultView::Confirmed(order_id),
                unreported: None,
            },
        ),
        Err(error) => (
            StateView::NotifyFailed { order_id, error },
            EffectView::Respond {
                result: OrderResultView::Confirmed(order_id),
                unreported: Some(error),
            },
        ),
    }
}

/// The transition rules. `None` where `event` is not what `state` waits for:
/// the machine then stays as it is and asks for nothing.
pub open spec fn transition(policy: FailurePolicy, state: StateView, event: EventView) -> Option<
    (StateView, EffectView),
> {
    match (state, event) {
        (StateView::Received { request, token }, EventView::Start) => Some(
            (StateView::AbuseChecking { request }, EffectView::VerifyToken(token)),
        ),
        (StateView::AbuseChecking { request }, EventView::AbuseVerdict(verdict)) => Some(
            after_verdict(policy, request, verdict),
        ),
        (StateView::Submitting, EventView::Upstream(reply)) => Some(after_upstream(reply)),
        (StateView::Submitted { order_id }, EventView::Notifier(outcome)) => Some(
            after_notifier(order_id, outcome),
        ),
        _ => None,
    }
}

/// One submission of one order: the policy it runs under, and where it
/// stands.
#[derive(Debug, PartialEq, Eq)]
pub struct OrderOrchestrator {
    policy: FailurePolicy,
    state: State,
}

/// The mathematical content of an [`OrderOrchestrator`].
pub ghost struct OrchestratorView {
    pub policy: FailurePolicy,
    pub state: StateView,
}

impl View for OrderOrchestrator {
    type V = OrchestratorView;

    closed spec fn view(&self) -> OrchestratorView {
        OrchestratorView { policy: self.policy, state: self.state@ }
    }
}

/// The content of the effect that a step hands out, if it hands one out.
pub open spec fn effect_view(effect: Option<Effect>) -> Option<EffectView> {
    match effect {
        Some(e) => Some(e@),
        None => None,
    }
}

impl OrderOrchestrator {
    /// Takes a request for submission. A request that is not well formed is
    /// refused with its first fault, and no machine comes to be.
    pub fn receive(
        request: OrderRequest,
        token: AbuseVerificationToken,
        policy: FailurePolicy,
    ) -> (r: Result<OrderOrchestrator, ValidationError>)
        ensures
            r is Ok <==> request@.well_formed(),
            r matches Ok(machine) ==> machine@ == (OrchestratorView {
                policy,
                state: StateView::Received { request: request@, token: token@ },
            }),
            r matches Err(error) ==> Err::<(), ValidationError>(error) == request@.checked(),
    {
        match request.validate() {
            Err(error) => Err(error),
            Ok(_) => Ok(OrderOrchestrator { policy, state: State::Received { request, token } }),
        }
    }

    /// The policy that this submission runs under.
    pub fn policy(&self) -> (policy: FailurePolicy)
        ensures
            policy == self@.policy,
    {
        self.policy
    }

    /// Where the submission stands.
    pub fn state(&self) -> (state: &State)
        ensures
            state@ == self@.state,
    {
        &self.state
    }

    /// Whether the submission has ended.
    pub fn is_terminal(&self) -> (ended: bool)
        ensures
            ended == self@.state.is_terminal(),
    {
        match &self.state {
            State::Rejected => true,
            State::AbuseCheckFailed { .. } => true,
            State::SubmitFailed { .. } => true,
            State::Notified { .. } => true,
            State::NotifyFailed { .. } => true,
            _ => false,
        }
    }

    /// What the caller is told: `Some` exactly when the submission has
    /// ended, a confirmed order whether or not the operators could be told.
    pub fn outcome(&self) -> (result: Option<OrderResult>)
        ensures
            result is Some <==> self@.state.is_terminal(),
            match result {
                Some(r) => Some(r@) == self@.state.outcome(),
                None => self@.state.outcome() is None,
            },
    {
        match &self.state {
            State::Rejected => Some(OrderResult::Failed(SubmissionFailure::Rejected)),
            State::AbuseCheckFailed { error } => Some(
                OrderResult::Failed(SubmissionFailure::AbuseCheckFailed(*error)),
            ),
            State::SubmitFailed { error } => Some(
                OrderResult::Failed(SubmissionFailure::SubmitFailed(*error)),
            ),
            State::Notified { order_id } => Some(OrderResult::Confirmed(order_id.clone())),
            State::NotifyFailed { order_id, .. } => Some(OrderResult::Confirmed(order_id.clone())),
            _ => None,
        }
    }

    /// Takes one event and answers with the machine after it and the effect
    /// that it asks for.
    ///
    /// An event that the state does not wait for changes nothing and asks for
    /// nothing: a late or repeated answer cannot make the machine call a
    /// collaborator again.
    pub fn step(self, event: Event) -> (out: (OrderOrchestrator, Option<Effect>))
        ensures
            out.0@.policy == self@.policy,
            match transition(self@.policy, self@.state, event@) {
                Some((next, effect)) => out.0@.state == next && effect_view(out.1) == Some(
                    effect,
                ),
                None => out.0@ == self@ && out.1 is None,
            },
    {
        let OrderOrchestrator { policy, state } = self;
        match state {
            State::Received { request, token } => match event {
                Event::Start => (
                    OrderOrchestrator { policy, state: State::AbuseChecking { request } },
                    Some(Effect::VerifyToken(token)),
                ),
                _ => (OrderOrchestrator { policy, state: State::Received { request, token } }, None),
            },
            State::AbuseChecking { request } => match event {
                Event::AbuseVerdict(verdict) => Self::on_verdict(policy, request, verdict),
                _ => (OrderOrchestrator { policy, state: State::AbuseChecking { request } }, None),
            },
            State::Submitting => match event {
                Event::Upstream(reply) => Self::on_upstream(policy, reply),
                _ => (OrderOrchestrator { policy, state: State::Submitting }, None),
            },
            State::Submitted { order_id } => match event {
                Event::Notifier(outcome) => Self::on_notifier(policy, order_id, outcome),
                _ => (OrderOrchestrator { policy, state: State::Submitted { order_id } }, None),
            },
            ended => (OrderOrchestrator { policy, state: ended }, None),
        }
    }

    fn on_verdict(policy: FailurePolicy, request: OrderRequest, verdict: AbuseVerdict) -> (out: (
        OrderOrchestrator,
        Option<Effect>,
    ))
        ensures
            out.0@.policy == policy,
            out.0@.state == after_verdict(policy, request@, verdict).0,
            effect_view(out.1) == Some(after_verdict(policy, request@, verdict).1),
    {
        match verdict {
            AbuseVerdict::Accept => (
                OrderOrchestrator { policy, state: State::Submitting },
                Some(Effect::CreateOrder { request, bypassed: None }),
            ),
            AbuseVerdict::Reject => (
                OrderOrchestrator { policy, state: State::Rejected },
                Some(
                    Effect::Respond {
                        result: OrderResult::Failed(SubmissionFailure::Rejected),
                        unreported: None,
                    },
                ),
            ),
            AbuseVerdict::ProviderError(error) => match policy {
                FailurePolicy::FailClosed => (
                    OrderOrchestrator { policy, state: State::AbuseCheckFailed { error } },
                    Some(
                        Effect::Respond {
                            result: OrderResult::Failed(SubmissionFailure::AbuseCheckFailed(error)),
                            unreported: None,
                        },
                    ),
                ),
                FailurePolicy::FailOpen => (
                    OrderOrchestrator { policy, state: State::Submitting },
                    Some(Effect::CreateOrder { request, bypassed: Some(error) }),
                ),
            },
        }
    }

    fn on_upstream(policy: FailurePolicy, reply: Result<OrderId, UpstreamError>) -> (out: (
        OrderOrchestrator,
        Option<Effect>,
    ))
        ensures
            out.0@.policy == policy,
            out.0@.state == after_upstream(reply_view(reply)).0,
            effect_view(out.1) == Some(after_upstream(reply_view(reply)).1),
    {
        match reply {
            Ok(order_id) => {
                let message = NotificationMessage::for_order(&order_id);
                (
                    OrderOrchestrator { policy, state: State::Submitted { order_id } },
                    Some(Effect::Notify(message)),
                )
            },
            Err(error) => (
                OrderOrchestrator { policy, state: State::SubmitFailed { error } },
                Some(
                    Effect::Respond {
                        result: OrderResult::Failed(SubmissionFailure::SubmitFailed(error)),
                        unreported: None,
                    },
                ),
            ),
        }
    }

    fn on_notifier(policy: FailurePolicy, order_id: OrderId, outcome: Result<(), NotifyError>) -> (out:
        (OrderOrchestrator, Option<Effect>))
        ensures
            out.0@.policy == policy,
            out.0@.state == after_notifier(order_id@, outcome).0,
            effect_view(out.1) == Some(after_notifier(order_id@, outcome).1),
    {
        let result = OrderResult::Confirmed(order_id.clone());
        match outcome {
            Ok(_) => (
                OrderOrchestrator { policy, state: State::Notified { order_id } },
                Some(Effect::Respond { result, unreported: None }),
            ),
            Err(error) => (
                OrderOrchestrator { policy, state: State::NotifyFailed { order_id, error } },
                Some(Effect::Respond { result, unreported: Some(error) }),
            ),
        }
    }
}

} // verus!

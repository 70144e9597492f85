//! What holds of every submission, whatever the collaborators answer and in
//! whatever order the answers arrive.
//!
//! A submission is modelled as the run of the transition rules over a
//! sequence of events. Its log holds the exchanges that took place: each
//! event that the machine took, with the effect it asked for in return.
//! Events that the machine did not wait for leave no trace.

use crate::abuse::{
    lets_through, verdict_of, AbuseVerdict, FailurePolicy, ProviderError, ProviderReply,
};
use crate::entity::{OrderRequestView, OrderResultView, SubmissionFailure, UpstreamError};
use crate::notifier::{announcement, NotifyError};
use crate::orchestrator::{
    after_notifier, after_upstream, after_verdict, transition, EffectView, EventView, StateView,
};
use vstd::prelude::*;

verus! {

/// One exchange between the machine and its driver.
pub ghost struct Exchange {
    pub event: EventView,
    pub effect: EffectView,
}

/// A submission so far: where it stands, and the exchanges that led there.
pub ghost struct Run {
    pub state: StateView,
    pub log: Seq<Exchange>,
}

/// The run of the transition rules from `start` over `events`, first event
/// first.
pub open spec fn run(policy: FailurePolicy, start: StateView, events: Seq<EventView>) -> Run
    decreases events.len(),
{
    if events.len() == 0 {
        Run { state: start, log: Seq::empty() }
    } else {
        let before = run(policy, start, events.drop_last());
        match transition(policy, before.state, events.last()) {
            Some((next, effect)) => Run {
                state: next,
                log: before.log.push(Exchange { event: events.last(), effect }),
            },
            None => before,
        }
    }
}

/// The run of a submission that was received with `request` and `token`.
pub open spec fn submission(
    policy: FailurePolicy,
    request: OrderRequestView,
    token: Seq<char>,
    events: Seq<EventView>,
) -> Run {
    run(policy, StateView::Received { request, token }, events)
}

/// The exchange that opens every submission: the token goes to the abuse gate.
pub open spec fn opening(token: Seq<char>) -> Exchange {
    Exchange { event: EventView::Start, effect: EffectView::VerifyToken(token) }
}

/// The exchange in which the abuse gate's verdict on `request` is taken.
pub open spec fn verdict_taken(
    policy: FailurePolicy,
    request: OrderRequestView,
    verdict: AbuseVerdict,
) -> Exchange {
    Exchange {
        event: EventView::AbuseVerdict(verdict),
        effect: after_verdict(policy, request, verdict).1,
    }
}

/// The exchange in which the backend's answer is taken.
pub open spec fn reply_taken(reply: Result<Seq<char>, UpstreamError>) -> Exchange {
    Exchange { event: EventView::Upstream(reply), effect: after_upstream(reply).1 }
}

/// The exchange in which the operator channel's answer is taken.
pub open spec fn acknowledgement_taken(
    order_id: Seq<char>,
    outcome: Result<(), NotifyError>,
) -> Exchange {
    Exchange { event: EventView::Notifier(outcome), effect: after_notifier(order_id, outcome).1 }
}

/// Whether `exchange` is one in which a verdict was taken that lets the
/// submission of `request` through to the backend.
pub open spec fn let_through_by(
    policy: FailurePolicy,
    request: OrderRequestView,
    exchange: Exchange,
) -> bool {
    exchange.event matches EventView::AbuseVerdict(verdict) && lets_through(policy, verdict)
        && exchange == verdict_taken(policy, request, verdict)
}

/// The log that each state comes with: a submission can stand in a state
/// only after exactly these exchanges.
pub open spec fn accounted_for(
    policy: FailurePolicy,
    request: OrderRequestView,
    token: Seq<char>,
    r: Run,
) -> bool {
    let log = r.log;
    match r.state {
        StateView::Received { request: held, token: kept } => {
            &&& held == request
            &&& kept == token
            &&& log.len() == 0
        },
        StateView::AbuseChecking { request: held } => {
            &&& held == request
            &&& log.len() == 1
            &&& log[0] == opening(token)
        },
        StateView::Rejected => {
            &&& log.len() == 2
            &&& log[0] == opening(token)
            &&& log[1] == verdict_taken(policy, request, AbuseVerdict::Reject)
        },
        StateView::AbuseCheckFailed { error } => {
            &&& policy == FailurePolicy::FailClosed
            &&& log.len() == 2
            &&& log[0] == opening(token)
            &&& log[1] == verdict_taken(policy, request, AbuseVerdict::ProviderError(error))
        },
        StateView::Submitting => {
            &&& log.len() == 2
            &&& log[0] == opening(token)
            &&& let_through_by(policy, request, log[1])
        },
        StateView::SubmitFailed { error } => {
            &&& log.len() == 3
            &&& log[0] == opening(token)
            &&& let_through_by(policy, request, log[1])
            &&& log[2] == reply_taken(Err(error))
        },
        StateView::Submitted { order_id } => {
            &&& log.len() == 3
            &&& log[0] == opening(token)
            &&& let_through_by(policy, request, log[1])
            &&& log[2] == reply_taken(Ok(order_id))
        },
        StateView::Notified { order_id } => {
            &&& log.len() == 4
            &&& log[0] == opening(token)
            &&& let_through_by(policy, request, log[1])
            &&& log[2] == reply_taken(Ok(order_id))
            &&& log[3] == acknowledgement_taken(order_id, Ok(()))
        },
        StateView::NotifyFailed { order_id, error } => {
            &&& log.len() == 4
            &&& log[0] == opening(token)
            &&& let_through_by(policy, request, log[1])
            &&& log[2] == reply_taken(Ok(order_id))
            &&& log[3] == acknowledgement_taken(order_id, Err(error))
        },
    }
}

/// Every step moves the submission to a later stage: no state is entered
/// twice.
pub proof fn lemma_step_advances(policy: FailurePolicy, state: StateView, event: EventView)
    ensures
        transition(policy, state, event) matches Some((next, _)) ==> state.stage() < next.stage(),
{
}

/// A submission that has ended takes no further event, and a submission that
/// has not ended has told the caller nothing.
pub proof fn lemma_terminal_is_final(policy: FailurePolicy, state: StateView, event: EventView)
    ensures
        state.is_terminal() ==> transition(policy, state, event) is None,
        state.is_terminal() <==> state.outcome() is Some,
        transition(policy, state, event) matches Some((next, effect)) ==> (next.is_terminal()
            <==> effect is Respond),
        transition(policy, state, event) matches Some((next, effect)) ==> (effect matches EffectView::Respond {
            result,
            ..
        } ==> next.outcome() == Some(result)),
{
}

/// From a state in which the submission has ended, no sequence of events
/// leads anywhere or causes anything.
pub proof fn lemma_ended_run_is_empty(policy: FailurePolicy, state: StateView, events: Seq<EventView>)
    requires
        state.is_terminal(),
    ensures
        run(policy, state, events) == (Run { state, log: Seq::empty() }),
    decreases events.len(),
{
    if events.len() > 0 {
        lemma_ended_run_is_empty(policy, state, events.drop_last());
    }
}

/// Whatever the events, a submission's log is the one that its state
/// accounts for.
pub proof fn lemma_log_accounted_for(
    policy: FailurePolicy,
    request: OrderRequestView,
    token: Seq<char>,
    events: Seq<EventView>,
)
    ensures
        accounted_for(policy, request, token, submission(policy, request, token, events)),
    decreases events.len(),
{
    if events.len() > 0 {
        lemma_log_accounted_for(policy, request, token, events.drop_last());
        let before = submission(policy, request, token, events.drop_last());
        let event = events.last();
        match transition(policy, before.state, event) {
            Some((next, effect)) => {
                let after = submission(policy, request, token, events);
                let exchange = Exchange { event, effect };
                assert(after.log == before.log.push(exchange));
                assert(after.state == next);
                assert(after.log.len() == before.log.len() + 1);
                assert(after.log[before.log.len() as int] == exchange);
                assert(forall|i: int|
                    0 <= i < before.log.len() ==> after.log[i] == before.log[i]);
                if let EventView::Notifier(Ok(unit)) = event {
                    assert(unit == ());
                }
            },
            None => {},
        }
    }
}

/// Where the abuse gate rejected the caller, the order backend is never
/// asked to create the order, and the operators are told nothing.
pub proof fn lemma_rejection_prevents_creation(
    policy: FailurePolicy,
    request: OrderRequestView,
    token: Seq<char>,
    events: Seq<EventView>,
)
    ensures
        ({
            let log = submission(policy, request, token, events).log;
            forall|i: int, j: int|
                0 <= i < log.len() && 0 <= j < log.len() && log[i].event == EventView::AbuseVerdict(
                    AbuseVerdict::Reject,
                ) ==> !(log[j].effect is CreateOrder) && !(log[j].effect is Notify)
        }),
{
    lemma_log_accounted_for(policy, request, token, events);
}

/// Where the abuse gate gave no verdict and the gateway fails closed, the
/// order backend is never asked to create the order. Where the gateway fails
/// open, the order goes on and carries the provider's failure with it.
pub proof fn lemma_provider_failure_follows_policy(
    policy: FailurePolicy,
    request: OrderRequestView,
    token: Seq<char>,
    events: Seq<EventView>,
)
    ensures
        ({
            let log = submission(policy, request, token, events).log;
            forall|i: int, j: int|
                0 <= i < log.len() && 0 <= j < log.len()
                    && log[i].event is AbuseVerdict
                    && log[i].event->AbuseVerdict_0 is ProviderError ==> match policy {
                    FailurePolicy::FailClosed => !(log[j].effect is CreateOrder) && !(
                    log[j].effect is Notify),
                    FailurePolicy::FailOpen => log[i].effect == (EffectView::CreateOrder {
                        request,
                        bypassed: Some(log[i].event->AbuseVerdict_0->ProviderError_0),
                    }),
                }
        }),
{
    lemma_log_accounted_for(policy, request, token, events);
}

/// Where the order backend failed to create the order, the operators are
/// told nothing, and the caller is told of that failure.
pub proof fn lemma_failed_creation_is_not_announced(
    policy: FailurePolicy,
    request: OrderRequestView,
    token: Seq<char>,
    events: Seq<EventView>,
)
    ensures
        ({
            let r = submission(policy, request, token, events);
            forall|i: int, j: int|
                0 <= i < r.log.len() && 0 <= j < r.log.len() && r.log[i].event is Upstream
                    && r.log[i].event->Upstream_0 is Err ==> !(r.log[j].effect is Notify)
                    && r.state == (StateView::SubmitFailed {
                    error: r.log[i].event->Upstream_0->Err_0,
                })
        }),
{
    lemma_log_accounted_for(policy, request, token, events);
}

/// Where the order backend confirmed the order, every answer to the caller
/// is that confirmed order, whatever the operator channel answered; and once
/// the channel has answered at all, the submission has ended in success.
pub proof fn lemma_confirmed_order_is_success(
    policy: FailurePolicy,
    request: OrderRequestView,
    token: Seq<char>,
    events: Seq<EventView>,
    order_id: Seq<char>,
)
    ensures
        ({
            let r = submission(policy, request, token, events);
            forall|i: int|
                0 <= i < r.log.len() && r.log[i].event == EventView::Upstream(
                    Ok::<Seq<char>, UpstreamError>(order_id),
                ) ==> {
                    &&& forall|j: int|
                        0 <= j < r.log.len() && r.log[j].effect is Respond ==> r.log[j].effect->result
                            == OrderResultView::Confirmed(order_id)
                    &&& r.state.is_terminal() ==> r.state.outcome() == Some(
                        OrderResultView::Confirmed(order_id),
                    )
                    &&& (exists|j: int| 0 <= j < r.log.len() && r.log[j].event is Notifier)
                        ==> r.state.is_terminal()
                }
        }),
{
    lemma_log_accounted_for(policy, request, token, events);
}

/// The operator channel's answer cannot change what the caller is told: after
/// a confirmed order, an acknowledgement and any failure lead to the same
/// result for the caller, and a failure is set aside for the operators'
/// record.
pub proof fn lemma_notifier_outcome_is_invisible(
    policy: FailurePolicy,
    order_id: Seq<char>,
    outcome: Result<(), NotifyError>,
)
    ensures
        transition(
            policy,
            StateView::Submitted { order_id },
            EventView::Notifier(outcome),
        ) matches Some((next, effect)) && next.is_terminal() && next.outcome() == Some(
            OrderResultView::Confirmed(order_id),
        ) && effect == (EffectView::Respond {
            result: OrderResultView::Confirmed(order_id),
            unreported: match outcome {
                Ok(_) => None,
                Err(error) => Some(error),
            },
        }),
{
}

/// Within one submission the token goes to the abuse gate at most once, the order
/// backend is asked to create at most once, the operators are told at most
/// once, and the caller is answered at most once.
pub proof fn lemma_calls_at_most_once(
    policy: FailurePolicy,
    request: OrderRequestView,
    token: Seq<char>,
    events: Seq<EventView>,
)
    ensures
        ({
            let log = submission(policy, request, token, events).log;
            forall|i: int, j: int|
                0 <= i < log.len() && 0 <= j < log.len() && i != j ==> {
                    &&& !(log[i].effect is VerifyToken && log[j].effect is VerifyToken)
                    &&& !(log[i].effect is CreateOrder && log[j].effect is CreateOrder)
                    &&& !(log[i].effect is Notify && log[j].effect is Notify)
                    &&& !(log[i].effect is Respond && log[j].effect is Respond)
                }
        }),
        submission(policy, request, token, events).log.len() <= 4,
{
    lemma_log_accounted_for(policy, request, token, events);
}

/// The operators are told only in answer to the backend's confirmation, of
/// the order that it confirmed, and only after the backend was asked to
/// create it.
pub proof fn lemma_notify_follows_confirmation(
    policy: FailurePolicy,
    request: OrderRequestView,
    token: Seq<char>,
    events: Seq<EventView>,
)
    ensures
        ({
            let log = submission(policy, request, token, events).log;
            forall|j: int|
                0 <= j < log.len() && log[j].effect is Notify ==> {
                    &&& log[j].event is Upstream
                    &&& log[j].event->Upstream_0 is Ok
                    &&& log[j].effect == EffectView::Notify(
                        announcement(log[j].event->Upstream_0->Ok_0),
                    )
                    &&& exists|i: int| 0 <= i < j && log[i].effect is CreateOrder
                }
        }),
{
    lemma_log_accounted_for(policy, request, token, events);
    let log = submission(policy, request, token, events).log;
    assert forall|j: int| 0 <= j < log.len() && log[j].effect is Notify implies exists|i: int|
        0 <= i < j && log[i].effect is CreateOrder by {
        assert(log[1].effect is CreateOrder);
    }
}

/// An order is reported to the caller as created only where the backend
/// confirmed it, under the identifier that the backend gave.
pub proof fn lemma_confirmation_comes_from_backend(
    policy: FailurePolicy,
    request: OrderRequestView,
    token: Seq<char>,
    events: Seq<EventView>,
)
    ensures
        ({
            let log = submission(policy, request, token, events).log;
            forall|j: int|
                0 <= j < log.len() && log[j].effect is Respond && log[j].effect->result
                    is Confirmed ==> exists|i: int|
                    0 <= i < j && log[i].event == EventView::Upstream(
                        Ok::<Seq<char>, UpstreamError>(log[j].effect->result->Confirmed_0),
                    )
        }),
{
    lemma_log_accounted_for(policy, request, token, events);
    let log = submission(policy, request, token, events).log;
    assert forall|j: int|
        0 <= j < log.len() && log[j].effect is Respond && log[j].effect->result
            is Confirmed implies exists|i: int|
        0 <= i < j && log[i].event == EventView::Upstream(
            Ok::<Seq<char>, UpstreamError>(log[j].effect->result->Confirmed_0),
        ) by {
        assert(j == 3);
        assert(log[2].event == EventView::Upstream(
            Ok::<Seq<char>, UpstreamError>(log[j].effect->result->Confirmed_0),
        ));
    }
}

/// What goes to the collaborators is what was received: the abuse gate gets the
/// caller's token and the backend the caller's request, unchanged.
pub proof fn lemma_collaborators_get_what_was_received(
    policy: FailurePolicy,
    request: OrderRequestView,
    token: Seq<char>,
    events: Seq<EventView>,
)
    ensures
        ({
            let log = submission(policy, request, token, events).log;
            forall|j: int|
                0 <= j < log.len() ==> {
                    &&& log[j].effect is VerifyToken ==> log[j].effect->VerifyToken_0 == token
                    &&& log[j].effect is CreateOrder ==> log[j].effect->request == request
                }
        }),
{
    lemma_log_accounted_for(policy, request, token, events);
}

/// What a collaborator's silence leads to. The abuse gate's silence ends the
/// submission where the gateway fails closed; the order backend's silence
/// ends it always; the operator channel's silence leaves the order and the
/// caller's answer as they are.
pub proof fn lemma_timeout_consequences(
    policy: FailurePolicy,
    request: OrderRequestView,
    order_id: Seq<char>,
)
    ensures
        verdict_of(ProviderReply::TimedOut) == AbuseVerdict::ProviderError(ProviderError::TimedOut),
        policy == FailurePolicy::FailClosed ==> transition(
            policy,
            StateView::AbuseChecking { request },
            EventView::AbuseVerdict(verdict_of(ProviderReply::TimedOut)),
        ) == Some(
            (
                StateView::AbuseCheckFailed { error: ProviderError::TimedOut },
                EffectView::Respond {
                    result: OrderResultView::Failed(
                        SubmissionFailure::AbuseCheckFailed(ProviderError::TimedOut),
                    ),
                    unreported: None,
                },
            ),
        ),
        transition(
            policy,
            StateView::Submitting,
            EventView::Upstream(Err(UpstreamError::TimedOut)),
        ) == Some(
            (
                StateView::SubmitFailed { error: UpstreamError::TimedOut },
                EffectView::Respond {
                    result: OrderResultView::Failed(
                        SubmissionFailure::SubmitFailed(UpstreamError::TimedOut),
                    ),
                    unreported: None,
                },
            ),
        ),
        transition(
            policy,
            StateView::Submitted { order_id },
            EventView::Notifier(Err(NotifyError::TimedOut)),
        ) == Some(
            (
                StateView::NotifyFailed { order_id, error: NotifyError::TimedOut },
                EffectView::Respond {
                    result: OrderResultView::Confirmed(order_id),
                    unreported: Some(NotifyError::TimedOut),
                },
            ),
        ),
{
}

} // verus!

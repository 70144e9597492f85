use order_gateway::abuse::{AbuseVerdict, AbuseVerificationToken, FailurePolicy, ProviderError};
use order_gateway::capability::AuthorizationError;
use order_gateway::entity::{
    OrderId, OrderItem, OrderRequest, OrderResult, SubmissionFailure, UpstreamError,
    ValidationError,
};
use order_gateway::error::GatewayError;
use order_gateway::grant::Credential;
use order_gateway::gateway::RequestGateway;
use order_gateway::notifier::NotifyError;
use order_gateway::orchestrator::{Effect, Event, OrderOrchestrator, State};
use order_gateway::response::Response;

/// What the collaborators answer in one test.
struct Script {
    verdict: AbuseVerdict,
    upstream: Result<OrderId, UpstreamError>,
    notifier: Result<(), NotifyError>,
}

/// What was asked of the collaborators in one test.
#[derive(Debug, Default, PartialEq, Eq)]
struct Calls {
    tokens: Vec<String>,
    created: Vec<OrderRequest>,
    bypassed: Vec<ProviderError>,
    messages: Vec<String>,
    side_reports: Vec<NotifyError>,
    responses: Vec<OrderResult>,
}

fn order() -> OrderRequest {
    OrderRequest {
        items: vec![OrderItem { sku: "tea".to_string(), quantity: 2 }],
        destination: "1 Main St".to_string(),
        contact: "customer@example.com".to_string(),
    }
}

fn token() -> AbuseVerificationToken {
    AbuseVerificationToken::new("valid-token".to_string())
}

fn id(text: &str) -> OrderId {
    OrderId::new(text.to_string())
}

fn machine(policy: FailurePolicy) -> OrderOrchestrator {
    match OrderOrchestrator::receive(order(), token(), policy) {
        Ok(machine) => machine,
        Err(error) => panic!("the test order is well formed: {:?}", error),
    }
}

/// Runs a submission to its end, answering each call from the script.
fn drive(start: OrderOrchestrator, script: Script) -> (OrderOrchestrator, Calls) {
    let mut calls = Calls::default();
    let mut machine = start;
    let mut event = Event::Start;
    let mut steps = 0;
    loop {
        steps += 1;
        assert!(steps <= 4, "a submission takes four steps at most");
        let (next, effect) = machine.step(event);
        machine = next;
        match effect {
            None => panic!("the driver only sends what the machine waits for"),
            Some(Effect::VerifyToken(token)) => {
                calls.tokens.push(token.into_text());
                event = Event::AbuseVerdict(script.verdict);
            }
            Some(Effect::CreateOrder { request, bypassed }) => {
                calls.created.push(request);
                calls.bypassed.extend(bypassed);
                event = Event::Upstream(script.upstream.clone());
            }
            Some(Effect::Notify(message)) => {
                calls.messages.push(message.text().to_string());
                event = Event::Notifier(script.notifier);
            }
            Some(Effect::Respond { result, unreported }) => {
                calls.side_reports.extend(unreported);
                calls.responses.push(result);
                return (machine, calls);
            }
        }
    }
}

fn happy() -> Script {
    Script { verdict: AbuseVerdict::Accept, upstream: Ok(id("O-1001")), notifier: Ok(()) }
}

#[test]
fn scenario_accepted_created_notified() {
    let (end, calls) = drive(machine(FailurePolicy::FailClosed), happy());
    assert_eq!(calls.tokens, vec!["valid-token".to_string()]);
    assert_eq!(calls.created, vec![order()]);
    assert_eq!(calls.messages, vec!["New order confirmed: O-1001".to_string()]);
    assert_eq!(calls.side_reports, vec![]);
    assert_eq!(calls.responses, vec![OrderResult::Confirmed(id("O-1001"))]);
    assert_eq!(end.state(), &State::Notified { order_id: id("O-1001") });
    assert_eq!(end.outcome(), Some(OrderResult::Confirmed(id("O-1001"))));
    let response = Response::of_result(&calls.responses[0]);
    assert_eq!(response, Response { data: vec![id("O-1001")], errors: vec![] });
    assert_eq!(response.status(), 200);
}

#[test]
fn scenario_abuse_gate_rejects() {
    let script = Script { verdict: AbuseVerdict::Reject, ..happy() };
    let (end, calls) = drive(machine(FailurePolicy::FailClosed), script);
    assert_eq!(calls.tokens.len(), 1);
    assert_eq!(calls.created, vec![]);
    assert_eq!(calls.messages, Vec::<String>::new());
    assert_eq!(calls.responses, vec![OrderResult::Failed(SubmissionFailure::Rejected)]);
    assert_eq!(end.state(), &State::Rejected);
    let response = Response::of_result(&calls.responses[0]);
    assert_eq!(
        response,
        Response {
            data: vec![],
            errors: vec![GatewayError::Authorization(AuthorizationError::AbuseRejected)]
        }
    );
}

#[test]
fn scenario_abuse_gate_rejects_under_fail_open_too() {
    let script = Script { verdict: AbuseVerdict::Reject, ..happy() };
    let (end, calls) = drive(machine(FailurePolicy::FailOpen), script);
    assert_eq!(calls.created, vec![]);
    assert_eq!(calls.messages, Vec::<String>::new());
    assert_eq!(end.state(), &State::Rejected);
}

#[test]
fn scenario_upstream_times_out() {
    let script = Script { upstream: Err(UpstreamError::TimedOut), ..happy() };
    let (end, calls) = drive(machine(FailurePolicy::FailClosed), script);
    assert_eq!(calls.created.len(), 1);
    assert_eq!(calls.messages, Vec::<String>::new());
    assert_eq!(
        calls.responses,
        vec![OrderResult::Failed(SubmissionFailure::SubmitFailed(UpstreamError::TimedOut))]
    );
    assert_eq!(end.state(), &State::SubmitFailed { error: UpstreamError::TimedOut });
    let response = Response::of_result(&calls.responses[0]);
    assert_eq!(
        response,
        Response { data: vec![], errors: vec![GatewayError::Upstream(UpstreamError::TimedOut)] }
    );
}

#[test]
fn upstream_failures_of_every_kind_end_without_notification() {
    for error in [UpstreamError::Rejected, UpstreamError::Unavailable, UpstreamError::TimedOut] {
        let script = Script { upstream: Err(error), ..happy() };
        let (end, calls) = drive(machine(FailurePolicy::FailClosed), script);
        assert_eq!(calls.created.len(), 1);
        assert!(calls.messages.is_empty());
        assert!(calls.side_reports.is_empty());
        assert_eq!(end.outcome(), Some(OrderResult::Failed(SubmissionFailure::SubmitFailed(error))));
    }
}

#[test]
fn scenario_notifier_fails_after_creation() {
    let script = Script { notifier: Err(NotifyError::Unavailable), ..happy() };
    let (end, calls) = drive(machine(FailurePolicy::FailClosed), script);
    assert_eq!(calls.created.len(), 1);
    assert_eq!(calls.messages, vec!["New order confirmed: O-1001".to_string()]);
    assert_eq!(calls.side_reports, vec![NotifyError::Unavailable]);
    assert_eq!(calls.responses, vec![OrderResult::Confirmed(id("O-1001"))]);
    assert_eq!(
        end.state(),
        &State::NotifyFailed { order_id: id("O-1001"), error: NotifyError::Unavailable }
    );
    let response = Response::of_result(&calls.responses[0]);
    assert_eq!(response, Response { data: vec![id("O-1001")], errors: vec![] });
}

#[test]
fn notifier_outcome_does_not_change_the_result() {
    let (_, acknowledged) = drive(machine(FailurePolicy::FailClosed), happy());
    for error in [NotifyError::Refused, NotifyError::Unavailable, NotifyError::TimedOut] {
        let script = Script { notifier: Err(error), ..happy() };
        let (end, calls) = drive(machine(FailurePolicy::FailClosed), script);
        assert_eq!(calls.responses, acknowledged.responses);
        assert_eq!(calls.side_reports, vec![error]);
        assert_eq!(end.outcome(), Some(OrderResult::Confirmed(id("O-1001"))));
        assert!(end.is_terminal());
    }
}

#[test]
fn provider_error_fails_closed() {
    for error in [ProviderError::TimedOut, ProviderError::Malformed] {
        let script = Script { verdict: AbuseVerdict::ProviderError(error), ..happy() };
        let (end, calls) = drive(machine(FailurePolicy::FailClosed), script);
        assert_eq!(calls.created, vec![]);
        assert!(calls.messages.is_empty());
        assert_eq!(
            calls.responses,
            vec![OrderResult::Failed(SubmissionFailure::AbuseCheckFailed(error))]
        );
        assert_eq!(end.state(), &State::AbuseCheckFailed { error });
        assert_eq!(
            Response::of_result(&calls.responses[0]),
            Response { data: vec![], errors: vec![GatewayError::Provider(error)] }
        );
    }
}

#[test]
fn provider_error_fails_open() {
    let script = Script { verdict: AbuseVerdict::ProviderError(ProviderError::TimedOut), ..happy() };
    let (end, calls) = drive(machine(FailurePolicy::FailOpen), script);
    assert_eq!(calls.created, vec![order()]);
    assert_eq!(calls.bypassed, vec![ProviderError::TimedOut]);
    assert_eq!(calls.messages.len(), 1);
    assert_eq!(calls.responses, vec![OrderResult::Confirmed(id("O-1001"))]);
    assert_eq!(end.state(), &State::Notified { order_id: id("O-1001") });
}

#[test]
fn accepted_order_reports_no_bypass() {
    let (_, calls) = drive(machine(FailurePolicy::FailOpen), happy());
    assert_eq!(calls.bypassed, vec![]);
}

#[test]
fn each_collaborator_is_called_at_most_once() {
    for policy in [FailurePolicy::FailClosed, FailurePolicy::FailOpen] {
        for verdict in [
            AbuseVerdict::Accept,
            AbuseVerdict::Reject,
            AbuseVerdict::ProviderError(ProviderError::TimedOut),
        ] {
            for upstream in [Ok(id("O-9")), Err(UpstreamError::Unavailable)] {
                for notifier in [Ok(()), Err(NotifyError::TimedOut)] {
                    let script = Script { verdict, upstream: upstream.clone(), notifier };
                    let (end, calls) = drive(machine(policy), script);
                    assert_eq!(calls.tokens.len(), 1);
                    assert!(calls.created.len() <= 1);
                    assert!(calls.messages.len() <= 1);
                    assert!(calls.messages.len() <= calls.created.len());
                    assert_eq!(calls.responses.len(), 1);
                    assert!(end.is_terminal());
                    if calls.messages.len() == 1 {
                        assert_eq!(upstream, Ok(id("O-9")));
                    }
                }
            }
        }
    }
}

#[test]
fn machine_starts_in_received() {
    let m = machine(FailurePolicy::FailClosed);
    assert_eq!(m.state(), &State::Received { request: order(), token: token() });
    assert_eq!(m.policy(), FailurePolicy::FailClosed);
    assert!(!m.is_terminal());
    assert_eq!(m.outcome(), None);
    assert_eq!(machine(FailurePolicy::FailOpen).policy(), FailurePolicy::FailOpen);
}

#[test]
fn receive_refuses_a_malformed_request() {
    let mut bad = order();
    bad.items.clear();
    assert_eq!(
        OrderOrchestrator::receive(bad, token(), FailurePolicy::FailClosed),
        Err(ValidationError::NoItems)
    );
    let mut zero = order();
    zero.items[0].quantity = 0;
    assert_eq!(
        OrderOrchestrator::receive(zero, token(), FailurePolicy::FailClosed),
        Err(ValidationError::ZeroQuantity { index: 0 })
    );
}

#[test]
fn steps_pass_through_every_state_in_order() {
    let m = machine(FailurePolicy::FailClosed);
    let (m, effect) = m.step(Event::Start);
    assert_eq!(effect, Some(Effect::VerifyToken(token())));
    assert_eq!(m.state(), &State::AbuseChecking { request: order() });
    assert_eq!(m.outcome(), None);
    let (m, effect) = m.step(Event::AbuseVerdict(AbuseVerdict::Accept));
    assert_eq!(effect, Some(Effect::CreateOrder { request: order(), bypassed: None }));
    assert_eq!(m.state(), &State::Submitting);
    assert_eq!(m.outcome(), None);
    let (m, effect) = m.step(Event::Upstream(Ok(id("O-1001"))));
    assert_eq!(
        effect.map(|e| match e {
            Effect::Notify(message) => message.text().to_string(),
            other => panic!("expected a notification, got {:?}", other),
        }),
        Some("New order confirmed: O-1001".to_string())
    );
    assert_eq!(m.state(), &State::Submitted { order_id: id("O-1001") });
    assert!(!m.is_terminal());
    assert_eq!(m.outcome(), None);
    let (m, effect) = m.step(Event::Notifier(Ok(())));
    assert_eq!(
        effect,
        Some(Effect::Respond { result: OrderResult::Confirmed(id("O-1001")), unreported: None })
    );
    assert_eq!(m.state(), &State::Notified { order_id: id("O-1001") });
    assert!(m.is_terminal());
}

fn all_events() -> Vec<Event> {
    vec![
        Event::Start,
        Event::AbuseVerdict(AbuseVerdict::Accept),
        Event::AbuseVerdict(AbuseVerdict::Reject),
        Event::AbuseVerdict(AbuseVerdict::ProviderError(ProviderError::Malformed)),
        Event::Upstream(Ok(id("O-2"))),
        Event::Upstream(Err(UpstreamError::Rejected)),
        Event::Notifier(Ok(())),
        Event::Notifier(Err(NotifyError::Refused)),
    ]
}

fn reach(events: Vec<Event>) -> OrderOrchestrator {
    let mut m = machine(FailurePolicy::FailClosed);
    for event in events {
        let (next, effect) = m.step(event);
        assert!(effect.is_some());
        m = next;
    }
    m
}

#[test]
fn unexpected_events_change_nothing() {
    let paths: Vec<(Vec<Event>, usize)> = vec![
        (vec![], 0),
        (vec![Event::Start], 1),
        (vec![Event::Start, Event::AbuseVerdict(AbuseVerdict::Accept)], 2),
        (
            vec![
                Event::Start,
                Event::AbuseVerdict(AbuseVerdict::Accept),
                Event::Upstream(Ok(id("O-1"))),
            ],
            3,
        ),
    ];
    for (path, stage) in paths {
        for event in all_events() {
            let awaited = match (&event, stage) {
                (Event::Start, 0) => true,
                (Event::AbuseVerdict(_), 1) => true,
                (Event::Upstream(_), 2) => true,
                (Event::Notifier(_), 3) => true,
                _ => false,
            };
            let before = reach(path.iter().map(copy_event).collect());
            let expected = reach(path.iter().map(copy_event).collect());
            let (after, effect) = before.step(event);
            if awaited {
                assert!(effect.is_some());
                assert_ne!(after, expected);
            } else {
                assert_eq!(effect, None);
                assert_eq!(after, expected);
            }
        }
    }
}

fn copy_event(event: &Event) -> Event {
    match event {
        Event::Start => Event::Start,
        Event::AbuseVerdict(v) => Event::AbuseVerdict(*v),
        Event::Upstream(r) => Event::Upstream(r.clone()),
        Event::Notifier(o) => Event::Notifier(*o),
    }
}

#[test]
fn ended_submission_takes_no_event() {
    let ends: Vec<Vec<Event>> = vec![
        vec![Event::Start, Event::AbuseVerdict(AbuseVerdict::Reject)],
        vec![Event::Start, Event::AbuseVerdict(AbuseVerdict::ProviderError(ProviderError::TimedOut))],
        vec![
            Event::Start,
            Event::AbuseVerdict(AbuseVerdict::Accept),
            Event::Upstream(Err(UpstreamError::Unavailable)),
        ],
        vec![
            Event::Start,
            Event::AbuseVerdict(AbuseVerdict::Accept),
            Event::Upstream(Ok(id("O-1"))),
            Event::Notifier(Ok(())),
        ],
        vec![
            Event::Start,
            Event::AbuseVerdict(AbuseVerdict::Accept),
            Event::Upstream(Ok(id("O-1"))),
            Event::Notifier(Err(NotifyError::TimedOut)),
        ],
    ];
    for path in ends {
        for event in all_events() {
            let ended = reach(path.iter().map(copy_event).collect());
            let expected = reach(path.iter().map(copy_event).collect());
            assert!(ended.is_terminal());
            let (after, effect) = ended.step(event);
            assert_eq!(effect, None);
            assert_eq!(after, expected);
        }
    }
}

#[test]
fn repeated_upstream_answer_does_not_notify_twice() {
    let m = reach(vec![
        Event::Start,
        Event::AbuseVerdict(AbuseVerdict::Accept),
        Event::Upstream(Ok(id("O-1"))),
    ]);
    let (m, effect) = m.step(Event::Upstream(Ok(id("O-1"))));
    assert_eq!(effect, None);
    let (m, effect) = m.step(Event::AbuseVerdict(AbuseVerdict::Accept));
    assert_eq!(effect, None);
    assert_eq!(m.state(), &State::Submitted { order_id: id("O-1") });
}

#[test]
fn whole_request_from_credential_to_response() {
    let credential = Credential::Claim { role: "customer".to_string(), expires_at: 2_000 };
    let opened = RequestGateway::open_submission(
        &credential,
        1_000,
        order(),
        token(),
        FailurePolicy::FailClosed,
    );
    let (context, machine) = match opened {
        Ok(pair) => pair,
        Err(error) => panic!("a customer may submit: {:?}", error),
    };
    assert_eq!(context.role_data().role(), order_gateway::grant::Role::Customer);
    let (_, calls) = drive(machine, happy());
    assert_eq!(
        Response::of_result(&calls.responses[0]),
        Response { data: vec![id("O-1001")], errors: vec![] }
    );
}

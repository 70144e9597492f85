//! The response that the caller receives: data, or a list of typed errors.

use crate::entity::{OrderId, OrderResult, OrderResultView};
use crate::error::GatewayError;
use crate::gateway::answer_of;
use vstd::prelude::*;

verus! {

/// The status under which every response of the gateway travels, the ones
/// that carry errors too. Only the transport's own faults use another.
pub const STATUS_OK: u16 = 200;

/// What became of one operation of a request.
#[derive(Debug, PartialEq, Eq)]
pub enum Outcome {
    /// The operation gave this order.
    Data(OrderId),
    /// The operation failed.
    Failed(GatewayError),
}

/// The mathematical content of an [`Outcome`].
pub ghost enum OutcomeView {
    Data(Seq<char>),
    Failed(GatewayError),
}

impl View for Outcome {
    type V = OutcomeView;

    open spec fn view(&self) -> OutcomeView {
        match self {
            Outcome::Data(id) => OutcomeView::Data(id@),
            Outcome::Failed(error) => OutcomeView::Failed(*error),
        }
    }
}

/// The outcome that a submission's result amounts to.
pub open spec fn outcome_of(result: OrderResultView) -> OutcomeView {
    match answer_of(result) {
        Ok(order_id) => OutcomeView::Data(order_id),
        Err(error) => OutcomeView::Failed(error),
    }
}

impl Outcome {
    /// The outcome that a submission's result amounts to: the confirmed
    /// order, or the error under which the failure reaches the caller.
    pub fn from_result(result: &OrderResult) -> (outcome: Outcome)
        ensures
            outcome@ == outcome_of(result@),
    {
        match result {
            OrderResult::Confirmed(id) => Outcome::Data(id.clone()),
            OrderResult::Failed(failure) => Outcome::Failed(GatewayError::from_failure(*failure)),
        }
    }
}

/// The body of a response.
#[derive(Debug, PartialEq, Eq)]
pub struct Response {
    /// The orders that the request's operations gave, in their order.
    pub data: Vec<OrderId>,
    /// The errors of the operations that failed, in their order.
    pub errors: Vec<GatewayError>,
}

/// The mathematical content of a [`Response`].
pub ghost struct ResponseView {
    pub data: Seq<Seq<char>>,
    pub errors: Seq<GatewayError>,
}

impl View for Response {
    type V = ResponseView;

    open spec fn view(&self) -> ResponseView {
        ResponseView {
            data: Seq::new(self.data@.len(), |i: int| self.data@[i]@),
            errors: self.errors@,
        }
    }
}

/// Whether `outcome` is an error that the caller receives alone.
pub open spec fn is_sole_error(outcome: OutcomeView) -> bool {
    outcome matches OutcomeView::Failed(error) && error.is_sole()
}

/// The orders among `outcomes`, in their order.
pub open spec fn orders_of(outcomes: Seq<OutcomeView>) -> Seq<Seq<char>>
    decreases outcomes.len(),
{
    if outcomes.len() == 0 {
        Seq::empty()
    } else {
        let before = orders_of(outcomes.drop_last());
        match outcomes.last() {
            OutcomeView::Data(id) => before.push(id),
            OutcomeView::Failed(_) => before,
        }
    }
}

/// The errors among `outcomes`, in their order.
pub open spec fn errors_of(outcomes: Seq<OutcomeView>) -> Seq<GatewayError>
    decreases outcomes.len(),
{
    if outcomes.len() == 0 {
        Seq::empty()
    } else {
        let before = errors_of(outcomes.drop_last());
        match outcomes.last() {
            OutcomeView::Data(_) => before,
            OutcomeView::Failed(error) => before.push(error),
        }
    }
}

/// The response that `outcomes` make.
///
/// Where one of them is an error that travels alone, the response is the
/// first such error and nothing else: no data, no other error. Otherwise
/// each operation keeps what it gave, the orders as data and the failures
/// as errors.
pub open spec fn assembled(outcomes: Seq<OutcomeView>) -> ResponseView {
    if exists|i: int| 0 <= i < outcomes.len() && is_sole_error(#[trigger] outcomes[i]) {
        let first = choose|i: int|
            0 <= i < outcomes.len() && is_sole_error(#[trigger] outcomes[i]) && forall|j: int|
                0 <= j < i ==> !is_sole_error(#[trigger] outcomes[j]);
        ResponseView { data: Seq::empty(), errors: seq![outcomes[first]->Failed_0] }
    } else {
        ResponseView { data: orders_of(outcomes), errors: errors_of(outcomes) }
    }
}

/// The content of a list of outcomes.
pub open spec fn outcomes_view(outcomes: Seq<Outcome>) -> Seq<OutcomeView> {
    Seq::new(outcomes.len(), |i: int| outcomes[i]@)
}

/// Among the positions of `outcomes` that hold an error that travels alone,
/// the least, if there is any.
proof fn lemma_least_sole_error(outcomes: Seq<OutcomeView>, at: int) -> (first: int)
    requires
        0 <= at < outcomes.len(),
        is_sole_error(outcomes[at]),
    ensures
        0 <= first <= at,
        is_sole_error(outcomes[first]),
        forall|j: int| 0 <= j < first ==> !is_sole_error(#[trigger] outcomes[j]),
    decreases at,
{
    if exists|k: int| 0 <= k < at && is_sole_error(#[trigger] outcomes[k]) {
        let k = choose|k: int| 0 <= k < at && is_sole_error(#[trigger] outcomes[k]);
        lemma_least_sole_error(outcomes, k)
    } else {
        at
    }
}

/// A response with a sole error: the position of the error decides, and no
/// other position holds one before it.
proof fn lemma_assembled_sole(outcomes: Seq<OutcomeView>, first: int)
    requires
        0 <= first < outcomes.len(),
        is_sole_error(outcomes[first]),
        forall|j: int| 0 <= j < first ==> !is_sole_error(#[trigger] outcomes[j]),
    ensures
        assembled(outcomes) == (ResponseView {
            data: Seq::empty(),
            errors: seq![outcomes[first]->Failed_0],
        }),
{
    let chosen = choose|i: int|
        0 <= i < outcomes.len() && is_sole_error(#[trigger] outcomes[i]) && forall|j: int|
            0 <= j < i ==> !is_sole_error(#[trigger] outcomes[j]);
    if chosen < first {
        assert(!is_sole_error(outcomes[chosen]));
    } else if first < chosen {
        assert(!is_sole_error(outcomes[first]));
    }
}

impl Response {
    /// The response that consists of one error and nothing else.
    pub fn rejected(error: GatewayError) -> (response: Response)
        ensures
            response@.data.len() == 0,
            response@.errors == seq![error],
            response@ == assembled(seq![OutcomeView::Failed(error)]),
    {
        let mut errors: Vec<GatewayError> = Vec::new();
        errors.push(error);
        let response = Response { data: Vec::new(), errors };
        proof {
            let outcomes = seq![OutcomeView::Failed(error)];
            assert(response@.data =~= Seq::empty());
            assert(outcomes.drop_last() =~= Seq::empty());
            assert(errors_of(outcomes.drop_last()) =~= Seq::empty());
            assert(orders_of(outcomes.drop_last()) =~= Seq::empty());
            assert(errors_of(outcomes) =~= seq![error]);
            assert(orders_of(outcomes) =~= Seq::empty());
            if error.is_sole() {
                assert(is_sole_error(outcomes[0]));
                lemma_assembled_sole(outcomes, 0);
            } else {
                assert forall|i: int| 0 <= i < outcomes.len() implies !is_sole_error(
                    #[trigger] outcomes[i],
                ) by {}
            }
        }
        response
    }

    /// Makes the response of a request from the outcomes of its operations.
    pub fn assemble(outcomes: Vec<Outcome>) -> (response: Response)
        ensures
            response@ == assembled(outcomes_view(outcomes@)),
    {
        let ghost all = outcomes_view(outcomes@);
        let mut data: Vec<OrderId> = Vec::new();
        let mut errors: Vec<GatewayError> = Vec::new();
        let n = outcomes.len();
        let mut i: usize = 0;
        while i < n
            invariant
                n == outcomes@.len(),
                i <= n,
                all == outcomes_view(outcomes@),
                forall|j: int| 0 <= j < i ==> !is_sole_error(#[trigger] all[j]),
                Seq::new(data@.len(), |k: int| data@[k]@) == orders_of(all.take(i as int)),
                errors@ == errors_of(all.take(i as int)),
            decreases n - i,
        {
            proof {
                assert(all.take(i as int + 1).drop_last() =~= all.take(i as int));
                assert(all.take(i as int + 1).last() == all[i as int]);
                assert(all[i as int] == outcomes@[i as int]@);
            }
            match &outcomes[i] {
                Outcome::Data(id) => {
                    data.push(id.clone());
                    assert(Seq::new(data@.len(), |k: int| data@[k]@) =~= orders_of(
                        all.take(i as int),
                    ).push(id@));
                },
                Outcome::Failed(error) => {
                    if is_sole(error) {
                        proof {
                            assert(is_sole_error(all[i as int]));
                            lemma_assembled_sole(all, i as int);
                        }
                        let response = Response::rejected(*error);
                        assert(response@.data =~= Seq::empty());
                        return response;
                    }
                    errors.push(*error);
                },
            }
            i += 1;
        }
        proof {
            assert(all.take(n as int) =~= all);
        }
        Response { data, errors }
    }

    /// The response to a request that held one submission and ended with
    /// `result`.
    pub fn of_result(result: &OrderResult) -> (response: Response)
        ensures
            response@ == assembled(seq![outcome_of(result@)]),
    {
        let mut outcomes: Vec<Outcome> = Vec::new();
        outcomes.push(Outcome::from_result(result));
        assert(outcomes_view(outcomes@) =~= seq![outcome_of(result@)]);
        Response::assemble(outcomes)
    }

    /// The status under which the response travels.
    pub fn status(&self) -> (code: u16)
        ensures
            code == STATUS_OK,
    {
        STATUS_OK
    }
}

/// Whether `error` is one that the caller receives alone.
fn is_sole(error: &GatewayError) -> (sole: bool)
    ensures
        sole == error.is_sole(),
{
    match error {
        GatewayError::Authentication(_) => true,
        GatewayError::Authorization(_) => true,
        _ => false,
    }
}

/// A response never holds both a sole error and anything else: where an
/// error of authentication or authorization is among the outcomes, the
/// response has no data and exactly one error, which is of such a kind.
pub proof fn lemma_sole_error_stands_alone(outcomes: Seq<OutcomeView>)
    requires
        exists|i: int| 0 <= i < outcomes.len() && is_sole_error(#[trigger] outcomes[i]),
    ensures
        assembled(outcomes).data.len() == 0,
        assembled(outcomes).errors.len() == 1,
        assembled(outcomes).errors[0].is_sole(),
{
    let at = choose|i: int| 0 <= i < outcomes.len() && is_sole_error(#[trigger] outcomes[i]);
    let first = lemma_least_sole_error(outcomes, at);
    lemma_assembled_sole(outcomes, first);
}

/// Where no error travels alone, nothing is lost: every operation shows in
/// the response, as an order or as an error.
pub proof fn lemma_every_operation_shows(outcomes: Seq<OutcomeView>)
    requires
        forall|i: int| 0 <= i < outcomes.len() ==> !is_sole_error(#[trigger] outcomes[i]),
    ensures
        assembled(outcomes).data.len() + assembled(outcomes).errors.len() == outcomes.len(),
{
    lemma_counts(outcomes);
}

proof fn lemma_counts(outcomes: Seq<OutcomeView>)
    ensures
        orders_of(outcomes).len() + errors_of(outcomes).len() == outcomes.len(),
    decreases outcomes.len(),
{
    if outcomes.len() > 0 {
        lemma_counts(outcomes.drop_last());
    }
}

} // verus!

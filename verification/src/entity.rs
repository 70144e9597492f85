//! Orders as the gateway sees them: the caller's request, the identifier
//! that the backend confirms, and what becomes of a submission.

use crate::abuse::ProviderError;
use vstd::prelude::*;
use vstd::string::*;

verus! {

/// One line of an order: what is wanted, and how many of it.
#[derive(Debug, PartialEq, Eq)]
pub struct OrderItem {
    pub sku: String,
    pub quantity: u32,
}

/// The mathematical content of an [`OrderItem`].
pub ghost struct OrderItemView {
    pub sku: Seq<char>,
    pub quantity: nat,
}

impl View for OrderItem {
    type V = OrderItemView;

    open spec fn view(&self) -> OrderItemView {
        OrderItemView { sku: self.sku@, quantity: self.quantity as nat }
    }
}

impl Clone for OrderItem {
    fn clone(&self) -> (copy: OrderItem)
        ensures
            copy@ == self@,
    {
        OrderItem { sku: self.sku.clone(), quantity: self.quantity }
    }
}

/// The caller's intent to create an order.
#[derive(Debug, PartialEq, Eq)]
pub struct OrderRequest {
    pub items: Vec<OrderItem>,
    pub destination: String,
    pub contact: String,
}

/// The mathematical content of an [`OrderRequest`].
pub ghost struct OrderRequestView {
    pub items: Seq<OrderItemView>,
    pub destination: Seq<char>,
    pub contact: Seq<char>,
}

impl View for OrderRequest {
    type V = OrderRequestView;

    open spec fn view(&self) -> OrderRequestView {
        OrderRequestView {
            items: Seq::new(self.items@.len(), |i: int| self.items@[i]@),
            destination: self.destination@,
            contact: self.contact@,
        }
    }
}

/// What is wrong with an order request, found before anything is asked of a
/// collaborator.
#[derive(Clone, Copy, Debug, PartialEq, Eq, Structural, Hash)]
pub enum ValidationError {
    /// The request names no item.
    NoItems,
    /// The item at `index` is wanted zero times; no item before it is.
    ZeroQuantity { index: usize },
    /// The request says nothing of where the order goes.
    MissingDestination,
    /// The request says nothing of how to reach the caller.
    MissingContact,
}

impl OrderRequestView {
    /// Every item is wanted at least once.
    pub open spec fn quantities_positive(self) -> bool {
        forall|i: int| 0 <= i < self.items.len() ==> (#[trigger] self.items[i]).quantity > 0
    }

    /// A request that the orchestrator takes: at least one item, each wanted
    /// at least once, a destination and a contact.
    pub open spec fn well_formed(self) -> bool {
        &&& self.items.len() > 0
        &&& self.quantities_positive()
        &&& self.destination.len() > 0
        &&& self.contact.len() > 0
    }

    /// Whether `error` is the first fault of this request, the faults taken
    /// in the order: no items, a zero quantity (the first such item), no
    /// destination, no contact.
    pub open spec fn first_fault_is(self, error: ValidationError) -> bool {
        match error {
            ValidationError::NoItems => self.items.len() == 0,
            ValidationError::ZeroQuantity { index } => {
                &&& index < self.items.len()
                &&& self.items[index as int].quantity == 0
                &&& forall|j: int| 0 <= j < index ==> (#[trigger] self.items[j]).quantity > 0
            },
            ValidationError::MissingDestination => {
                &&& self.items.len() > 0
                &&& self.quantities_positive()
                &&& self.destination.len() == 0
            },
            ValidationError::MissingContact => {
                &&& self.items.len() > 0
                &&& self.quantities_positive()
                &&& self.destination.len() > 0
                &&& self.contact.len() == 0
            },
        }
    }

    /// What validation answers for this request.
    pub open spec fn checked(self) -> Result<(), ValidationError> {
        if self.well_formed() {
            Ok(())
        } else {
            Err(choose|error: ValidationError| self.first_fault_is(error))
        }
    }
}

/// A request has at most one first fault, and one that is well formed has
/// none.
pub proof fn lemma_first_fault_unique(
    request: OrderRequestView,
    a: ValidationError,
    b: ValidationError,
)
    requires
        request.first_fault_is(a),
        request.first_fault_is(b),
    ensures
        a == b,
        !request.well_formed(),
{
    if let ValidationError::ZeroQuantity { index: i } = a {
        if let ValidationError::ZeroQuantity { index: j } = b {
            if i < j {
                assert(request.items[i as int].quantity > 0);
            } else if j < i {
                assert(request.items[j as int].quantity > 0);
            }
        } else {
            assert(request.items[i as int].quantity == 0);
        }
    } else if let ValidationError::ZeroQuantity { index: j } = b {
        assert(request.items[j as int].quantity == 0);
    }
}

impl OrderRequest {
    /// Checks the request: `Ok` exactly for a well-formed one, else its first
    /// fault.
    pub fn validate(&self) -> (r: Result<(), ValidationError>)
        ensures
            r == self@.checked(),
            r is Ok <==> self@.well_formed(),
            r matches Err(error) ==> self@.first_fault_is(error),
    {
        let r = self.find_fault();
        proof {
            match r {
                Err(error) => {
                    assert(self@.first_fault_is(error));
                    let chosen = choose|e: ValidationError| self@.first_fault_is(e);
                    assert(self@.first_fault_is(chosen));
                    lemma_first_fault_unique(self@, error, chosen);
                },
                Ok(unit) => {
                    assert(unit == ());
                },
            }
        }
        r
    }

    fn find_fault(&self) -> (r: Result<(), ValidationError>)
        ensures
            r is Ok <==> self@.well_formed(),
            r matches Err(error) ==> self@.first_fault_is(error),
    {
        let n = self.items.len();
        if n == 0 {
            return Err(ValidationError::NoItems);
        }
        let mut i: usize = 0;
        while i < n
            invariant
                n == self.items@.len(),
                i <= n,
                forall|j: int| 0 <= j < i ==> (#[trigger] self@.items[j]).quantity > 0,
            decreases n - i,
        {
            if self.items[i].quantity == 0 {
                assert(self@.items[i as int].quantity == 0);
                return Err(ValidationError::ZeroQuantity { index: i });
            }
            i += 1;
        }
        if self.destination.as_str().is_empty() {
            return Err(ValidationError::MissingDestination);
        }
        if self.contact.as_str().is_empty() {
            return Err(ValidationError::MissingContact);
        }
        Ok(())
    }
}

impl Clone for OrderRequest {
    fn clone(&self) -> (copy: OrderRequest)
        ensures
            copy@ == self@,
    {
        let mut items: Vec<OrderItem> = Vec::new();
        let n = self.items.len();
        let mut i: usize = 0;
        while i < n
            invariant
                n == self.items@.len(),
                i <= n,
                items@.len() == i,
                forall|j: int| 0 <= j < i ==> (#[trigger] items@[j])@ == self.items@[j]@,
            decreases n - i,
        {
            items.push(self.items[i].clone());
            i += 1;
        }
        let copy = OrderRequest {
            items,
            destination: self.destination.clone(),
            contact: self.contact.clone(),
        };
        assert(copy@.items =~= self@.items);
        copy
    }
}

/// The identifier under which the backend confirmed an order.
#[derive(Debug, PartialEq, Eq)]
pub struct OrderId(String);

impl View for OrderId {
    type V = Seq<char>;

    closed spec fn view(&self) -> Seq<char> {
        self.0@
    }
}

impl OrderId {
    /// Takes the identifier as the backend gave it.
    pub fn new(text: String) -> (id: OrderId)
        ensures
            id@ == text@,
    {
        OrderId(text)
    }

    /// The identifier's text.
    pub fn as_str(&self) -> (text: &str)
        ensures
            text@ == self@,
    {
        self.0.as_str()
    }
}

impl Clone for OrderId {
    fn clone(&self) -> (copy: OrderId)
        ensures
            copy@ == self@,
    {
        OrderId(self.0.clone())
    }
}

/// The ways in which the order backend fails to create an order.
#[derive(Clone, Copy, Debug, PartialEq, Eq, Structural, Hash)]
pub enum UpstreamError {
    /// The backend looked at the order and refused it.
    Rejected,
    /// The backend could not be reached, or answered with a fault of its own.
    Unavailable,
    /// No answer came within the time allowed.
    TimedOut,
}

/// Why a submission ended without an order.
#[derive(Clone, Copy, Debug, PartialEq, Eq, Structural, Hash)]
pub enum SubmissionFailure {
    /// The abuse gate rejected the caller.
    Rejected,
    /// The abuse gate gave no verdict, and the gateway fails closed.
    AbuseCheckFailed(ProviderError),
    /// The order backend did not create the order.
    SubmitFailed(UpstreamError),
}

/// The outcome of a submission, as the caller sees it.
#[derive(Debug, PartialEq, Eq)]
pub enum OrderResult {
    /// The backend confirmed the order under this identifier.
    Confirmed(OrderId),
    /// No order was created.
    Failed(SubmissionFailure),
}

/// The mathematical content of an [`OrderResult`].
pub ghost enum OrderResultView {
    Confirmed(Seq<char>),
    Failed(SubmissionFailure),
}

impl View for OrderResult {
    type V = OrderResultView;

    open spec fn view(&self) -> OrderResultView {
        match self {
            OrderResult::Confirmed(id) => OrderResultView::Confirmed(id@),
            OrderResult::Failed(failure) => OrderResultView::Failed(*failure),
        }
    }
}

impl Clone for OrderResult {
    fn clone(&self) -> (copy: OrderResult)
        ensures
            copy@ == self@,
    {
        match self {
            OrderResult::Confirmed(id) => OrderResult::Confirmed(id.clone()),
            OrderResult::Failed(failure) => OrderResult::Failed(*failure),
        }
    }
}

} // verus!

//! The operator notification: the message that a confirmed order gives rise
//! to, and the ways in which the operator channel fails.

use crate::entity::{OrderId, OrderResult, OrderResultView};
use vstd::prelude::*;
use vstd::string::*;

verus! {

/// The ways in which the operator channel fails to take a message.
#[derive(Clone, Copy, Debug, PartialEq, Eq, Structural, Hash)]
pub enum NotifyError {
    /// The channel refused the message.
    Refused,
    /// The channel could not be reached.
    Unavailable,
    /// No answer came within the time allowed.
    TimedOut,
}

/// The text sent to the operators for one confirmed order.
#[derive(Debug, PartialEq, Eq)]
pub struct NotificationMessage {
    text: String,
}

impl View for NotificationMessage {
    type V = Seq<char>;

    closed spec fn view(&self) -> Seq<char> {
        self.text@
    }
}

/// The text that announces the order confirmed under `id`.
pub open spec fn announcement(id: Seq<char>) -> Seq<char> {
    "New order confirmed: "@ + id
}

/// The text that a submission's outcome gives rise to: one for a confirmed
/// order, none for a failure.
pub open spec fn announcement_of(result: OrderResultView) -> Option<Seq<char>> {
    match result {
        OrderResultView::Confirmed(id) => Some(announcement(id)),
        OrderResultView::Failed(_) => None,
    }
}

impl NotificationMessage {
    /// The message for the order confirmed under `id`.
    pub fn for_order(id: &OrderId) -> (message: NotificationMessage)
        ensures
            message@ == announcement(id@),
    {
        let text = String::from_str("New order confirmed: ").concat(id.as_str());
        NotificationMessage { text }
    }

    /// The message that `result` gives rise to, if it is a success.
    pub fn from_result(result: &OrderResult) -> (message: Option<NotificationMessage>)
        ensures
            message is Some <==> result@ is Confirmed,
            message matches Some(m) ==> Some(m@) == announcement_of(result@),
    {
        match result {
            OrderResult::Confirmed(id) => Some(NotificationMessage::for_order(id)),
            OrderResult::Failed(_) => None,
        }
    }

    /// The text to send.
    pub fn text(&self) -> (text: &str)
        ensures
            text@ == self@,
    {
        self.text.as_str()
    }
}

impl Clone for NotificationMessage {
    fn clone(&self) -> (copy: NotificationMessage)
        ensures
            copy@ == self@,
    {
        NotificationMessage { text: self.text.clone() }
    }
}

/// Different orders are announced by different messages.
pub proof fn lemma_announcement_injective(a: Seq<char>, b: Seq<char>)
    requires
        announcement(a) == announcement(b),
    ensures
        a == b,
{
    let prefix = "New order confirmed: "@;
    assert(announcement(a).subrange(prefix.len() as int, announcement(a).len() as int) =~= a);
    assert(announcement(b).subrange(prefix.len() as int, announcement(b).len() as int) =~= b);
}

} // verus!

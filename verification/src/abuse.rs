//! The abuse gate: what the scoring provider's reply means for a submission.

use vstd::prelude::*;

verus! {

/// The highest score that the provider can give, in thousandths.
pub const SCORE_MAX: u16 = 1000;

/// The score, in thousandths, from which a caller counts as human.
pub const SCORE_THRESHOLD: u16 = 500;

/// The caller-supplied proof of a non-automated origin. Opaque to the
/// gateway, which hands it to the provider once and keeps no copy.
#[derive(Debug, PartialEq, Eq)]
pub struct AbuseVerificationToken(String);

impl View for AbuseVerificationToken {
    type V = Seq<char>;

    closed spec fn view(&self) -> Seq<char> {
        self.0@
    }
}

impl AbuseVerificationToken {
    /// Takes the token as the caller supplied it.
    pub fn new(text: String) -> (token: AbuseVerificationToken)
        ensures
            token@ == text@,
    {
        AbuseVerificationToken(text)
    }

    /// Gives the token up, for the one call to the provider.
    pub fn into_text(self) -> (text: String)
        ensures
            text@ == self@,
    {
        self.0
    }
}

/// What came back from the scoring provider, as the transport decoded it.
#[derive(Clone, Copy, Debug, PartialEq, Eq, Structural, Hash)]
pub enum ProviderReply {
    /// The provider answered: whether it accepted the token at all, and the
    /// score it gave, in thousandths.
    Scored { success: bool, score: u16 },
    /// No answer came within the time allowed.
    TimedOut,
    /// An answer came, and it could not be decoded.
    Unreadable,
}

/// The ways in which the provider fails to give a verdict.
#[derive(Clone, Copy, Debug, PartialEq, Eq, Structural, Hash)]
pub enum ProviderError {
    /// No answer came within the time allowed.
    TimedOut,
    /// The answer could not be decoded, or its score is out of range.
    Malformed,
}

/// What the abuse gate answers for one token.
#[derive(Clone, Copy, Debug, PartialEq, Eq, Structural, Hash)]
pub enum AbuseVerdict {
    Accept,
    Reject,
    ProviderError(ProviderError),
}

/// What the orchestrator does when the provider gives no verdict.
#[derive(Clone, Copy, Debug, PartialEq, Eq, Structural, Hash)]
pub enum FailurePolicy {
    /// No verdict, no order: the submission ends with a transient error.
    FailClosed,
    /// No verdict is taken as acceptance; the failure is reported with the
    /// order that goes on.
    FailOpen,
}

impl Default for FailurePolicy {
    /// A gateway that was told nothing fails closed.
    fn default() -> (policy: FailurePolicy)
        ensures
            policy == FailurePolicy::FailClosed,
    {
        FailurePolicy::FailClosed
    }
}

/// The verdict that a provider's reply amounts to.
///
/// A score above [`SCORE_MAX`] is no score. A token that the provider did not
/// accept, or a score under [`SCORE_THRESHOLD`], rejects the caller.
pub open spec fn verdict_of(reply: ProviderReply) -> AbuseVerdict {
    match reply {
        ProviderReply::TimedOut => AbuseVerdict::ProviderError(ProviderError::TimedOut),
        ProviderReply::Unreadable => AbuseVerdict::ProviderError(ProviderError::Malformed),
        ProviderReply::Scored { success, score } => if score > SCORE_MAX {
            AbuseVerdict::ProviderError(ProviderError::Malformed)
        } else if success && score >= SCORE_THRESHOLD {
            AbuseVerdict::Accept
        } else {
            AbuseVerdict::Reject
        },
    }
}

/// Whether a submission goes on to the order backend after `verdict`.
pub open spec fn lets_through(policy: FailurePolicy, verdict: AbuseVerdict) -> bool {
    match verdict {
        AbuseVerdict::Accept => true,
        AbuseVerdict::Reject => false,
        AbuseVerdict::ProviderError(_) => policy == FailurePolicy::FailOpen,
    }
}

/// Interprets the provider's reply against the fixed threshold.
pub fn judge(reply: ProviderReply) -> (verdict: AbuseVerdict)
    ensures
        verdict == verdict_of(reply),
{
    match reply {
        ProviderReply::TimedOut => AbuseVerdict::ProviderError(ProviderError::TimedOut),
        ProviderReply::Unreadable => AbuseVerdict::ProviderError(ProviderError::Malformed),
        ProviderReply::Scored { success, score } => {
            if score > SCORE_MAX {
                AbuseVerdict::ProviderError(ProviderError::Malformed)
            } else if success && score >= SCORE_THRESHOLD {
                AbuseVerdict::Accept
            } else {
                AbuseVerdict::Reject
            }
        },
    }
}

/// A provider that fails to answer never yields a rejection, and never an
/// acceptance: the two are kept apart from its failures.
pub proof fn lemma_provider_failure_is_no_verdict(reply: ProviderReply)
    ensures
        (reply is TimedOut || reply is Unreadable) ==> verdict_of(reply) is ProviderError,
        verdict_of(reply) is Accept ==> (reply matches ProviderReply::Scored { success, score }
            && success && SCORE_THRESHOLD <= score <= SCORE_MAX),
{
}

} // verus!

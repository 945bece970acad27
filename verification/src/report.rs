//! What a failed call reports: the cause, the offending message and the text
//! that the caller is shown.

use crate::chain::ChainError;
use crate::hmac::KeyFormatError;
use crate::locate::first_fault;
use crate::signature::SignatureError;
use crate::text::{message_text, text_of};
use vstd::prelude::*;
use vstd::string::*;

verus! {

/// Words that open every report on a message.
pub const REPORT_WORDS: &'static str = "found invalid message: ";

/// What stands between the cause and the quoted message.
pub const REPORT_SEPARATOR: &'static str = ": ";

/// Quoted in place of a message when the signatures of a batch failed as a
/// whole but each of them verified alone.
pub const NO_SINGLE_VERIFICATION: &'static str =
    "parallel verification failed but no single invalid message was found";

/// Quoted in place of a message when the chain of a batch failed as a whole
/// but each message passed alone.
pub const NO_SINGLE_VALIDATION: &'static str =
    "parallel validation failed but no single invalid message was found";

/// The two checks that every message passes through.
#[derive(Clone, Copy, Debug, PartialEq, Eq, Structural)]
pub enum Phase {
    /// Verification of signatures.
    Signature,
    /// Validation of the hash chain.
    Chain,
}

/// Why a call failed. A call reports one error, tied to one message.
#[derive(Clone, Debug, PartialEq, Eq)]
#[allow(inconsistent_fields)]
pub enum ValidationError {
    /// The MAC key was refused.
    KeyFormat(KeyFormatError),
    /// The signature of a message did not verify.
    Signature {
        /// The cause.
        error: SignatureError,
        /// Position of the message in the batch.
        offender: usize,
        /// The message, as text.
        content: String,
    },
    /// A message does not fit its chain.
    Chain {
        /// The cause.
        error: ChainError,
        /// Position of the message in the batch.
        offender: usize,
        /// The message, as text.
        content: String,
    },
    /// A check of the whole batch failed, but no message failed it alone.
    AggregateAttribution {
        /// The check that failed.
        phase: Phase,
        /// The cause that the check of the whole batch gave.
        cause: String,
    },
}

/// The mathematical content of a `ValidationError`.
pub enum Failure {
    /// The MAC key was refused.
    KeyFormat(KeyFormatError),
    /// The signature of the message at `offender` did not verify.
    Signature { cause: Seq<char>, offender: int, content: Seq<char> },
    /// The message at `offender` does not fit its chain.
    Chain { cause: Seq<char>, offender: int, content: Seq<char> },
    /// A check of the whole batch failed, but no message failed it alone.
    AggregateAttribution { phase: Phase, cause: Seq<char> },
}

impl View for ValidationError {
    type V = Failure;

    open spec fn view(&self) -> Failure {
        match self {
            ValidationError::KeyFormat(e) => Failure::KeyFormat(*e),
            ValidationError::Signature { error, offender, content } => Failure::Signature {
                cause: error@,
                offender: *offender as int,
                content: content@,
            },
            ValidationError::Chain { error, offender, content } => Failure::Chain {
                cause: error@,
                offender: *offender as int,
                content: content@,
            },
            ValidationError::AggregateAttribution { phase, cause } => Failure::AggregateAttribution {
                phase: *phase,
                cause: cause@,
            },
        }
    }
}

/// The report on a message: the opening words, the cause, and what is quoted.
pub open spec fn report_text(cause: Seq<char>, quoted: Seq<char>) -> Seq<char> {
    REPORT_WORDS@ + cause + REPORT_SEPARATOR@ + quoted
}

/// What is quoted when no single message could be blamed.
pub open spec fn unattributed_text(phase: Phase) -> Seq<char> {
    match phase {
        Phase::Signature => NO_SINGLE_VERIFICATION@,
        Phase::Chain => NO_SINGLE_VALIDATION@,
    }
}

impl Failure {
    /// The text that the caller is shown.
    pub open spec fn text(self) -> Seq<char> {
        match self {
            Failure::KeyFormat(e) => e.text(),
            Failure::Signature { cause, offender, content } => report_text(cause, content),
            Failure::Chain { cause, offender, content } => report_text(cause, content),
            Failure::AggregateAttribution { phase, cause } => report_text(
                cause,
                unattributed_text(phase),
            ),
        }
    }
}

fn report(cause: &str, quoted: &str) -> (r: String)
    ensures
        r@ == report_text(cause@, quoted@),
{
    let mut r = String::from_str(REPORT_WORDS);
    r.append(cause);
    r.append(REPORT_SEPARATOR);
    r.append(quoted);
    r
}

impl ValidationError {
    /// Renders the error as the single text that the caller is shown: the
    /// cause, then the offending message.
    pub fn message(&self) -> (r: String)
        ensures
            r@ == self@.text(),
    {
        match self {
            ValidationError::KeyFormat(e) => e.message(),
            ValidationError::Signature { error, offender, content } => report(
                error.detail.as_str(),
                content.as_str(),
            ),
            ValidationError::Chain { error, offender, content } => report(
                error.detail.as_str(),
                content.as_str(),
            ),
            ValidationError::AggregateAttribution { phase, cause } => match phase {
                Phase::Signature => report(cause.as_str(), NO_SINGLE_VERIFICATION),
                Phase::Chain => report(cause.as_str(), NO_SINGLE_VALIDATION),
            },
        }
    }
}

/// The failure that blames the message at `i` of a batch.
pub open spec fn failure_at(phase: Phase, cause: Seq<char>, i: int, msgs: Seq<Seq<u8>>) -> Failure {
    match phase {
        Phase::Signature => Failure::Signature { cause, offender: i, content: text_of(msgs[i]) },
        Phase::Chain => Failure::Chain { cause, offender: i, content: text_of(msgs[i]) },
    }
}

/// What follows from checks made message by message: the first message with
/// a fault is blamed, with its own cause.
pub open spec fn first_failure(phase: Phase, faults: Seq<Option<Seq<char>>>, msgs: Seq<Seq<u8>>) -> Option<
    Failure,
> {
    match first_fault(faults) {
        Some(i) => Some(failure_at(phase, faults[i]->0, i, msgs)),
        None => None,
    }
}

/// The failure of a call, if it failed.
pub open spec fn failure_of<T>(r: Result<T, ValidationError>) -> Option<Failure> {
    match r {
        Ok(_) => None,
        Err(e) => Some(e@),
    }
}

/// Blames the message at `i` of a batch.
pub fn blame(phase: Phase, cause: String, i: usize, msgs: &Vec<Vec<u8>>) -> (e: ValidationError)
    requires
        i < msgs@.len(),
    ensures
        e@ == failure_at(phase, cause@, i as int, crate::key::batch_bytes(msgs@)),
{
    let content = message_text(msgs[i].as_slice());
    match phase {
        Phase::Signature => ValidationError::Signature {
            error: SignatureError { detail: cause },
            offender: i,
            content,
        },
        Phase::Chain => ValidationError::Chain {
            error: ChainError { detail: cause },
            offender: i,
            content,
        },
    }
}

} // verus!

//! Hash-chain validation of message values.
//!
//! Three rules are offered, each decided by `ssb_validate`: the in-order rule
//! links a message to its predecessor in the feed; the out-of-order rule
//! checks a message by itself and, given a predecessor, that the author has
//! not changed; the isolated rule checks a message by itself. For a batch by
//! several authors, each message is linked to the latest earlier message of
//! the batch by the same author.

use crate::key::{all_text, batch_bytes};
use crate::locate::faultless;
use crate::signature::option_text;
use crate::text::is_text;
use vstd::prelude::*;
use vstd::string::*;
use vstd::utf8::*;

verus! {

/// Cause reported for a predecessor that is not UTF-8.
pub const PREVIOUS_NOT_TEXT_CAUSE: &'static str = "Previous message bytes are not valid utf8";

/// Leading words of the cause when the author differs from the predecessor's.
pub const AUTHORS_WORDS: &'static str = "Message was invalid. The authors did not match.";

/// Leading words of the cause when the sequence number does not follow.
pub const SEQUENCE_WORDS: &'static str = "The sequence must increase by one";

/// Leading words of the cause when a first message has another sequence
/// number than 1.
pub const FIRST_SEQUENCE_WORDS: &'static str = "The first message of a feed must have seq of 1";

/// Leading words of the cause when `previous` is not the predecessor's key.
pub const FORKED_WORDS: &'static str = "This feed is forked.";

/// Leading words of the cause when `previous` is null but a predecessor exists.
pub const PREVIOUS_NULL_WORDS: &'static str = "Previous was set to null";

/// Leading words of the cause when a first message names a predecessor.
pub const FIRST_PREVIOUS_WORDS: &'static str =
    "The first message of a feed must have previous of null";

/// The reason a message does not fit its chain.
#[derive(Clone, Copy, Debug, PartialEq, Eq, Structural)]
pub enum ChainErrorKind {
    /// The sequence number is not the one that follows.
    SequenceMismatch,
    /// The `previous` field is not the key of the predecessor.
    PreviousKeyMismatch,
    /// The author is not the author of the predecessor.
    AuthorMismatch,
    /// The message, or its predecessor, is malformed.
    MalformedChainField,
}

/// A message that does not fit its chain, with the cause in words.
#[derive(Clone, Debug, PartialEq, Eq)]
pub struct ChainError {
    /// The cause, as reported by the check that failed.
    pub detail: String,
}

impl View for ChainError {
    type V = Seq<char>;

    open spec fn view(&self) -> Seq<char> {
        self.detail@
    }
}

/// Whether `text` begins with `words`.
pub open spec fn begins_with(text: Seq<u8>, words: Seq<u8>) -> bool {
    words.len() <= text.len() && text.subrange(0, words.len() as int) == words
}

/// The reason that a cause stands for, read off its leading words.
pub open spec fn kind_of(detail: Seq<char>) -> ChainErrorKind {
    let text = encode_utf8(detail);
    if begins_with(text, AUTHORS_WORDS.spec_bytes()) {
        ChainErrorKind::AuthorMismatch
    } else if begins_with(text, SEQUENCE_WORDS.spec_bytes()) || begins_with(
        text,
        FIRST_SEQUENCE_WORDS.spec_bytes(),
    ) {
        ChainErrorKind::SequenceMismatch
    } else if begins_with(text, FORKED_WORDS.spec_bytes()) || begins_with(
        text,
        PREVIOUS_NULL_WORDS.spec_bytes(),
    ) || begins_with(text, FIRST_PREVIOUS_WORDS.spec_bytes()) {
        ChainErrorKind::PreviousKeyMismatch
    } else {
        ChainErrorKind::MalformedChainField
    }
}

fn begins(text: &[u8], words: &[u8]) -> (r: bool)
    ensures
        r == begins_with(text@, words@),
{
    if words.len() > text.len() {
        return false;
    }
    let mut i: usize = 0;
    while i < words.len()
        invariant
            i <= words.len() <= text.len(),
            forall|j: int| 0 <= j < i ==> text@[j] == words@[j],
        decreases words.len() - i,
    {
        if text[i] != words[i] {
            assert(text@.subrange(0, words@.len() as int)[i as int] != words@[i as int]);
            return false;
        }
        i = i + 1;
    }
    assert(text@.subrange(0, words@.len() as int) =~= words@);
    true
}

impl ChainError {
    /// The reason this error stands for.
    pub fn kind(&self) -> (r: ChainErrorKind)
        ensures
            r == kind_of(self@),
    {
        let text = self.detail.as_str().as_bytes();
        if begins(text, AUTHORS_WORDS.as_bytes()) {
            ChainErrorKind::AuthorMismatch
        } else if begins(text, SEQUENCE_WORDS.as_bytes()) || begins(
            text,
            FIRST_SEQUENCE_WORDS.as_bytes(),
        ) {
            ChainErrorKind::SequenceMismatch
        } else if begins(text, FORKED_WORDS.as_bytes()) || begins(
            text,
            PREVIOUS_NULL_WORDS.as_bytes(),
        ) || begins(text, FIRST_PREVIOUS_WORDS.as_bytes()) {
            ChainErrorKind::PreviousKeyMismatch
        } else {
            ChainErrorKind::MalformedChainField
        }
    }
}

/// The bytes of an optional message.
pub open spec fn slice_bytes(o: Option<&[u8]>) -> Option<Seq<u8>> {
    match o {
        Some(s) => Some(s@),
        None => None,
    }
}

/// What `ssb_validate::message_value::validate_message_value_hash_chain`
/// decides of a message and its predecessor: nothing when the message fits,
/// else the text of the error it returns.
pub uninterp spec fn chain_verdict(msg: Seq<u8>, previous: Option<Seq<u8>>) -> Option<Seq<char>>;

/// What `ssb_validate::message_value::validate_ooo_message_value_hash_chain`
/// decides of a message and an optional predecessor.
pub uninterp spec fn ooo_verdict(msg: Seq<u8>, previous: Option<Seq<u8>>) -> Option<Seq<char>>;

/// What `ssb_validate::message_value::validate_message_value` decides of a
/// message.
pub uninterp spec fn isolated_verdict(msg: Seq<u8>) -> Option<Seq<char>>;

/// The `author` field of a message that parses as a message value.
pub uninterp spec fn author_of(msg: Seq<u8>) -> Option<Seq<char>>;

/// The predecessor of the message at `i` in an ordered batch: the message
/// before it, or for the first message what the caller supplied.
pub open spec fn predecessor(msgs: Seq<Seq<u8>>, previous: Option<Seq<u8>>, i: int) -> Option<
    Seq<u8>,
> {
    if i == 0 {
        previous
    } else {
        Some(msgs[i - 1])
    }
}

/// The rules by which one message is held against a predecessor.
#[derive(Clone, Copy, Debug, PartialEq, Eq, Structural)]
pub enum Rule {
    /// The message follows its predecessor in the feed.
    InOrder,
    /// The message is sound by itself and has the author of its predecessor.
    OutOfOrder,
    /// The message is sound by itself; the predecessor is not looked at.
    Isolated,
}

/// What a rule decides of a message and its predecessor.
pub open spec fn rule_verdict(rule: Rule, msg: Seq<u8>, previous: Option<Seq<u8>>) -> Option<
    Seq<char>,
> {
    match rule {
        Rule::InOrder => chain_verdict(msg, previous),
        Rule::OutOfOrder => ooo_verdict(msg, previous),
        Rule::Isolated => isolated_verdict(msg),
    }
}

/// What a rule decides of each message of a batch, the message before it
/// serving as its predecessor, and `previous` as that of the first.
pub open spec fn rule_verdicts(rule: Rule, msgs: Seq<Seq<u8>>, previous: Option<Seq<u8>>) -> Seq<
    Option<Seq<char>>,
> {
    Seq::new(msgs.len(), |i: int| rule_verdict(rule, msgs[i], predecessor(msgs, previous, i)))
}

/// Whether the outcome of a check over a whole batch agrees with the checks
/// of its messages: it passes exactly when every message passes, and the
/// cause it reports is the fault of one of the messages.
pub open spec fn consistent(faults: Seq<Option<Seq<char>>>, aggregate: Option<Seq<char>>) -> bool {
    match aggregate {
        None => faultless(faults),
        Some(cause) => exists|i: int| 0 <= i < faults.len() && #[trigger] faults[i] == Some(cause),
    }
}

/// Calls `validate_message_value_hash_chain` and renders its error as text.
/// The result depends on the two messages alone. The outside function hashes
/// the predecessor as text, hence the precondition.
#[verifier::external_body]
fn outside_link(msg: &[u8], previous: Option<&[u8]>) -> (r: Option<String>)
    requires
        previous matches Some(p) ==> valid_utf8(p@),
    ensures
        option_text(r) == chain_verdict(msg@, slice_bytes(previous)),
{
    match ssb_validate::message_value::validate_message_value_hash_chain(msg, previous) {
        Ok(()) => None,
        Err(e) => Some(e.to_string()),
    }
}

/// Calls `validate_ooo_message_value_hash_chain` and renders its error as
/// text. The result depends on the two messages alone.
#[verifier::external_body]
fn outside_ooo(msg: &[u8], previous: Option<&[u8]>) -> (r: Option<String>)
    ensures
        option_text(r) == ooo_verdict(msg@, slice_bytes(previous)),
{
    match ssb_validate::message_value::validate_ooo_message_value_hash_chain(msg, previous) {
        Ok(()) => None,
        Err(e) => Some(e.to_string()),
    }
}

/// Calls `validate_message_value` and renders its error as text. The result
/// depends on the message alone.
#[verifier::external_body]
fn outside_isolated(msg: &[u8]) -> (r: Option<String>)
    ensures
        option_text(r) == isolated_verdict(msg@),
{
    match ssb_validate::message_value::validate_message_value(msg) {
        Ok(()) => None,
        Err(e) => Some(e.to_string()),
    }
}

/// Calls `par_validate_message_value_hash_chain_of_feed` and renders its
/// error as text. The outside function applies
/// `validate_message_value_hash_chain` to every message and its predecessor
/// on a thread pool: it passes exactly when each of those checks passes, and
/// otherwise returns the error of one of them, not always the first.
#[verifier::external_body]
fn outside_link_all(msgs: &Vec<Vec<u8>>, previous: Option<&[u8]>) -> (r: Option<String>)
    requires
        all_text(batch_bytes(msgs@)),
        previous matches Some(p) ==> valid_utf8(p@),
    ensures
        consistent(
            rule_verdicts(Rule::InOrder, batch_bytes(msgs@), slice_bytes(previous)),
            option_text(r),
        ),
{
    match ssb_validate::message_value::par_validate_message_value_hash_chain_of_feed(
        msgs.as_slice(),
        previous,
    ) {
        Ok(()) => None,
        Err(e) => Some(e.to_string()),
    }
}

/// Calls `par_validate_ooo_message_value_hash_chain_of_feed` without a
/// predecessor for the first message and renders its error as text. The
/// outside function applies `validate_ooo_message_value_hash_chain` to every
/// message and the one before it on a thread pool: it passes exactly when
/// each of those checks passes, and otherwise returns the error of one of
/// them.
#[verifier::external_body]
fn outside_ooo_all(msgs: &Vec<Vec<u8>>) -> (r: Option<String>)
    ensures
        consistent(rule_verdicts(Rule::OutOfOrder, batch_bytes(msgs@), None), option_text(r)),
{
    match ssb_validate::message_value::par_validate_ooo_message_value_hash_chain_of_feed(
        msgs.as_slice(),
        None::<&[u8]>,
    ) {
        Ok(()) => None,
        Err(e) => Some(e.to_string()),
    }
}

/// Calls `par_validate_message_value` and renders its error as text. The
/// outside function applies `validate_message_value` to every message on a
/// thread pool: it passes exactly when each of those checks passes, and
/// otherwise returns the error of one of them.
#[verifier::external_body]
fn outside_isolated_all(msgs: &Vec<Vec<u8>>) -> (r: Option<String>)
    ensures
        consistent(rule_verdicts(Rule::Isolated, batch_bytes(msgs@), None), option_text(r)),
{
    match ssb_validate::message_value::par_validate_message_value(msgs.as_slice()) {
        Ok(()) => None,
        Err(e) => Some(e.to_string()),
    }
}

/// Parses a message with `ssb_legacy_msg_data::json::from_slice` as an
/// `ssb_validate::message_value::SsbMessageValue` and hands out its `author`
/// field. The result depends on the message alone.
#[verifier::external_body]
pub(crate) fn outside_author(msg: &[u8]) -> (r: Option<String>)
    ensures
        option_text(r) == author_of(msg@),
{
    match ssb_legacy_msg_data::json::from_slice::<ssb_validate::message_value::SsbMessageValue>(
        msg,
    ) {
        Ok(value) => Some(value.author),
        Err(_) => None,
    }
}

/// The fault of a message under the in-order rule, if any: a predecessor
/// that is not UTF-8, or else what the rule decides.
pub open spec fn link_fault(msg: Seq<u8>, previous: Option<Seq<u8>>) -> Option<Seq<char>> {
    if previous is Some && !valid_utf8(previous->0) {
        Some(PREVIOUS_NOT_TEXT_CAUSE@)
    } else {
        chain_verdict(msg, previous)
    }
}

/// The faults of an ordered batch under the in-order rule.
pub open spec fn link_faults(msgs: Seq<Seq<u8>>, previous: Option<Seq<u8>>) -> Seq<
    Option<Seq<char>>,
> {
    Seq::new(msgs.len(), |i: int| link_fault(msgs[i], predecessor(msgs, previous, i)))
}

/// Validates a message in relation to its predecessor in the feed. Without a
/// predecessor the message must be the first of its feed: sequence number 1
/// and no `previous`. With one, the author must be the same, the sequence
/// number one more, and `previous` the key of the predecessor.
pub fn validate_in_order(msg: &[u8], previous: Option<&[u8]>) -> (r: Result<(), ChainError>)
    ensures
        match r {
            Ok(()) => link_fault(msg@, slice_bytes(previous)) is None,
            Err(e) => link_fault(msg@, slice_bytes(previous)) == Some(e@),
        },
{
    match previous {
        Some(p) => {
            if !is_text(p) {
                return Err(ChainError { detail: String::from_str(PREVIOUS_NOT_TEXT_CAUSE) });
            }
        },
        None => {},
    }
    match outside_link(msg, previous) {
        Some(detail) => Err(ChainError { detail }),
        None => Ok(()),
    }
}

/// Validates a message that may have arrived out of order: the message by
/// itself and, given a predecessor, that the author has not changed.
pub fn validate_out_of_order(msg: &[u8], previous: Option<&[u8]>) -> (r: Result<(), ChainError>)
    ensures
        match r {
            Ok(()) => ooo_verdict(msg@, slice_bytes(previous)) is None,
            Err(e) => ooo_verdict(msg@, slice_bytes(previous)) == Some(e@),
        },
{
    match outside_ooo(msg, previous) {
        Some(detail) => Err(ChainError { detail }),
        None => Ok(()),
    }
}

/// Validates a message by itself, with no regard to any predecessor.
pub fn validate_isolated(msg: &[u8]) -> (r: Result<(), ChainError>)
    ensures
        match r {
            Ok(()) => isolated_verdict(msg@) is None,
            Err(e) => isolated_verdict(msg@) == Some(e@),
        },
{
    match outside_isolated(msg) {
        Some(detail) => Err(ChainError { detail }),
        None => Ok(()),
    }
}

/// Holds one message against its predecessor by a rule.
pub fn check_rule(rule: Rule, msg: &[u8], previous: Option<&[u8]>) -> (r: Option<String>)
    requires
        rule == Rule::InOrder && previous is Some ==> valid_utf8(previous->0@),
    ensures
        option_text(r) == rule_verdict(rule, msg@, slice_bytes(previous)),
{
    match rule {
        Rule::InOrder => outside_link(msg, previous),
        Rule::OutOfOrder => outside_ooo(msg, previous),
        Rule::Isolated => outside_isolated(msg),
    }
}

/// Holds every message of a batch against the one before it by a rule, on a
/// thread pool. Only the in-order rule takes a predecessor for the first
/// message. The batch passes exactly when each message passes; the cause
/// reported is that of one of the messages that do not.
pub fn check_rule_all(rule: Rule, msgs: &Vec<Vec<u8>>, previous: Option<&[u8]>) -> (r: Option<
    String,
>)
    requires
        rule == Rule::InOrder ==> all_text(batch_bytes(msgs@)),
        rule == Rule::InOrder && previous is Some ==> valid_utf8(previous->0@),
        rule != Rule::InOrder ==> previous is None,
    ensures
        consistent(rule_verdicts(rule, batch_bytes(msgs@), slice_bytes(previous)), option_text(r)),
{
    match rule {
        Rule::InOrder => outside_link_all(msgs, previous),
        Rule::OutOfOrder => outside_ooo_all(msgs),
        Rule::Isolated => outside_isolated_all(msgs),
    }
}

} // verus!

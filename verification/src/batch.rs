//! The operations: signatures, then the hash chain, then the keys.
//!
//! A batch is checked as a whole, on a thread pool, and message by message.
//! The check of the whole batch is the fast path of the outside crates. For
//! signatures its word is not taken alone, since it draws random numbers and
//! need not agree with the check of each message: a batch is accepted when
//! the whole passes and every message passes alone, the first message that
//! fails alone is blamed, and a whole that fails though no message does is
//! reported as such. Any failure ends the call: keys are derived only when
//! every check has passed.

use crate::chain::{
    check_rule_all, isolated_verdict, link_fault, link_faults, rule_verdicts, slice_bytes,
    validate_in_order, Rule, PREVIOUS_NOT_TEXT_CAUSE,
};
use crate::feed::{first_author_fault, first_rule_fault, member_faults};
use crate::hmac::{is_valid_hmac_key, key_bytes, key_outcome, HmacKey};
use crate::key::{all_text, batch_bytes, derive_key, hash, keys_of, message_key, texts_of};
use crate::locate::{
    faultless,
    is_first_fault,
    lemma_first_fault,
    lemma_first_fault_is,
    lemma_first_fault_none,
};
use crate::report::{blame, failure_of, first_failure, Failure, Phase, ValidationError};
use crate::signature::{
    first_shape_fault, first_signature_fault, option_text, outside_verify_all, shape_fault,
    shape_faults, signature_fault, signature_faults, unsafe_signature, verify,
};
use crate::text::{is_text, message_text, text_of};
use vstd::prelude::*;
use vstd::string::*;
use vstd::utf8::*;

verus! {

/// What a call on a batch checks after the signatures.
#[derive(Clone, Copy, Debug, PartialEq, Eq, Structural)]
pub enum Mode {
    /// Nothing: the signatures only.
    Signatures,
    /// The chain of one author, the messages in the order of the feed.
    Ordered,
    /// The messages of one author, in any order and with gaps.
    OutOfOrder,
    /// The chains of several authors, each within the batch.
    MultiAuthor,
}

/// A batch whose messages have no fault in their shape is text throughout
/// and may be handed to a verifier.
pub proof fn lemma_shapely(msgs: Seq<Seq<u8>>)
    requires
        faultless(shape_faults(msgs)),
    ensures
        all_text(msgs),
        forall|i: int| 0 <= i < msgs.len() ==> !unsafe_signature(#[trigger] msgs[i]),
{
    assert forall|i: int| 0 <= i < msgs.len() implies valid_utf8(#[trigger] msgs[i])
        && !unsafe_signature(msgs[i]) by {
        assert(shape_faults(msgs)[i] is None);
    }
}

/// A batch without signature faults has no faults of shape.
pub proof fn lemma_valid_is_shapely(msgs: Seq<Seq<u8>>, mac: Option<Seq<u8>>)
    requires
        faultless(signature_faults(msgs, mac)),
    ensures
        faultless(shape_faults(msgs)),
{
    assert forall|i: int| 0 <= i < msgs.len() implies (#[trigger] shape_faults(msgs)[i]) is None by {
        assert(signature_faults(msgs, mac)[i] is None);
    }
}

/// The signature phase of a batch. The first message whose signature fails
/// alone is blamed, with its own cause. Where no message fails alone, the
/// phase is what the check of all signatures says, whose outcome is
/// `aggregate`: it passes, or it fails with no message to blame.
pub open spec fn signature_phase(
    msgs: Seq<Seq<u8>>,
    mac: Option<Seq<u8>>,
    aggregate: Option<Seq<char>>,
) -> Option<Failure> {
    match first_failure(Phase::Signature, signature_faults(msgs, mac), msgs) {
        Some(f) => Some(f),
        None => match aggregate {
            Some(cause) => Some(Failure::AggregateAttribution { phase: Phase::Signature, cause }),
            None => None,
        },
    }
}

/// The chain faults of a batch in a mode, message by message.
pub open spec fn chain_faults(mode: Mode, msgs: Seq<Seq<u8>>, previous: Option<Seq<u8>>) -> Seq<
    Option<Seq<char>>,
> {
    match mode {
        Mode::Signatures => Seq::new(msgs.len(), |i: int| None),
        Mode::Ordered => link_faults(msgs, previous),
        Mode::OutOfOrder => rule_verdicts(Rule::OutOfOrder, msgs, None),
        Mode::MultiAuthor => member_faults(msgs),
    }
}

/// The chain phase of a batch in a mode: the first message with a chain
/// fault is blamed, with its own cause.
pub open spec fn chain_phase(mode: Mode, msgs: Seq<Seq<u8>>, previous: Option<Seq<u8>>) -> Option<
    Failure,
> {
    first_failure(Phase::Chain, chain_faults(mode, msgs, previous), msgs)
}

/// The outcome of a call on a batch: the failure of the signature phase, or
/// else that of the chain phase, or else the keys in the order of the batch.
pub open spec fn batch_outcome(
    mode: Mode,
    msgs: Seq<Seq<u8>>,
    previous: Option<Seq<u8>>,
    mac: Option<Seq<u8>>,
    signatures: Option<Seq<char>>,
) -> Result<Seq<Seq<char>>, Failure> {
    match signature_phase(msgs, mac, signatures) {
        Some(f) => Err(f),
        None => match chain_phase(mode, msgs, previous) {
            Some(f) => Err(f),
            None => Ok(keys_of(msgs)),
        },
    }
}

/// The outcome of validating one message: its signature, then its link to
/// the predecessor, then its key.
pub open spec fn single_outcome(msg: Seq<u8>, previous: Option<Seq<u8>>, mac: Option<Seq<u8>>) -> Result<
    Seq<char>,
    Failure,
> {
    match signature_fault(msg, mac) {
        Some(cause) => Err(Failure::Signature { cause, offender: 0, content: text_of(msg) }),
        None => match link_fault(msg, previous) {
            Some(cause) => Err(Failure::Chain { cause, offender: 0, content: text_of(msg) }),
            None => Ok(message_key(msg)),
        },
    }
}

/// What a call on a batch returned, as mathematics.
pub open spec fn keys_result(r: Result<Vec<String>, ValidationError>) -> Result<
    Seq<Seq<char>>,
    Failure,
> {
    match r {
        Ok(keys) => Ok(texts_of(keys@)),
        Err(e) => Err(e@),
    }
}

/// What a call on one message returned, as mathematics.
pub open spec fn key_result(r: Result<String, ValidationError>) -> Result<Seq<char>, Failure> {
    match r {
        Ok(key) => Ok(key@),
        Err(e) => Err(e@),
    }
}

/// What is owed of a call on a batch once the key is accepted. The outcome
/// is that of the two phases for some outcome of the check of all
/// signatures. So a message whose signature fails alone is always refused,
/// the keys come back only for a batch without any fault, and they do come
/// back for such a batch once the check of all signatures has passed. A
/// batch without messages always passes.
pub open spec fn batch_contract(
    mode: Mode,
    msgs: Seq<Seq<u8>>,
    previous: Option<Seq<u8>>,
    mac: Option<Seq<u8>>,
    r: Result<Seq<Seq<char>>, Failure>,
) -> bool {
    &&& exists|signatures: Option<Seq<char>>|
        r == #[trigger] batch_outcome(mode, msgs, previous, mac, signatures)
    &&& r is Ok ==> faultless(signature_faults(msgs, mac)) && faultless(
        chain_faults(mode, msgs, previous),
    )
    &&& msgs.len() == 0 ==> r is Ok
}

/// Settles the signatures of a batch without faults of shape, given the
/// outcome of the check of all signatures: every message is checked alone,
/// and the first that fails is blamed.
pub fn settle_signatures(msgs: &Vec<Vec<u8>>, mac: &Option<Vec<u8>>, aggregate: Option<String>) -> (r:
    Result<(), ValidationError>)
    requires
        faultless(shape_faults(batch_bytes(msgs@))),
    ensures
        failure_of(r) == signature_phase(
            batch_bytes(msgs@),
            key_bytes(*mac),
            option_text(aggregate),
        ),
{
    let ghost faults = signature_faults(batch_bytes(msgs@), key_bytes(*mac));
    match first_signature_fault(msgs, mac, msgs.len()) {
        Some((i, cause)) => {
            proof {
                lemma_first_fault_is(faults, i as int);
            }
            Err(blame(Phase::Signature, cause, i, msgs))
        },
        None => {
            proof {
                lemma_first_fault_none(faults);
            }
            match aggregate {
                Some(cause) => Err(
                    ValidationError::AggregateAttribution { phase: Phase::Signature, cause },
                ),
                None => Ok(()),
            }
        },
    }
}

/// The signature phase of a batch. It passes only when every signature
/// verifies alone; whether it then passes is for the check of all
/// signatures to say. A failure blames the first message that fails alone.
pub fn check_signatures(msgs: &Vec<Vec<u8>>, mac: &Option<Vec<u8>>) -> (r: Result<
    (),
    ValidationError,
>)
    ensures
        exists|aggregate: Option<Seq<char>>|
            failure_of(r) == #[trigger] signature_phase(
                batch_bytes(msgs@),
                key_bytes(*mac),
                aggregate,
            ),
        r is Ok ==> faultless(signature_faults(batch_bytes(msgs@), key_bytes(*mac))),
        msgs@.len() == 0 ==> r is Ok,
{
    let ghost batch = batch_bytes(msgs@);
    let ghost key = key_bytes(*mac);
    let ghost faults = signature_faults(batch, key);
    let r = match first_shape_fault(msgs) {
        Some((i, cause)) => {
            assert(shape_faults(batch)[i as int] == shape_fault(batch[i as int]));
            let e = match first_signature_fault(msgs, mac, i) {
                Some((j, own)) => {
                    proof {
                        lemma_first_fault_is(faults, j as int);
                    }
                    blame(Phase::Signature, own, j, msgs)
                },
                None => {
                    proof {
                        assert(faults[i as int] == signature_fault(batch[i as int], key));
                        assert(is_first_fault(faults, i as int));
                        lemma_first_fault_is(faults, i as int);
                    }
                    blame(Phase::Signature, cause, i, msgs)
                },
            };
            proof {
                assert(failure_of::<()>(Err(e)) == signature_phase(batch, key, None));
            }
            Err(e)
        },
        None => {
            proof {
                lemma_shapely(batch);
                assert forall|i: int| 0 <= i < msgs@.len() implies !unsafe_signature(
                    #[trigger] msgs@[i]@,
                ) by {
                    assert(batch[i] == msgs@[i]@);
                }
            }
            let aggregate = outside_verify_all(msgs, mac);
            let ghost said = option_text(aggregate);
            let r = settle_signatures(msgs, mac, aggregate);
            proof {
                assert(failure_of(r) == signature_phase(batch, key, said));
            }
            r
        },
    };
    proof {
        lemma_first_fault(faults);
    }
    r
}

/// Holds every message of a batch against the one before it by a rule, and
/// on failure blames the first message that fails alone.
fn check_by_rule(rule: Rule, msgs: &Vec<Vec<u8>>, previous: Option<&[u8]>) -> (r: Result<
    (),
    ValidationError,
>)
    requires
        rule == Rule::InOrder ==> all_text(batch_bytes(msgs@)),
        rule == Rule::InOrder && previous is Some ==> valid_utf8(previous->0@),
        rule != Rule::InOrder ==> previous is None,
    ensures
        failure_of(r) == first_failure(
            Phase::Chain,
            rule_verdicts(rule, batch_bytes(msgs@), slice_bytes(previous)),
            batch_bytes(msgs@),
        ),
{
    let ghost faults = rule_verdicts(rule, batch_bytes(msgs@), slice_bytes(previous));
    match check_rule_all(rule, msgs, previous) {
        None => {
            proof {
                lemma_first_fault_none(faults);
            }
            Ok(())
        },
        Some(said) => {
            match first_rule_fault(rule, msgs, previous) {
                Some((i, cause)) => {
                    proof {
                        lemma_first_fault_is(faults, i as int);
                    }
                    Err(blame(Phase::Chain, cause, i, msgs))
                },
                None => Err(
                    ValidationError::AggregateAttribution { phase: Phase::Chain, cause: said },
                ),
            }
        },
    }
}

/// The chain phase of an ordered batch by one author: every message must
/// follow the one before it, and the first must follow `previous`.
fn check_links(msgs: &Vec<Vec<u8>>, previous: Option<&[u8]>) -> (r: Result<(), ValidationError>)
    requires
        all_text(batch_bytes(msgs@)),
    ensures
        failure_of(r) == first_failure(
            Phase::Chain,
            link_faults(batch_bytes(msgs@), slice_bytes(previous)),
            batch_bytes(msgs@),
        ),
{
    let ghost batch = batch_bytes(msgs@);
    let ghost before = slice_bytes(previous);
    let ghost faults = link_faults(batch, before);
    if msgs.len() == 0 {
        proof {
            lemma_first_fault_none(faults);
        }
        return Ok(());
    }
    match previous {
        Some(p) => {
            if !is_text(p) {
                proof {
                    assert(faults[0] == Some(PREVIOUS_NOT_TEXT_CAUSE@));
                    lemma_first_fault_is(faults, 0);
                }
                return Err(blame(Phase::Chain, String::from_str(PREVIOUS_NOT_TEXT_CAUSE), 0, msgs));
            }
        },
        None => {},
    }
    proof {
        assert(faults =~= rule_verdicts(Rule::InOrder, batch, before)) by {
            assert forall|i: int| 0 <= i < batch.len() implies faults[i] == rule_verdicts(
                Rule::InOrder,
                batch,
                before,
            )[i] by {
                if i > 0 {
                    assert(valid_utf8(batch[i - 1]));
                }
            }
        }
    }
    check_by_rule(Rule::InOrder, msgs, previous)
}

/// The chain phase of a batch by several authors: every message by itself,
/// and every message as the successor of the latest earlier message of the
/// batch by the same author. The first message that fails either way is
/// blamed.
fn check_authors(msgs: &Vec<Vec<u8>>) -> (r: Result<(), ValidationError>)
    requires
        all_text(batch_bytes(msgs@)),
    ensures
        failure_of(r) == first_failure(
            Phase::Chain,
            member_faults(batch_bytes(msgs@)),
            batch_bytes(msgs@),
        ),
{
    let ghost batch = batch_bytes(msgs@);
    let ghost alone = rule_verdicts(Rule::Isolated, batch, None);
    let ghost faults = member_faults(batch);
    let located = match check_rule_all(Rule::Isolated, msgs, None) {
        Some(_) => first_rule_fault(Rule::Isolated, msgs, None),
        None => None,
    };
    let limit = match &located {
        Some((k, _)) => *k,
        None => msgs.len(),
    };
    proof {
        assert forall|j: int| 0 <= j < limit implies isolated_verdict(#[trigger] msgs@[j]@) is None by {
            assert(alone[j] == isolated_verdict(batch[j]));
        }
    }
    match first_author_fault(msgs, limit) {
        Some((j, cause)) => {
            proof {
                lemma_first_fault_is(faults, j as int);
                assert(alone[j as int] == isolated_verdict(batch[j as int]));
            }
            Err(blame(Phase::Chain, cause, j, msgs))
        },
        None => {
            match located {
                Some((k, cause)) => {
                    proof {
                        assert(alone[k as int] == isolated_verdict(batch[k as int]));
                        assert(faults[k as int] == Some(cause@));
                        assert(is_first_fault(faults, k as int));
                        lemma_first_fault_is(faults, k as int);
                    }
                    Err(blame(Phase::Chain, cause, k, msgs))
                },
                None => {
                    proof {
                        lemma_first_fault_none(faults);
                    }
                    Ok(())
                },
            }
        },
    }
}

/// The chain phase of a batch in a mode. It passes exactly when no message
/// has a chain fault; otherwise the first message that has one is blamed,
/// with its own cause.
pub fn check_chain(mode: Mode, msgs: &Vec<Vec<u8>>, previous: Option<&[u8]>) -> (r: Result<
    (),
    ValidationError,
>)
    requires
        all_text(batch_bytes(msgs@)),
    ensures
        failure_of(r) == chain_phase(mode, batch_bytes(msgs@), slice_bytes(previous)),
        r is Ok <==> faultless(chain_faults(mode, batch_bytes(msgs@), slice_bytes(previous))),
{
    let ghost faults = chain_faults(mode, batch_bytes(msgs@), slice_bytes(previous));
    proof {
        lemma_first_fault(faults);
        if faultless(faults) {
            lemma_first_fault_none(faults);
        }
    }
    match mode {
        Mode::Signatures => Ok(()),
        Mode::Ordered => check_links(msgs, previous),
        Mode::OutOfOrder => check_by_rule(Rule::OutOfOrder, msgs, None),
        Mode::MultiAuthor => check_authors(msgs),
    }
}

fn as_slice_option(previous: &Option<Vec<u8>>) -> (r: Option<&[u8]>)
    ensures
        slice_bytes(r) == key_bytes(*previous),
{
    match previous {
        Some(p) => Some(p.as_slice()),
        None => None,
    }
}

/// Verifies the signatures of a batch, validates it in a mode, and returns
/// the keys of its messages in the order of the batch.
///
/// A refused key ends the call before any message is read. The chain is
/// checked only when the signature phase has passed, and the keys are
/// derived only when the chain has passed. A failure names one message: the
/// first that fails the phase alone. Acceptance needs the check of all
/// signatures to pass and every signature to verify alone.
pub fn validate_batch(mode: Mode, hmac_key: HmacKey, msgs: Vec<Vec<u8>>, previous: Option<Vec<u8>>) -> (r:
    Result<Vec<String>, ValidationError>)
    ensures
        match key_outcome(hmac_key) {
            Err(e) => keys_result(r) == Err::<Seq<Seq<char>>, Failure>(Failure::KeyFormat(e)),
            Ok(mac) => batch_contract(
                mode,
                batch_bytes(msgs@),
                key_bytes(previous),
                mac,
                keys_result(r),
            ),
        },
        r matches Ok(keys) ==> keys@.len() == msgs@.len(),
{
    let mac = match is_valid_hmac_key(hmac_key) {
        Ok(key) => key,
        Err(e) => {
            return Err(ValidationError::KeyFormat(e));
        },
    };
    let ghost batch = batch_bytes(msgs@);
    let ghost before = key_bytes(previous);
    let ghost key = key_bytes(mac);
    let checked = check_signatures(&msgs, &mac);
    let ghost signatures = choose|a: Option<Seq<char>>|
        failure_of(checked) == #[trigger] signature_phase(batch, key, a);
    match checked {
        Err(e) => {
            assert(keys_result(Err(e)) == batch_outcome(mode, batch, before, key, signatures));
            Err(e)
        },
        Ok(()) => {
            proof {
                lemma_valid_is_shapely(batch, key);
                lemma_shapely(batch);
            }
            match check_chain(mode, &msgs, as_slice_option(&previous)) {
                Err(e) => {
                    assert(keys_result(Err(e)) == batch_outcome(
                        mode,
                        batch,
                        before,
                        key,
                        signatures,
                    ));
                    Err(e)
                },
                Ok(()) => {
                    let keys = hash(&msgs);
                    assert(keys_result(Ok(keys)) == batch_outcome(
                        mode,
                        batch,
                        before,
                        key,
                        signatures,
                    ));
                    Ok(keys)
                },
            }
        },
    }
}

/// Verifies the signatures of a batch of messages and returns their keys, in
/// the order of the batch. The chain is not checked. Acceptance needs the
/// check of all signatures to pass and every signature to verify alone.
pub fn verify_messages(hmac_key: HmacKey, msgs: Vec<Vec<u8>>) -> (r: Result<
    Vec<String>,
    ValidationError,
>)
    ensures
        match key_outcome(hmac_key) {
            Err(e) => keys_result(r) == Err::<Seq<Seq<char>>, Failure>(Failure::KeyFormat(e)),
            Ok(mac) => batch_contract(
                Mode::Signatures,
                batch_bytes(msgs@),
                None,
                mac,
                keys_result(r),
            ),
        },
        r matches Ok(keys) ==> keys@.len() == msgs@.len(),
{
    validate_batch(Mode::Signatures, hmac_key, msgs, None)
}

/// Verifies the signature of one message, validates it against its
/// predecessor in the feed, and returns its key. Without a predecessor the
/// message must be the first of its feed.
pub fn verify_validate_message(hmac_key: HmacKey, msg_value: Vec<u8>, previous: Option<Vec<u8>>) -> (r:
    Result<String, ValidationError>)
    ensures
        match key_outcome(hmac_key) {
            Err(e) => key_result(r) == Err::<Seq<char>, Failure>(Failure::KeyFormat(e)),
            Ok(mac) => key_result(r) == single_outcome(msg_value@, key_bytes(previous), mac),
        },
{
    let mac = match is_valid_hmac_key(hmac_key) {
        Ok(key) => key,
        Err(e) => {
            return Err(ValidationError::KeyFormat(e));
        },
    };
    let msg = msg_value.as_slice();
    match verify(msg, &mac) {
        Err(error) => {
            return Err(ValidationError::Signature { error, offender: 0, content: message_text(msg) });
        },
        Ok(()) => {},
    }
    match validate_in_order(msg, as_slice_option(&previous)) {
        Err(error) => {
            return Err(ValidationError::Chain { error, offender: 0, content: message_text(msg) });
        },
        Ok(()) => {},
    }
    Ok(derive_key(msg))
}

/// Verifies the signatures of an ordered batch of messages by one author,
/// validates its hash chain, and returns the keys in the order of the batch.
/// The first message must follow `previous`; without it, the first message
/// must be the first of its feed. Acceptance needs the check of all
/// signatures to pass and every signature to verify alone.
pub fn verify_validate_messages(hmac_key: HmacKey, msgs: Vec<Vec<u8>>, previous: Option<Vec<u8>>) -> (r:
    Result<Vec<String>, ValidationError>)
    ensures
        match key_outcome(hmac_key) {
            Err(e) => keys_result(r) == Err::<Seq<Seq<char>>, Failure>(Failure::KeyFormat(e)),
            Ok(mac) => batch_contract(
                Mode::Ordered,
                batch_bytes(msgs@),
                key_bytes(previous),
                mac,
                keys_result(r),
            ),
        },
        r matches Ok(keys) ==> keys@.len() == msgs@.len(),
{
    validate_batch(Mode::Ordered, hmac_key, msgs, previous)
}

/// Verifies the signatures of a batch of messages by one author that may be
/// out of order, validates each message by itself and that the author does
/// not change from one message to the next, and returns the keys in the
/// order of the batch. Acceptance needs the check of all signatures to pass
/// and every signature to verify alone.
pub fn verify_validate_out_of_order_messages(hmac_key: HmacKey, msgs: Vec<Vec<u8>>) -> (r: Result<
    Vec<String>,
    ValidationError,
>)
    ensures
        match key_outcome(hmac_key) {
            Err(e) => keys_result(r) == Err::<Seq<Seq<char>>, Failure>(Failure::KeyFormat(e)),
            Ok(mac) => batch_contract(
                Mode::OutOfOrder,
                batch_bytes(msgs@),
                None,
                mac,
                keys_result(r),
            ),
        },
        r matches Ok(keys) ==> keys@.len() == msgs@.len(),
{
    validate_batch(Mode::OutOfOrder, hmac_key, msgs, None)
}

/// Verifies the signatures of a batch of messages by several authors,
/// validates each message by itself and in the chain of its author within
/// the batch, and returns the keys in the order of the batch. The chain of
/// an author starts anew at the first message of that author in the batch.
/// Acceptance needs the check of all signatures to pass and every signature
/// to verify alone.
pub fn verify_validate_multi_author_messages(hmac_key: HmacKey, msgs: Vec<Vec<u8>>) -> (r: Result<
    Vec<String>,
    ValidationError,
>)
    ensures
        match key_outcome(hmac_key) {
            Err(e) => keys_result(r) == Err::<Seq<Seq<char>>, Failure>(Failure::KeyFormat(e)),
            Ok(mac) => batch_contract(
                Mode::MultiAuthor,
                batch_bytes(msgs@),
                None,
                mac,
                keys_result(r),
            ),
        },
        r matches Ok(keys) ==> keys@.len() == msgs@.len(),
{
    validate_batch(Mode::MultiAuthor, hmac_key, msgs, None)
}

} // verus!

//! Laws of the operations, stated of every result that meets their
//! contracts.

use crate::batch::{batch_contract, chain_faults, single_outcome, Mode};
use crate::chain::{author_of, chain_verdict, link_fault, link_faults, rule_verdicts, Rule};
use crate::feed::{feed_predecessor, latest_by_author, member_faults};
use crate::hmac::{base64_key, key_outcome, HmacKey, KeyFormatError, MAC_KEY_LEN, NO_KEY};
use crate::key::{keys_of, message_key};
use crate::locate::{faultless, is_first_fault, lemma_first_fault_is, lemma_first_fault_none};
use crate::report::{failure_at, report_text, Failure, Phase};
use crate::signature::{signature_fault, signature_faults};
use crate::text::text_of;
use vstd::prelude::*;

verus! {

/// Whether a call failed because the check of all signatures failed though
/// every signature verifies alone.
pub open spec fn unattributed<T>(r: Result<T, Failure>) -> bool {
    r matches Err(Failure::AggregateAttribution { phase, cause }) && phase == Phase::Signature
}

/// The key of a message depends on its bytes alone: messages with the same
/// bytes have the same key, and batches with the same messages have the same
/// keys in the same order.
pub proof fn law_key_is_determined(a: Seq<Seq<u8>>, b: Seq<Seq<u8>>)
    requires
        a.len() == b.len(),
        forall|i: int| 0 <= i < a.len() ==> a[i] =~= b[i],
    ensures
        forall|i: int| 0 <= i < a.len() ==> message_key(a[i]) == message_key(b[i]),
        keys_of(a) == keys_of(b),
{
    assert forall|i: int| 0 <= i < a.len() implies message_key(a[i]) == message_key(b[i]) by {
        assert(a[i] == b[i]);
    }
    assert(keys_of(a) =~= keys_of(b));
}

/// The word `none` always means that no key is used, whatever it decodes to.
pub proof fn law_sentinel_means_no_key(s: String)
    requires
        s@ == NO_KEY@,
    ensures
        key_outcome(HmacKey::Str(s)) == Ok::<Option<Seq<u8>>, KeyFormatError>(None),
{
}

/// A buffer of any length but 32 is refused.
pub proof fn law_wrong_length_is_refused(bytes: Vec<u8>)
    requires
        bytes@.len() != MAC_KEY_LEN,
    ensures
        key_outcome(HmacKey::Buf(bytes)) == Err::<Option<Seq<u8>>, KeyFormatError>(
            KeyFormatError::ByteLength,
        ),
{
}

/// A buffer of 32 bytes and a string that is the base64 form of those bytes
/// normalise to the same key.
pub proof fn law_key_forms_agree(bytes: Vec<u8>, s: String)
    requires
        bytes@.len() == MAC_KEY_LEN,
        base64_key(s@) == Some(bytes@),
        s@ != NO_KEY@,
    ensures
        key_outcome(HmacKey::Buf(bytes)) == key_outcome(HmacKey::Str(s)),
        key_outcome(HmacKey::Str(s)) == Ok::<Option<Seq<u8>>, KeyFormatError>(Some(bytes@)),
{
}

/// A batch is accepted only when every signature verifies alone and no
/// message has a chain fault, and what comes back then is the keys of the
/// messages in the order of the batch.
pub proof fn law_acceptance_means_valid(
    mode: Mode,
    msgs: Seq<Seq<u8>>,
    previous: Option<Seq<u8>>,
    mac: Option<Seq<u8>>,
    r: Result<Seq<Seq<char>>, Failure>,
)
    requires
        batch_contract(mode, msgs, previous, mac, r),
        r is Ok,
    ensures
        faultless(signature_faults(msgs, mac)),
        faultless(chain_faults(mode, msgs, previous)),
        r == Ok::<Seq<Seq<char>>, Failure>(keys_of(msgs)),
{
}

/// A batch in which every signature verifies alone and no message has a
/// chain fault yields its keys, unless the check of all signatures fails.
pub proof fn law_success_is_owed(
    mode: Mode,
    msgs: Seq<Seq<u8>>,
    previous: Option<Seq<u8>>,
    mac: Option<Seq<u8>>,
    r: Result<Seq<Seq<char>>, Failure>,
)
    requires
        batch_contract(mode, msgs, previous, mac, r),
        faultless(signature_faults(msgs, mac)),
        faultless(chain_faults(mode, msgs, previous)),
    ensures
        r == Ok::<Seq<Seq<char>>, Failure>(keys_of(msgs)) || unattributed(r),
{
    lemma_first_fault_none(signature_faults(msgs, mac));
    lemma_first_fault_none(chain_faults(mode, msgs, previous));
}

/// A batch that holds a message whose signature fails alone is refused, in
/// every mode and whatever the check of all signatures says. The report
/// blames the first such message, with its own cause, and quotes it.
pub proof fn law_tampering_is_refused(
    mode: Mode,
    msgs: Seq<Seq<u8>>,
    previous: Option<Seq<u8>>,
    mac: Option<Seq<u8>>,
    r: Result<Seq<Seq<char>>, Failure>,
    k: int,
)
    requires
        batch_contract(mode, msgs, previous, mac, r),
        is_first_fault(signature_faults(msgs, mac), k),
    ensures
        r == Err::<Seq<Seq<char>>, Failure>(
            Failure::Signature {
                cause: signature_fault(msgs[k], mac)->0,
                offender: k,
                content: text_of(msgs[k]),
            },
        ),
        r->Err_0.text() == report_text(signature_fault(msgs[k], mac)->0, text_of(msgs[k])),
{
    lemma_first_fault_is(signature_faults(msgs, mac), k);
}

/// In a batch whose signatures verify alone, the first message with a chain
/// fault is the one blamed, with its own cause, and the one quoted, unless
/// the check of all signatures fails.
pub proof fn law_chain_offender(
    mode: Mode,
    msgs: Seq<Seq<u8>>,
    previous: Option<Seq<u8>>,
    mac: Option<Seq<u8>>,
    r: Result<Seq<Seq<char>>, Failure>,
    k: int,
)
    requires
        batch_contract(mode, msgs, previous, mac, r),
        faultless(signature_faults(msgs, mac)),
        is_first_fault(chain_faults(mode, msgs, previous), k),
    ensures
        unattributed(r) || r == Err::<Seq<Seq<char>>, Failure>(
            Failure::Chain {
                cause: chain_faults(mode, msgs, previous)[k]->0,
                offender: k,
                content: text_of(msgs[k]),
            },
        ),
{
    lemma_first_fault_none(signature_faults(msgs, mac));
    lemma_first_fault_is(chain_faults(mode, msgs, previous), k);
}

/// Two messages whose signatures verify alone, of which the second follows
/// the first and the first follows what the caller supplied, pass as an
/// ordered batch, and their two keys come back in the order of the batch,
/// unless the check of all signatures fails.
pub proof fn law_chain_validity(
    m1: Seq<u8>,
    m2: Seq<u8>,
    previous: Option<Seq<u8>>,
    mac: Option<Seq<u8>>,
    r: Result<Seq<Seq<char>>, Failure>,
)
    requires
        batch_contract(Mode::Ordered, seq![m1, m2], previous, mac, r),
        signature_fault(m1, mac) is None,
        signature_fault(m2, mac) is None,
        link_fault(m1, previous) is None,
        link_fault(m2, Some(m1)) is None,
    ensures
        r == Ok::<Seq<Seq<char>>, Failure>(seq![message_key(m1), message_key(m2)]) || unattributed(
            r,
        ),
{
    let msgs = seq![m1, m2];
    assert(faultless(signature_faults(msgs, mac)));
    assert(faultless(link_faults(msgs, previous)));
    assert(keys_of(msgs) =~= seq![message_key(m1), message_key(m2)]);
    law_success_is_owed(Mode::Ordered, msgs, previous, mac, r);
}

/// Two messages whose signatures verify alone, of which the second does not
/// follow the first, pass the check of signatures alone and fail as an
/// ordered batch: the report has the cause of the broken link and quotes
/// the second message. Either holds unless the check of all signatures
/// fails.
pub proof fn law_broken_link_passes_signatures_only(
    m1: Seq<u8>,
    m2: Seq<u8>,
    previous: Option<Seq<u8>>,
    mac: Option<Seq<u8>>,
    signed: Result<Seq<Seq<char>>, Failure>,
    chained: Result<Seq<Seq<char>>, Failure>,
)
    requires
        batch_contract(Mode::Signatures, seq![m1, m2], None, mac, signed),
        batch_contract(Mode::Ordered, seq![m1, m2], previous, mac, chained),
        signature_fault(m1, mac) is None,
        signature_fault(m2, mac) is None,
        link_fault(m1, previous) is None,
        link_fault(m2, Some(m1)) is Some,
    ensures
        signed == Ok::<Seq<Seq<char>>, Failure>(seq![message_key(m1), message_key(m2)])
            || unattributed(signed),
        unattributed(chained) || chained == Err::<Seq<Seq<char>>, Failure>(
            Failure::Chain {
                cause: link_fault(m2, Some(m1))->0,
                offender: 1,
                content: text_of(m2),
            },
        ),
{
    let msgs = seq![m1, m2];
    assert(faultless(signature_faults(msgs, mac)));
    assert(faultless(chain_faults(Mode::Signatures, msgs, None)));
    assert(keys_of(msgs) =~= seq![message_key(m1), message_key(m2)]);
    law_success_is_owed(Mode::Signatures, msgs, None, mac, signed);
    let faults = link_faults(msgs, previous);
    assert(faults[1] == link_fault(m2, Some(m1)));
    assert(is_first_fault(faults, 1));
    law_chain_offender(Mode::Ordered, msgs, previous, mac, chained, 1);
}

/// A batch whose signatures verify alone and whose messages each pass the
/// out-of-order rule passes as an out-of-order batch, in whatever order the
/// messages stand and whatever the in-order rule would say of them, unless
/// the check of all signatures fails.
pub proof fn law_out_of_order_acceptance(
    msgs: Seq<Seq<u8>>,
    mac: Option<Seq<u8>>,
    r: Result<Seq<Seq<char>>, Failure>,
)
    requires
        batch_contract(Mode::OutOfOrder, msgs, None, mac, r),
        faultless(signature_faults(msgs, mac)),
        faultless(rule_verdicts(Rule::OutOfOrder, msgs, None)),
    ensures
        r == Ok::<Seq<Seq<char>>, Failure>(keys_of(msgs)) || unattributed(r),
{
    law_success_is_owed(Mode::OutOfOrder, msgs, None, mac, r);
}

/// Two chains of two messages each, by two authors and interleaved, pass as
/// a batch by several authors: each message is held against the chain of its
/// own author only. As an ordered batch by one author they fail at the
/// second message, which is the one quoted. Either holds unless the check of
/// all signatures fails.
pub proof fn law_authors_are_independent(
    a1: Seq<u8>,
    b1: Seq<u8>,
    a2: Seq<u8>,
    b2: Seq<u8>,
    mac: Option<Seq<u8>>,
    several: Result<Seq<Seq<char>>, Failure>,
    single: Result<Seq<Seq<char>>, Failure>,
)
    requires
        batch_contract(Mode::MultiAuthor, seq![a1, b1, a2, b2], None, mac, several),
        batch_contract(Mode::Ordered, seq![a1, b1, a2, b2], None, mac, single),
        author_of(a1) is Some,
        author_of(b1) is Some,
        author_of(a1) == author_of(a2),
        author_of(b1) == author_of(b2),
        author_of(a1) != author_of(b1),
        faultless(signature_faults(seq![a1, b1, a2, b2], mac)),
        faultless(rule_verdicts(Rule::Isolated, seq![a1, b1, a2, b2], None)),
        chain_verdict(a2, Some(a1)) is None,
        chain_verdict(b2, Some(b1)) is None,
        link_fault(a1, None) is None,
        link_fault(b1, Some(a1)) is Some,
    ensures
        several == Ok::<Seq<Seq<char>>, Failure>(keys_of(seq![a1, b1, a2, b2])) || unattributed(
            several,
        ),
        unattributed(single) || single == Err::<Seq<Seq<char>>, Failure>(
            Failure::Chain {
                cause: link_fault(b1, Some(a1))->0,
                offender: 1,
                content: text_of(b1),
            },
        ),
{
    let msgs = seq![a1, b1, a2, b2];
    let alone = rule_verdicts(Rule::Isolated, msgs, None);
    reveal_with_fuel(latest_by_author, 5);
    assert(feed_predecessor(msgs, 0) is None);
    assert(feed_predecessor(msgs, 1) is None);
    assert(feed_predecessor(msgs, 2) == Some(0int));
    assert(feed_predecessor(msgs, 3) == Some(1int));
    assert forall|i: int| 0 <= i < 4 implies (#[trigger] member_faults(msgs)[i]) is None by {
        assert(alone[i] is None);
    }
    assert(faultless(chain_faults(Mode::MultiAuthor, msgs, None)));
    law_success_is_owed(Mode::MultiAuthor, msgs, None, mac, several);
    let faults = link_faults(msgs, None);
    assert(faults[1] == link_fault(b1, Some(a1)));
    assert(is_first_fault(faults, 1));
    law_chain_offender(Mode::Ordered, msgs, None, mac, single, 1);
}

/// An ordered batch of one message fares as the message does alone: the
/// same key, or the same cause and the same quoted text, unless the check of
/// all signatures fails though the signature verifies alone.
pub proof fn law_batch_of_one(
    m: Seq<u8>,
    previous: Option<Seq<u8>>,
    mac: Option<Seq<u8>>,
    r: Result<Seq<Seq<char>>, Failure>,
)
    requires
        batch_contract(Mode::Ordered, seq![m], previous, mac, r),
    ensures
        unattributed(r) || r == (match single_outcome(m, previous, mac) {
            Ok(key) => Ok::<Seq<Seq<char>>, Failure>(seq![key]),
            Err(f) => Err(f),
        }),
{
    let msgs = seq![m];
    let signed = signature_faults(msgs, mac);
    let linked = link_faults(msgs, previous);
    assert(signed[0] == signature_fault(m, mac));
    assert(linked[0] == link_fault(m, previous));
    assert(keys_of(msgs) =~= seq![message_key(m)]);
    if signature_fault(m, mac) is Some {
        assert(is_first_fault(signed, 0));
        law_tampering_is_refused(Mode::Ordered, msgs, previous, mac, r, 0);
    } else {
        assert(faultless(signed));
        if link_fault(m, previous) is Some {
            assert(is_first_fault(linked, 0));
            law_chain_offender(Mode::Ordered, msgs, previous, mac, r, 0);
        } else {
            assert(faultless(linked));
            law_success_is_owed(Mode::Ordered, msgs, previous, mac, r);
        }
    }
}

/// Whether a batch of signatures is accepted does not depend on the order
/// of its messages, mode by mode, unless the check of all signatures fails
/// though every signature verifies alone.
pub proof fn law_order_does_not_matter_to_signatures(
    a: Seq<Seq<u8>>,
    b: Seq<Seq<u8>>,
    mac: Option<Seq<u8>>,
    ra: Result<Seq<Seq<char>>, Failure>,
    rb: Result<Seq<Seq<char>>, Failure>,
)
    requires
        batch_contract(Mode::Signatures, a, None, mac, ra),
        batch_contract(Mode::Signatures, b, None, mac, rb),
        forall|i: int| 0 <= i < b.len() ==> exists|j: int| 0 <= j < a.len() && a[j] == #[trigger] b[i],
        ra is Ok,
    ensures
        rb == Ok::<Seq<Seq<char>>, Failure>(keys_of(b)) || unattributed(rb),
{
    let fa = signature_faults(a, mac);
    let fb = signature_faults(b, mac);
    assert forall|i: int| 0 <= i < fb.len() implies (#[trigger] fb[i]) is None by {
        let j = choose|j: int| 0 <= j < a.len() && a[j] == b[i];
        assert(fa[j] is None);
    }
    assert(faultless(chain_faults(Mode::Signatures, b, None)));
    law_success_is_owed(Mode::Signatures, b, None, mac, rb);
}

/// The report on a blamed message opens with the fixed words, names the
/// cause, and ends with the text of that message.
pub proof fn law_report_quotes_the_offender(phase: Phase, cause: Seq<char>, k: int, msgs: Seq<Seq<u8>>)
    ensures
        failure_at(phase, cause, k, msgs).text() == report_text(cause, text_of(msgs[k])),
{
}

} // verus!

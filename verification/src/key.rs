//! Canonical key derivation: the content address of a message.

use vstd::prelude::*;
use vstd::utf8::*;

verus! {

/// The key of a message: the legacy text form of the SHA-256 multihash of its
/// bytes, as `ssb_validate` and `ssb_multiformats` compute it.
pub uninterp spec fn message_key(msg: Seq<u8>) -> Seq<char>;

/// Calls `ssb_validate::utils::multihash_from_bytes` and renders the digest
/// with `Multihash::to_legacy_string`. The result depends on the bytes alone.
/// The outside function decodes the bytes as UTF-8 and panics when that
/// fails, hence the precondition.
#[verifier::external_body]
fn legacy_key_string(msg: &[u8]) -> (key: String)
    requires
        valid_utf8(msg@),
    ensures
        key@ == message_key(msg@),
{
    ssb_validate::utils::multihash_from_bytes(msg).to_legacy_string()
}

/// Derives the key of one message.
pub fn derive_key(msg: &[u8]) -> (key: String)
    requires
        valid_utf8(msg@),
    ensures
        key@ == message_key(msg@),
{
    legacy_key_string(msg)
}

/// The keys of a batch, one per message, in the order of the batch.
pub open spec fn keys_of(msgs: Seq<Seq<u8>>) -> Seq<Seq<char>> {
    Seq::new(msgs.len(), |i: int| message_key(msgs[i]))
}

/// The byte sequences of a batch of messages.
pub open spec fn batch_bytes(msgs: Seq<Vec<u8>>) -> Seq<Seq<u8>> {
    Seq::new(msgs.len(), |i: int| msgs[i]@)
}

/// The character sequences of a list of strings.
pub open spec fn texts_of(strings: Seq<String>) -> Seq<Seq<char>> {
    Seq::new(strings.len(), |i: int| strings[i]@)
}

/// Whether every message of a batch is well-formed UTF-8.
pub open spec fn all_text(msgs: Seq<Seq<u8>>) -> bool {
    forall|i: int| 0 <= i < msgs.len() ==> valid_utf8(#[trigger] msgs[i])
}

/// Derives the key of every message of a batch, preserving order.
pub fn hash(msgs: &Vec<Vec<u8>>) -> (keys: Vec<String>)
    requires
        all_text(batch_bytes(msgs@)),
    ensures
        keys@.len() == msgs@.len(),
        texts_of(keys@) == keys_of(batch_bytes(msgs@)),
{
    let mut keys: Vec<String> = Vec::new();
    let mut i: usize = 0;
    while i < msgs.len()
        invariant
            i <= msgs.len(),
            all_text(batch_bytes(msgs@)),
            keys@.len() == i,
            forall|j: int| 0 <= j < i ==> (#[trigger] keys@[j])@ == message_key(msgs@[j]@),
        decreases msgs.len() - i,
    {
        assert(valid_utf8(batch_bytes(msgs@)[i as int]));
        let key = derive_key(msgs[i].as_slice());
        keys.push(key);
        i = i + 1;
    }
    assert(texts_of(keys@) =~= keys_of(batch_bytes(msgs@)));
    keys
}

} // verus!

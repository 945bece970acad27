//! Chains within a batch: which message of a batch is the first to break a
//! rule, and the chains of a batch by several authors.

use crate::chain::{
    author_of, chain_verdict, check_rule, isolated_verdict, outside_author, predecessor,
    rule_verdict, rule_verdicts, slice_bytes, Rule,
};
use crate::key::{all_text, batch_bytes};
use crate::locate::{faultless, is_first_fault};
use crate::signature::option_text;
use vstd::prelude::*;
use vstd::utf8::*;

verus! {

/// Finds the first message of a batch that a rule refuses, and the cause.
/// The message before it serves as its predecessor, and `previous` as that
/// of the first.
pub fn first_rule_fault(rule: Rule, msgs: &Vec<Vec<u8>>, previous: Option<&[u8]>) -> (r: Option<
    (usize, String),
>)
    requires
        rule == Rule::InOrder ==> all_text(batch_bytes(msgs@)),
        rule == Rule::InOrder && previous is Some ==> valid_utf8(previous->0@),
    ensures
        match r {
            Some((i, cause)) => is_first_fault(
                rule_verdicts(rule, batch_bytes(msgs@), slice_bytes(previous)),
                i as int,
            ) && rule_verdicts(rule, batch_bytes(msgs@), slice_bytes(previous))[i as int] == Some(
                cause@,
            ),
            None => faultless(rule_verdicts(rule, batch_bytes(msgs@), slice_bytes(previous))),
        },
{
    let ghost batch = batch_bytes(msgs@);
    let ghost verdicts = rule_verdicts(rule, batch, slice_bytes(previous));
    let mut i: usize = 0;
    while i < msgs.len()
        invariant
            i <= msgs.len(),
            batch == batch_bytes(msgs@),
            rule == Rule::InOrder ==> all_text(batch),
            rule == Rule::InOrder && previous is Some ==> valid_utf8(previous->0@),
            verdicts == rule_verdicts(rule, batch, slice_bytes(previous)),
            forall|j: int| 0 <= j < i ==> (#[trigger] verdicts[j]) is None,
        decreases msgs.len() - i,
    {
        let before: Option<&[u8]> = if i == 0 {
            previous
        } else {
            Some(msgs[i - 1].as_slice())
        };
        proof {
            if rule == Rule::InOrder && i > 0 {
                assert(valid_utf8(batch[i - 1]));
            }
            assert(slice_bytes(before) == predecessor(batch, slice_bytes(previous), i as int));
            assert(verdicts[i as int] == rule_verdict(rule, batch[i as int], slice_bytes(before)));
        }
        match check_rule(rule, msgs[i].as_slice(), before) {
            Some(cause) => {
                return Some((i, cause));
            },
            None => {},
        }
        i = i + 1;
    }
    None
}

/// Whether two messages name the same author.
pub open spec fn same_author(a: Seq<u8>, b: Seq<u8>) -> bool {
    author_of(a) is Some && author_of(a) == author_of(b)
}

/// The latest position before `j` whose message has the author of the
/// message at `i`.
pub open spec fn latest_by_author(msgs: Seq<Seq<u8>>, i: int, j: int) -> Option<int>
    decreases j,
{
    if j <= 0 {
        None
    } else if same_author(msgs[j - 1], msgs[i]) {
        Some(j - 1)
    } else {
        latest_by_author(msgs, i, j - 1)
    }
}

/// The position of the predecessor of the message at `i` within a batch by
/// several authors: the latest earlier message by the same author.
pub open spec fn feed_predecessor(msgs: Seq<Seq<u8>>, i: int) -> Option<int> {
    latest_by_author(msgs, i, i)
}

/// The fault of the message at `i` in the chain of its author within the
/// batch: what the in-order rule decides of it and its predecessor there. The
/// first message of an author in the batch has no predecessor and no fault.
pub open spec fn author_fault(msgs: Seq<Seq<u8>>, i: int) -> Option<Seq<char>> {
    match feed_predecessor(msgs, i) {
        Some(j) => chain_verdict(msgs[i], Some(msgs[j])),
        None => None,
    }
}

/// The fault of the message at `i` as a member of a batch by several
/// authors: what the isolated rule decides of it, or else its fault in the
/// chain of its author.
pub open spec fn member_fault(msgs: Seq<Seq<u8>>, i: int) -> Option<Seq<char>> {
    match isolated_verdict(msgs[i]) {
        Some(cause) => Some(cause),
        None => author_fault(msgs, i),
    }
}

/// The faults of a batch by several authors, message by message.
pub open spec fn member_faults(msgs: Seq<Seq<u8>>) -> Seq<Option<Seq<char>>> {
    Seq::new(msgs.len(), |i: int| member_fault(msgs, i))
}

/// The authors of a batch, message by message.
pub open spec fn authors_match(authors: Seq<Option<String>>, msgs: Seq<Seq<u8>>) -> bool {
    &&& authors.len() == msgs.len()
    &&& forall|k: int| 0 <= k < msgs.len() ==> option_text(#[trigger] authors[k]) == author_of(msgs[k])
}

/// Reads the author of every message of a batch.
pub fn authors_of(msgs: &Vec<Vec<u8>>) -> (authors: Vec<Option<String>>)
    ensures
        authors_match(authors@, batch_bytes(msgs@)),
{
    let mut authors: Vec<Option<String>> = Vec::new();
    let mut i: usize = 0;
    while i < msgs.len()
        invariant
            i <= msgs.len(),
            authors@.len() == i,
            forall|k: int| 0 <= k < i ==> option_text(#[trigger] authors@[k]) == author_of(msgs@[k]@),
        decreases msgs.len() - i,
    {
        authors.push(outside_author(msgs[i].as_slice()));
        i = i + 1;
    }
    authors
}

fn is_same_author(a: &Option<String>, b: &Option<String>) -> (r: bool)
    ensures
        r == (option_text(*a) is Some && option_text(*a) == option_text(*b)),
{
    match a {
        Some(x) => match b {
            Some(y) => *x == *y,
            None => false,
        },
        None => false,
    }
}

/// Finds the predecessor of the message at `i` within a batch by several
/// authors.
fn feed_predecessor_at(authors: &Vec<Option<String>>, i: usize, Ghost(msgs): Ghost<
    Seq<Seq<u8>>,
>) -> (r: Option<usize>)
    requires
        authors_match(authors@, msgs),
        i < authors@.len(),
    ensures
        match r {
            Some(j) => feed_predecessor(msgs, i as int) == Some(j as int) && j < i,
            None => feed_predecessor(msgs, i as int) is None,
        },
{
    let mut j: usize = i;
    while j > 0
        invariant
            j <= i < authors@.len(),
            authors_match(authors@, msgs),
            feed_predecessor(msgs, i as int) == latest_by_author(msgs, i as int, j as int),
        decreases j,
    {
        if is_same_author(&authors[j - 1], &authors[i]) {
            return Some(j - 1);
        }
        j = j - 1;
    }
    None
}

/// Finds the first message among the first `limit` of a batch by several
/// authors that breaks the chain of its author within the batch, and the
/// cause. Each of those messages must pass the isolated rule.
pub fn first_author_fault(msgs: &Vec<Vec<u8>>, limit: usize) -> (r: Option<(usize, String)>)
    requires
        all_text(batch_bytes(msgs@)),
        limit <= msgs@.len(),
        forall|j: int| 0 <= j < limit ==> isolated_verdict(#[trigger] msgs@[j]@) is None,
    ensures
        match r {
            Some((i, cause)) => i < limit && is_first_fault(
                member_faults(batch_bytes(msgs@)),
                i as int,
            ) && author_fault(batch_bytes(msgs@), i as int) == Some(cause@),
            None => forall|j: int|
                0 <= j < limit ==> (#[trigger] member_faults(batch_bytes(msgs@))[j]) is None,
        },
{
    let ghost batch = batch_bytes(msgs@);
    let ghost faults = member_faults(batch);
    let authors = authors_of(msgs);
    let mut i: usize = 0;
    while i < limit
        invariant
            i <= limit <= msgs@.len(),
            batch == batch_bytes(msgs@),
            all_text(batch),
            forall|j: int| 0 <= j < limit ==> isolated_verdict(#[trigger] msgs@[j]@) is None,
            authors_match(authors@, batch),
            faults == member_faults(batch),
            forall|j: int| 0 <= j < i ==> (#[trigger] faults[j]) is None,
        decreases limit - i,
    {
        proof {
            assert(isolated_verdict(msgs@[i as int]@) is None);
            assert(faults[i as int] == author_fault(batch, i as int));
        }
        match feed_predecessor_at(&authors, i, Ghost(batch)) {
            Some(j) => {
                assert(valid_utf8(batch[j as int]));
                match check_rule(Rule::InOrder, msgs[i].as_slice(), Some(msgs[j].as_slice())) {
                    Some(cause) => {
                        return Some((i, cause));
                    },
                    None => {},
                }
            },
            None => {},
        }
        i = i + 1;
    }
    None
}

} // verus!

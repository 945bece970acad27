//! The first offender of a batch: the least position at which a check
//! reports a fault.

use vstd::prelude::*;

verus! {

/// The least position from `k` on at which `faults` holds a fault.
pub open spec fn first_fault_from<T>(faults: Seq<Option<T>>, k: int) -> Option<int>
    decreases faults.len() - k,
{
    if k < 0 || k >= faults.len() {
        None
    } else if faults[k] is Some {
        Some(k)
    } else {
        first_fault_from(faults, k + 1)
    }
}

/// The least position at which `faults` holds a fault.
pub open spec fn first_fault<T>(faults: Seq<Option<T>>) -> Option<int> {
    first_fault_from(faults, 0)
}

/// Whether `faults` holds no fault at all.
pub open spec fn faultless<T>(faults: Seq<Option<T>>) -> bool {
    forall|j: int| 0 <= j < faults.len() ==> (#[trigger] faults[j]) is None
}

/// Whether `i` is the least position at which `faults` holds a fault.
pub open spec fn is_first_fault<T>(faults: Seq<Option<T>>, i: int) -> bool {
    &&& 0 <= i < faults.len()
    &&& faults[i] is Some
    &&& forall|j: int| 0 <= j < i ==> (#[trigger] faults[j]) is None
}

proof fn lemma_first_fault_from<T>(faults: Seq<Option<T>>, k: int, i: int)
    requires
        0 <= k <= i < faults.len(),
        faults[i] is Some,
        forall|j: int| k <= j < i ==> (#[trigger] faults[j]) is None,
    ensures
        first_fault_from(faults, k) == Some(i),
    decreases i - k,
{
    if k < i {
        lemma_first_fault_from(faults, k + 1, i);
    }
}

proof fn lemma_no_fault_from<T>(faults: Seq<Option<T>>, k: int)
    requires
        0 <= k,
        forall|j: int| k <= j < faults.len() ==> (#[trigger] faults[j]) is None,
    ensures
        first_fault_from(faults, k) is None,
    decreases faults.len() - k,
{
    if k < faults.len() {
        lemma_no_fault_from(faults, k + 1);
    }
}

proof fn lemma_first_fault_from_found<T>(faults: Seq<Option<T>>, k: int)
    requires
        0 <= k,
    ensures
        match first_fault_from(faults, k) {
            Some(i) => k <= i < faults.len() && faults[i] is Some && forall|j: int|
                k <= j < i ==> (#[trigger] faults[j]) is None,
            None => forall|j: int| k <= j < faults.len() ==> (#[trigger] faults[j]) is None,
        },
    decreases faults.len() - k,
{
    if k < faults.len() && faults[k] is None {
        lemma_first_fault_from_found(faults, k + 1);
    }
}

/// The least position with a fault is the first fault.
pub proof fn lemma_first_fault_is<T>(faults: Seq<Option<T>>, i: int)
    requires
        is_first_fault(faults, i),
    ensures
        first_fault(faults) == Some(i),
{
    lemma_first_fault_from(faults, 0, i);
}

/// A batch without faults has no first fault.
pub proof fn lemma_first_fault_none<T>(faults: Seq<Option<T>>)
    requires
        faultless(faults),
    ensures
        first_fault(faults) is None,
{
    lemma_no_fault_from(faults, 0);
}

/// What `first_fault` returns: the least position with a fault, or nothing
/// exactly when there is no fault.
pub proof fn lemma_first_fault<T>(faults: Seq<Option<T>>)
    ensures
        match first_fault(faults) {
            Some(i) => is_first_fault(faults, i),
            None => faultless(faults),
        },
{
    lemma_first_fault_from_found(faults, 0);
}

} // verus!

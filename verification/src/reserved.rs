//! Spare/reserved regions: every declared one must be all zero bytes.

use vstd::prelude::*;

use crate::DecodeError;

verus! {

/// Whether every byte of `s[from..to]` is zero.
pub open spec fn all_zero(s: Seq<u8>, from: int, to: int) -> bool {
    forall|j: int| from <= j < to ==> s[j] == 0
}

/// Offset of the first non-zero byte of `s[from..to]`, or `to` if the whole
/// region is zero.
pub open spec fn first_nonzero(s: Seq<u8>, from: int, to: int) -> int
    decreases to - from,
{
    if from >= to {
        to
    } else if s[from] != 0 {
        from
    } else {
        first_nonzero(s, from + 1, to)
    }
}

/// What a failed region check reports: the region was not all zero, and the
/// payload is the offset of its first non-zero byte.
pub open spec fn spec_check_zero(s: Seq<u8>, from: int, to: int) -> Result<(), DecodeError> {
    if all_zero(s, from, to) {
        Ok(())
    } else {
        Err(DecodeError::NonZeroReservedRegion(first_nonzero(s, from, to) as usize))
    }
}

proof fn lemma_first_nonzero(s: Seq<u8>, from: int, to: int)
    requires
        from <= to,
    ensures
        from <= first_nonzero(s, from, to) <= to,
        forall|j: int| from <= j < first_nonzero(s, from, to) ==> s[j] == 0,
        first_nonzero(s, from, to) < to ==> s[first_nonzero(s, from, to)] != 0,
    decreases to - from,
{
    if from < to && s[from] == 0 {
        lemma_first_nonzero(s, from + 1, to);
    }
}

/// Checks that the reserved region `data[from..to]` is all zero, reporting
/// the offset of the first offending byte otherwise.
pub fn check_zero_region(data: &[u8], from: usize, to: usize) -> (r: Result<(), DecodeError>)
    requires
        from <= to <= data@.len(),
    ensures
        r == spec_check_zero(data@, from as int, to as int),
{
    let mut i: usize = from;
    while i < to && data[i] == 0
        invariant
            from <= i <= to <= data@.len(),
            forall|j: int| from <= j < i ==> data@[j] == 0,
        decreases to - i,
    {
        i = i + 1;
    }
    proof {
        lemma_first_nonzero(data@, from as int, to as int);
        if i < to {
            assert(!all_zero(data@, from as int, to as int));
            if first_nonzero(data@, from as int, to as int) < i {
                assert(data@[first_nonzero(data@, from as int, to as int)] == 0);
            }
            assert(first_nonzero(data@, from as int, to as int) == i);
        }
    }
    if i < to {
        Err(DecodeError::NonZeroReservedRegion(i))
    } else {
        Ok(())
    }
}

} // verus!

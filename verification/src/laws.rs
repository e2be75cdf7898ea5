//! Crate-level guarantees proved from the decode specification.

use vstd::prelude::*;

use crate::header::version_recognized;
use crate::reserved::{all_zero, first_nonzero};
use crate::{result_models, spec_parse, DecodeError, ParsedSPC, ParsedV};

verus! {

/// Decoding is deterministic and side-effect-free: any two decode outcomes
/// of the same byte buffer are structurally equal — the same record, or the
/// same error.
pub proof fn lemma_parse_deterministic(
    s: Seq<u8>,
    r1: Result<ParsedSPC, DecodeError>,
    r2: Result<ParsedSPC, DecodeError>,
)
    requires
        result_models(r1, s),
        result_models(r2, s),
    ensures
        match (r1, r2) {
            (Ok(a), Ok(b)) => a@ == b@,
            (Err(a), Err(b)) => a == b,
            _ => false,
        },
{
}

/// A version byte outside the three recognized values fails the decode with
/// `UnrecognizedVersionByte` carrying that byte, before any field is
/// interpreted, whatever the rest of the buffer holds.
pub proof fn lemma_unrecognized_version_rejected(s: Seq<u8>)
    requires
        s.len() >= 2,
        !version_recognized(s[1]),
    ensures
        spec_parse(s) == Err::<ParsedV, DecodeError>(
            DecodeError::UnrecognizedVersionByte(s[1]),
        ),
{
}

/// A non-zero byte in the old-generation header's spare region fails the
/// decode with `NonZeroReservedRegion` naming the first offending offset,
/// whatever every other field holds.
pub proof fn lemma_old_spare_rejected(s: Seq<u8>)
    requires
        s.len() >= 224,
        s[1] == 0x4d,
        !all_zero(s, 36, 64),
    ensures
        spec_parse(s) == Err::<ParsedV, DecodeError>(
            DecodeError::NonZeroReservedRegion(first_nonzero(s, 36, 64) as usize),
        ),
{
}

/// A non-zero byte in either declared region of the new-generation header —
/// the spare floats or the reserved tail — fails the decode with
/// `NonZeroReservedRegion` naming the first offending offset, whatever
/// every other field holds.
pub proof fn lemma_new_reserved_rejected(s: Seq<u8>)
    requires
        s.len() >= 512,
        s[1] == 0x4b || s[1] == 0x4c,
        !all_zero(s, 56, 88) || !all_zero(s, 325, 512),
    ensures
        !all_zero(s, 56, 88) ==> spec_parse(s) == Err::<ParsedV, DecodeError>(
            DecodeError::NonZeroReservedRegion(first_nonzero(s, 56, 88) as usize),
        ),
        all_zero(s, 56, 88) ==> spec_parse(s) == Err::<ParsedV, DecodeError>(
            DecodeError::NonZeroReservedRegion(first_nonzero(s, 325, 512) as usize),
        ),
{
}

} // verus!

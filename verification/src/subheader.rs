//! The fixed 32-byte subheader that precedes each trace's samples.
//!
//! A subheader is required even for a single-trace file. Its flag byte may
//! only use bits 0, 3 and 7, and its 4-byte reserved tail must be zero.

use vstd::prelude::*;

use crate::cursor::{i8_of_u8, u16_at, u32_at, Endian, SPCFile};
use crate::reserved::{all_zero, first_nonzero};
use crate::DecodeError;

verus! {

/// The subheader's flag byte. Of its 8 bits only three are legal, from least
/// to most significant: bit 0 marks a changed subfile, bit 3 asks that the
/// peak table file not be used, bit 7 marks modification by arithmetic.
#[derive(Clone, Copy, Debug, PartialEq, Eq, Structural)]
pub struct SubFlagParameters(pub u8);

/// The mask of legal subheader flag bits.
pub open spec fn subflag_legal(b: u8) -> bool {
    b & 0b1000_1001 == b
}

impl SubFlagParameters {
    /// Validates the flag byte against the legal bitmask.
    pub fn new(b: u8) -> (r: Result<SubFlagParameters, DecodeError>)
        ensures
            match r {
                Ok(p) => subflag_legal(b) && p == SubFlagParameters(b),
                Err(e) => !subflag_legal(b) && e == DecodeError::InvalidSubheaderFlags(b),
            },
    {
        if b & 0b1000_1001 == b {
            Ok(SubFlagParameters(b))
        } else {
            Err(DecodeError::InvalidSubheaderFlags(b))
        }
    }
}

/// A decoded subheader. Floating-point fields carry their raw bit patterns.
///
/// A Y exponent of zero means "use the containing header's exponent"; that
/// resolution is left to the consumer. An exponent of -128 forces IEEE-float
/// samples for this subfile regardless of the header's precision.
#[derive(Clone, Copy, Debug, PartialEq, Eq, Structural)]
pub struct Subheader {
    pub parameters: SubFlagParameters,
    pub exponent_y: i8,
    pub index_number: u16,
    pub z_bits: u32,
    pub next_z_bits: u32,
    pub noise_bits: u32,
    pub number_points: u32,
    pub scan: u32,
    pub w_level_bits: u32,
}

impl Subheader {
    /// Whether this subfile's samples are IEEE floats regardless of the
    /// header's declared precision.
    pub open spec fn spec_float_data_expected(self) -> bool {
        self.exponent_y == -128
    }

    pub fn float_data_expected(&self) -> (r: bool)
        ensures
            r == self.spec_float_data_expected(),
    {
        self.exponent_y == -128
    }

    pub fn number_of_points(&self) -> (r: u32)
        ensures
            r == self.number_points,
    {
        self.number_points
    }
}

/// The subheader decoded from the 32 bytes at `off`, or the first error: a
/// buffer too short for the 32-byte record, an illegal flag byte, or a
/// non-zero byte in the reserved tail.
pub open spec fn spec_subheader(s: Seq<u8>, off: int, e: Endian) -> Result<Subheader, DecodeError> {
    if off + 32 > s.len() {
        Err(DecodeError::PrematureTermination)
    } else if !subflag_legal(s[off]) {
        Err(DecodeError::InvalidSubheaderFlags(s[off]))
    } else if !all_zero(s, off + 28, off + 32) {
        Err(DecodeError::NonZeroReservedRegion(first_nonzero(s, off + 28, off + 32) as usize))
    } else {
        Ok(
            Subheader {
                parameters: SubFlagParameters(s[off]),
                exponent_y: i8_of_u8(s[off + 1]),
                index_number: u16_at(s, off + 2, e),
                z_bits: u32_at(s, off + 4, e),
                next_z_bits: u32_at(s, off + 8, e),
                noise_bits: u32_at(s, off + 12, e),
                number_points: u32_at(s, off + 16, e),
                scan: u32_at(s, off + 20, e),
                w_level_bits: u32_at(s, off + 24, e),
            },
        )
    }
}

/// Decoder for one 32-byte subheader, advancing the cursor it owns.
pub struct SubHeaderParser<'a> {
    pub spc: SPCFile<'a>,
}

impl<'a> SubHeaderParser<'a> {
    pub fn read_byte(&mut self) -> (r: Result<u8, DecodeError>)
        requires
            old(self).spc.wf(),
        ensures
            final(self).spc.data@ == old(self).spc.data@,
            final(self).spc.endian == old(self).spc.endian,
            final(self).spc.wf(),
            match r {
                Ok(v) => old(self).spc.byte + 1 <= old(self).spc.data@.len() && final(self).spc.byte == old(self).spc.byte + 1 && v == old(self).spc.data@[old(self).spc.byte as int],
                Err(e) => old(self).spc.byte + 1 > old(self).spc.data@.len() && e
                    == DecodeError::PrematureTermination && final(self).spc.byte == old(self).spc.byte,
            },
    {
        self.spc.read_byte()
    }

    pub fn read_i8(&mut self) -> (r: Result<i8, DecodeError>)
        requires
            old(self).spc.wf(),
        ensures
            final(self).spc.data@ == old(self).spc.data@,
            final(self).spc.endian == old(self).spc.endian,
            final(self).spc.wf(),
            match r {
                Ok(v) => old(self).spc.byte + 1 <= old(self).spc.data@.len() && final(self).spc.byte == old(self).spc.byte + 1 && v == i8_of_u8(
                    old(self).spc.data@[old(self).spc.byte as int],
                ),
                Err(e) => old(self).spc.byte + 1 > old(self).spc.data@.len() && e
                    == DecodeError::PrematureTermination && final(self).spc.byte == old(self).spc.byte,
            },
    {
        self.spc.read_i8()
    }

    pub fn read_u16(&mut self) -> (r: Result<u16, DecodeError>)
        requires
            old(self).spc.wf(),
        ensures
            final(self).spc.data@ == old(self).spc.data@,
            final(self).spc.endian == old(self).spc.endian,
            final(self).spc.wf(),
            match r {
                Ok(v) => old(self).spc.byte + 2 <= old(self).spc.data@.len() && final(self).spc.byte == old(self).spc.byte + 2 && v == u16_at(
                    old(self).spc.data@,
                    old(self).spc.byte as int,
                    old(self).spc.endian,
                ),
                Err(e) => old(self).spc.byte + 2 > old(self).spc.data@.len() && e
                    == DecodeError::PrematureTermination && final(self).spc.byte == old(self).spc.byte,
            },
    {
        self.spc.read_u16()
    }

    pub fn read_u32(&mut self) -> (r: Result<u32, DecodeError>)
        requires
            old(self).spc.wf(),
        ensures
            final(self).spc.data@ == old(self).spc.data@,
            final(self).spc.endian == old(self).spc.endian,
            final(self).spc.wf(),
            match r {
                Ok(v) => old(self).spc.byte + 4 <= old(self).spc.data@.len() && final(self).spc.byte == old(self).spc.byte + 4 && v == u32_at(
                    old(self).spc.data@,
                    old(self).spc.byte as int,
                    old(self).spc.endian,
                ),
                Err(e) => old(self).spc.byte + 4 > old(self).spc.data@.len() && e
                    == DecodeError::PrematureTermination && final(self).spc.byte == old(self).spc.byte,
            },
    {
        self.spc.read_u32()
    }

    pub fn read_unescaped_utf8(&mut self, len: usize) -> (r: Result<Vec<u8>, DecodeError>)
        requires
            old(self).spc.wf(),
        ensures
            final(self).spc.data@ == old(self).spc.data@,
            final(self).spc.endian == old(self).spc.endian,
            final(self).spc.wf(),
            match r {
                Ok(v) => old(self).spc.byte + len <= old(self).spc.data@.len() && final(self).spc.byte == old(self).spc.byte + len && v@ == crate::text::field_text(
                    old(self).spc.data@.subrange(
                        old(self).spc.byte as int,
                        old(self).spc.byte + len,
                    ),
                ),
                Err(e) => old(self).spc.byte + len > old(self).spc.data@.len() && e
                    == DecodeError::PrematureTermination && final(self).spc.byte == old(self).spc.byte,
            },
    {
        self.spc.read_unescaped_utf8(len)
    }

    /// Decodes the 32-byte subheader at the cursor.
    pub fn parse(&mut self) -> (r: Result<Subheader, DecodeError>)
        requires
            old(self).spc.wf(),
        ensures
            final(self).spc.data@ == old(self).spc.data@,
            final(self).spc.endian == old(self).spc.endian,
            final(self).spc.wf(),
            match r {
                Ok(sh) => {
                    &&& spec_subheader(
                        old(self).spc.data@,
                        old(self).spc.byte as int,
                        old(self).spc.endian,
                    ) == Ok::<Subheader, DecodeError>(sh)
                    &&& final(self).spc.byte == old(self).spc.byte + 32
                },
                Err(e) => spec_subheader(
                    old(self).spc.data@,
                    old(self).spc.byte as int,
                    old(self).spc.endian,
                ) == Err::<Subheader, DecodeError>(e),
            },
    {
        if self.spc.remaining_bytes() < 32 {
            return Err(DecodeError::PrematureTermination);
        }
        let fb = self.read_byte()?;
        let parameters = SubFlagParameters::new(fb)?;
        let exponent_y = self.read_i8()?;
        let index_number = self.read_u16()?;
        let z_bits = match self.spc.read_f32_bits() {
            Ok(v) => v,
            Err(e) => {
                return Err(e);
            },
        };
        let next_z_bits = match self.spc.read_f32_bits() {
            Ok(v) => v,
            Err(e) => {
                return Err(e);
            },
        };
        let noise_bits = match self.spc.read_f32_bits() {
            Ok(v) => v,
            Err(e) => {
                return Err(e);
            },
        };
        let number_points = self.read_u32()?;
        let scan = self.read_u32()?;
        let w_level_bits = match self.spc.read_f32_bits() {
            Ok(v) => v,
            Err(e) => {
                return Err(e);
            },
        };
        let n = self.spc.data.len();
        let tail = self.spc.byte;
        assert(tail + 4 <= n);
        let tail_end = tail + 4;
        crate::reserved::check_zero_region(self.spc.data, tail, tail_end)?;
        match self.spc.goto(tail_end) {
            Ok(()) => (),
            Err(e) => {
                return Err(e);
            },
        }
        Ok(
            Subheader {
                parameters,
                exponent_y,
                index_number,
                z_bits,
                next_z_bits,
                noise_bits,
                number_points,
                scan,
                w_level_bits,
            },
        )
    }
}

} // verus!

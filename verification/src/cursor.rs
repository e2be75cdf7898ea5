//! Endianness-aware sequential byte cursor over an immutable buffer.
//!
//! Every multi-byte read is specified against the pure byte-assembly
//! functions below, so that each decoded field is pinned to the exact bytes
//! it came from.

use vstd::prelude::*;

use crate::DecodeError;

verus! {

/// The byte order used for multi-byte reads, chosen once per file by the
/// version byte.
#[derive(Clone, Copy, Debug, PartialEq, Eq, Structural)]
pub enum Endian {
    Little,
    Big,
}

/// The unsigned 16-bit value stored at `i` in `s` under byte order `e`.
pub open spec fn u16_at(s: Seq<u8>, i: int, e: Endian) -> u16 {
    match e {
        Endian::Little => (s[i] as u16) | (s[i + 1] as u16) << 8,
        Endian::Big => (s[i] as u16) << 8 | (s[i + 1] as u16),
    }
}

/// The unsigned 32-bit value stored at `i` in `s` under byte order `e`.
pub open spec fn u32_at(s: Seq<u8>, i: int, e: Endian) -> u32 {
    match e {
        Endian::Little => (s[i] as u32) | (s[i + 1] as u32) << 8 | (s[i + 2] as u32) << 16 | (s[i
            + 3] as u32) << 24,
        Endian::Big => (s[i] as u32) << 24 | (s[i + 1] as u32) << 16 | (s[i + 2] as u32) << 8 | (s[
            i + 3] as u32),
    }
}

/// The unsigned 64-bit value stored at `i` in `s` under byte order `e`.
pub open spec fn u64_at(s: Seq<u8>, i: int, e: Endian) -> u64 {
    match e {
        Endian::Little => u32_at(s, i, e) as u64 | (u32_at(s, i + 4, e) as u64) << 32,
        Endian::Big => (u32_at(s, i, e) as u64) << 32 | u32_at(s, i + 4, e) as u64,
    }
}

/// Reinterpretation of an unsigned byte as a signed one (two's complement).
pub open spec fn i8_of_u8(x: u8) -> i8 {
    if x < 0x80 {
        x as i8
    } else {
        (x - 0x100) as i8
    }
}

/// Reinterpretation of an unsigned 16-bit value as a signed one.
pub open spec fn i16_of_u16(x: u16) -> i16 {
    if x < 0x8000 {
        x as i16
    } else {
        (x - 0x1_0000) as i16
    }
}

/// Reinterpretation of an unsigned 32-bit value as a signed one.
pub open spec fn i32_of_u32(x: u32) -> i32 {
    if x < 0x8000_0000 {
        x as i32
    } else {
        (x - 0x1_0000_0000) as i32
    }
}

/// Sequential reader over one file's byte buffer: the whole buffer, the
/// current offset, and the byte order for multi-byte reads.
#[derive(Clone, Copy)]
pub struct SPCFile<'a> {
    pub data: &'a [u8],
    pub byte: usize,
    pub endian: Endian,
}

impl<'a> SPCFile<'a> {
    /// The cursor never moves past the end of the buffer.
    pub open spec fn wf(self) -> bool {
        self.byte <= self.data@.len()
    }

    pub fn new(data: &'a [u8], endian: Endian) -> (r: SPCFile<'a>)
        ensures
            r.data@ == data@,
            r.byte == 0,
            r.endian == endian,
            r.wf(),
    {
        SPCFile { data, byte: 0, endian }
    }

    pub fn remaining_bytes(&self) -> (r: usize)
        requires
            self.wf(),
        ensures
            r == self.data@.len() - self.byte,
    {
        self.data.len() - self.byte
    }

    pub fn is_exhausted(&self) -> (r: bool)
        requires
            self.wf(),
        ensures
            r == (self.byte == self.data@.len()),
    {
        self.byte == self.data.len()
    }

    /// Selects the byte order for all following multi-byte reads.
    pub fn set_endian(&mut self, endian: Endian)
        ensures
            final(self).data == old(self).data,
            final(self).byte == old(self).byte,
            final(self).endian == endian,
    {
        self.endian = endian;
    }

    /// Moves the cursor to an absolute offset.
    pub fn goto(&mut self, offset: usize) -> (r: Result<(), DecodeError>)
        requires
            old(self).wf(),
        ensures
            final(self).data == old(self).data,
            final(self).endian == old(self).endian,
            final(self).wf(),
            match r {
                Ok(()) => offset <= old(self).data@.len() && final(self).byte == offset,
                Err(e) => offset > old(self).data@.len() && e
                    == DecodeError::PrematureTermination && final(self).byte == old(self).byte,
            },
    {
        if offset <= self.data.len() {
            self.byte = offset;
            Ok(())
        } else {
            Err(DecodeError::PrematureTermination)
        }
    }

    pub fn read_byte(&mut self) -> (r: Result<u8, DecodeError>)
        requires
            old(self).wf(),
        ensures
            final(self).data == old(self).data,
            final(self).endian == old(self).endian,
            final(self).wf(),
            match r {
                Ok(v) => old(self).byte + 1 <= old(self).data@.len() && final(self).byte == old(
                    self,
                ).byte + 1 && v == old(self).data@[old(self).byte as int],
                Err(e) => old(self).byte + 1 > old(self).data@.len() && e
                    == DecodeError::PrematureTermination && final(self).byte == old(self).byte,
            },
    {
        if self.byte < self.data.len() {
            let b = self.data[self.byte];
            self.byte = self.byte + 1;
            Ok(b)
        } else {
            Err(DecodeError::PrematureTermination)
        }
    }

    pub fn read_i8(&mut self) -> (r: Result<i8, DecodeError>)
        requires
            old(self).wf(),
        ensures
            final(self).data == old(self).data,
            final(self).endian == old(self).endian,
            final(self).wf(),
            match r {
                Ok(v) => old(self).byte + 1 <= old(self).data@.len() && final(self).byte == old(
                    self,
                ).byte + 1 && v == i8_of_u8(old(self).data@[old(self).byte as int]),
                Err(e) => old(self).byte + 1 > old(self).data@.len() && e
                    == DecodeError::PrematureTermination && final(self).byte == old(self).byte,
            },
    {
        match self.read_byte() {
            Ok(b) => Ok(reinterpret_i8(b)),
            Err(e) => Err(e),
        }
    }

    pub fn read_u16(&mut self) -> (r: Result<u16, DecodeError>)
        requires
            old(self).wf(),
        ensures
            final(self).data == old(self).data,
            final(self).endian == old(self).endian,
            final(self).wf(),
            match r {
                Ok(v) => old(self).byte + 2 <= old(self).data@.len() && final(self).byte == old(
                    self,
                ).byte + 2 && v == u16_at(old(self).data@, old(self).byte as int, old(self).endian),
                Err(e) => old(self).byte + 2 > old(self).data@.len() && e
                    == DecodeError::PrematureTermination && final(self).byte == old(self).byte,
            },
    {
        if 2 <= self.data.len() - self.byte {
            let b0 = self.data[self.byte];
            let b1 = self.data[self.byte + 1];
            self.byte = self.byte + 2;
            match self.endian {
                Endian::Little => Ok((b0 as u16) | (b1 as u16) << 8),
                Endian::Big => Ok((b0 as u16) << 8 | (b1 as u16)),
            }
        } else {
            Err(DecodeError::PrematureTermination)
        }
    }

    pub fn read_i16(&mut self) -> (r: Result<i16, DecodeError>)
        requires
            old(self).wf(),
        ensures
            final(self).data == old(self).data,
            final(self).endian == old(self).endian,
            final(self).wf(),
            match r {
                Ok(v) => old(self).byte + 2 <= old(self).data@.len() && final(self).byte == old(
                    self,
                ).byte + 2 && v == i16_of_u16(
                    u16_at(old(self).data@, old(self).byte as int, old(self).endian),
                ),
                Err(e) => old(self).byte + 2 > old(self).data@.len() && e
                    == DecodeError::PrematureTermination && final(self).byte == old(self).byte,
            },
    {
        match self.read_u16() {
            Ok(v) => Ok(reinterpret_i16(v)),
            Err(e) => Err(e),
        }
    }

    pub fn read_u32(&mut self) -> (r: Result<u32, DecodeError>)
        requires
            old(self).wf(),
        ensures
            final(self).data == old(self).data,
            final(self).endian == old(self).endian,
            final(self).wf(),
            match r {
                Ok(v) => old(self).byte + 4 <= old(self).data@.len() && final(self).byte == old(
                    self,
                ).byte + 4 && v == u32_at(old(self).data@, old(self).byte as int, old(self).endian),
                Err(e) => old(self).byte + 4 > old(self).data@.len() && e
                    == DecodeError::PrematureTermination && final(self).byte == old(self).byte,
            },
    {
        if 4 <= self.data.len() - self.byte {
            let b0 = self.data[self.byte];
            let b1 = self.data[self.byte + 1];
            let b2 = self.data[self.byte + 2];
            let b3 = self.data[self.byte + 3];
            self.byte = self.byte + 4;
            match self.endian {
                Endian::Little => Ok(
                    (b0 as u32) | (b1 as u32) << 8 | (b2 as u32) << 16 | (b3 as u32) << 24,
                ),
                Endian::Big => Ok(
                    (b0 as u32) << 24 | (b1 as u32) << 16 | (b2 as u32) << 8 | (b3 as u32),
                ),
            }
        } else {
            Err(DecodeError::PrematureTermination)
        }
    }

    /// Reads the raw bit pattern of a 32-bit IEEE-754 value.
    pub fn read_f32_bits(&mut self) -> (r: Result<u32, DecodeError>)
        requires
            old(self).wf(),
        ensures
            final(self).data == old(self).data,
            final(self).endian == old(self).endian,
            final(self).wf(),
            match r {
                Ok(v) => old(self).byte + 4 <= old(self).data@.len() && final(self).byte == old(
                    self,
                ).byte + 4 && v == u32_at(old(self).data@, old(self).byte as int, old(self).endian),
                Err(e) => old(self).byte + 4 > old(self).data@.len() && e
                    == DecodeError::PrematureTermination && final(self).byte == old(self).byte,
            },
    {
        self.read_u32()
    }

    /// Reads the raw bit pattern of a 64-bit IEEE-754 value.
    pub fn read_f64_bits(&mut self) -> (r: Result<u64, DecodeError>)
        requires
            old(self).wf(),
        ensures
            final(self).data == old(self).data,
            final(self).endian == old(self).endian,
            final(self).wf(),
            match r {
                Ok(v) => old(self).byte + 8 <= old(self).data@.len() && final(self).byte == old(
                    self,
                ).byte + 8 && v == u64_at(old(self).data@, old(self).byte as int, old(self).endian),
                Err(e) => old(self).byte + 8 > old(self).data@.len() && e
                    == DecodeError::PrematureTermination && final(self).byte == old(self).byte,
            },
    {
        if 8 <= self.data.len() - self.byte {
            let lo_or_hi = match self.read_u32() {
                Ok(v) => v,
                Err(e) => {
                    return Err(e);
                },
            };
            let hi_or_lo = match self.read_u32() {
                Ok(v) => v,
                Err(e) => {
                    return Err(e);
                },
            };
            match self.endian {
                Endian::Little => Ok((lo_or_hi as u64) | (hi_or_lo as u64) << 32),
                Endian::Big => Ok((lo_or_hi as u64) << 32 | (hi_or_lo as u64)),
            }
        } else {
            Err(DecodeError::PrematureTermination)
        }
    }

    /// Reads `len` raw bytes as an owned copy.
    pub fn read_bytes(&mut self, len: usize) -> (r: Result<Vec<u8>, DecodeError>)
        requires
            old(self).wf(),
        ensures
            final(self).data@ == old(self).data@,
            final(self).endian == old(self).endian,
            final(self).wf(),
            match r {
                Ok(v) => old(self).byte + len <= old(self).data@.len() && final(self).byte == old(
                    self,
                ).byte + len && v@ == old(self).data@.subrange(
                    old(self).byte as int,
                    old(self).byte + len,
                ),
                Err(e) => old(self).byte + len > old(self).data@.len() && e
                    == DecodeError::PrematureTermination && final(self).byte == old(self).byte,
            },
    {
        let n = self.data.len();
        if len <= n - self.byte {
            let ghost off = self.byte as int;
            let start = self.byte;
            let mut v: Vec<u8> = Vec::new();
            let mut i: usize = 0;
            while i < len
                invariant
                    self.wf(),
                    n == self.data@.len(),
                    start + len <= n,
                    start == off,
                    i <= len,
                    v@.len() == i as int,
                    forall|j: int| 0 <= j < i ==> v@[j] == self.data@[off + j],
                decreases len - i,
            {
                v.push(self.data[start + i]);
                i = i + 1;
            }
            self.byte = self.byte + len;
            proof {
                assert(v@ =~= self.data@.subrange(off, off + len));
            }
            Ok(v)
        } else {
            Err(DecodeError::PrematureTermination)
        }
    }

    /// Reads a fixed-length text field and yields its content: the bytes
    /// before the first zero byte, trimmed of surrounding whitespace.
    pub fn read_unescaped_utf8(&mut self, len: usize) -> (r: Result<Vec<u8>, DecodeError>)
        requires
            old(self).wf(),
        ensures
            final(self).data == old(self).data,
            final(self).endian == old(self).endian,
            final(self).wf(),
            match r {
                Ok(v) => old(self).byte + len <= old(self).data@.len() && final(self).byte == old(
                    self,
                ).byte + len && v@ == crate::text::field_text(
                    old(self).data@.subrange(old(self).byte as int, old(self).byte + len),
                ),
                Err(e) => old(self).byte + len > old(self).data@.len() && e
                    == DecodeError::PrematureTermination && final(self).byte == old(self).byte,
            },
    {
        if len <= self.data.len() - self.byte {
            let v = crate::text::trim_field(self.data, self.byte, len);
            self.byte = self.byte + len;
            Ok(v)
        } else {
            Err(DecodeError::PrematureTermination)
        }
    }
}

/// Two's-complement reinterpretation of a byte, as [`i8_of_u8`].
pub fn reinterpret_i8(x: u8) -> (r: i8)
    ensures
        r == i8_of_u8(x),
{
    if x < 0x80 {
        x as i8
    } else {
        ((x as i16) - 0x100) as i8
    }
}

/// Two's-complement reinterpretation of a 16-bit value, as [`i16_of_u16`].
pub fn reinterpret_i16(x: u16) -> (r: i16)
    ensures
        r == i16_of_u16(x),
{
    if x < 0x8000 {
        x as i16
    } else {
        ((x as i32) - 0x1_0000) as i16
    }
}

/// Two's-complement reinterpretation of a 32-bit value, as [`i32_of_u32`].
pub fn reinterpret_i32(x: u32) -> (r: i32)
    ensures
        r == i32_of_u32(x),
{
    if x < 0x8000_0000 {
        x as i32
    } else {
        ((x as i64) - 0x1_0000_0000) as i32
    }
}

} // verus!

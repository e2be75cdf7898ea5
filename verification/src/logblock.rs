//! The optional trailing log block: a fixed 64-byte header, an opaque
//! binary region, and free text running to the end of the buffer.

use vstd::prelude::*;

use crate::cursor::{u32_at, Endian, SPCFile};
use crate::reserved::{all_zero, first_nonzero};
use crate::text::field_text;
use crate::DecodeError;

verus! {

/// The log block's fixed header fields.
#[derive(Clone, Copy, Debug, PartialEq, Eq, Structural)]
pub struct LogHeader {
    /// Size of the disk block in bytes.
    pub size: u32,
    /// Size of the memory block in bytes; must be a multiple of 4096.
    pub memory_size: u32,
    /// Byte offset, from the log block's start, to the free text.
    pub text_offset: u32,
    /// Byte size of the binary region immediately after this header.
    pub binary_size: u32,
    /// Byte size of the disk area.
    pub disk_area: u32,
}

/// The header fields stored in the first 20 bytes of the log block at `lo`.
pub open spec fn spec_log_header(s: Seq<u8>, lo: int, e: Endian) -> LogHeader {
    LogHeader {
        size: u32_at(s, lo, e),
        memory_size: u32_at(s, lo + 4, e),
        text_offset: u32_at(s, lo + 8, e),
        binary_size: u32_at(s, lo + 12, e),
        disk_area: u32_at(s, lo + 16, e),
    }
}

/// A decoded log block: its header, the raw binary region, and the trailing
/// free text trimmed of null padding and surrounding whitespace.
#[derive(Clone, Debug, PartialEq)]
pub struct LogBlock {
    pub header: LogHeader,
    pub data: Vec<u8>,
    pub text: Vec<u8>,
}

/// Mathematical model of a decoded log block.
pub ghost struct LogBlockV {
    pub header: LogHeader,
    pub data: Seq<u8>,
    pub text: Seq<u8>,
}

impl View for LogBlock {
    type V = LogBlockV;

    open spec fn view(&self) -> LogBlockV {
        LogBlockV { header: self.header, data: self.data@, text: self.text@ }
    }
}

/// The log block decoded at `lo`, or the first error: a buffer too short
/// for the 64-byte header, a non-zero reserved byte, a memory size that is
/// not a multiple of 4096, or binary/text regions past the buffer's end.
pub open spec fn spec_log(s: Seq<u8>, lo: int, e: Endian) -> Result<LogBlockV, DecodeError> {
    if lo + 64 > s.len() {
        Err(DecodeError::PrematureTermination)
    } else if !all_zero(s, lo + 20, lo + 64) {
        Err(DecodeError::NonZeroReservedRegion(first_nonzero(s, lo + 20, lo + 64) as usize))
    } else {
        let h = spec_log_header(s, lo, e);
        if h.memory_size % 4096 != 0 {
            Err(DecodeError::InvalidLogMemorySize(h.memory_size))
        } else if lo + 64 + h.binary_size > s.len() {
            Err(DecodeError::PrematureTermination)
        } else if lo + h.text_offset > s.len() {
            Err(DecodeError::PrematureTermination)
        } else {
            Ok(
                LogBlockV {
                    header: h,
                    data: s.subrange(lo + 64, lo + 64 + h.binary_size),
                    text: field_text(s.subrange(lo + h.text_offset, s.len() as int)),
                },
            )
        }
    }
}

/// Decoder for the trailing log block, advancing the cursor it owns.
pub struct LogBlockParser<'a>(pub SPCFile<'a>);

impl<'a> LogBlockParser<'a> {
    pub fn read_u32(&mut self) -> (r: Result<u32, DecodeError>)
        requires
            old(self).0.wf(),
        ensures
            final(self).0.data@ == old(self).0.data@,
            final(self).0.endian == old(self).0.endian,
            final(self).0.wf(),
            match r {
                Ok(v) => old(self).0.byte + 4 <= old(self).0.data@.len() && final(self).0.byte
                    == old(self).0.byte + 4 && v == u32_at(
                    old(self).0.data@,
                    old(self).0.byte as int,
                    old(self).0.endian,
                ),
                Err(e) => old(self).0.byte + 4 > old(self).0.data@.len() && e
                    == DecodeError::PrematureTermination && final(self).0.byte == old(self).0.byte,
            },
    {
        self.0.read_u32()
    }

    pub fn read_unescaped_utf8(&mut self, len: usize) -> (r: Result<Vec<u8>, DecodeError>)
        requires
            old(self).0.wf(),
        ensures
            final(self).0.data@ == old(self).0.data@,
            final(self).0.endian == old(self).0.endian,
            final(self).0.wf(),
            match r {
                Ok(v) => old(self).0.byte + len <= old(self).0.data@.len() && final(self).0.byte
                    == old(self).0.byte + len && v@ == field_text(
                    old(self).0.data@.subrange(old(self).0.byte as int, old(self).0.byte + len),
                ),
                Err(e) => old(self).0.byte + len > old(self).0.data@.len() && e
                    == DecodeError::PrematureTermination && final(self).0.byte == old(self).0.byte,
            },
    {
        self.0.read_unescaped_utf8(len)
    }

    /// Decodes the log block that starts at `log_offset`, where the cursor
    /// stands, as [`spec_log`].
    pub fn parse(&mut self, log_offset: usize) -> (r: Result<LogBlock, DecodeError>)
        requires
            old(self).0.wf(),
            old(self).0.byte == log_offset,
        ensures
            final(self).0.data@ == old(self).0.data@,
            final(self).0.endian == old(self).0.endian,
            final(self).0.wf(),
            match r {
                Ok(b) => spec_log(old(self).0.data@, log_offset as int, old(self).0.endian) == Ok::<
                    LogBlockV,
                    DecodeError,
                >(b@) && final(self).0.byte == old(self).0.data@.len(),
                Err(e) => spec_log(old(self).0.data@, log_offset as int, old(self).0.endian)
                    == Err::<LogBlockV, DecodeError>(e),
            },
    {
        let n = self.0.data.len();
        if n - self.0.byte < 64 {
            return Err(DecodeError::PrematureTermination);
        }
        crate::reserved::check_zero_region(self.0.data, log_offset + 20, log_offset + 64)?;
        let size = self.read_u32()?;
        let memory_size = self.read_u32()?;
        let text_offset = self.read_u32()?;
        let binary_size = self.read_u32()?;
        let disk_area = self.read_u32()?;
        if memory_size % 4096 != 0 {
            return Err(DecodeError::InvalidLogMemorySize(memory_size));
        }
        // The reserved tail was validated up front; step over it.
        match self.0.goto(log_offset + 64) {
            Ok(()) => (),
            Err(e) => {
                return Err(e);
            },
        }
        if (binary_size as u64) > (n - (log_offset + 64)) as u64 {
            return Err(DecodeError::PrematureTermination);
        }
        let data = match self.0.read_bytes(binary_size as usize) {
            Ok(v) => v,
            Err(e) => {
                return Err(e);
            },
        };
        if (text_offset as u64) > (n - log_offset) as u64 {
            return Err(DecodeError::PrematureTermination);
        }
        match self.0.goto(log_offset + text_offset as usize) {
            Ok(()) => (),
            Err(e) => {
                return Err(e);
            },
        }
        let text = self.read_unescaped_utf8(n - (log_offset + text_offset as usize))?;
        Ok(LogBlock { header: LogHeader { size, memory_size, text_offset, binary_size, disk_area }, data, text })
    }
}

} // verus!

//! Decoder for the SPC legacy scientific-instrument binary file format.
//!
//! The format has two header generations (an old 224-byte form and a new
//! 512-byte form), two byte orders selected by a magic version byte, and five
//! data-layout shapes. Decoding one byte buffer is a pure transformation into
//! a validated [`ParsedSPC`] record or a typed [`DecodeError`].
//!
//! Floating-point fields of the format are carried as their raw IEEE-754 bit
//! patterns (`u32`/`u64`); interpreting them numerically is left to consumers.

use vstd::prelude::*;

pub mod block;
pub mod cursor;
pub mod datetime;
pub mod flags;
pub mod fpbits;
pub mod header;
pub mod laws;
pub mod logblock;
pub mod reserved;
pub mod subheader;
pub mod text;
pub mod units;

use block::{decode_block, header_generation, spec_block, Block, BlockV};
use cursor::{Endian, SPCFile};
use header::{endian_of, spec_header, Header, HeaderParser, HeaderV};
use logblock::{spec_log, LogBlock, LogBlockParser, LogBlockV};

verus! {

/// Every way a decode can fail. One failure aborts the whole buffer's decode.
#[derive(Clone, Copy, Debug, PartialEq, Eq, Structural)]
pub enum DecodeError {
    /// The buffer ended before a required field could be read.
    PrematureTermination,
    /// Byte 1 of the buffer is not one of the three recognized version bytes.
    UnrecognizedVersionByte(u8),
    /// A declared spare/reserved region holds a non-zero byte; the payload is
    /// the absolute offset of the first offending byte.
    NonZeroReservedRegion(usize),
    /// A unit-type or instrument-technique code byte is not recognized.
    InvalidUnitCode(u8),
    /// The composed calendar date/time is not a valid civil time.
    InvalidDateTime { year: u16, month: u8, day: u8, hour: u8, minute: u8 },
    /// The subheader flag byte has a bit outside the legal mask set.
    InvalidSubheaderFlags(u8),
    /// The main flags byte combines bits in a way that names no data shape.
    InvalidFlagParameters(u8),
    /// An old-generation multifile carries no subfile count and none can be
    /// derived by any consistent convention.
    InconsistentSubfileCount,
    /// The header demands float samples while the subfile declares integers.
    InconsistentYEncoding,
    /// After a block or log the cursor did not land on the expected offset.
    StructuralMisalignment { expected: usize, found: usize },
    /// The log block's memory-size field is not a multiple of 4096.
    InvalidLogMemorySize(u32),
}

/// The terminal artifact of one decode: the header, the data block, and the
/// optional trailing log block.
#[derive(Clone, Debug, PartialEq)]
pub struct ParsedSPC {
    pub header: Header,
    pub block: Block,
    pub log: Option<LogBlock>,
}

/// Mathematical model of a decoded record.
pub ghost struct ParsedV {
    pub header: HeaderV,
    pub block: BlockV,
    pub log: Option<LogBlockV>,
}

impl View for ParsedSPC {
    type V = ParsedV;

    open spec fn view(&self) -> ParsedV {
        ParsedV {
            header: self.header@,
            block: self.block@,
            log: match &self.log {
                Some(l) => Some(l@),
                None => None,
            },
        }
    }
}

/// The complete decode of one buffer: header, then block, then — exactly
/// when the block does not exhaust the buffer — the log block at the offset
/// the block decode stopped at.
pub open spec fn spec_parse(s: Seq<u8>) -> Result<ParsedV, DecodeError> {
    match spec_header(s) {
        Err(er) => Err(er),
        Ok(hv) => {
            let e = endian_of(s[1]);
            match spec_block(s, hv, e, header_generation(hv)) {
                Err(er) => Err(er),
                Ok((bv, fin)) => if fin == s.len() {
                    Ok(ParsedV { header: hv, block: bv, log: None })
                } else {
                    match spec_log(s, fin, e) {
                        Err(er) => Err(er),
                        Ok(lv) => Ok(ParsedV { header: hv, block: bv, log: Some(lv) }),
                    }
                },
            }
        },
    }
}

/// Whether an executable decode outcome is exactly what [`spec_parse`]
/// prescribes for buffer `s`: the same record, or the same error.
pub open spec fn result_models(r: Result<ParsedSPC, DecodeError>, s: Seq<u8>) -> bool {
    match r {
        Ok(p) => spec_parse(s) == Ok::<ParsedV, DecodeError>(p@),
        Err(e) => spec_parse(s) == Err::<ParsedV, DecodeError>(e),
    }
}

/// Decodes one complete file buffer into a validated record.
///
/// The version byte selects generation and byte order; the header, the data
/// block, and the optional log block follow in sequence. The result — record
/// or typed error — is exactly [`spec_parse`] of the buffer's bytes.
pub fn parse(source: &[u8]) -> (r: Result<ParsedSPC, DecodeError>)
    ensures
        result_models(r, source@),
{
    if source.len() < 2 {
        return Err(DecodeError::PrematureTermination);
    }
    let endian = if source[1] == 0x4c {
        Endian::Big
    } else {
        Endian::Little
    };
    let spc = SPCFile::new(source, endian);
    let mut hp = match HeaderParser::new(spc) {
        Ok(p) => p,
        Err(e) => {
            return Err(e);
        },
    };
    let header = match hp.parse() {
        Ok(h) => h,
        Err(e) => {
            return Err(e);
        },
    };
    let mut cursor = hp.spc;
    let block = match decode_block(&mut cursor, &header) {
        Ok(b) => b,
        Err(e) => {
            return Err(e);
        },
    };
    let log = if cursor.is_exhausted() {
        None
    } else {
        let lo = cursor.byte;
        let mut lp = LogBlockParser(cursor);
        match lp.parse(lo) {
            Ok(l) => Some(l),
            Err(e) => {
                return Err(e);
            },
        }
    };
    Ok(ParsedSPC { header, block, log })
}

/// A raw buffer whose generation magic has been checked and whose byte
/// order has been chosen; the structural first stage of a decode.
#[derive(Clone, Copy, Debug)]
pub struct LexedSPC<'a> {
    pub data: &'a [u8],
    pub endian: Endian,
}

impl<'a> LexedSPC<'a> {
    /// Decodes the buffer into a validated record, as [`spec_parse`].
    pub fn try_parse(&self) -> (r: Result<ParsedSPC, DecodeError>)
        ensures
            result_models(r, self.data@),
    {
        parse(self.data)
    }
}

/// Accepts a buffer whose version byte names the big-endian new generation.
pub fn lex_big_endian_spc(source: &[u8]) -> (r: Result<LexedSPC<'_>, DecodeError>)
    ensures
        match r {
            Ok(l) => source@.len() >= 2 && source@[1] == 0x4c && l.data@ == source@ && l.endian
                == Endian::Big,
            Err(e) => if source@.len() < 2 {
                e == DecodeError::PrematureTermination
            } else {
                source@[1] != 0x4c && e == DecodeError::UnrecognizedVersionByte(source@[1])
            },
        },
{
    if source.len() < 2 {
        Err(DecodeError::PrematureTermination)
    } else if source[1] == 0x4c {
        Ok(LexedSPC { data: source, endian: Endian::Big })
    } else {
        Err(DecodeError::UnrecognizedVersionByte(source[1]))
    }
}

/// Accepts a buffer whose version byte names either little-endian
/// generation.
pub fn lex_little_endian_spc(source: &[u8]) -> (r: Result<LexedSPC<'_>, DecodeError>)
    ensures
        match r {
            Ok(l) => source@.len() >= 2 && (source@[1] == 0x4b || source@[1] == 0x4d) && l.data@
                == source@ && l.endian == Endian::Little,
            Err(e) => if source@.len() < 2 {
                e == DecodeError::PrematureTermination
            } else {
                source@[1] != 0x4b && source@[1] != 0x4d && e
                    == DecodeError::UnrecognizedVersionByte(source@[1])
            },
        },
{
    if source.len() < 2 {
        Err(DecodeError::PrematureTermination)
    } else if source[1] == 0x4b || source[1] == 0x4d {
        Ok(LexedSPC { data: source, endian: Endian::Little })
    } else {
        Err(DecodeError::UnrecognizedVersionByte(source[1]))
    }
}

} // verus!

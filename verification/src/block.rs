//! The data block: one or more subfiles laid out after the header, driven by
//! the declared data shape, with the optional trailing directory of XYXY
//! layouts.
//!
//! Y samples come in three encodings. 16-bit integers are plain signed
//! shorts. 32-bit integers are plain in the new generation; the old
//! generation stores each as two 16-bit words with the high word in the
//! first two bytes of the group and the low word in the last two. IEEE-float
//! samples are carried as raw bit patterns.

use vstd::prelude::*;

use crate::cursor::{i16_of_u16, i32_of_u32, u16_at, u32_at, Endian, SPCFile};
use crate::flags::{spec_data_shape, DataShape};
use crate::header::{
    header_exponent, header_flags_byte, header_len, header_log_offset, header_points,
    spec_num_subfiles, Header, HeaderV,
};
use crate::subheader::{spec_subheader, SubHeaderParser, Subheader};
use crate::DecodeError;

verus! {

/// Which header generation the file uses; the old one stores 32-bit samples
/// word-swapped.
#[derive(Clone, Copy, Debug, PartialEq, Eq, Structural)]
pub enum Generation {
    Old,
    New,
}

/// The numeric encoding of one subfile's Y samples.
#[derive(Clone, Copy, Debug, PartialEq, Eq, Structural)]
pub enum YMode {
    SixteenBitInt,
    ThirtyTwoBitInt,
    IEEEFloat,
}

/// Bytes each stored sample occupies under a Y encoding.
pub open spec fn spec_bytes_per_point(m: YMode) -> int {
    match m {
        YMode::SixteenBitInt => 2,
        YMode::ThirtyTwoBitInt => 4,
        YMode::IEEEFloat => 4,
    }
}

impl YMode {
    pub fn bytes_per_point(&self) -> (r: usize)
        ensures
            r == spec_bytes_per_point(*self),
    {
        match self {
            YMode::SixteenBitInt => 2,
            YMode::ThirtyTwoBitInt => 4,
            YMode::IEEEFloat => 4,
        }
    }
}

/// The Y encoding a header declares: float samples when its exponent is the
/// sentinel -128, otherwise integers at the precision of the flags byte.
pub open spec fn spec_header_mode(h: HeaderV) -> YMode {
    if header_exponent(h) == -128 {
        YMode::IEEEFloat
    } else if header_flags_byte(h) & 0x01 != 0 {
        YMode::SixteenBitInt
    } else {
        YMode::ThirtyTwoBitInt
    }
}

/// The effective Y encoding of one subfile: its own exponent of -128 forces
/// float samples; otherwise the header's integer mode stands, and a header
/// demanding floats over a subfile that declares integers is contradictory.
pub open spec fn spec_resolve_mode(hm: YMode, sub: Subheader) -> Result<YMode, DecodeError> {
    if sub.exponent_y == -128 {
        Ok(YMode::IEEEFloat)
    } else {
        match hm {
            YMode::SixteenBitInt => Ok(YMode::SixteenBitInt),
            YMode::ThirtyTwoBitInt => Ok(YMode::ThirtyTwoBitInt),
            YMode::IEEEFloat => Err(DecodeError::InconsistentYEncoding),
        }
    }
}

/// The old generation's word-swapped 32-bit sample at `off`: the high 16-bit
/// word sits in the first two bytes of the group, the low word in the last
/// two, each word in the file's byte order.
pub open spec fn i32_word_swapped_at(s: Seq<u8>, off: int, e: Endian) -> i32 {
    i32_of_u32((u16_at(s, off, e) as u32) << 16 | (u16_at(s, off + 2, e) as u32))
}

/// The `n` 16-bit Y samples stored at `off`.
pub open spec fn spec_y_i16(s: Seq<u8>, off: int, n: int, e: Endian) -> Seq<i16> {
    Seq::new(n as nat, |i: int| i16_of_u16(u16_at(s, off + 2 * i, e)))
}

/// The `n` 32-bit Y samples stored at `off`: word-swapped for the old
/// generation, plain for the new.
pub open spec fn spec_y_i32(s: Seq<u8>, off: int, n: int, e: Endian, gen: Generation) -> Seq<
    i32,
> {
    Seq::new(
        n as nat,
        |i: int|
            match gen {
                Generation::Old => i32_word_swapped_at(s, off + 4 * i, e),
                Generation::New => i32_of_u32(u32_at(s, off + 4 * i, e)),
            },
    )
}

/// The `n` 32-bit IEEE-754 bit patterns stored at `off`.
pub open spec fn spec_f32_seq(s: Seq<u8>, off: int, n: int, e: Endian) -> Seq<u32> {
    Seq::new(n as nat, |i: int| u32_at(s, off + 4 * i, e))
}

/// One subfile's decoded Y samples.
#[derive(Clone, Debug, PartialEq)]
pub enum YData {
    SixteenBitInteger(Vec<i16>),
    ThirtyTwoBitInteger(Vec<i32>),
    Float(Vec<u32>),
}

/// Mathematical model of decoded Y samples.
pub ghost enum YDataV {
    SixteenBitInteger(Seq<i16>),
    ThirtyTwoBitInteger(Seq<i32>),
    Float(Seq<u32>),
}

impl View for YData {
    type V = YDataV;

    open spec fn view(&self) -> YDataV {
        match self {
            YData::SixteenBitInteger(v) => YDataV::SixteenBitInteger(v@),
            YData::ThirtyTwoBitInteger(v) => YDataV::ThirtyTwoBitInteger(v@),
            YData::Float(v) => YDataV::Float(v@),
        }
    }
}

/// How many samples a model of Y data holds.
pub open spec fn spec_y_len(d: YDataV) -> int {
    match d {
        YDataV::SixteenBitInteger(v) => v.len() as int,
        YDataV::ThirtyTwoBitInteger(v) => v.len() as int,
        YDataV::Float(v) => v.len() as int,
    }
}

impl YData {
    pub fn len(&self) -> (r: usize)
        ensures
            r == spec_y_len(self@),
    {
        match self {
            YData::SixteenBitInteger(v) => v.len(),
            YData::ThirtyTwoBitInteger(v) => v.len(),
            YData::Float(v) => v.len(),
        }
    }
}

/// The Y samples at `off` under a resolved encoding.
pub open spec fn spec_y_data(s: Seq<u8>, off: int, n: int, m: YMode, e: Endian, gen: Generation)
    -> YDataV {
    match m {
        YMode::SixteenBitInt => YDataV::SixteenBitInteger(spec_y_i16(s, off, n, e)),
        YMode::ThirtyTwoBitInt => YDataV::ThirtyTwoBitInteger(spec_y_i32(s, off, n, e, gen)),
        YMode::IEEEFloat => YDataV::Float(spec_f32_seq(s, off, n, e)),
    }
}

/// One decoded trace: its subheader and its Y samples.
#[derive(Clone, Debug, PartialEq)]
pub struct Subfile {
    pub subheader: Subheader,
    pub data: YData,
}

/// Mathematical model of one decoded trace.
pub ghost struct SubfileV {
    pub subheader: Subheader,
    pub data: YDataV,
}

impl View for Subfile {
    type V = SubfileV;

    open spec fn view(&self) -> SubfileV {
        SubfileV { subheader: self.subheader, data: self.data@ }
    }
}

/// One entry of the optional trailing directory of an XYXY layout: a
/// subfile's position, byte size, and acquisition time (raw float bits).
#[derive(Clone, Copy, Debug, PartialEq, Eq, Structural)]
pub struct DirectoryEntry {
    pub ssfposn: u32,
    pub ssfsize: u32,
    pub ssftime_bits: u32,
}

/// The directory entry stored in the 12 bytes at `off`.
pub open spec fn spec_directory_entry(s: Seq<u8>, off: int, e: Endian) -> DirectoryEntry {
    DirectoryEntry {
        ssfposn: u32_at(s, off, e),
        ssfsize: u32_at(s, off + 4, e),
        ssftime_bits: u32_at(s, off + 8, e),
    }
}

/// The `k` directory entries stored at `off`.
pub open spec fn spec_directory(s: Seq<u8>, off: int, k: int, e: Endian) -> Seq<DirectoryEntry> {
    Seq::new(k as nat, |i: int| spec_directory_entry(s, off + 12 * i, e))
}

/// The decoded data block, shaped by the flags byte. X values are raw 32-bit
/// float bit patterns.
#[derive(Clone, Debug, PartialEq)]
pub enum Block {
    Y(Subfile),
    YY(Vec<Subfile>),
    XY { x: Vec<u32>, y: Subfile },
    XYY { x: Vec<u32>, ys: Vec<Subfile> },
    XYXY { data: Vec<(Vec<u32>, Subfile)>, directory: Option<Vec<DirectoryEntry>> },
}

/// Mathematical model of a decoded data block.
pub ghost enum BlockV {
    Y(SubfileV),
    YY(Seq<SubfileV>),
    XY { x: Seq<u32>, y: SubfileV },
    XYY { x: Seq<u32>, ys: Seq<SubfileV> },
    XYXY { data: Seq<(Seq<u32>, SubfileV)>, directory: Option<Seq<DirectoryEntry>> },
}

/// The views of a sequence of subfiles.
pub open spec fn subfiles_view(q: Seq<Subfile>) -> Seq<SubfileV> {
    q.map_values(|x: Subfile| x@)
}

/// The views of a sequence of X-array/subfile pairs.
pub open spec fn pairs_view(q: Seq<(Vec<u32>, Subfile)>) -> Seq<(Seq<u32>, SubfileV)> {
    q.map_values(|p: (Vec<u32>, Subfile)| (p.0@, p.1@))
}

impl View for Block {
    type V = BlockV;

    open spec fn view(&self) -> BlockV {
        match self {
            Block::Y(sub) => BlockV::Y(sub@),
            Block::YY(subs) => BlockV::YY(subfiles_view(subs@)),
            Block::XY { x, y } => BlockV::XY { x: x@, y: y@ },
            Block::XYY { x, ys } => BlockV::XYY { x: x@, ys: subfiles_view(ys@) },
            Block::XYXY { data, directory } => BlockV::XYXY {
                data: pairs_view(data@),
                directory: match directory {
                    Some(d) => Some(d@),
                    None => None,
                },
            },
        }
    }
}

/// One subfile decoded at `off` with `n` expected samples: its subheader,
/// the resolved encoding, enough bytes for the samples, and agreement
/// between the subheader's own point count (when non-zero) and the expected
/// one. On success, also the offset just past the samples.
pub open spec fn spec_subfile(
    s: Seq<u8>,
    off: int,
    n: int,
    hm: YMode,
    e: Endian,
    gen: Generation,
) -> Result<(SubfileV, int), DecodeError> {
    match spec_subheader(s, off, e) {
        Err(er) => Err(er),
        Ok(sh) => match spec_resolve_mode(hm, sh) {
            Err(er) => Err(er),
            Ok(m) => {
                let data_off = off + 32;
                let end = data_off + n * spec_bytes_per_point(m);
                if end > s.len() {
                    Err(DecodeError::PrematureTermination)
                } else if sh.number_points != 0 && sh.number_points as int != n {
                    Err(
                        DecodeError::StructuralMisalignment {
                            expected: n as usize,
                            found: sh.number_points as usize,
                        },
                    )
                } else {
                    Ok((SubfileV { subheader: sh, data: spec_y_data(s, data_off, n, m, e, gen) }, end))
                }
            },
        },
    }
}

/// `k` equally sized subfiles decoded in sequence from `off`. On success,
/// also the offset just past the last one.
pub open spec fn spec_subfiles(
    s: Seq<u8>,
    off: int,
    k: nat,
    n: int,
    hm: YMode,
    e: Endian,
    gen: Generation,
) -> Result<(Seq<SubfileV>, int), DecodeError>
    decreases k,
{
    if k == 0 {
        Ok((Seq::empty(), off))
    } else {
        match spec_subfile(s, off, n, hm, e, gen) {
            Err(er) => Err(er),
            Ok((sub, off2)) => match spec_subfiles(s, off2, (k - 1) as nat, n, hm, e, gen) {
                Err(er) => Err(er),
                Ok((rest, fin)) => Ok((seq![sub] + rest, fin)),
            },
        }
    }
}

/// `k` XYXY items decoded in sequence from `off`: each a subheader, that
/// subfile's own count of explicit X values, then its Y samples.
pub open spec fn spec_xyxy_items(
    s: Seq<u8>,
    off: int,
    k: nat,
    hm: YMode,
    e: Endian,
    gen: Generation,
) -> Result<(Seq<(Seq<u32>, SubfileV)>, int), DecodeError>
    decreases k,
{
    if k == 0 {
        Ok((Seq::empty(), off))
    } else {
        match spec_subheader(s, off, e) {
            Err(er) => Err(er),
            Ok(sh) => {
                let nx = sh.number_points as int;
                let x_off = off + 32;
                let y_off = x_off + 4 * nx;
                if y_off > s.len() {
                    Err(DecodeError::PrematureTermination)
                } else {
                    match spec_resolve_mode(hm, sh) {
                        Err(er) => Err(er),
                        Ok(m) => {
                            let end = y_off + nx * spec_bytes_per_point(m);
                            if end > s.len() {
                                Err(DecodeError::PrematureTermination)
                            } else {
                                let item = (
                                    spec_f32_seq(s, x_off, nx, e),
                                    SubfileV {
                                        subheader: sh,
                                        data: spec_y_data(s, y_off, nx, m, e, gen),
                                    },
                                );
                                match spec_xyxy_items(s, end, (k - 1) as nat, hm, e, gen) {
                                    Err(er) => Err(er),
                                    Ok((rest, fin)) => Ok((seq![item] + rest, fin)),
                                }
                            }
                        },
                    }
                }
            },
        }
    }
}

/// Where the block must end: at the declared log offset, or at the end of
/// the buffer when no log is declared.
pub open spec fn spec_block_target(s: Seq<u8>, h: HeaderV) -> int {
    match header_log_offset(h) {
        Some(lo) => lo,
        None => s.len() as int,
    }
}

/// The whole data block decoded after the header, or the first error.
///
/// The shape dispatch follows the flags byte. For XYXY, a gap of exactly 12
/// bytes per subfile between the last subfile and the block's required end
/// is a directory; any other gap, for any shape, is a structural
/// misalignment reporting the required end and the offset reached.
pub open spec fn spec_block(s: Seq<u8>, h: HeaderV, e: Endian, gen: Generation) -> Result<
    (BlockV, int),
    DecodeError,
> {
    let hlen = header_len(h);
    let n = header_points(h);
    let hm = spec_header_mode(h);
    let target = spec_block_target(s, h);
    match spec_data_shape(header_flags_byte(h)) {
        Err(er) => Err(er),
        Ok(shape) => {
            let decoded = match shape {
                DataShape::Y => match spec_subfile(s, hlen, n, hm, e, gen) {
                    Err(er) => Err(er),
                    Ok((sub, fin)) => Ok((BlockV::Y(sub), fin)),
                },
                DataShape::YY => match spec_num_subfiles(h) {
                    Err(er) => Err(er),
                    Ok(k) => match spec_subfiles(s, hlen, k as nat, n, hm, e, gen) {
                        Err(er) => Err(er),
                        Ok((subs, fin)) => Ok((BlockV::YY(subs), fin)),
                    },
                },
                DataShape::XY => if hlen + 4 * n > s.len() {
                    Err(DecodeError::PrematureTermination)
                } else {
                    match spec_subfile(s, hlen + 4 * n, n, hm, e, gen) {
                        Err(er) => Err(er),
                        Ok((sub, fin)) => Ok(
                            (BlockV::XY { x: spec_f32_seq(s, hlen, n, e), y: sub }, fin),
                        ),
                    }
                },
                DataShape::XYY => if hlen + 4 * n > s.len() {
                    Err(DecodeError::PrematureTermination)
                } else {
                    match spec_num_subfiles(h) {
                        Err(er) => Err(er),
                        Ok(k) => match spec_subfiles(s, hlen + 4 * n, k as nat, n, hm, e, gen) {
                            Err(er) => Err(er),
                            Ok((subs, fin)) => Ok(
                                (BlockV::XYY { x: spec_f32_seq(s, hlen, n, e), ys: subs }, fin),
                            ),
                        },
                    }
                },
                DataShape::XYXY => match spec_num_subfiles(h) {
                    Err(er) => Err(er),
                    Ok(k) => match spec_xyxy_items(s, hlen, k as nat, hm, e, gen) {
                        Err(er) => Err(er),
                        Ok((items, fin)) => if fin == target {
                            Ok((BlockV::XYXY { data: items, directory: None }, fin))
                        } else if target - fin == 12 * k {
                            if target > s.len() {
                                Err(DecodeError::PrematureTermination)
                            } else {
                                Ok(
                                    (
                                        BlockV::XYXY {
                                            data: items,
                                            directory: Some(spec_directory(s, fin, k, e)),
                                        },
                                        target,
                                    ),
                                )
                            }
                        } else {
                            Ok((BlockV::XYXY { data: items, directory: None }, fin))
                        },
                    },
                },
            };
            match decoded {
                Err(er) => Err(er),
                Ok((bv, fin)) => if fin == target {
                    Ok((bv, fin))
                } else {
                    Err(
                        DecodeError::StructuralMisalignment {
                            expected: target as usize,
                            found: fin as usize,
                        },
                    )
                },
            }
        },
    }
}

/// The generation a decoded header belongs to.
pub open spec fn header_generation(h: HeaderV) -> Generation {
    match h {
        HeaderV::Old(o) => Generation::Old,
        HeaderV::New(n) => Generation::New,
    }
}

impl Header {
    /// The Y encoding this header declares, as [`spec_header_mode`].
    pub fn y_mode(&self) -> (r: YMode)
        ensures
            r == spec_header_mode(self@),
    {
        if self.exponent_y() == -128 {
            YMode::IEEEFloat
        } else if self.flags().y_precision_is_16_bit() {
            YMode::SixteenBitInt
        } else {
            YMode::ThirtyTwoBitInt
        }
    }
}

/// Resolves one subfile's effective Y encoding, as [`spec_resolve_mode`].
pub fn resolve_mode(hm: YMode, sub: &Subheader) -> (r: Result<YMode, DecodeError>)
    ensures
        r == spec_resolve_mode(hm, *sub),
{
    if sub.float_data_expected() {
        Ok(YMode::IEEEFloat)
    } else {
        match hm {
            YMode::SixteenBitInt => Ok(YMode::SixteenBitInt),
            YMode::ThirtyTwoBitInt => Ok(YMode::ThirtyTwoBitInt),
            YMode::IEEEFloat => Err(DecodeError::InconsistentYEncoding),
        }
    }
}

/// Reads `n` 16-bit Y samples at the cursor.
fn read_y_i16(spc: &mut SPCFile, n: u32) -> (r: Vec<i16>)
    requires
        old(spc).wf(),
        old(spc).byte + 2 * n <= old(spc).data@.len(),
    ensures
        final(spc).data@ == old(spc).data@,
        final(spc).endian == old(spc).endian,
        final(spc).wf(),
        final(spc).byte == old(spc).byte + 2 * n,
        r@ == spec_y_i16(old(spc).data@, old(spc).byte as int, n as int, old(spc).endian),
{
    let ghost s = spc.data@;
    let ghost e = spc.endian;
    let ghost off = spc.byte as int;
    let mut r: Vec<i16> = Vec::new();
    let mut i: u32 = 0;
    while i < n
        invariant
            spc.wf(),
            spc.data@ == s,
            spc.endian == e,
            i <= n,
            off + 2 * n <= s.len(),
            spc.byte == off + 2 * i,
            r@.len() == i as int,
            forall|j: int| 0 <= j < i ==> r@[j] == i16_of_u16(u16_at(s, off + 2 * j, e)),
        decreases n - i,
    {
        let v = match spc.read_i16() {
            Ok(v) => v,
            Err(_) => {
                proof {
                    assert(false);
                }
                0
            },
        };
        r.push(v);
        i = i + 1;
    }
    proof {
        assert(r@ =~= spec_y_i16(s, off, n as int, e));
    }
    r
}

/// Reads `n` 32-bit integer Y samples at the cursor: plain integers for the
/// new generation, word-swapped pairs for the old.
fn read_y_i32(spc: &mut SPCFile, n: u32, gen: Generation) -> (r: Vec<i32>)
    requires
        old(spc).wf(),
        old(spc).byte + 4 * n <= old(spc).data@.len(),
    ensures
        final(spc).data@ == old(spc).data@,
        final(spc).endian == old(spc).endian,
        final(spc).wf(),
        final(spc).byte == old(spc).byte + 4 * n,
        r@ == spec_y_i32(old(spc).data@, old(spc).byte as int, n as int, old(spc).endian, gen),
{
    let ghost s = spc.data@;
    let ghost e = spc.endian;
    let ghost off = spc.byte as int;
    let mut r: Vec<i32> = Vec::new();
    let mut i: u32 = 0;
    while i < n
        invariant
            spc.wf(),
            spc.data@ == s,
            spc.endian == e,
            i <= n,
            off + 4 * n <= s.len(),
            spc.byte == off + 4 * i,
            r@.len() == i as int,
            forall|j: int|
                0 <= j < i ==> r@[j] == (match gen {
                    Generation::Old => i32_word_swapped_at(s, off + 4 * j, e),
                    Generation::New => i32_of_u32(u32_at(s, off + 4 * j, e)),
                }),
        decreases n - i,
    {
        let v: i32 = match gen {
            Generation::New => {
                let w = match spc.read_u32() {
                    Ok(w) => w,
                    Err(_) => {
                        proof {
                            assert(false);
                        }
                        0
                    },
                };
                crate::cursor::reinterpret_i32(w)
            },
            Generation::Old => {
                let hi = match spc.read_u16() {
                    Ok(w) => w,
                    Err(_) => {
                        proof {
                            assert(false);
                        }
                        0
                    },
                };
                let lo = match spc.read_u16() {
                    Ok(w) => w,
                    Err(_) => {
                        proof {
                            assert(false);
                        }
                        0
                    },
                };
                crate::cursor::reinterpret_i32((hi as u32) << 16 | (lo as u32))
            },
        };
        r.push(v);
        i = i + 1;
    }
    proof {
        assert(r@ =~= spec_y_i32(s, off, n as int, e, gen));
    }
    r
}

/// Reads `n` 32-bit float bit patterns at the cursor.
fn read_f32_seq(spc: &mut SPCFile, n: u32) -> (r: Vec<u32>)
    requires
        old(spc).wf(),
        old(spc).byte + 4 * n <= old(spc).data@.len(),
    ensures
        final(spc).data@ == old(spc).data@,
        final(spc).endian == old(spc).endian,
        final(spc).wf(),
        final(spc).byte == old(spc).byte + 4 * n,
        r@ == spec_f32_seq(old(spc).data@, old(spc).byte as int, n as int, old(spc).endian),
{
    let ghost s = spc.data@;
    let ghost e = spc.endian;
    let ghost off = spc.byte as int;
    let mut r: Vec<u32> = Vec::new();
    let mut i: u32 = 0;
    while i < n
        invariant
            spc.wf(),
            spc.data@ == s,
            spc.endian == e,
            i <= n,
            off + 4 * n <= s.len(),
            spc.byte == off + 4 * i,
            r@.len() == i as int,
            forall|j: int| 0 <= j < i ==> r@[j] == u32_at(s, off + 4 * j, e),
        decreases n - i,
    {
        let v = match spc.read_f32_bits() {
            Ok(v) => v,
            Err(_) => {
                proof {
                    assert(false);
                }
                0
            },
        };
        r.push(v);
        i = i + 1;
    }
    proof {
        assert(r@ =~= spec_f32_seq(s, off, n as int, e));
    }
    r
}

/// Reads `k` 12-byte directory entries at the cursor.
fn read_directory(spc: &mut SPCFile, k: u32) -> (r: Vec<DirectoryEntry>)
    requires
        old(spc).wf(),
        old(spc).byte + 12 * k <= old(spc).data@.len(),
    ensures
        final(spc).data@ == old(spc).data@,
        final(spc).endian == old(spc).endian,
        final(spc).wf(),
        final(spc).byte == old(spc).byte + 12 * k,
        r@ == spec_directory(old(spc).data@, old(spc).byte as int, k as int, old(spc).endian),
{
    let ghost s = spc.data@;
    let ghost e = spc.endian;
    let ghost off = spc.byte as int;
    let mut r: Vec<DirectoryEntry> = Vec::new();
    let mut i: u32 = 0;
    while i < k
        invariant
            spc.wf(),
            spc.data@ == s,
            spc.endian == e,
            i <= k,
            off + 12 * k <= s.len(),
            spc.byte == off + 12 * i,
            r@.len() == i as int,
            forall|j: int| 0 <= j < i ==> r@[j] == spec_directory_entry(s, off + 12 * j, e),
        decreases k - i,
    {
        let ssfposn = match spc.read_u32() {
            Ok(v) => v,
            Err(_) => {
                proof {
                    assert(false);
                }
                0
            },
        };
        let ssfsize = match spc.read_u32() {
            Ok(v) => v,
            Err(_) => {
                proof {
                    assert(false);
                }
                0
            },
        };
        let ssftime_bits = match spc.read_f32_bits() {
            Ok(v) => v,
            Err(_) => {
                proof {
                    assert(false);
                }
                0
            },
        };
        r.push(DirectoryEntry { ssfposn, ssfsize, ssftime_bits });
        i = i + 1;
    }
    proof {
        assert(r@ =~= spec_directory(s, off, k as int, e));
    }
    r
}

/// Decodes one subfile with `n` expected samples at the cursor, as
/// [`spec_subfile`].
pub fn decode_subfile(spc: &mut SPCFile, n: u32, hm: YMode, gen: Generation) -> (r: Result<
    Subfile,
    DecodeError,
>)
    requires
        old(spc).wf(),
    ensures
        final(spc).data@ == old(spc).data@,
        final(spc).endian == old(spc).endian,
        final(spc).wf(),
        match r {
            Ok(sub) => spec_subfile(
                old(spc).data@,
                old(spc).byte as int,
                n as int,
                hm,
                old(spc).endian,
                gen,
            ) == Ok::<(SubfileV, int), DecodeError>((sub@, final(spc).byte as int)),
            Err(e) => spec_subfile(
                old(spc).data@,
                old(spc).byte as int,
                n as int,
                hm,
                old(spc).endian,
                gen,
            ) == Err::<(SubfileV, int), DecodeError>(e),
        },
{
    let mut p = SubHeaderParser { spc: *spc };
    let sh = match p.parse() {
        Ok(sh) => sh,
        Err(e) => {
            return Err(e);
        },
    };
    *spc = p.spc;
    let mode = match resolve_mode(hm, &sh) {
        Ok(m) => m,
        Err(e) => {
            return Err(e);
        },
    };
    let bpp = mode.bytes_per_point();
    let rem = spc.remaining_bytes();
    assert((n as u64) * (bpp as u64) == n * bpp) by (nonlinear_arith)
        requires
            n <= u32::MAX && bpp <= 4,
    ;
    let need: u64 = (n as u64) * (bpp as u64);
    if need > rem as u64 {
        return Err(DecodeError::PrematureTermination);
    }
    if sh.number_points != 0 && sh.number_points != n {
        return Err(
            DecodeError::StructuralMisalignment {
                expected: n as usize,
                found: sh.number_points as usize,
            },
        );
    }
    let data = match mode {
        YMode::SixteenBitInt => YData::SixteenBitInteger(read_y_i16(spc, n)),
        YMode::ThirtyTwoBitInt => YData::ThirtyTwoBitInteger(read_y_i32(spc, n, gen)),
        YMode::IEEEFloat => YData::Float(read_f32_seq(spc, n)),
    };
    Ok(Subfile { subheader: sh, data })
}

/// Splices the subfiles already decoded onto the outcome of decoding the
/// rest: the fixed point that the subfile loops maintain.
pub open spec fn subfiles_compose(
    done: Seq<SubfileV>,
    rest: Result<(Seq<SubfileV>, int), DecodeError>,
) -> Result<(Seq<SubfileV>, int), DecodeError> {
    match rest {
        Ok((r, fin)) => Ok((done + r, fin)),
        Err(er) => Err(er),
    }
}

/// As [`subfiles_compose`], for XYXY items.
pub open spec fn pairs_compose(
    done: Seq<(Seq<u32>, SubfileV)>,
    rest: Result<(Seq<(Seq<u32>, SubfileV)>, int), DecodeError>,
) -> Result<(Seq<(Seq<u32>, SubfileV)>, int), DecodeError> {
    match rest {
        Ok((r, fin)) => Ok((done + r, fin)),
        Err(er) => Err(er),
    }
}

/// Decodes `k` equally sized subfiles in sequence, as [`spec_subfiles`].
#[verifier::loop_isolation(false)]
pub fn decode_subfiles(spc: &mut SPCFile, k: u32, n: u32, hm: YMode, gen: Generation) -> (r:
    Result<Vec<Subfile>, DecodeError>)
    requires
        old(spc).wf(),
    ensures
        final(spc).data@ == old(spc).data@,
        final(spc).endian == old(spc).endian,
        final(spc).wf(),
        match r {
            Ok(subs) => spec_subfiles(
                old(spc).data@,
                old(spc).byte as int,
                k as nat,
                n as int,
                hm,
                old(spc).endian,
                gen,
            ) == Ok::<(Seq<SubfileV>, int), DecodeError>(
                (subfiles_view(subs@), final(spc).byte as int),
            ),
            Err(e) => spec_subfiles(
                old(spc).data@,
                old(spc).byte as int,
                k as nat,
                n as int,
                hm,
                old(spc).endian,
                gen,
            ) == Err::<(Seq<SubfileV>, int), DecodeError>(e),
        },
{
    let ghost s = spc.data@;
    let ghost e = spc.endian;
    let ghost off0 = spc.byte as int;
    let mut subs: Vec<Subfile> = Vec::new();
    let mut i: u32 = 0;
    proof {
        if let Ok((rest, fin)) = spec_subfiles(s, off0, k as nat, n as int, hm, e, gen) {
            assert(Seq::<SubfileV>::empty() + rest =~= rest);
        }
        assert(subfiles_view(subs@) =~= Seq::<SubfileV>::empty());
    }
    while i < k
        invariant
            spc.wf(),
            spc.data@ == s,
            spc.endian == e,
            i <= k,
            spec_subfiles(s, off0, k as nat, n as int, hm, e, gen) == subfiles_compose(
                subfiles_view(subs@),
                spec_subfiles(s, spc.byte as int, (k - i) as nat, n as int, hm, e, gen),
            ),
        decreases k - i,
    {
        let ghost done = subfiles_view(subs@);
        let sub = match decode_subfile(spc, n, hm, gen) {
            Ok(sub) => sub,
            Err(er) => {
                return Err(er);
            },
        };
        let ghost cur2 = spc.byte as int;
        subs.push(sub);
        i = i + 1;
        proof {
            assert(subfiles_view(subs@) =~= done + seq![sub@]);
            if let Ok((rest2, fin)) = spec_subfiles(s, cur2, (k - i) as nat, n as int, hm, e, gen) {
                assert(seq![sub@] + rest2 =~= (seq![sub@] + rest2));
                assert(done + (seq![sub@] + rest2) =~= (done + seq![sub@]) + rest2);
            }
        }
    }
    proof {
        assert(spec_subfiles(s, spc.byte as int, 0, n as int, hm, e, gen) == Ok::<
            (Seq<SubfileV>, int),
            DecodeError,
        >((Seq::empty(), spc.byte as int)));
        assert(subfiles_view(subs@) + Seq::<SubfileV>::empty() =~= subfiles_view(subs@));
    }
    Ok(subs)
}

/// Decodes `k` XYXY items in sequence, as [`spec_xyxy_items`]: each one a
/// subheader, its own count of explicit X values, then its Y samples.
#[verifier::loop_isolation(false)]
#[verifier::rlimit(60)]
pub fn decode_xyxy_items(spc: &mut SPCFile, k: u32, hm: YMode, gen: Generation) -> (r: Result<
    Vec<(Vec<u32>, Subfile)>,
    DecodeError,
>)
    requires
        old(spc).wf(),
    ensures
        final(spc).data@ == old(spc).data@,
        final(spc).endian == old(spc).endian,
        final(spc).wf(),
        match r {
            Ok(items) => spec_xyxy_items(
                old(spc).data@,
                old(spc).byte as int,
                k as nat,
                hm,
                old(spc).endian,
                gen,
            ) == Ok::<(Seq<(Seq<u32>, SubfileV)>, int), DecodeError>(
                (pairs_view(items@), final(spc).byte as int),
            ),
            Err(e) => spec_xyxy_items(
                old(spc).data@,
                old(spc).byte as int,
                k as nat,
                hm,
                old(spc).endian,
                gen,
            ) == Err::<(Seq<(Seq<u32>, SubfileV)>, int), DecodeError>(e),
        },
{
    let ghost s = spc.data@;
    let ghost e = spc.endian;
    let ghost off0 = spc.byte as int;
    let mut items: Vec<(Vec<u32>, Subfile)> = Vec::new();
    let mut i: u32 = 0;
    proof {
        if let Ok((rest, fin)) = spec_xyxy_items(s, off0, k as nat, hm, e, gen) {
            assert(Seq::<(Seq<u32>, SubfileV)>::empty() + rest =~= rest);
        }
        assert(pairs_view(items@) =~= Seq::<(Seq<u32>, SubfileV)>::empty());
    }
    while i < k
        invariant
            spc.wf(),
            spc.data@ == s,
            spc.endian == e,
            i <= k,
            spec_xyxy_items(s, off0, k as nat, hm, e, gen) == pairs_compose(
                pairs_view(items@),
                spec_xyxy_items(s, spc.byte as int, (k - i) as nat, hm, e, gen),
            ),
        decreases k - i,
    {
        let ghost done = pairs_view(items@);
        let mut p = SubHeaderParser { spc: *spc };
        let sh = match p.parse() {
            Ok(sh) => sh,
            Err(er) => {
                return Err(er);
            },
        };
        *spc = p.spc;
        let nx = sh.number_of_points();
        let rem = spc.remaining_bytes();
        if (nx as u64) * 4 > rem as u64 {
            return Err(DecodeError::PrematureTermination);
        }
        let x = read_f32_seq(spc, nx);
        let mode = match resolve_mode(hm, &sh) {
            Ok(m) => m,
            Err(er) => {
                return Err(er);
            },
        };
        let bpp = mode.bytes_per_point();
        let rem2 = spc.remaining_bytes();
        assert((nx as u64) * (bpp as u64) == nx * bpp) by (nonlinear_arith)
            requires
                nx <= u32::MAX && bpp <= 4,
        ;
        if (nx as u64) * (bpp as u64) > rem2 as u64 {
            return Err(DecodeError::PrematureTermination);
        }
        let data = match mode {
            YMode::SixteenBitInt => YData::SixteenBitInteger(read_y_i16(spc, nx)),
            YMode::ThirtyTwoBitInt => YData::ThirtyTwoBitInteger(read_y_i32(spc, nx, gen)),
            YMode::IEEEFloat => YData::Float(read_f32_seq(spc, nx)),
        };
        let sub = Subfile { subheader: sh, data };
        let ghost item_v = (x@, sub@);
        items.push((x, sub));
        i = i + 1;
        let ghost cur2 = spc.byte as int;
        proof {
            assert(pairs_view(items@) =~= done + seq![item_v]);
            if let Ok((rest2, fin)) = spec_xyxy_items(s, cur2, (k - i) as nat, hm, e, gen) {
                assert(done + (seq![item_v] + rest2) =~= (done + seq![item_v]) + rest2);
            }
        }
    }
    proof {
        assert(spec_xyxy_items(s, spc.byte as int, 0, hm, e, gen) == Ok::<
            (Seq<(Seq<u32>, SubfileV)>, int),
            DecodeError,
        >((Seq::empty(), spc.byte as int)));
        assert(pairs_view(items@) + Seq::<(Seq<u32>, SubfileV)>::empty() =~= pairs_view(items@));
    }
    Ok(items)
}

/// Decodes the whole data block after the header, as [`spec_block`]. On
/// success the cursor rests exactly at the declared log offset, or at the
/// end of the buffer when no log is declared.
pub fn decode_block(spc: &mut SPCFile, header: &Header) -> (r: Result<Block, DecodeError>)
    requires
        old(spc).wf(),
        old(spc).byte == header_len(header@),
        old(spc).data@.len() >= header_len(header@),
    ensures
        final(spc).data@ == old(spc).data@,
        final(spc).endian == old(spc).endian,
        final(spc).wf(),
        match r {
            Ok(b) => spec_block(
                old(spc).data@,
                header@,
                old(spc).endian,
                header_generation(header@),
            ) == Ok::<(BlockV, int), DecodeError>((b@, final(spc).byte as int)),
            Err(e) => spec_block(
                old(spc).data@,
                header@,
                old(spc).endian,
                header_generation(header@),
            ) == Err::<(BlockV, int), DecodeError>(e),
        },
{
    let gen = match header {
        Header::Old(h) => Generation::Old,
        Header::New(h) => Generation::New,
    };
    let shape = match header.flags().data_shape() {
        Ok(sh) => sh,
        Err(er) => {
            return Err(er);
        },
    };
    let n = header.number_points();
    let hm = header.y_mode();
    let block = match shape {
        DataShape::Y => {
            let sub = match decode_subfile(spc, n, hm, gen) {
                Ok(sub) => sub,
                Err(er) => {
                    return Err(er);
                },
            };
            Block::Y(sub)
        },
        DataShape::YY => {
            let k = match header.number_of_subfiles() {
                Ok(k) => k,
                Err(er) => {
                    return Err(er);
                },
            };
            let subs = match decode_subfiles(spc, k, n, hm, gen) {
                Ok(v) => v,
                Err(er) => {
                    return Err(er);
                },
            };
            Block::YY(subs)
        },
        DataShape::XY => {
            let rem = spc.remaining_bytes();
            if (n as u64) * 4 > rem as u64 {
                return Err(DecodeError::PrematureTermination);
            }
            let x = read_f32_seq(spc, n);
            let y = match decode_subfile(spc, n, hm, gen) {
                Ok(sub) => sub,
                Err(er) => {
                    return Err(er);
                },
            };
            Block::XY { x, y }
        },
        DataShape::XYY => {
            let rem = spc.remaining_bytes();
            if (n as u64) * 4 > rem as u64 {
                return Err(DecodeError::PrematureTermination);
            }
            let x = read_f32_seq(spc, n);
            let k = match header.number_of_subfiles() {
                Ok(k) => k,
                Err(er) => {
                    return Err(er);
                },
            };
            let ys = match decode_subfiles(spc, k, n, hm, gen) {
                Ok(v) => v,
                Err(er) => {
                    return Err(er);
                },
            };
            Block::XYY { x, ys }
        },
        DataShape::XYXY => {
            let k = match header.number_of_subfiles() {
                Ok(k) => k,
                Err(er) => {
                    return Err(er);
                },
            };
            let items = match decode_xyxy_items(spc, k, hm, gen) {
                Ok(v) => v,
                Err(er) => {
                    return Err(er);
                },
            };
            let target: usize = match header.log_offset() {
                Some(lo) => lo as usize,
                None => spc.data.len(),
            };
            let directory = if spc.byte == target {
                None
            } else if target >= spc.byte && (target - spc.byte) as u64 == (k as u64) * 12 {
                if target > spc.data.len() {
                    return Err(DecodeError::PrematureTermination);
                }
                Some(read_directory(spc, k))
            } else {
                None
            };
            Block::XYXY { data: items, directory }
        },
    };
    // The block must end exactly at the log offset, or exhaust the buffer
    // when no log is declared.
    match header.log_offset() {
        None => {
            if !spc.is_exhausted() {
                return Err(
                    DecodeError::StructuralMisalignment {
                        expected: spc.data.len(),
                        found: spc.byte,
                    },
                );
            }
        },
        Some(lo) => {
            if spc.byte != lo as usize {
                return Err(
                    DecodeError::StructuralMisalignment { expected: lo as usize, found: spc.byte },
                );
            }
        },
    }
    Ok(block)
}

} // verus!

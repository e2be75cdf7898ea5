//! The two header generations: an old 224-byte form and a new 512-byte form.
//!
//! Each decoder first validates the header's spare/reserved regions, then
//! decodes and validates every field against the fixed byte layout. The
//! specification functions below state, byte by byte, what a decoded header
//! holds and exactly when each error is returned.

use vstd::prelude::*;

use crate::cursor::{i16_of_u16, i8_of_u8, u16_at, u32_at, u64_at, Endian, SPCFile};
use crate::datetime::{spec_compose_datetime, SpcDateTime};
use crate::flags::FlagParameters;
use crate::fpbits::f32_count;
use crate::reserved::{all_zero, first_nonzero};
use crate::text::field_text;
use crate::units::{
    spec_instrument_technique, spec_xzw_type, spec_y_type, xzwType, yType, InstrumentTechnique,
};
use crate::DecodeError;

verus! {

/// A decoded old-generation (224-byte) header. Floating-point fields carry
/// their raw bit patterns; the stored float point count is already truncated
/// to the integer count it denotes.
#[derive(Clone, Debug, PartialEq)]
pub struct OldFormatHeader {
    pub flags: FlagParameters,
    pub exponent_y: i16,
    pub number_points: u32,
    pub starting_x_bits: u32,
    pub ending_x_bits: u32,
    pub x_unit_type: xzwType,
    pub y_unit_type: yType,
    pub z_unit_type: xzwType,
    pub datetime: Option<SpcDateTime>,
    pub resolution_description: Vec<u8>,
    pub peak_point_number: u16,
    pub scans: u16,
    pub memo: Vec<u8>,
    pub xyz_labels: Vec<u8>,
}

/// Mathematical model of an old-generation header.
pub ghost struct OldFormatHeaderV {
    pub flags: FlagParameters,
    pub exponent_y: i16,
    pub number_points: u32,
    pub starting_x_bits: u32,
    pub ending_x_bits: u32,
    pub x_unit_type: xzwType,
    pub y_unit_type: yType,
    pub z_unit_type: xzwType,
    pub datetime: Option<SpcDateTime>,
    pub resolution_description: Seq<u8>,
    pub peak_point_number: u16,
    pub scans: u16,
    pub memo: Seq<u8>,
    pub xyz_labels: Seq<u8>,
}

impl View for OldFormatHeader {
    type V = OldFormatHeaderV;

    open spec fn view(&self) -> OldFormatHeaderV {
        OldFormatHeaderV {
            flags: self.flags,
            exponent_y: self.exponent_y,
            number_points: self.number_points,
            starting_x_bits: self.starting_x_bits,
            ending_x_bits: self.ending_x_bits,
            x_unit_type: self.x_unit_type,
            y_unit_type: self.y_unit_type,
            z_unit_type: self.z_unit_type,
            datetime: self.datetime,
            resolution_description: self.resolution_description@,
            peak_point_number: self.peak_point_number,
            scans: self.scans,
            memo: self.memo@,
            xyz_labels: self.xyz_labels@,
        }
    }
}

/// A decoded new-generation (512-byte) header.
#[derive(Clone, Debug, PartialEq)]
pub struct NewFormatHeader {
    pub file_version: u8,
    pub flags: FlagParameters,
    pub instrument_technique: InstrumentTechnique,
    pub exponent_y: i8,
    pub number_points: u32,
    pub starting_x_bits: u64,
    pub ending_x_bits: u64,
    pub spectra: u32,
    pub x_unit_type: xzwType,
    pub y_unit_type: yType,
    pub z_unit_type: xzwType,
    pub posting_disposition: u8,
    pub datetime: SpcDateTime,
    pub resolution_description: Vec<u8>,
    pub source_instrument_description: Vec<u8>,
    pub peak_point_number: u16,
    pub memo: Vec<u8>,
    pub xyz_labels: Vec<u8>,
    pub log_offset: u32,
    pub modified_flag: u32,
    pub processing_code: u8,
    pub calibration_level: u8,
    pub sub_method_sample_injection_number: u16,
    pub concentration_factor_bits: u32,
    pub method_file: Vec<u8>,
    pub z_sub_increment_bits: u32,
    pub w_planes: u32,
    pub w_plane_increment_bits: u32,
    pub w_axis_units: xzwType,
}

/// Mathematical model of a new-generation header.
pub ghost struct NewFormatHeaderV {
    pub file_version: u8,
    pub flags: FlagParameters,
    pub instrument_technique: InstrumentTechnique,
    pub exponent_y: i8,
    pub number_points: u32,
    pub starting_x_bits: u64,
    pub ending_x_bits: u64,
    pub spectra: u32,
    pub x_unit_type: xzwType,
    pub y_unit_type: yType,
    pub z_unit_type: xzwType,
    pub posting_disposition: u8,
    pub datetime: SpcDateTime,
    pub resolution_description: Seq<u8>,
    pub source_instrument_description: Seq<u8>,
    pub peak_point_number: u16,
    pub memo: Seq<u8>,
    pub xyz_labels: Seq<u8>,
    pub log_offset: u32,
    pub modified_flag: u32,
    pub processing_code: u8,
    pub calibration_level: u8,
    pub sub_method_sample_injection_number: u16,
    pub concentration_factor_bits: u32,
    pub method_file: Seq<u8>,
    pub z_sub_increment_bits: u32,
    pub w_planes: u32,
    pub w_plane_increment_bits: u32,
    pub w_axis_units: xzwType,
}

impl View for NewFormatHeader {
    type V = NewFormatHeaderV;

    open spec fn view(&self) -> NewFormatHeaderV {
        NewFormatHeaderV {
            file_version: self.file_version,
            flags: self.flags,
            instrument_technique: self.instrument_technique,
            exponent_y: self.exponent_y,
            number_points: self.number_points,
            starting_x_bits: self.starting_x_bits,
            ending_x_bits: self.ending_x_bits,
            spectra: self.spectra,
            x_unit_type: self.x_unit_type,
            y_unit_type: self.y_unit_type,
            z_unit_type: self.z_unit_type,
            posting_disposition: self.posting_disposition,
            datetime: self.datetime,
            resolution_description: self.resolution_description@,
            source_instrument_description: self.source_instrument_description@,
            peak_point_number: self.peak_point_number,
            memo: self.memo@,
            xyz_labels: self.xyz_labels@,
            log_offset: self.log_offset,
            modified_flag: self.modified_flag,
            processing_code: self.processing_code,
            calibration_level: self.calibration_level,
            sub_method_sample_injection_number: self.sub_method_sample_injection_number,
            concentration_factor_bits: self.concentration_factor_bits,
            method_file: self.method_file@,
            z_sub_increment_bits: self.z_sub_increment_bits,
            w_planes: self.w_planes,
            w_plane_increment_bits: self.w_plane_increment_bits,
            w_axis_units: self.w_axis_units,
        }
    }
}

/// A header of either generation, chosen by the version byte.
#[derive(Clone, Debug, PartialEq)]
pub enum Header {
    Old(OldFormatHeader),
    New(NewFormatHeader),
}

/// Mathematical model of a header of either generation.
pub ghost enum HeaderV {
    Old(OldFormatHeaderV),
    New(NewFormatHeaderV),
}

impl View for Header {
    type V = HeaderV;

    open spec fn view(&self) -> HeaderV {
        match self {
            Header::Old(h) => HeaderV::Old(h@),
            Header::New(h) => HeaderV::New(h@),
        }
    }
}

/// The flags byte a header carries.
pub open spec fn header_flags_byte(h: HeaderV) -> u8 {
    match h {
        HeaderV::Old(o) => o.flags.0,
        HeaderV::New(n) => n.flags.0,
    }
}

/// The header-level Y exponent, widened to one integer range.
pub open spec fn header_exponent(h: HeaderV) -> int {
    match h {
        HeaderV::Old(o) => o.exponent_y as int,
        HeaderV::New(n) => n.exponent_y as int,
    }
}

/// The header's point count (for shapes whose X is not per-subfile).
pub open spec fn header_points(h: HeaderV) -> int {
    match h {
        HeaderV::Old(o) => o.number_points as int,
        HeaderV::New(n) => n.number_points as int,
    }
}

/// The absolute offset of the trailing log block, if the header declares
/// one. Only new-generation headers carry the field; zero means none.
pub open spec fn header_log_offset(h: HeaderV) -> Option<int> {
    match h {
        HeaderV::Old(o) => None,
        HeaderV::New(n) => if n.log_offset == 0 {
            None
        } else {
            Some(n.log_offset as int)
        },
    }
}

/// How many subfiles the block holds. A new-generation header declares the
/// count (one unless multifile); an old-generation multifile stores no count
/// and no consistent convention exists to derive one, which is an error.
pub open spec fn spec_num_subfiles(h: HeaderV) -> Result<int, DecodeError> {
    match h {
        HeaderV::New(n) => if n.flags.0 & 0x04 != 0 {
            Ok(n.spectra as int)
        } else {
            Ok(1)
        },
        HeaderV::Old(o) => if o.flags.0 & 0x04 != 0 {
            Err(DecodeError::InconsistentSubfileCount)
        } else {
            Ok(1)
        },
    }
}

/// The fixed byte length of a decoded header's generation.
pub open spec fn header_len(h: HeaderV) -> int {
    match h {
        HeaderV::Old(o) => 224,
        HeaderV::New(n) => 512,
    }
}

impl Header {
    pub fn flags(&self) -> (r: FlagParameters)
        ensures
            r.0 == header_flags_byte(self@),
    {
        match self {
            Header::Old(h) => h.flags,
            Header::New(h) => h.flags,
        }
    }

    pub fn exponent_y(&self) -> (r: i32)
        ensures
            r == header_exponent(self@),
    {
        match self {
            Header::Old(h) => h.exponent_y as i32,
            Header::New(h) => h.exponent_y as i32,
        }
    }

    pub fn number_points(&self) -> (r: u32)
        ensures
            r == header_points(self@),
    {
        match self {
            Header::Old(h) => h.number_points,
            Header::New(h) => h.number_points,
        }
    }

    pub fn log_offset(&self) -> (r: Option<u32>)
        ensures
            match r {
                Some(v) => header_log_offset(self@) == Some(v as int),
                None => header_log_offset(self@) is None,
            },
    {
        match self {
            Header::Old(h) => None,
            Header::New(h) => if h.log_offset == 0 {
                None
            } else {
                Some(h.log_offset)
            },
        }
    }

    pub fn number_of_subfiles(&self) -> (r: Result<u32, DecodeError>)
        ensures
            match r {
                Ok(k) => spec_num_subfiles(self@) == Ok::<int, DecodeError>(k as int),
                Err(e) => spec_num_subfiles(self@) == Err::<int, DecodeError>(e),
            },
    {
        match self {
            Header::New(h) => if h.flags.0 & 0x04 != 0 {
                Ok(h.spectra)
            } else {
                Ok(1)
            },
            Header::Old(h) => if h.flags.0 & 0x04 != 0 {
                Err(DecodeError::InconsistentSubfileCount)
            } else {
                Ok(1)
            },
        }
    }
}

/// The decoded old-generation header of buffer `s`, or the first error the
/// decode meets: a buffer shorter than the 224-byte header, a non-zero spare
/// byte, an unrecognized unit code, or an invalid timestamp.
pub open spec fn spec_old_header(s: Seq<u8>, e: Endian) -> Result<OldFormatHeaderV, DecodeError> {
    if s.len() < 224 {
        Err(DecodeError::PrematureTermination)
    } else if !all_zero(s, 36, 64) {
        Err(DecodeError::NonZeroReservedRegion(first_nonzero(s, 36, 64) as usize))
    } else {
        match spec_xzw_type(s[16]) {
            None => Err(DecodeError::InvalidUnitCode(s[16])),
            Some(x_unit_type) => match spec_y_type(s[17]) {
                None => Err(DecodeError::InvalidUnitCode(s[17])),
                Some(y_unit_type) => {
                    let z_type_year = u16_at(s, 18, e);
                    match spec_xzw_type((z_type_year >> 12) as u8) {
                        None => Err(DecodeError::InvalidUnitCode((z_type_year >> 12) as u8)),
                        Some(z_unit_type) => {
                            let year = z_type_year & 0x0fff;
                            let dt = if year == 0 {
                                Ok(None)
                            } else {
                                match spec_compose_datetime(year, s[20], s[21], s[22], s[23]) {
                                    Ok(d) => Ok(Some(d)),
                                    Err(err) => Err(err),
                                }
                            };
                            match dt {
                                Err(err) => Err(err),
                                Ok(datetime) => Ok(
                                    OldFormatHeaderV {
                                        flags: FlagParameters(s[0]),
                                        exponent_y: i16_of_u16(u16_at(s, 2, e)),
                                        number_points: f32_count(u32_at(s, 4, e)),
                                        starting_x_bits: u32_at(s, 8, e),
                                        ending_x_bits: u32_at(s, 12, e),
                                        x_unit_type,
                                        y_unit_type,
                                        z_unit_type,
                                        datetime,
                                        resolution_description: field_text(s.subrange(24, 32)),
                                        peak_point_number: u16_at(s, 32, e),
                                        scans: u16_at(s, 34, e),
                                        memo: field_text(s.subrange(64, 194)),
                                        xyz_labels: field_text(s.subrange(194, 224)),
                                    },
                                ),
                            }
                        },
                    }
                },
            },
        }
    }
}

/// The decoded new-generation header of buffer `s`, or the first error the
/// decode meets. Both spare regions are validated before any field is
/// interpreted.
pub open spec fn spec_new_header(s: Seq<u8>, e: Endian) -> Result<NewFormatHeaderV, DecodeError> {
    if s.len() < 512 {
        Err(DecodeError::PrematureTermination)
    } else if !all_zero(s, 56, 88) {
        Err(DecodeError::NonZeroReservedRegion(first_nonzero(s, 56, 88) as usize))
    } else if !all_zero(s, 325, 512) {
        Err(DecodeError::NonZeroReservedRegion(first_nonzero(s, 325, 512) as usize))
    } else {
        match spec_instrument_technique(s[2]) {
            None => Err(DecodeError::InvalidUnitCode(s[2])),
            Some(instrument_technique) => match spec_xzw_type(s[28]) {
                None => Err(DecodeError::InvalidUnitCode(s[28])),
                Some(x_unit_type) => match spec_y_type(s[29]) {
                    None => Err(DecodeError::InvalidUnitCode(s[29])),
                    Some(y_unit_type) => match spec_xzw_type(s[30]) {
                        None => Err(DecodeError::InvalidUnitCode(s[30])),
                        Some(z_unit_type) => {
                            let d = u32_at(s, 32, e);
                            let dt = spec_compose_datetime(
                                (d >> 20) as u16,
                                ((d >> 16) & 0xf) as u8,
                                ((d >> 11) & 0x1f) as u8,
                                ((d >> 6) & 0x1f) as u8,
                                (d & 0x3f) as u8,
                            );
                            match dt {
                                Err(err) => Err(err),
                                Ok(datetime) => match spec_xzw_type(s[324]) {
                                    None => Err(DecodeError::InvalidUnitCode(s[324])),
                                    Some(w_axis_units) => Ok(
                                        NewFormatHeaderV {
                                            file_version: s[1],
                                            flags: FlagParameters(s[0]),
                                            instrument_technique,
                                            exponent_y: i8_of_u8(s[3]),
                                            number_points: u32_at(s, 4, e),
                                            starting_x_bits: u64_at(s, 8, e),
                                            ending_x_bits: u64_at(s, 16, e),
                                            spectra: u32_at(s, 24, e),
                                            x_unit_type,
                                            y_unit_type,
                                            z_unit_type,
                                            posting_disposition: s[31],
                                            datetime,
                                            resolution_description: field_text(s.subrange(36, 45)),
                                            source_instrument_description: field_text(
                                                s.subrange(45, 54),
                                            ),
                                            peak_point_number: u16_at(s, 54, e),
                                            memo: field_text(s.subrange(88, 218)),
                                            xyz_labels: field_text(s.subrange(218, 248)),
                                            log_offset: u32_at(s, 248, e),
                                            modified_flag: u32_at(s, 252, e),
                                            processing_code: s[256],
                                            calibration_level: s[257],
                                            sub_method_sample_injection_number: u16_at(s, 258, e),
                                            concentration_factor_bits: u32_at(s, 260, e),
                                            method_file: field_text(s.subrange(264, 312)),
                                            z_sub_increment_bits: u32_at(s, 312, e),
                                            w_planes: u32_at(s, 316, e),
                                            w_plane_increment_bits: u32_at(s, 320, e),
                                            w_axis_units,
                                        },
                                    ),
                                },
                            }
                        },
                    },
                },
            },
        }
    }
}

/// The byte order a version byte selects: the one big-endian magic value, or
/// little-endian for both others.
pub open spec fn endian_of(v: u8) -> Endian {
    if v == 0x4c {
        Endian::Big
    } else {
        Endian::Little
    }
}

/// Whether a version byte is one of the three recognized magic values.
pub open spec fn version_recognized(v: u8) -> bool {
    v == 0x4b || v == 0x4c || v == 0x4d
}

/// The decoded header of buffer `s`, dispatched on the version byte, or the
/// first error: a buffer shorter than two bytes, an unrecognized version
/// byte, or whatever the selected generation's decoder reports.
pub open spec fn spec_header(s: Seq<u8>) -> Result<HeaderV, DecodeError> {
    if s.len() < 2 {
        Err(DecodeError::PrematureTermination)
    } else if s[1] == 0x4d {
        match spec_old_header(s, Endian::Little) {
            Ok(h) => Ok(HeaderV::Old(h)),
            Err(e) => Err(e),
        }
    } else if s[1] == 0x4b || s[1] == 0x4c {
        match spec_new_header(s, endian_of(s[1])) {
            Ok(h) => Ok(HeaderV::New(h)),
            Err(e) => Err(e),
        }
    } else {
        Err(DecodeError::UnrecognizedVersionByte(s[1]))
    }
}

/// The fixed byte length of the header a version byte announces.
pub open spec fn header_len_of(v: u8) -> int {
    if v == 0x4d {
        224
    } else {
        512
    }
}

/// Decoder for the fixed-length header at the start of the buffer. Holds the
/// cursor together with the flags and version bytes read up front.
pub struct HeaderParser<'a> {
    pub spc: SPCFile<'a>,
    pub flags: FlagParameters,
    pub version: u8,
}

impl<'a> HeaderParser<'a> {
    /// The parser sits right after the two lead bytes, which it has recorded.
    pub open spec fn wf(self) -> bool {
        &&& self.spc.wf()
        &&& self.spc.byte == 2
        &&& self.spc.data@.len() >= 2
        &&& self.flags == FlagParameters(self.spc.data@[0])
        &&& self.version == self.spc.data@[1]
        &&& version_recognized(self.version)
    }

    /// Reads the flags and version bytes. A buffer shorter than two bytes or
    /// an unrecognized version byte is fatal, before any field of the header
    /// is interpreted.
    pub fn new(spc: SPCFile<'a>) -> (r: Result<HeaderParser<'a>, DecodeError>)
        requires
            spc.wf(),
            spc.byte == 0,
        ensures
            match r {
                Ok(p) => {
                    &&& spc.data@.len() >= 2
                    &&& version_recognized(spc.data@[1])
                    &&& p.wf()
                    &&& p.spc.data@ == spc.data@
                    &&& p.spc.endian == spc.endian
                },
                Err(e) => if spc.data@.len() < 2 {
                    e == DecodeError::PrematureTermination
                } else {
                    !version_recognized(spc.data@[1]) && e == DecodeError::UnrecognizedVersionByte(
                        spc.data@[1],
                    )
                },
            },
    {
        let mut spc = spc;
        let flags = FlagParameters(spc.read_byte()?);
        let version = spc.read_byte()?;
        if version == 0x4b || version == 0x4c || version == 0x4d {
            Ok(HeaderParser { spc, flags, version })
        } else {
            Err(DecodeError::UnrecognizedVersionByte(version))
        }
    }

    pub fn read_byte(&mut self) -> (r: Result<u8, DecodeError>)
        requires
            old(self).spc.wf(),
        ensures
            final(self).spc.data@ == old(self).spc.data@,
            final(self).spc.endian == old(self).spc.endian,
            final(self).flags == old(self).flags,
            final(self).version == old(self).version,
            final(self).spc.wf(),
            match r {
                Ok(v) => old(self).spc.byte + 1 <= old(self).spc.data@.len() && final(self).spc.byte == old(self).spc.byte + 1 && v == old(self).spc.data@[old(self).spc.byte as int],
                Err(e) => old(self).spc.byte + 1 > old(self).spc.data@.len() && e
                    == DecodeError::PrematureTermination && final(self).spc.byte == old(self).spc.byte,
            },
    {
        self.spc.read_byte()
    }

    pub fn read_i8(&mut self) -> (r: Result<i8, DecodeError>)
        requires
            old(self).spc.wf(),
        ensures
            final(self).spc.data@ == old(self).spc.data@,
            final(self).spc.endian == old(self).spc.endian,
            final(self).flags == old(self).flags,
            final(self).version == old(self).version,
            final(self).spc.wf(),
            match r {
                Ok(v) => old(self).spc.byte + 1 <= old(self).spc.data@.len() && final(self).spc.byte == old(self).spc.byte + 1 && v == i8_of_u8(
                    old(self).spc.data@[old(self).spc.byte as int],
                ),
                Err(e) => old(self).spc.byte + 1 > old(self).spc.data@.len() && e
                    == DecodeError::PrematureTermination && final(self).spc.byte == old(self).spc.byte,
            },
    {
        self.spc.read_i8()
    }

    pub fn read_i16(&mut self) -> (r: Result<i16, DecodeError>)
        requires
            old(self).spc.wf(),
        ensures
            final(self).spc.data@ == old(self).spc.data@,
            final(self).spc.endian == old(self).spc.endian,
            final(self).flags == old(self).flags,
            final(self).version == old(self).version,
            final(self).spc.wf(),
            match r {
                Ok(v) => old(self).spc.byte + 2 <= old(self).spc.data@.len() && final(self).spc.byte == old(self).spc.byte + 2 && v == i16_of_u16(
                    u16_at(old(self).spc.data@, old(self).spc.byte as int, old(self).spc.endian),
                ),
                Err(e) => old(self).spc.byte + 2 > old(self).spc.data@.len() && e
                    == DecodeError::PrematureTermination && final(self).spc.byte == old(self).spc.byte,
            },
    {
        self.spc.read_i16()
    }

    pub fn read_u16(&mut self) -> (r: Result<u16, DecodeError>)
        requires
            old(self).spc.wf(),
        ensures
            final(self).spc.data@ == old(self).spc.data@,
            final(self).spc.endian == old(self).spc.endian,
            final(self).flags == old(self).flags,
            final(self).version == old(self).version,
            final(self).spc.wf(),
            match r {
                Ok(v) => old(self).spc.byte + 2 <= old(self).spc.data@.len() && final(self).spc.byte == old(self).spc.byte + 2 && v == u16_at(
                    old(self).spc.data@,
                    old(self).spc.byte as int,
                    old(self).spc.endian,
                ),
                Err(e) => old(self).spc.byte + 2 > old(self).spc.data@.len() && e
                    == DecodeError::PrematureTermination && final(self).spc.byte == old(self).spc.byte,
            },
    {
        self.spc.read_u16()
    }

    pub fn read_u32(&mut self) -> (r: Result<u32, DecodeError>)
        requires
            old(self).spc.wf(),
        ensures
            final(self).spc.data@ == old(self).spc.data@,
            final(self).spc.endian == old(self).spc.endian,
            final(self).flags == old(self).flags,
            final(self).version == old(self).version,
            final(self).spc.wf(),
            match r {
                Ok(v) => old(self).spc.byte + 4 <= old(self).spc.data@.len() && final(self).spc.byte == old(self).spc.byte + 4 && v == u32_at(
                    old(self).spc.data@,
                    old(self).spc.byte as int,
                    old(self).spc.endian,
                ),
                Err(e) => old(self).spc.byte + 4 > old(self).spc.data@.len() && e
                    == DecodeError::PrematureTermination && final(self).spc.byte == old(self).spc.byte,
            },
    {
        self.spc.read_u32()
    }

    pub fn read_unescaped_utf8(&mut self, len: usize) -> (r: Result<Vec<u8>, DecodeError>)
        requires
            old(self).spc.wf(),
        ensures
            final(self).spc.data@ == old(self).spc.data@,
            final(self).spc.endian == old(self).spc.endian,
            final(self).flags == old(self).flags,
            final(self).version == old(self).version,
            final(self).spc.wf(),
            match r {
                Ok(v) => old(self).spc.byte + len <= old(self).spc.data@.len() && final(self).spc.byte == old(self).spc.byte + len && v@ == field_text(
                    old(self).spc.data@.subrange(
                        old(self).spc.byte as int,
                        old(self).spc.byte + len,
                    ),
                ),
                Err(e) => old(self).spc.byte + len > old(self).spc.data@.len() && e
                    == DecodeError::PrematureTermination && final(self).spc.byte == old(self).spc.byte,
            },
    {
        self.spc.read_unescaped_utf8(len)
    }

    /// Decodes the header generation the version byte selects, choosing the
    /// byte order for everything that follows.
    pub fn parse(&mut self) -> (r: Result<Header, DecodeError>)
        requires
            old(self).wf(),
        ensures
            final(self).spc.data@ == old(self).spc.data@,
            match r {
                Ok(h) => {
                    &&& spec_header(old(self).spc.data@) == Ok::<HeaderV, DecodeError>(h@)
                    &&& final(self).spc.wf()
                    &&& final(self).spc.byte == header_len_of(old(self).version)
                    &&& final(self).spc.endian == endian_of(old(self).version)
                },
                Err(e) => spec_header(old(self).spc.data@) == Err::<HeaderV, DecodeError>(e),
            },
    {
        if self.version == 0x4d {
            self.spc.set_endian(Endian::Little);
            match self.parse_old_format() {
                Ok(h) => Ok(Header::Old(h)),
                Err(e) => Err(e),
            }
        } else if self.version == 0x4b {
            self.spc.set_endian(Endian::Little);
            match self.parse_new_format() {
                Ok(h) => Ok(Header::New(h)),
                Err(e) => Err(e),
            }
        } else {
            self.spc.set_endian(Endian::Big);
            match self.parse_new_format() {
                Ok(h) => Ok(Header::New(h)),
                Err(e) => Err(e),
            }
        }
    }

    /// Decodes the 224-byte old-generation header.
    fn parse_old_format(&mut self) -> (r: Result<OldFormatHeader, DecodeError>)
        requires
            old(self).wf(),
            old(self).version == 0x4d,
            old(self).spc.endian == Endian::Little,
        ensures
            final(self).spc.data@ == old(self).spc.data@,
            match r {
                Ok(h) => {
                    &&& spec_old_header(old(self).spc.data@, Endian::Little) == Ok::<
                        OldFormatHeaderV,
                        DecodeError,
                    >(h@)
                    &&& final(self).spc.wf()
                    &&& final(self).spc.byte == 224
                    &&& final(self).spc.endian == Endian::Little
                },
                Err(e) => spec_old_header(old(self).spc.data@, Endian::Little) == Err::<
                    OldFormatHeaderV,
                    DecodeError,
                >(e),
            },
    {
        if self.spc.data.len() < 224 {
            return Err(DecodeError::PrematureTermination);
        }
        crate::reserved::check_zero_region(self.spc.data, 36, 64)?;
        let exponent_y = self.read_i16()?;
        let number_points_bits = match self.spc.read_f32_bits() {
            Ok(v) => v,
            Err(e) => {
                return Err(e);
            },
        };
        let starting_x_bits = match self.spc.read_f32_bits() {
            Ok(v) => v,
            Err(e) => {
                return Err(e);
            },
        };
        let ending_x_bits = match self.spc.read_f32_bits() {
            Ok(v) => v,
            Err(e) => {
                return Err(e);
            },
        };
        let xb = self.read_byte()?;
        let x_unit_type = xzwType::new(xb)?;
        let yb = self.read_byte()?;
        let y_unit_type = yType::new(yb)?;
        let z_type_year = self.read_u16()?;
        let zb: u8 = (z_type_year >> 12) as u8;
        let z_unit_type = xzwType::new(zb)?;
        let year: u16 = z_type_year & 0x0fff;
        let month = self.read_byte()?;
        let day = self.read_byte()?;
        let hour = self.read_byte()?;
        let minute = self.read_byte()?;
        let datetime = if year == 0 {
            None
        } else {
            match crate::datetime::compose_datetime(year, month, day, hour, minute) {
                Ok(d) => Some(d),
                Err(e) => {
                    return Err(e);
                },
            }
        };
        let resolution_description = self.read_unescaped_utf8(8)?;
        let peak_point_number = self.read_u16()?;
        let scans = self.read_u16()?;
        // The spare region was validated up front; step over it.
        match self.spc.goto(64) {
            Ok(()) => (),
            Err(e) => {
                return Err(e);
            },
        }
        let memo = self.read_unescaped_utf8(130)?;
        let xyz_labels = self.read_unescaped_utf8(30)?;
        let h = OldFormatHeader {
            flags: self.flags,
            exponent_y,
            number_points: crate::fpbits::f32_bits_to_count(number_points_bits),
            starting_x_bits,
            ending_x_bits,
            x_unit_type,
            y_unit_type,
            z_unit_type,
            datetime,
            resolution_description,
            peak_point_number,
            scans,
            memo,
            xyz_labels,
        };
        Ok(h)
    }

    /// Decodes the 512-byte new-generation header in the byte order already
    /// selected on the cursor.
    fn parse_new_format(&mut self) -> (r: Result<NewFormatHeader, DecodeError>)
        requires
            old(self).wf(),
            old(self).version == 0x4b || old(self).version == 0x4c,
            old(self).spc.endian == endian_of(old(self).version),
        ensures
            final(self).spc.data@ == old(self).spc.data@,
            match r {
                Ok(h) => {
                    &&& spec_new_header(old(self).spc.data@, old(self).spc.endian) == Ok::<
                        NewFormatHeaderV,
                        DecodeError,
                    >(h@)
                    &&& final(self).spc.wf()
                    &&& final(self).spc.byte == 512
                    &&& final(self).spc.endian == old(self).spc.endian
                },
                Err(e) => spec_new_header(old(self).spc.data@, old(self).spc.endian) == Err::<
                    NewFormatHeaderV,
                    DecodeError,
                >(e),
            },
    {
        if self.spc.data.len() < 512 {
            return Err(DecodeError::PrematureTermination);
        }
        crate::reserved::check_zero_region(self.spc.data, 56, 88)?;
        crate::reserved::check_zero_region(self.spc.data, 325, 512)?;
        let tb = self.read_byte()?;
        let instrument_technique = InstrumentTechnique::new(tb)?;
        let exponent_y = self.read_i8()?;
        let number_points = self.read_u32()?;
        let starting_x_bits = match self.spc.read_f64_bits() {
            Ok(v) => v,
            Err(e) => {
                return Err(e);
            },
        };
        let ending_x_bits = match self.spc.read_f64_bits() {
            Ok(v) => v,
            Err(e) => {
                return Err(e);
            },
        };
        let spectra = self.read_u32()?;
        let xb = self.read_byte()?;
        let x_unit_type = xzwType::new(xb)?;
        let yb = self.read_byte()?;
        let y_unit_type = yType::new(yb)?;
        let zb = self.read_byte()?;
        let z_unit_type = xzwType::new(zb)?;
        let posting_disposition = self.read_byte()?;
        let d = self.read_u32()?;
        assert((d >> 20) <= 0xfff && ((d >> 16) & 0xf) <= 0xf && ((d >> 11) & 0x1f) <= 0x1f && ((d
            >> 6) & 0x1f) <= 0x1f && (d & 0x3f) <= 0x3f) by (bit_vector);
        let datetime = match crate::datetime::compose_datetime(
            (d >> 20) as u16,
            ((d >> 16) & 0xf) as u8,
            ((d >> 11) & 0x1f) as u8,
            ((d >> 6) & 0x1f) as u8,
            (d & 0x3f) as u8,
        ) {
            Ok(dt) => dt,
            Err(e) => {
                return Err(e);
            },
        };
        let resolution_description = self.read_unescaped_utf8(9)?;
        let source_instrument_description = self.read_unescaped_utf8(9)?;
        let peak_point_number = self.read_u16()?;
        // The spare region was validated up front; step over it.
        match self.spc.goto(88) {
            Ok(()) => (),
            Err(e) => {
                return Err(e);
            },
        }
        let memo = self.read_unescaped_utf8(130)?;
        let xyz_labels = self.read_unescaped_utf8(30)?;
        let log_offset = self.read_u32()?;
        let modified_flag = self.read_u32()?;
        let processing_code = self.read_byte()?;
        let calibration_level = self.read_byte()?;
        let sub_method_sample_injection_number = self.read_u16()?;
        let concentration_factor_bits = match self.spc.read_f32_bits() {
            Ok(v) => v,
            Err(e) => {
                return Err(e);
            },
        };
        let method_file = self.read_unescaped_utf8(48)?;
        let z_sub_increment_bits = match self.spc.read_f32_bits() {
            Ok(v) => v,
            Err(e) => {
                return Err(e);
            },
        };
        let w_planes = self.read_u32()?;
        let w_plane_increment_bits = match self.spc.read_f32_bits() {
            Ok(v) => v,
            Err(e) => {
                return Err(e);
            },
        };
        let wb = self.read_byte()?;
        let w_axis_units = xzwType::new(wb)?;
        // The reserved tail was validated up front; step over it.
        match self.spc.goto(512) {
            Ok(()) => (),
            Err(e) => {
                return Err(e);
            },
        }
        let h = NewFormatHeader {
            file_version: self.version,
            flags: self.flags,
            instrument_technique,
            exponent_y,
            number_points,
            starting_x_bits,
            ending_x_bits,
            spectra,
            x_unit_type,
            y_unit_type,
            z_unit_type,
            posting_disposition,
            datetime,
            resolution_description,
            source_instrument_description,
            peak_point_number,
            memo,
            xyz_labels,
            log_offset,
            modified_flag,
            processing_code,
            calibration_level,
            sub_method_sample_injection_number,
            concentration_factor_bits,
            method_file,
            z_sub_increment_bits,
            w_planes,
            w_plane_increment_bits,
            w_axis_units,
        };
        Ok(h)
    }
}

} // verus!

//! The flags byte: the first byte of the file, describing the data to come.

use vstd::prelude::*;

use crate::DecodeError;

verus! {

/// The five data layouts a file can declare.
///
/// `Y` and `YY` carry no explicit X values (X is an even grid from the header
/// limits); `XY` and `XYY` carry one shared explicit X array; `XYXY` carries
/// one X array per subfile.
#[derive(Clone, Copy, Debug, PartialEq, Eq, Structural)]
pub enum DataShape {
    Y,
    XY,
    YY,
    XYY,
    XYXY,
}

/// Flag parameters for an SPC file.
///
/// The 8 bits of the flag byte, from least to most significant:
/// - TSPREC: Y data blocks are 16-bit integers
/// - TCGRAM: enables fexper in older software (unused)
/// - TMULTI: data format is multifile
/// - TRANDM: with TMULTI, Z values of subheaders are randomly ordered
/// - TORDRD: with TMULTI, Z values are ordered but not evenly spaced
/// - TALABS: custom axis label text is stored in the header
/// - TXYXYS: each subfile has its own X array (requires TXVALS)
/// - TXVALS: X data is explicit, an X array precedes the Y blocks
#[derive(Clone, Copy, Debug, PartialEq, Eq, Structural)]
pub struct FlagParameters(pub u8);

/// The shape encoded by a flags byte, or the error for the one illegal
/// combination: a single-file byte with the per-subfile-X bit set.
pub open spec fn spec_data_shape(f: u8) -> Result<DataShape, DecodeError> {
    if f & 0x04 == 0 {
        if f & 0x80 == 0 {
            Ok(DataShape::Y)
        } else if f & 0x40 != 0 {
            Err(DecodeError::InvalidFlagParameters(f))
        } else {
            Ok(DataShape::XY)
        }
    } else {
        if f & 0x80 == 0 {
            Ok(DataShape::YY)
        } else if f & 0x40 == 0 {
            Ok(DataShape::XYY)
        } else {
            Ok(DataShape::XYXY)
        }
    }
}

impl FlagParameters {
    pub fn y_precision_is_16_bit(&self) -> (r: bool)
        ensures
            r == (self.0 & 0x01 != 0),
    {
        self.0 & 0x01 != 0
    }

    pub fn use_fexper_extension(&self) -> (r: bool)
        ensures
            r == (self.0 & 0x02 != 0),
    {
        self.0 & 0x02 != 0
    }

    pub fn multifile(&self) -> (r: bool)
        ensures
            r == (self.0 & 0x04 != 0),
    {
        self.0 & 0x04 != 0
    }

    pub fn z_values_are_random(&self) -> (r: bool)
        ensures
            r == (self.0 & 0x08 != 0),
    {
        self.0 & 0x08 != 0
    }

    pub fn z_values_are_uneven(&self) -> (r: bool)
        ensures
            r == (self.0 & 0x10 != 0),
    {
        self.0 & 0x10 != 0
    }

    pub fn custom_axis_labels(&self) -> (r: bool)
        ensures
            r == (self.0 & 0x20 != 0),
    {
        self.0 & 0x20 != 0
    }

    pub fn xyxy(&self) -> (r: bool)
        ensures
            r == (self.0 & 0x40 != 0),
    {
        self.0 & 0x40 != 0
    }

    pub fn xy(&self) -> (r: bool)
        ensures
            r == (self.0 & 0x80 != 0),
    {
        self.0 & 0x80 != 0
    }

    /// Derives the data shape from the flag bits.
    ///
    /// A single file is `Y`, or `XY` when the explicit-X bit is set; setting
    /// the per-subfile-X bit on a single file is a format error. A multifile
    /// is `YY` with implicit X, and otherwise `XYY` or `XYXY` according to
    /// the per-subfile-X bit.
    pub fn data_shape(&self) -> (r: Result<DataShape, DecodeError>)
        ensures
            r == spec_data_shape(self.0),
    {
        if !self.multifile() {
            if !self.xy() {
                Ok(DataShape::Y)
            } else if self.xyxy() {
                Err(DecodeError::InvalidFlagParameters(self.0))
            } else {
                Ok(DataShape::XY)
            }
        } else {
            if !self.xy() {
                Ok(DataShape::YY)
            } else if !self.xyxy() {
                Ok(DataShape::XYY)
            } else {
                Ok(DataShape::XYXY)
            }
        }
    }
}

} // verus!

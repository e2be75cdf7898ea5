//! Code-byte tables: unit types, instrument techniques, flags, and sample
//! widths.

use spc_core::block::YMode;
use spc_core::flags::{DataShape, FlagParameters};
use spc_core::fpbits::f32_bits_to_count;
use spc_core::units::{xzwType, yType, InstrumentTechnique};
use spc_core::DecodeError;

#[test]
fn xzw_type_codes_decode() {
    assert_eq!(xzwType::new(0), Ok(xzwType::Arbitrary));
    assert_eq!(xzwType::new(1), Ok(xzwType::Wavenumber));
    assert_eq!(xzwType::new(9), Ok(xzwType::Mass));
    assert_eq!(xzwType::new(13), Ok(xzwType::RamanShift));
    assert_eq!(xzwType::new(30), Ok(xzwType::Hours));
    assert_eq!(xzwType::new(255), Ok(xzwType::DoubleInterferogram));
    assert_eq!(xzwType::new(31), Err(DecodeError::InvalidUnitCode(31)));
    assert_eq!(xzwType::new(254), Err(DecodeError::InvalidUnitCode(254)));
}

#[test]
fn y_type_codes_decode() {
    assert_eq!(yType::new(0), Ok(yType::ArbitraryIntensity));
    assert_eq!(yType::new(2), Ok(yType::Absorbance));
    assert_eq!(yType::new(15), Ok(yType::Decibel));
    assert_eq!(yType::new(22), Ok(yType::IndexOfRefraction));
    assert_eq!(yType::new(128), Ok(yType::Transmission));
    assert_eq!(yType::new(131), Ok(yType::Emission));
    assert_eq!(yType::new(16), Err(DecodeError::InvalidUnitCode(16)));
    assert_eq!(yType::new(127), Err(DecodeError::InvalidUnitCode(127)));
    assert_eq!(yType::new(132), Err(DecodeError::InvalidUnitCode(132)));
}

#[test]
fn instrument_technique_codes_decode() {
    assert_eq!(InstrumentTechnique::new(0), Ok(InstrumentTechnique::GeneralSPC));
    assert_eq!(InstrumentTechnique::new(4), Ok(InstrumentTechnique::FTIRFTNIRFTRaman));
    assert_eq!(InstrumentTechnique::new(7), Ok(InstrumentTechnique::UVVISSpectrum));
    assert_eq!(
        InstrumentTechnique::new(14),
        Ok(InstrumentTechnique::ChromatographyDiodeArraySpectra)
    );
    assert_eq!(InstrumentTechnique::new(6), Err(DecodeError::InvalidUnitCode(6)));
    assert_eq!(InstrumentTechnique::new(15), Err(DecodeError::InvalidUnitCode(15)));
}

#[test]
fn flag_facets_follow_their_bits() {
    let f = FlagParameters(0b1010_0101);
    assert!(f.y_precision_is_16_bit());
    assert!(!f.use_fexper_extension());
    assert!(f.multifile());
    assert!(!f.z_values_are_random());
    assert!(!f.z_values_are_uneven());
    assert!(f.custom_axis_labels());
    assert!(!f.xyxy());
    assert!(f.xy());

    let g = FlagParameters(0b0101_1010);
    assert!(!g.y_precision_is_16_bit());
    assert!(g.use_fexper_extension());
    assert!(!g.multifile());
    assert!(g.z_values_are_random());
    assert!(g.z_values_are_uneven());
    assert!(!g.custom_axis_labels());
    assert!(g.xyxy());
    assert!(!g.xy());
}

#[test]
fn data_shape_follows_the_flag_bits() {
    assert_eq!(FlagParameters(0x00).data_shape(), Ok(DataShape::Y));
    assert_eq!(FlagParameters(0x80).data_shape(), Ok(DataShape::XY));
    assert_eq!(FlagParameters(0x04).data_shape(), Ok(DataShape::YY));
    assert_eq!(FlagParameters(0x84).data_shape(), Ok(DataShape::XYY));
    assert_eq!(FlagParameters(0xc4).data_shape(), Ok(DataShape::XYXY));
    assert_eq!(
        FlagParameters(0xc0).data_shape(),
        Err(DecodeError::InvalidFlagParameters(0xc0))
    );
    // A stray per-subfile-X bit without explicit X is ignored, single- and
    // multifile alike.
    assert_eq!(FlagParameters(0x40).data_shape(), Ok(DataShape::Y));
    assert_eq!(FlagParameters(0x44).data_shape(), Ok(DataShape::YY));
}

#[test]
fn bytes_per_point_by_mode() {
    assert_eq!(YMode::SixteenBitInt.bytes_per_point(), 2);
    assert_eq!(YMode::ThirtyTwoBitInt.bytes_per_point(), 4);
    assert_eq!(YMode::IEEEFloat.bytes_per_point(), 4);
}

#[test]
fn float_point_counts_truncate_and_saturate() {
    assert_eq!(f32_bits_to_count(0.0f32.to_bits()), 0);
    assert_eq!(f32_bits_to_count((-0.0f32).to_bits()), 0);
    assert_eq!(f32_bits_to_count(0.75f32.to_bits()), 0);
    assert_eq!(f32_bits_to_count(1.0f32.to_bits()), 1);
    assert_eq!(f32_bits_to_count(2.9f32.to_bits()), 2);
    assert_eq!(f32_bits_to_count(1809.0f32.to_bits()), 1809);
    assert_eq!(f32_bits_to_count(16777215.0f32.to_bits()), 16777215);
    assert_eq!(f32_bits_to_count((-5.0f32).to_bits()), 0);
    assert_eq!(f32_bits_to_count(f32::NAN.to_bits()), 0);
    assert_eq!(f32_bits_to_count(f32::INFINITY.to_bits()), u32::MAX);
    assert_eq!(f32_bits_to_count(f32::NEG_INFINITY.to_bits()), 0);
    assert_eq!(f32_bits_to_count(1e20f32.to_bits()), u32::MAX);
    // Plain casts agree on in-range values.
    for v in [0.0f32, 0.5, 1.5, 3.99, 100.0, 65536.0, 123456.0] {
        assert_eq!(f32_bits_to_count(v.to_bits()), v as u32);
    }
}

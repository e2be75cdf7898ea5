//! Subheader decoding: the flag-byte mask and the 32-byte record.

use spc_core::cursor::{Endian, SPCFile};
use spc_core::subheader::{SubFlagParameters, SubHeaderParser, Subheader};
use spc_core::DecodeError;

/// A 32-byte subheader with the given leading fields and a zero tail.
fn subheader_bytes(flags: u8, exponent: i8, index: u16, npts: u32) -> Vec<u8> {
    let mut b: Vec<u8> = vec![0u8; 32];
    b[0] = flags;
    b[1] = exponent as u8;
    b[2..4].copy_from_slice(&index.to_le_bytes());
    b[16..20].copy_from_slice(&npts.to_le_bytes());
    b
}

fn parse_subheader(data: &[u8]) -> Result<Subheader, DecodeError> {
    let mut parser = SubHeaderParser { spc: SPCFile::new(data, Endian::Little) };
    parser.parse()
}

#[test]
fn subflag_parameters() {
    let data: Vec<u8> = vec![0b1000_1001];
    let subheader_params = SubFlagParameters::new(data[0]);
    assert!(subheader_params.is_ok());
    assert_eq!(subheader_params.unwrap(), SubFlagParameters(0b1000_1001));
}

#[test]
fn subheader_water_refractive_index_subheader_parses_correctly() {
    let data = subheader_bytes(0, 0, 0, 1809);
    let result = parse_subheader(&data);

    assert!(result.is_ok());
    let parsed = result.unwrap();
    assert_eq!(parsed.number_points, 1809);
}

#[test]
fn subheader_water_absorption_coefficient_subheader() {
    let data = subheader_bytes(0, 0, 0, 1809);
    let result = parse_subheader(&data);

    assert!(result.is_ok());
}

#[test]
fn zerocopy_subheader_water_refractive_index_subheader_parses_correctly() {
    let data = subheader_bytes(0, 0, 0, 1809);
    let result = parse_subheader(&data);

    assert!(result.is_ok());
}

#[test]
fn zerocopy_subheader_water_absorption_coefficient_subheader() {
    let data = subheader_bytes(0, 0, 0, 1809);
    let result = parse_subheader(&data);

    assert!(result.is_ok());
}

#[test]
fn subheader_flag_byte_outside_mask_is_rejected() {
    let data = subheader_bytes(0b0000_0010, 0, 0, 0);
    let result = parse_subheader(&data);
    assert_eq!(result, Err(DecodeError::InvalidSubheaderFlags(0b0000_0010)));
}

#[test]
fn subheader_nonzero_reserved_tail_is_rejected() {
    let mut data = subheader_bytes(0, 0, 0, 0);
    data[30] = 5;
    let result = parse_subheader(&data);
    assert_eq!(result, Err(DecodeError::NonZeroReservedRegion(30)));
}

#[test]
fn subheader_shorter_than_record_is_rejected() {
    let data: Vec<u8> = vec![0u8; 31];
    let result = parse_subheader(&data);
    assert_eq!(result, Err(DecodeError::PrematureTermination));
}

#[test]
fn subheader_fields_decode_little_endian() {
    let mut data = subheader_bytes(0b1000_1001, -3, 7, 42);
    data[4..8].copy_from_slice(&1.5f32.to_bits().to_le_bytes());
    data[20..24].copy_from_slice(&9u32.to_le_bytes());
    let parsed = parse_subheader(&data).unwrap();
    assert_eq!(parsed.parameters, SubFlagParameters(0b1000_1001));
    assert_eq!(parsed.exponent_y, -3);
    assert_eq!(parsed.index_number, 7);
    assert_eq!(parsed.z_bits, 1.5f32.to_bits());
    assert_eq!(parsed.number_points, 42);
    assert_eq!(parsed.scan, 9);
}

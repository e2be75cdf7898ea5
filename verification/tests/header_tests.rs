//! Header decoding for both generations, over synthetic fixture buffers.

use spc_core::cursor::{Endian, SPCFile};
use spc_core::header::{Header, HeaderParser};
use spc_core::units::xzwType;

/// A 224-byte old-generation header with zero spare floats.
fn old_header(
    flags: u8,
    x_unit: u8,
    z_type: u8,
    year: u16,
    month: u8,
    day: u8,
    hour: u8,
    minute: u8,
    number_points: f32,
    memo: &str,
) -> Vec<u8> {
    let mut b: Vec<u8> = vec![0u8; 224];
    b[0] = flags;
    b[1] = 0x4d;
    b[4..8].copy_from_slice(&number_points.to_le_bytes());
    b[16] = x_unit;
    let zy: u16 = ((z_type as u16) << 12) | (year & 0x0fff);
    b[18..20].copy_from_slice(&zy.to_le_bytes());
    b[20] = month;
    b[21] = day;
    b[22] = hour;
    b[23] = minute;
    b[64..64 + memo.len()].copy_from_slice(memo.as_bytes());
    b
}

/// A 512-byte new-generation little-endian header with zero spare regions.
fn new_header(
    flags: u8,
    x_unit: u8,
    z_unit: u8,
    year: u16,
    month: u8,
    day: u8,
    hour: u8,
    minute: u8,
    memo: &str,
) -> Vec<u8> {
    let mut b: Vec<u8> = vec![0u8; 512];
    b[0] = flags;
    b[1] = 0x4b;
    b[28] = x_unit;
    b[30] = z_unit;
    let d: u32 = ((year as u32) << 20) | ((month as u32) << 16) | ((day as u32) << 11)
        | ((hour as u32) << 6) | (minute as u32);
    b[32..36].copy_from_slice(&d.to_le_bytes());
    b[88..88 + memo.len()].copy_from_slice(memo.as_bytes());
    b
}

fn parse_header(data: &[u8]) -> Header {
    let parser = SPCFile::new(data, Endian::Little);
    let mut header_parser = HeaderParser::new(parser).unwrap();
    let result = header_parser.parse();
    assert!(result.is_ok());
    result.unwrap()
}

fn old_header_with_memo(memo: &str, year: u16) -> Vec<u8> {
    old_header(0, 1, 0, year, 1, 1, 0, 0, 100.0, memo)
}

#[test]
fn m_xyxy_header_parses_correctly() {
    let data = new_header(0xc4, 9, 5, 1986, 1, 9, 8, 47, "Multiple spectra with unique X & Y arrays");
    let header = match parse_header(&data) {
        Header::New(header) => header,
        _ => panic!("Expected an new format header"),
    };

    assert!(header.flags.multifile());
    assert_eq!(header.x_unit_type, xzwType::Mass);
    assert_eq!(header.z_unit_type, xzwType::Minutes);

    let memo = String::from_utf8(header.memo.clone()).unwrap();
    assert!(memo.starts_with("Multiple"));
    assert!(memo.contains("X & Y arrays"));

    let datetime = header.datetime;
    assert_eq!(datetime.minute, 47);
    assert_eq!(datetime.hour, 8);
    assert_eq!(datetime.day, 9);
    assert_eq!(datetime.month, 1);
    assert_eq!(datetime.year, 1986);
}

#[test]
fn raman_header_parses_correctly() {
    let data = new_header(0, 13, 0, 1994, 8, 26, 16, 45, "");
    let header = match parse_header(&data) {
        Header::New(header) => header,
        _ => panic!("Expected an new format header"),
    };

    assert_eq!(header.x_unit_type, xzwType::RamanShift);

    let datetime = header.datetime;
    assert_eq!(datetime.minute, 45);
    assert_eq!(datetime.hour, 16);
    assert_eq!(datetime.day, 26);
    assert_eq!(datetime.month, 8);
    assert_eq!(datetime.year, 1994);
}

#[test]
fn m_ordz_header_parses_correctly() {
    let data = old_header(0x14, 1, 0, 0, 0, 0, 0, 0, 10.0, "Multiple spectra with ordered Z spacing");
    let header = match parse_header(&data) {
        Header::Old(header) => header,
        _ => panic!("Expected an old format header"),
    };

    let memo = String::from_utf8(header.memo.clone()).unwrap();
    assert!(memo.starts_with("Multiple"));
    assert!(memo.contains("ordered Z spacing"));
}

#[test]
fn water_refractive_index_header_parses_correctly() {
    let data = old_header_with_memo(
        "n spectrum of liquid H2O at 25 C; Appl. Spec. 50, 1047 (1996)",
        1995,
    );
    let header = match parse_header(&data) {
        Header::Old(header) => header,
        _ => panic!("Expected an old format header"),
    };

    assert_eq!(header.x_unit_type, xzwType::Wavenumber);
    assert_eq!(
        String::from_utf8(header.memo.clone()).unwrap(),
        "n spectrum of liquid H2O at 25 C; Appl. Spec. 50, 1047 (1996)"
    );

    let datetime = header.datetime.unwrap();
    assert_eq!(datetime.year, 1995);
}

#[test]
fn water_absorption_coefficient_header_parses_correctly() {
    let data = old_header_with_memo(
        "k spectrum of liquid H2O at 25 C;  Appl. Spec. 50, 1047 (1996)",
        1995,
    );
    let header = match parse_header(&data) {
        Header::Old(header) => header,
        _ => panic!("Expected an old format header"),
    };

    assert_eq!(header.x_unit_type, xzwType::Wavenumber);
    assert_eq!(
        String::from_utf8(header.memo.clone()).unwrap(),
        "k spectrum of liquid H2O at 25 C;  Appl. Spec. 50, 1047 (1996)"
    );

    let datetime = header.datetime.unwrap();
    assert_eq!(datetime.year, 1995);
}

#[test]
fn water_real_dielectric_constant_header_parses_correctly() {
    let data = old_header_with_memo(
        "Real dielectric constant of H2O at 25 C; Appl. Spec. 50, 1047 (1996)",
        1995,
    );
    let header = match parse_header(&data) {
        Header::Old(header) => header,
        _ => panic!("Expected an old format header"),
    };

    assert_eq!(header.x_unit_type, xzwType::Wavenumber);
    assert_eq!(
        String::from_utf8(header.memo.clone()).unwrap(),
        "Real dielectric constant of H2O at 25 C; Appl. Spec. 50, 1047 (1996)"
    );

    let datetime = header.datetime.unwrap();
    assert_eq!(datetime.year, 1995);
}

#[test]
fn water_dielectric_loss_header_parses_correctly() {
    let data = old_header_with_memo(
        "dielectric loss spectrum of H2O at 25 C;  Appl. Spec. 50, 1047 (1996)",
        1995,
    );
    let header = match parse_header(&data) {
        Header::Old(header) => header,
        _ => panic!("Expected an old format header"),
    };

    assert_eq!(header.x_unit_type, xzwType::Wavenumber);
    assert_eq!(
        String::from_utf8(header.memo.clone()).unwrap(),
        "dielectric loss spectrum of H2O at 25 C;  Appl. Spec. 50, 1047 (1996)"
    );

    let datetime = header.datetime.unwrap();
    assert_eq!(datetime.year, 1995);
}

#[test]
fn water_molar_absorptivity_header_parses_correctly() {
    let data = old_header_with_memo(
        "molar absorptivity spectrum of H2O at 25 C in L/(mole-cm)",
        1995,
    );
    let header = match parse_header(&data) {
        Header::Old(header) => header,
        _ => panic!("Expected an old format header"),
    };

    assert_eq!(header.x_unit_type, xzwType::Wavenumber);
    assert_eq!(
        String::from_utf8(header.memo.clone()).unwrap(),
        "molar absorptivity spectrum of H2O at 25 C in L/(mole-cm)"
    );

    let datetime = header.datetime.unwrap();
    assert_eq!(datetime.year, 1995);
}

#[test]
fn c6d6_dielectric_constant_header_parses_correctly() {
    let data = old_header_with_memo("Dielectric Constant of liquid C6D6 at 25 C", 1990);
    let header = match parse_header(&data) {
        Header::Old(header) => header,
        _ => panic!("Expected an old format header"),
    };

    assert_eq!(header.x_unit_type, xzwType::Wavenumber);
    assert_eq!(
        String::from_utf8(header.memo.clone()).unwrap(),
        "Dielectric Constant of liquid C6D6 at 25 C"
    );

    let datetime = header.datetime.unwrap();
    assert_eq!(datetime.year, 1990);
}

#[test]
fn c6d6_dielectric_loss_header_parses_correctly() {
    let data = old_header_with_memo("Dielectric Loss of liquid C6D6 at 25 C", 1990);
    let header = match parse_header(&data) {
        Header::Old(header) => header,
        _ => panic!("Expected an old format header"),
    };

    assert_eq!(header.x_unit_type, xzwType::Wavenumber);
    assert_eq!(
        String::from_utf8(header.memo.clone()).unwrap(),
        "Dielectric Loss of liquid C6D6 at 25 C"
    );

    let datetime = header.datetime.unwrap();
    assert_eq!(datetime.year, 1990);
}

#[test]
fn c6d6_molar_absorptivity_header_parses_correctly() {
    let data = old_header_with_memo("Molar Absorptivity of C6D6(l) at 25C; units L/(mole-cm)", 1990);
    let header = match parse_header(&data) {
        Header::Old(header) => header,
        _ => panic!("Expected an old format header"),
    };

    assert_eq!(header.x_unit_type, xzwType::Wavenumber);
    assert_eq!(
        String::from_utf8(header.memo.clone()).unwrap(),
        "Molar Absorptivity of C6D6(l) at 25C; units L/(mole-cm)"
    );

    let datetime = header.datetime.unwrap();
    assert_eq!(datetime.year, 1990);
}

#[test]
fn c6d6_imaginary_molar_polarisability_header_parses_correctly() {
    let data = old_header_with_memo(
        "imaginary molar polarizability of C6D6 at 25 C.Units:  cm^3/mole",
        1990,
    );
    let header = match parse_header(&data) {
        Header::Old(header) => header,
        _ => panic!("Expected an old format header"),
    };

    assert_eq!(header.x_unit_type, xzwType::Wavenumber);
    assert_eq!(
        String::from_utf8(header.memo.clone()).unwrap(),
        "imaginary molar polarizability of C6D6 at 25 C.Units:  cm^3/mole"
    );

    let datetime = header.datetime.unwrap();
    assert_eq!(datetime.year, 1990);
}

#[test]
fn c6d6_absorption_coefficient_header_parses_correctly() {
    let data = old_header_with_memo("Imaginary refractive index of liquid C6D6 at 25 C", 1990);
    let header = match parse_header(&data) {
        Header::Old(header) => header,
        _ => panic!("Expected an old format header"),
    };

    assert_eq!(header.x_unit_type, xzwType::Wavenumber);
    assert_eq!(
        String::from_utf8(header.memo.clone()).unwrap(),
        "Imaginary refractive index of liquid C6D6 at 25 C"
    );

    let datetime = header.datetime.unwrap();
    assert_eq!(datetime.year, 1990);
}

#[test]
fn c6d6_refractive_index_header_parses_correctly() {
    let data = old_header_with_memo("real refractive index of liquid C6D6 at 25 C", 1994);
    let header = match parse_header(&data) {
        Header::Old(header) => header,
        _ => panic!("Expected an old format header"),
    };

    assert_eq!(header.x_unit_type, xzwType::Wavenumber);
    assert_eq!(
        String::from_utf8(header.memo.clone()).unwrap(),
        "real refractive index of liquid C6D6 at 25 C"
    );

    let datetime = header.datetime.unwrap();
    assert_eq!(datetime.year, 1994);
}

#[test]
fn c6d6_na_header_parses_correctly() {
    let data = old_header_with_memo("nu*IP of liquid C6D6 at 25 C.  Units 10^5 cm^2/mole", 1990);
    let header = match parse_header(&data) {
        Header::Old(header) => header,
        _ => panic!("Expected an old format header"),
    };

    assert_eq!(header.x_unit_type, xzwType::Wavenumber);
    assert_eq!(
        String::from_utf8(header.memo.clone()).unwrap(),
        "nu*IP of liquid C6D6 at 25 C.  Units 10^5 cm^2/mole"
    );

    let datetime = header.datetime.unwrap();
    assert_eq!(datetime.year, 1990);
}

#[test]
fn c6d6_rp_header_parses_correctly() {
    let data = old_header_with_memo(
        "real molar polarizability of liquid C6D6 at 25 C.  Unit: cm^3/mole",
        1990,
    );
    let header = match parse_header(&data) {
        Header::Old(header) => header,
        _ => panic!("Expected an old format header"),
    };

    assert_eq!(header.x_unit_type, xzwType::Wavenumber);
    assert_eq!(
        String::from_utf8(header.memo.clone()).unwrap(),
        "real molar polarizability of liquid C6D6 at 25 C.  Unit: cm^3/mole"
    );

    let datetime = header.datetime.unwrap();
    assert_eq!(datetime.year, 1990);
}

#[test]
fn bzh5d_dielectric_constant_header_parses_correctly() {
    let data = old_header_with_memo("(Real) dielectric constant", 0);
    let header = match parse_header(&data) {
        Header::Old(header) => header,
        _ => panic!("Expected an old format header"),
    };

    assert_eq!(header.x_unit_type, xzwType::Wavenumber);
    assert_eq!(String::from_utf8(header.memo.clone()).unwrap(), "(Real) dielectric constant");

    assert!(header.datetime.is_none());
}

#[test]
fn bzh5d_dielectric_loss_header_parses_correctly() {
    let data = old_header_with_memo("Dielectric loss, i.e., imaginary dielectric constant", 0);
    let header = match parse_header(&data) {
        Header::Old(header) => header,
        _ => panic!("Expected an old format header"),
    };

    assert_eq!(header.x_unit_type, xzwType::Wavenumber);
    assert_eq!(
        String::from_utf8(header.memo.clone()).unwrap(),
        "Dielectric loss, i.e., imaginary dielectric constant"
    );

    assert!(header.datetime.is_none());
}

#[test]
fn bzh5d_molar_absorptivity_header_parses_correctly() {
    let data = old_header_with_memo("Decadic Molar Absorption Coefficient in L/(mole-cm)", 0);
    let header = match parse_header(&data) {
        Header::Old(header) => header,
        _ => panic!("Expected an old format header"),
    };

    assert_eq!(header.x_unit_type, xzwType::Wavenumber);
    assert_eq!(
        String::from_utf8(header.memo.clone()).unwrap(),
        "Decadic Molar Absorption Coefficient in L/(mole-cm)"
    );

    assert!(header.datetime.is_none());
}

#[test]
fn bzh5d_imaginary_molar_polarisability_header_parses_correctly() {
    let data = old_header_with_memo("IP, Imaginary molar polarizability, in cm^3/mole", 0);
    let header = match parse_header(&data) {
        Header::Old(header) => header,
        _ => panic!("Expected an old format header"),
    };

    assert_eq!(header.x_unit_type, xzwType::Wavenumber);
    assert_eq!(
        String::from_utf8(header.memo.clone()).unwrap(),
        "IP, Imaginary molar polarizability, in cm^3/mole"
    );

    assert!(header.datetime.is_none());
}

#[test]
fn bzh5d_absorption_coefficient_header_parses_correctly() {
    let data = old_header_with_memo("imaginary refractive index of C6H5D at 25 C", 1990);
    let header = match parse_header(&data) {
        Header::Old(header) => header,
        _ => panic!("Expected an old format header"),
    };

    assert_eq!(header.x_unit_type, xzwType::Wavenumber);
    assert_eq!(
        String::from_utf8(header.memo.clone()).unwrap(),
        "imaginary refractive index of C6H5D at 25 C"
    );

    assert!(header.datetime.is_some());
    assert_eq!(header.datetime.unwrap().year, 1990);
}

#[test]
fn bzh5d_refractive_index_header_parses_correctly() {
    let data = old_header_with_memo("Real refractive index of C6H5D at 25 C", 1994);
    let header = match parse_header(&data) {
        Header::Old(header) => header,
        _ => panic!("Expected an old format header"),
    };

    assert_eq!(header.x_unit_type, xzwType::Wavenumber);
    assert_eq!(
        String::from_utf8(header.memo.clone()).unwrap(),
        "Real refractive index of C6H5D at 25 C"
    );

    assert!(header.datetime.is_some());
    assert_eq!(header.datetime.unwrap().year, 1994);
}

#[test]
fn bzh5d_na_header_parses_correctly() {
    let data = old_header_with_memo("nu*IP in cm^2/mole", 0);
    let header = match parse_header(&data) {
        Header::Old(header) => header,
        _ => panic!("Expected an old format header"),
    };

    assert_eq!(header.x_unit_type, xzwType::Wavenumber);
    assert_eq!(String::from_utf8(header.memo.clone()).unwrap(), "nu*IP in cm^2/mole");

    assert!(header.datetime.is_none());
}

#[test]
fn bzh5d_rp_header_parses_correctly() {
    let data = old_header_with_memo("RP, real molar polarizability, in cm^3/mole", 0);
    let header = match parse_header(&data) {
        Header::Old(header) => header,
        _ => panic!("Expected an old format header"),
    };

    assert_eq!(header.x_unit_type, xzwType::Wavenumber);
    assert_eq!(
        String::from_utf8(header.memo.clone()).unwrap(),
        "RP, real molar polarizability, in cm^3/mole"
    );

    assert!(header.datetime.is_none());
}

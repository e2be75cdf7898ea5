//! Unit-type and instrument-technique code bytes and their enumerations.
//!
//! Each decoder rejects an unrecognized byte value with
//! [`DecodeError::InvalidUnitCode`].

use vstd::prelude::*;

use crate::DecodeError;

verus! {

/// The instrument technique recorded by the third byte of a new-generation
/// header. With the TCGRAM flag set in older software, a zero field means a
/// general chromatogram.
#[allow(missing_docs)]
#[derive(Clone, Copy, Debug, PartialEq, Eq, Structural)]
pub enum InstrumentTechnique {
    GeneralSPC,
    GasChromatogram,
    GeneralChromatogram,
    HPLCChromatogram,
    FTIRFTNIRFTRaman,
    NIRSpectrum,
    UVVISSpectrum,
    XRayDiffractionSpectrum,
    MassSpectrum,
    NMRSpectrum,
    RamanSpectrum,
    FluorescenceSpectrum,
    AtomicSpectrum,
    ChromatographyDiodeArraySpectra,
}

/// The technique encoded by a byte, if the byte is recognized.
pub open spec fn spec_instrument_technique(v: u8) -> Option<InstrumentTechnique> {
    match v {
        0 => Some(InstrumentTechnique::GeneralSPC),
        1 => Some(InstrumentTechnique::GasChromatogram),
        2 => Some(InstrumentTechnique::GeneralChromatogram),
        3 => Some(InstrumentTechnique::HPLCChromatogram),
        4 => Some(InstrumentTechnique::FTIRFTNIRFTRaman),
        5 => Some(InstrumentTechnique::NIRSpectrum),
        7 => Some(InstrumentTechnique::UVVISSpectrum),
        8 => Some(InstrumentTechnique::XRayDiffractionSpectrum),
        9 => Some(InstrumentTechnique::MassSpectrum),
        10 => Some(InstrumentTechnique::NMRSpectrum),
        11 => Some(InstrumentTechnique::RamanSpectrum),
        12 => Some(InstrumentTechnique::FluorescenceSpectrum),
        13 => Some(InstrumentTechnique::AtomicSpectrum),
        14 => Some(InstrumentTechnique::ChromatographyDiodeArraySpectra),
        _ => None,
    }
}

impl InstrumentTechnique {
    pub fn new(val: u8) -> (r: Result<Self, DecodeError>)
        ensures
            match r {
                Ok(t) => spec_instrument_technique(val) == Some(t),
                Err(e) => spec_instrument_technique(val) is None && e
                    == DecodeError::InvalidUnitCode(val),
            },
    {
        match val {
            0 => Ok(Self::GeneralSPC),
            1 => Ok(Self::GasChromatogram),
            2 => Ok(Self::GeneralChromatogram),
            3 => Ok(Self::HPLCChromatogram),
            4 => Ok(Self::FTIRFTNIRFTRaman),
            5 => Ok(Self::NIRSpectrum),
            7 => Ok(Self::UVVISSpectrum),
            8 => Ok(Self::XRayDiffractionSpectrum),
            9 => Ok(Self::MassSpectrum),
            10 => Ok(Self::NMRSpectrum),
            11 => Ok(Self::RamanSpectrum),
            12 => Ok(Self::FluorescenceSpectrum),
            13 => Ok(Self::AtomicSpectrum),
            14 => Ok(Self::ChromatographyDiodeArraySpectra),
            v => Err(DecodeError::InvalidUnitCode(v)),
        }
    }
}

/// The possible settings for the X, Z and W axis unit-type codes.
#[allow(missing_docs, non_camel_case_types)]
#[derive(Clone, Copy, Debug, PartialEq, Eq, Structural)]
pub enum xzwType {
    Arbitrary,
    Wavenumber,
    Micrometers,
    Nanometers,
    Seconds,
    Minutes,
    Hertz,
    Kilohertz,
    MegaHertz,
    Mass,
    PartsPerMillion,
    Days,
    Years,
    RamanShift,
    ElectronVolt,
    Unknown,
    DiodeNumber,
    Channel,
    Degrees,
    TemperatureF,
    TemperatureC,
    TemperatureK,
    DataPoints,
    Milliseconds,
    Microseconds,
    Nanoseconds,
    GigaHertz,
    Centimeters,
    Meters,
    Millimeters,
    Hours,
    DoubleInterferogram,
}

/// The X/Z/W axis unit encoded by a byte, if the byte is recognized.
pub open spec fn spec_xzw_type(v: u8) -> Option<xzwType> {
    match v {
        0 => Some(xzwType::Arbitrary),
        1 => Some(xzwType::Wavenumber),
        2 => Some(xzwType::Micrometers),
        3 => Some(xzwType::Nanometers),
        4 => Some(xzwType::Seconds),
        5 => Some(xzwType::Minutes),
        6 => Some(xzwType::Hertz),
        7 => Some(xzwType::Kilohertz),
        8 => Some(xzwType::MegaHertz),
        9 => Some(xzwType::Mass),
        10 => Some(xzwType::PartsPerMillion),
        11 => Some(xzwType::Days),
        12 => Some(xzwType::Years),
        13 => Some(xzwType::RamanShift),
        14 => Some(xzwType::ElectronVolt),
        15 => Some(xzwType::Unknown),
        16 => Some(xzwType::DiodeNumber),
        17 => Some(xzwType::Channel),
        18 => Some(xzwType::Degrees),
        19 => Some(xzwType::TemperatureF),
        20 => Some(xzwType::TemperatureC),
        21 => Some(xzwType::TemperatureK),
        22 => Some(xzwType::DataPoints),
        23 => Some(xzwType::Milliseconds),
        24 => Some(xzwType::Microseconds),
        25 => Some(xzwType::Nanoseconds),
        26 => Some(xzwType::GigaHertz),
        27 => Some(xzwType::Centimeters),
        28 => Some(xzwType::Meters),
        29 => Some(xzwType::Millimeters),
        30 => Some(xzwType::Hours),
        255 => Some(xzwType::DoubleInterferogram),
        _ => None,
    }
}

impl xzwType {
    pub fn new(val: u8) -> (r: Result<Self, DecodeError>)
        ensures
            match r {
                Ok(t) => spec_xzw_type(val) == Some(t),
                Err(e) => spec_xzw_type(val) is None && e == DecodeError::InvalidUnitCode(val),
            },
    {
        match val {
            0 => Ok(Self::Arbitrary),
            1 => Ok(Self::Wavenumber),
            2 => Ok(Self::Micrometers),
            3 => Ok(Self::Nanometers),
            4 => Ok(Self::Seconds),
            5 => Ok(Self::Minutes),
            6 => Ok(Self::Hertz),
            7 => Ok(Self::Kilohertz),
            8 => Ok(Self::MegaHertz),
            9 => Ok(Self::Mass),
            10 => Ok(Self::PartsPerMillion),
            11 => Ok(Self::Days),
            12 => Ok(Self::Years),
            13 => Ok(Self::RamanShift),
            14 => Ok(Self::ElectronVolt),
            15 => Ok(Self::Unknown),
            16 => Ok(Self::DiodeNumber),
            17 => Ok(Self::Channel),
            18 => Ok(Self::Degrees),
            19 => Ok(Self::TemperatureF),
            20 => Ok(Self::TemperatureC),
            21 => Ok(Self::TemperatureK),
            22 => Ok(Self::DataPoints),
            23 => Ok(Self::Milliseconds),
            24 => Ok(Self::Microseconds),
            25 => Ok(Self::Nanoseconds),
            26 => Ok(Self::GigaHertz),
            27 => Ok(Self::Centimeters),
            28 => Ok(Self::Meters),
            29 => Ok(Self::Millimeters),
            30 => Ok(Self::Hours),
            255 => Ok(Self::DoubleInterferogram),
            v => Err(DecodeError::InvalidUnitCode(v)),
        }
    }
}

/// The possible settings for the Y axis unit-type code. Values below 128 are
/// expected to exhibit peaks, 128 and above valleys.
#[allow(missing_docs, non_camel_case_types)]
#[derive(Clone, Copy, Debug, PartialEq, Eq, Structural)]
pub enum yType {
    ArbitraryIntensity,
    Interferogram,
    Absorbance,
    KubelkaMonk,
    Counts,
    Volts,
    Degrees,
    Milliamps,
    Millimeters,
    Millivolts,
    LogInvR,
    Percent,
    Intensity,
    RelativeIntensity,
    Energy,
    Decibel,
    TemperatureF,
    TemperatureC,
    TemperatureK,
    IndexOfRefraction,
    ExtinctionCoeff,
    Real,
    Imaginary,
    Complex,
    Transmission,
    Reflectance,
    ArbitraryOrSingleBeamWithValleyPeaks,
    Emission,
}

/// The Y axis unit encoded by a byte, if the byte is recognized.
pub open spec fn spec_y_type(v: u8) -> Option<yType> {
    match v {
        0 => Some(yType::ArbitraryIntensity),
        1 => Some(yType::Interferogram),
        2 => Some(yType::Absorbance),
        3 => Some(yType::KubelkaMonk),
        4 => Some(yType::Counts),
        5 => Some(yType::Volts),
        6 => Some(yType::Degrees),
        7 => Some(yType::Milliamps),
        8 => Some(yType::Millimeters),
        9 => Some(yType::Millivolts),
        10 => Some(yType::LogInvR),
        11 => Some(yType::Percent),
        12 => Some(yType::Intensity),
        13 => Some(yType::RelativeIntensity),
        14 => Some(yType::Energy),
        15 => Some(yType::Decibel),
        19 => Some(yType::TemperatureF),
        20 => Some(yType::TemperatureC),
        21 => Some(yType::TemperatureK),
        22 => Some(yType::IndexOfRefraction),
        23 => Some(yType::ExtinctionCoeff),
        24 => Some(yType::Real),
        25 => Some(yType::Imaginary),
        26 => Some(yType::Complex),
        128 => Some(yType::Transmission),
        129 => Some(yType::Reflectance),
        130 => Some(yType::ArbitraryOrSingleBeamWithValleyPeaks),
        131 => Some(yType::Emission),
        _ => None,
    }
}

impl yType {
    pub fn new(val: u8) -> (r: Result<Self, DecodeError>)
        ensures
            match r {
                Ok(t) => spec_y_type(val) == Some(t),
                Err(e) => spec_y_type(val) is None && e == DecodeError::InvalidUnitCode(val),
            },
    {
        match val {
            0 => Ok(Self::ArbitraryIntensity),
            1 => Ok(Self::Interferogram),
            2 => Ok(Self::Absorbance),
            3 => Ok(Self::KubelkaMonk),
            4 => Ok(Self::Counts),
            5 => Ok(Self::Volts),
            6 => Ok(Self::Degrees),
            7 => Ok(Self::Milliamps),
            8 => Ok(Self::Millimeters),
            9 => Ok(Self::Millivolts),
            10 => Ok(Self::LogInvR),
            11 => Ok(Self::Percent),
            12 => Ok(Self::Intensity),
            13 => Ok(Self::RelativeIntensity),
            14 => Ok(Self::Energy),
            15 => Ok(Self::Decibel),
            19 => Ok(Self::TemperatureF),
            20 => Ok(Self::TemperatureC),
            21 => Ok(Self::TemperatureK),
            22 => Ok(Self::IndexOfRefraction),
            23 => Ok(Self::ExtinctionCoeff),
            24 => Ok(Self::Real),
            25 => Ok(Self::Imaginary),
            26 => Ok(Self::Complex),
            128 => Ok(Self::Transmission),
            129 => Ok(Self::Reflectance),
            130 => Ok(Self::ArbitraryOrSingleBeamWithValleyPeaks),
            131 => Ok(Self::Emission),
            v => Err(DecodeError::InvalidUnitCode(v)),
        }
    }
}

} // verus!

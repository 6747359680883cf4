//! Color description codes (CICP) carried by the optional `colr` box.
//!
//! Closed value sets; each variant stands for one standard code point, and
//! `code` returns the numeric value that the container stores.

use vstd::prelude::*;

verus! {

#[derive(Debug, Copy, Clone, PartialEq, Eq, Structural)]
pub enum ColorPrimaries {
    Bt709,
    Unspecified,
    Bt470m,
    Bt470bg,
    Bt601,
    Smpte240,
    GenericFilm,
    Bt2020,
    Xyz,
    Smpte431,
    Smpte432,
    Ebu3213,
}

impl ColorPrimaries {
    pub open spec fn spec_code(self) -> u16 {
        match self {
            ColorPrimaries::Bt709 => 1,
            ColorPrimaries::Unspecified => 2,
            ColorPrimaries::Bt470m => 4,
            ColorPrimaries::Bt470bg => 5,
            ColorPrimaries::Bt601 => 6,
            ColorPrimaries::Smpte240 => 7,
            ColorPrimaries::GenericFilm => 8,
            ColorPrimaries::Bt2020 => 9,
            ColorPrimaries::Xyz => 10,
            ColorPrimaries::Smpte431 => 11,
            ColorPrimaries::Smpte432 => 12,
            ColorPrimaries::Ebu3213 => 22,
        }
    }

    /// The numeric code point stored in the file.
    pub fn code(self) -> (r: u16)
        ensures
            r == self.spec_code(),
    {
        match self {
            ColorPrimaries::Bt709 => 1,
            ColorPrimaries::Unspecified => 2,
            ColorPrimaries::Bt470m => 4,
            ColorPrimaries::Bt470bg => 5,
            ColorPrimaries::Bt601 => 6,
            ColorPrimaries::Smpte240 => 7,
            ColorPrimaries::GenericFilm => 8,
            ColorPrimaries::Bt2020 => 9,
            ColorPrimaries::Xyz => 10,
            ColorPrimaries::Smpte431 => 11,
            ColorPrimaries::Smpte432 => 12,
            ColorPrimaries::Ebu3213 => 22,
        }
    }
}

#[derive(Debug, Copy, Clone, PartialEq, Eq, Structural)]
pub enum TransferCharacteristics {
    Bt709,
    Unspecified,
    Bt470m,
    Bt470bg,
    Bt601,
    Smpte240,
    Linear,
    Log100,
    Log316,
    Iec61966,
    Bt1361,
    Srgb,
    Bt2020Ten,
    Bt2020Twelve,
    Smpte2084,
    Smpte428,
    Hlg,
}

impl TransferCharacteristics {
    pub open spec fn spec_code(self) -> u16 {
        match self {
            TransferCharacteristics::Bt709 => 1,
            TransferCharacteristics::Unspecified => 2,
            TransferCharacteristics::Bt470m => 4,
            TransferCharacteristics::Bt470bg => 5,
            TransferCharacteristics::Bt601 => 6,
            TransferCharacteristics::Smpte240 => 7,
            TransferCharacteristics::Linear => 8,
            TransferCharacteristics::Log100 => 9,
            TransferCharacteristics::Log316 => 10,
            TransferCharacteristics::Iec61966 => 11,
            TransferCharacteristics::Bt1361 => 12,
            TransferCharacteristics::Srgb => 13,
            TransferCharacteristics::Bt2020Ten => 14,
            TransferCharacteristics::Bt2020Twelve => 15,
            TransferCharacteristics::Smpte2084 => 16,
            TransferCharacteristics::Smpte428 => 17,
            TransferCharacteristics::Hlg => 18,
        }
    }

    /// The numeric code point stored in the file.
    pub fn code(self) -> (r: u16)
        ensures
            r == self.spec_code(),
    {
        match self {
            TransferCharacteristics::Bt709 => 1,
            TransferCharacteristics::Unspecified => 2,
            TransferCharacteristics::Bt470m => 4,
            TransferCharacteristics::Bt470bg => 5,
            TransferCharacteristics::Bt601 => 6,
            TransferCharacteristics::Smpte240 => 7,
            TransferCharacteristics::Linear => 8,
            TransferCharacteristics::Log100 => 9,
            TransferCharacteristics::Log316 => 10,
            TransferCharacteristics::Iec61966 => 11,
            TransferCharacteristics::Bt1361 => 12,
            TransferCharacteristics::Srgb => 13,
            TransferCharacteristics::Bt2020Ten => 14,
            TransferCharacteristics::Bt2020Twelve => 15,
            TransferCharacteristics::Smpte2084 => 16,
            TransferCharacteristics::Smpte428 => 17,
            TransferCharacteristics::Hlg => 18,
        }
    }
}

#[derive(Debug, Copy, Clone, PartialEq, Eq, Structural)]
pub enum MatrixCoefficients {
    Identity,
    Bt709,
    Unspecified,
    Fcc,
    Bt470bg,
    Bt601,
    Smpte240,
    Ycgco,
    Bt2020Ncl,
    Bt2020Cl,
    Smpte2085,
    ChromatNcl,
    ChromatCl,
    Ictcp,
}

impl MatrixCoefficients {
    pub open spec fn spec_code(self) -> u16 {
        match self {
            MatrixCoefficients::Identity => 0,
            MatrixCoefficients::Bt709 => 1,
            MatrixCoefficients::Unspecified => 2,
            MatrixCoefficients::Fcc => 4,
            MatrixCoefficients::Bt470bg => 5,
            MatrixCoefficients::Bt601 => 6,
            MatrixCoefficients::Smpte240 => 7,
            MatrixCoefficients::Ycgco => 8,
            MatrixCoefficients::Bt2020Ncl => 9,
            MatrixCoefficients::Bt2020Cl => 10,
            MatrixCoefficients::Smpte2085 => 11,
            MatrixCoefficients::ChromatNcl => 12,
            MatrixCoefficients::ChromatCl => 13,
            MatrixCoefficients::Ictcp => 14,
        }
    }

    /// The numeric code point stored in the file.
    pub fn code(self) -> (r: u16)
        ensures
            r == self.spec_code(),
    {
        match self {
            MatrixCoefficients::Identity => 0,
            MatrixCoefficients::Bt709 => 1,
            MatrixCoefficients::Unspecified => 2,
            MatrixCoefficients::Fcc => 4,
            MatrixCoefficients::Bt470bg => 5,
            MatrixCoefficients::Bt601 => 6,
            MatrixCoefficients::Smpte240 => 7,
            MatrixCoefficients::Ycgco => 8,
            MatrixCoefficients::Bt2020Ncl => 9,
            MatrixCoefficients::Bt2020Cl => 10,
            MatrixCoefficients::Smpte2085 => 11,
            MatrixCoefficients::ChromatNcl => 12,
            MatrixCoefficients::ChromatCl => 13,
            MatrixCoefficients::Ictcp => 14,
        }
    }
}

} // verus!

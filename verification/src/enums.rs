use vstd::prelude::*;

verus! {
/// How the bytes of a tile are compressed.
#[derive(Debug, Clone, Copy, PartialEq, Eq, Structural)]
pub enum CompressionMethod {
    Uncompressed,
    Huffman,
    Fax3,
    Fax4,
    LZW,
    JPEG,
    ModernJPEG,
    Deflate,
    OldDeflate,
    PackBits,
    WebP,
}

impl CompressionMethod {
    /// The member that the code `code` stands for, if any.
    pub open spec fn spec_from_u16(code: u16) -> Option<CompressionMethod> {
        match code {
            1 => Some(CompressionMethod::Uncompressed),
            2 => Some(CompressionMethod::Huffman),
            3 => Some(CompressionMethod::Fax3),
            4 => Some(CompressionMethod::Fax4),
            5 => Some(CompressionMethod::LZW),
            6 => Some(CompressionMethod::JPEG),
            7 => Some(CompressionMethod::ModernJPEG),
            8 => Some(CompressionMethod::Deflate),
            32946 => Some(CompressionMethod::OldDeflate),
            32773 => Some(CompressionMethod::PackBits),
            50001 => Some(CompressionMethod::WebP),
            _ => None,
        }
    }

    pub fn from_u16(code: u16) -> (member: Option<CompressionMethod>)
        ensures
            member == CompressionMethod::spec_from_u16(code),
    {
        match code {
            1 => Some(CompressionMethod::Uncompressed),
            2 => Some(CompressionMethod::Huffman),
            3 => Some(CompressionMethod::Fax3),
            4 => Some(CompressionMethod::Fax4),
            5 => Some(CompressionMethod::LZW),
            6 => Some(CompressionMethod::JPEG),
            7 => Some(CompressionMethod::ModernJPEG),
            8 => Some(CompressionMethod::Deflate),
            32946 => Some(CompressionMethod::OldDeflate),
            32773 => Some(CompressionMethod::PackBits),
            50001 => Some(CompressionMethod::WebP),
            _ => None,
        }
    }

    /// The code that stands for this member.
    pub open spec fn spec_to_u16(self) -> u16 {
        match self {
            CompressionMethod::Uncompressed => 1,
            CompressionMethod::Huffman => 2,
            CompressionMethod::Fax3 => 3,
            CompressionMethod::Fax4 => 4,
            CompressionMethod::LZW => 5,
            CompressionMethod::JPEG => 6,
            CompressionMethod::ModernJPEG => 7,
            CompressionMethod::Deflate => 8,
            CompressionMethod::OldDeflate => 32946,
            CompressionMethod::PackBits => 32773,
            CompressionMethod::WebP => 50001,
        }
    }

    pub fn to_u16(&self) -> (code: u16)
        ensures
            code == self.spec_to_u16(),
    {
        match self {
            CompressionMethod::Uncompressed => 1,
            CompressionMethod::Huffman => 2,
            CompressionMethod::Fax3 => 3,
            CompressionMethod::Fax4 => 4,
            CompressionMethod::LZW => 5,
            CompressionMethod::JPEG => 6,
            CompressionMethod::ModernJPEG => 7,
            CompressionMethod::Deflate => 8,
            CompressionMethod::OldDeflate => 32946,
            CompressionMethod::PackBits => 32773,
            CompressionMethod::WebP => 50001,
        }
    }
}

/// What the samples of a pixel mean.
#[derive(Debug, Clone, Copy, PartialEq, Eq, Structural)]
pub enum PhotometricInterpretation {
    WhiteIsZero,
    BlackIsZero,
    RGB,
    RGBPalette,
    TransparencyMask,
    CMYK,
    YCbCr,
    CIELab,
}

impl PhotometricInterpretation {
    /// The member that the code `code` stands for, if any.
    pub open spec fn spec_from_u16(code: u16) -> Option<PhotometricInterpretation> {
        match code {
            0 => Some(PhotometricInterpretation::WhiteIsZero),
            1 => Some(PhotometricInterpretation::BlackIsZero),
            2 => Some(PhotometricInterpretation::RGB),
            3 => Some(PhotometricInterpretation::RGBPalette),
            4 => Some(PhotometricInterpretation::TransparencyMask),
            5 => Some(PhotometricInterpretation::CMYK),
            6 => Some(PhotometricInterpretation::YCbCr),
            8 => Some(PhotometricInterpretation::CIELab),
            _ => None,
        }
    }

    pub fn from_u16(code: u16) -> (member: Option<PhotometricInterpretation>)
        ensures
            member == PhotometricInterpretation::spec_from_u16(code),
    {
        match code {
            0 => Some(PhotometricInterpretation::WhiteIsZero),
            1 => Some(PhotometricInterpretation::BlackIsZero),
            2 => Some(PhotometricInterpretation::RGB),
            3 => Some(PhotometricInterpretation::RGBPalette),
            4 => Some(PhotometricInterpretation::TransparencyMask),
            5 => Some(PhotometricInterpretation::CMYK),
            6 => Some(PhotometricInterpretation::YCbCr),
            8 => Some(PhotometricInterpretation::CIELab),
            _ => None,
        }
    }

    /// The code that stands for this member.
    pub open spec fn spec_to_u16(self) -> u16 {
        match self {
            PhotometricInterpretation::WhiteIsZero => 0,
            PhotometricInterpretation::BlackIsZero => 1,
            PhotometricInterpretation::RGB => 2,
            PhotometricInterpretation::RGBPalette => 3,
            PhotometricInterpretation::TransparencyMask => 4,
            PhotometricInterpretation::CMYK => 5,
            PhotometricInterpretation::YCbCr => 6,
            PhotometricInterpretation::CIELab => 8,
        }
    }

    pub fn to_u16(&self) -> (code: u16)
        ensures
            code == self.spec_to_u16(),
    {
        match self {
            PhotometricInterpretation::WhiteIsZero => 0,
            PhotometricInterpretation::BlackIsZero => 1,
            PhotometricInterpretation::RGB => 2,
            PhotometricInterpretation::RGBPalette => 3,
            PhotometricInterpretation::TransparencyMask => 4,
            PhotometricInterpretation::CMYK => 5,
            PhotometricInterpretation::YCbCr => 6,
            PhotometricInterpretation::CIELab => 8,
        }
    }
}

/// Whether the samples of a pixel stand together or in planes of their own.
#[derive(Debug, Clone, Copy, PartialEq, Eq, Structural)]
pub enum PlanarConfiguration {
    Chunky,
    Planar,
}

impl PlanarConfiguration {
    /// The member that the code `code` stands for, if any.
    pub open spec fn spec_from_u16(code: u16) -> Option<PlanarConfiguration> {
        match code {
            1 => Some(PlanarConfiguration::Chunky),
            2 => Some(PlanarConfiguration::Planar),
            _ => None,
        }
    }

    pub fn from_u16(code: u16) -> (member: Option<PlanarConfiguration>)
        ensures
            member == PlanarConfiguration::spec_from_u16(code),
    {
        match code {
            1 => Some(PlanarConfiguration::Chunky),
            2 => Some(PlanarConfiguration::Planar),
            _ => None,
        }
    }

    /// The code that stands for this member.
    pub open spec fn spec_to_u16(self) -> u16 {
        match self {
            PlanarConfiguration::Chunky => 1,
            PlanarConfiguration::Planar => 2,
        }
    }

    pub fn to_u16(&self) -> (code: u16)
        ensures
            code == self.spec_to_u16(),
    {
        match self {
            PlanarConfiguration::Chunky => 1,
            PlanarConfiguration::Planar => 2,
        }
    }
}

/// The reversible transform applied to the samples before compression.
#[derive(Debug, Clone, Copy, PartialEq, Eq, Structural)]
pub enum Predictor {
    NoPrediction,
    Horizontal,
    FloatingPoint,
}

impl Predictor {
    /// The member that the code `code` stands for, if any.
    pub open spec fn spec_from_u16(code: u16) -> Option<Predictor> {
        match code {
            1 => Some(Predictor::NoPrediction),
            2 => Some(Predictor::Horizontal),
            3 => Some(Predictor::FloatingPoint),
            _ => None,
        }
    }

    pub fn from_u16(code: u16) -> (member: Option<Predictor>)
        ensures
            member == Predictor::spec_from_u16(code),
    {
        match code {
            1 => Some(Predictor::NoPrediction),
            2 => Some(Predictor::Horizontal),
            3 => Some(Predictor::FloatingPoint),
            _ => None,
        }
    }

    /// The code that stands for this member.
    pub open spec fn spec_to_u16(self) -> u16 {
        match self {
            Predictor::NoPrediction => 1,
            Predictor::Horizontal => 2,
            Predictor::FloatingPoint => 3,
        }
    }

    pub fn to_u16(&self) -> (code: u16)
        ensures
            code == self.spec_to_u16(),
    {
        match self {
            Predictor::NoPrediction => 1,
            Predictor::Horizontal => 2,
            Predictor::FloatingPoint => 3,
        }
    }
}

/// The unit in which the resolution tags count.
#[derive(Debug, Clone, Copy, PartialEq, Eq, Structural)]
pub enum ResolutionUnit {
    NoUnit,
    Inch,
    Centimeter,
}

impl ResolutionUnit {
    /// The member that the code `code` stands for, if any.
    pub open spec fn spec_from_u16(code: u16) -> Option<ResolutionUnit> {
        match code {
            1 => Some(ResolutionUnit::NoUnit),
            2 => Some(ResolutionUnit::Inch),
            3 => Some(ResolutionUnit::Centimeter),
            _ => None,
        }
    }

    pub fn from_u16(code: u16) -> (member: Option<ResolutionUnit>)
        ensures
            member == ResolutionUnit::spec_from_u16(code),
    {
        match code {
            1 => Some(ResolutionUnit::NoUnit),
            2 => Some(ResolutionUnit::Inch),
            3 => Some(ResolutionUnit::Centimeter),
            _ => None,
        }
    }

    /// The code that stands for this member.
    pub open spec fn spec_to_u16(self) -> u16 {
        match self {
            ResolutionUnit::NoUnit => 1,
            ResolutionUnit::Inch => 2,
            ResolutionUnit::Centimeter => 3,
        }
    }

    pub fn to_u16(&self) -> (code: u16)
        ensures
            code == self.spec_to_u16(),
    {
        match self {
            ResolutionUnit::NoUnit => 1,
            ResolutionUnit::Inch => 2,
            ResolutionUnit::Centimeter => 3,
        }
    }
}

/// How the bits of a sample are to be read.
#[derive(Debug, Clone, Copy, PartialEq, Eq, Structural)]
pub enum SampleFormat {
    Uint,
    Int,
    IEEEFP,
    Void,
    /// A code outside the enumeration, kept as it is.
    Unknown(u16),
}

impl SampleFormat {
    /// The member that the code `code` stands for.
    pub open spec fn spec_from_u16_exhaustive(code: u16) -> SampleFormat {
        match code {
            1 => SampleFormat::Uint,
            2 => SampleFormat::Int,
            3 => SampleFormat::IEEEFP,
            4 => SampleFormat::Void,
            _ => SampleFormat::Unknown(code),
        }
    }

    pub fn from_u16_exhaustive(code: u16) -> (member: SampleFormat)
        ensures
            member == SampleFormat::spec_from_u16_exhaustive(code),
    {
        match code {
            1 => SampleFormat::Uint,
            2 => SampleFormat::Int,
            3 => SampleFormat::IEEEFP,
            4 => SampleFormat::Void,
            _ => SampleFormat::Unknown(code),
        }
    }

    /// The code that stands for this member.
    pub open spec fn spec_to_u16(self) -> u16 {
        match self {
            SampleFormat::Uint => 1,
            SampleFormat::Int => 2,
            SampleFormat::IEEEFP => 3,
            SampleFormat::Void => 4,
            SampleFormat::Unknown(code) => code,
        }
    }

    pub fn to_u16(&self) -> (code: u16)
        ensures
            code == self.spec_to_u16(),
    {
        match self {
            SampleFormat::Uint => 1,
            SampleFormat::Int => 2,
            SampleFormat::IEEEFP => 3,
            SampleFormat::Void => 4,
            SampleFormat::Unknown(code) => *code,
        }
    }
}

} // verus!

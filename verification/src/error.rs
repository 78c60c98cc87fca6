use vstd::prelude::*;
use vstd::string::StringExecFns;

verus! {

/// Every way in which reading a file's metadata can fail.
#[derive(Debug, Clone, Copy, PartialEq, Eq, Structural)]
#[non_exhaustive]
pub enum AiocogeoError {
    /// The bytes handed over do not cover the byte range that was asked for.
    RangeFetch,
    /// The file is not a classic TIFF: wrong byte-order mark or version.
    UnsupportedFormat,
    /// A tag record or its value is malformed.
    InvalidTagEncoding,
    /// A tag that every image directory must carry is absent.
    MissingTag,
    /// An enumerated tag carries a code outside its enumeration.
    UnsupportedValue,
    /// The GeoKey directory header or one of its side-table references is malformed.
    InvalidGeoKeyDirectory,
    /// The GeoKey directory names a key that this reader does not know.
    UnsupportedGeoKey,
    /// The chain of image directories leads back to a directory already read.
    DirectoryCycle,
    /// A tile, or an image directory, beyond the ones that exist was asked for.
    OutOfRange,
}

/// Crate-specific result type.
pub type Result<T> = std::result::Result<T, AiocogeoError>;

impl AiocogeoError {
    /// The text in which this error is reported.
    pub open spec fn spec_message(self) -> Seq<char> {
        match self {
            AiocogeoError::RangeFetch => "byte range fetch failed or came back short"@,
            AiocogeoError::UnsupportedFormat => "not a classic TIFF file"@,
            AiocogeoError::InvalidTagEncoding => "malformed tag encoding"@,
            AiocogeoError::MissingTag => "required tag is missing"@,
            AiocogeoError::UnsupportedValue => "unsupported enumerated tag value"@,
            AiocogeoError::InvalidGeoKeyDirectory => "malformed GeoKey directory"@,
            AiocogeoError::UnsupportedGeoKey => "unsupported GeoKey id"@,
            AiocogeoError::DirectoryCycle => "image directory chain is cyclic"@,
            AiocogeoError::OutOfRange => "index out of range"@,
        }
    }

    pub fn message(&self) -> (text: String)
        ensures
            text@ == self.spec_message(),
    {
        match self {
            AiocogeoError::RangeFetch => String::from_str(
                "byte range fetch failed or came back short",
            ),
            AiocogeoError::UnsupportedFormat => String::from_str("not a classic TIFF file"),
            AiocogeoError::InvalidTagEncoding => String::from_str("malformed tag encoding"),
            AiocogeoError::MissingTag => String::from_str("required tag is missing"),
            AiocogeoError::UnsupportedValue => String::from_str("unsupported enumerated tag value"),
            AiocogeoError::InvalidGeoKeyDirectory => String::from_str("malformed GeoKey directory"),
            AiocogeoError::UnsupportedGeoKey => String::from_str("unsupported GeoKey id"),
            AiocogeoError::DirectoryCycle => String::from_str("image directory chain is cyclic"),
            AiocogeoError::OutOfRange => String::from_str("index out of range"),
        }
    }
}

} // verus!

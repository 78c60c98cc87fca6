use crate::enums::{CompressionMethod, PhotometricInterpretation};
use crate::error::AiocogeoError;
use vstd::prelude::*;
use vstd::slice::{slice_subrange, slice_to_vec};

verus! {

/// How a JPEG decoder is to take the color components of a tile.
#[derive(Debug, Clone, Copy, PartialEq, Eq, Structural)]
pub enum ColorTransform {
    /// The components are taken as they are.
    Unchanged,
    /// The components are red, green and blue.
    RGB,
    /// The components are cyan, magenta, yellow and black.
    CMYK,
    /// The components are luma and two chroma.
    YCbCr,
}

/// What is left to do for the samples of a tile, once its bytes were fetched.
/// The work itself is that of a codec, which this library does not hold.
#[derive(Debug, PartialEq, Eq)]
pub enum Decoding {
    /// Nothing: these are the samples.
    Stored(Vec<u8>),
    /// These bytes are a zlib stream, to be inflated.
    Deflate(Vec<u8>),
    /// These bytes are a JPEG stream, to be decoded with this color transform.
    Jpeg { stream: Vec<u8>, transform: ColorTransform },
}

/// A `Decoding` as mathematics.
pub enum DecodingView {
    Stored(Seq<u8>),
    Deflate(Seq<u8>),
    Jpeg { stream: Seq<u8>, transform: ColorTransform },
}

impl View for Decoding {
    type V = DecodingView;

    open spec fn view(&self) -> DecodingView {
        match self {
            Decoding::Stored(bytes) => DecodingView::Stored(bytes@),
            Decoding::Deflate(bytes) => DecodingView::Deflate(bytes@),
            Decoding::Jpeg { stream, transform } => DecodingView::Jpeg {
                stream: stream@,
                transform: *transform,
            },
        }
    }
}

/// The color transform that goes with a photometric interpretation; none for
/// one that no JPEG tile can have.
pub open spec fn spec_color_transform(photometric_interpretation: PhotometricInterpretation)
    -> Option<ColorTransform> {
    match photometric_interpretation {
        PhotometricInterpretation::RGB => Some(ColorTransform::RGB),
        PhotometricInterpretation::WhiteIsZero
        | PhotometricInterpretation::BlackIsZero
        | PhotometricInterpretation::TransparencyMask => Some(ColorTransform::Unchanged),
        PhotometricInterpretation::CMYK => Some(ColorTransform::CMYK),
        PhotometricInterpretation::YCbCr => Some(ColorTransform::YCbCr),
        _ => None,
    }
}

/// The JPEG stream of a tile.
///
/// The tables that the tiles of an image share are a JPEG stream of their
/// own, from the marker of the start of an image to that of the end of one,
/// two bytes each. So is the tile. The stream of the tile with its tables is
/// the tables without their last two bytes, then the tile without its first
/// two. `None` where the tile, or the tables, are shorter than a marker.
pub open spec fn spec_jpeg_stream(tile: Seq<u8>, jpeg_tables: Option<Seq<u8>>) -> Option<Seq<u8>> {
    match jpeg_tables {
        None => Some(tile),
        Some(tables) => if tile.len() < 2 || tables.len() < 2 {
            None
        } else {
            Some(tables.subrange(0, tables.len() - 2) + tile.subrange(2, tile.len() as int))
        },
    }
}

/// What is left to do for the samples of a JPEG tile with the bytes `tile`:
/// it is refused with `RangeFetch` where it has no JPEG stream, else with
/// `UnsupportedValue` where its photometric interpretation has no color
/// transform.
pub open spec fn spec_decode_modern_jpeg(
    tile: Seq<u8>,
    photometric_interpretation: PhotometricInterpretation,
    jpeg_tables: Option<Seq<u8>>,
) -> Result<DecodingView, AiocogeoError> {
    match spec_jpeg_stream(tile, jpeg_tables) {
        None => Err(AiocogeoError::RangeFetch),
        Some(stream) => match spec_color_transform(photometric_interpretation) {
            None => Err(AiocogeoError::UnsupportedValue),
            Some(transform) => Ok(DecodingView::Jpeg { stream, transform }),
        },
    }
}

/// What is left to do for the samples of a tile with the bytes `tile`, by the
/// compression method of its image. Methods other than none, deflate and
/// JPEG are refused with `UnsupportedValue`.
pub open spec fn spec_decode_tile(
    tile: Seq<u8>,
    photometric_interpretation: PhotometricInterpretation,
    compression_method: CompressionMethod,
    jpeg_tables: Option<Seq<u8>>,
) -> Result<DecodingView, AiocogeoError> {
    match compression_method {
        CompressionMethod::Uncompressed => Ok(DecodingView::Stored(tile)),
        CompressionMethod::Deflate | CompressionMethod::OldDeflate => Ok(
            DecodingView::Deflate(tile),
        ),
        CompressionMethod::ModernJPEG => spec_decode_modern_jpeg(
            tile,
            photometric_interpretation,
            jpeg_tables,
        ),
        _ => Err(AiocogeoError::UnsupportedValue),
    }
}

/// Whether `got` is the decoding, or the error, that `wanted` describes.
pub open spec fn decoding_is(
    got: Result<Decoding, AiocogeoError>,
    wanted: Result<DecodingView, AiocogeoError>,
) -> bool {
    match wanted {
        Ok(view) => got is Ok && got->Ok_0@ == view,
        Err(error) => got == Err::<Decoding, AiocogeoError>(error),
    }
}

/// The color transform that goes with a photometric interpretation.
pub fn color_transform(photometric_interpretation: PhotometricInterpretation) -> (transform: Option<
    ColorTransform,
>)
    ensures
        transform == spec_color_transform(photometric_interpretation),
{
    match photometric_interpretation {
        PhotometricInterpretation::RGB => Some(ColorTransform::RGB),
        PhotometricInterpretation::WhiteIsZero
        | PhotometricInterpretation::BlackIsZero
        | PhotometricInterpretation::TransparencyMask => Some(ColorTransform::Unchanged),
        PhotometricInterpretation::CMYK => Some(ColorTransform::CMYK),
        PhotometricInterpretation::YCbCr => Some(ColorTransform::YCbCr),
        _ => None,
    }
}

/// The JPEG stream of a tile, with the tables that the tiles of its image
/// share where there are any.
pub fn jpeg_stream(tile: &[u8], jpeg_tables: Option<&[u8]>) -> (stream: Option<Vec<u8>>)
    ensures
        match spec_jpeg_stream(
            tile@,
            match jpeg_tables {
                Some(tables) => Some(tables@),
                None => None,
            },
        ) {
            Some(bytes) => stream is Some && stream->Some_0@ == bytes,
            None => stream is None,
        },
{
    match jpeg_tables {
        None => Some(slice_to_vec(tile)),
        Some(tables) => {
            if tile.len() < 2 || tables.len() < 2 {
                return None;
            }
            let mut stream = slice_to_vec(slice_subrange(tables, 0, tables.len() - 2));
            let mut rest = slice_to_vec(slice_subrange(tile, 2, tile.len()));
            stream.append(&mut rest);
            Some(stream)
        },
    }
}

/// Says what is left to do for the samples of a JPEG tile.
pub fn decode_modern_jpeg(
    buf: &[u8],
    photometric_interpretation: PhotometricInterpretation,
    jpeg_tables: Option<&[u8]>,
) -> (r: Result<Decoding, AiocogeoError>)
    ensures
        decoding_is(
            r,
            spec_decode_modern_jpeg(
                buf@,
                photometric_interpretation,
                match jpeg_tables {
                    Some(tables) => Some(tables@),
                    None => None,
                },
            ),
        ),
{
    let stream = match jpeg_stream(buf, jpeg_tables) {
        Some(stream) => stream,
        None => {
            return Err(AiocogeoError::RangeFetch);
        },
    };
    match color_transform(photometric_interpretation) {
        Some(transform) => Ok(Decoding::Jpeg { stream, transform }),
        None => Err(AiocogeoError::UnsupportedValue),
    }
}

/// Says what is left to do for the samples of a tile, once its bytes were
/// fetched.
pub fn decode_tile(
    buf: &[u8],
    photometric_interpretation: PhotometricInterpretation,
    compression_method: CompressionMethod,
    jpeg_tables: Option<&[u8]>,
) -> (r: Result<Decoding, AiocogeoError>)
    ensures
        decoding_is(
            r,
            spec_decode_tile(
                buf@,
                photometric_interpretation,
                compression_method,
                match jpeg_tables {
                    Some(tables) => Some(tables@),
                    None => None,
                },
            ),
        ),
{
    match compression_method {
        CompressionMethod::Uncompressed => Ok(Decoding::Stored(slice_to_vec(buf))),
        CompressionMethod::Deflate | CompressionMethod::OldDeflate => Ok(
            Decoding::Deflate(slice_to_vec(buf)),
        ),
        CompressionMethod::ModernJPEG => decode_modern_jpeg(
            buf,
            photometric_interpretation,
            jpeg_tables,
        ),
        _ => Err(AiocogeoError::UnsupportedValue),
    }
}

} // verus!

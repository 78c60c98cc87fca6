use crate::affine::{negated, spec_negated, AffineTransform};
use crate::cursor::ByteRange;
use crate::enums::{
    CompressionMethod, PhotometricInterpretation, PlanarConfiguration, Predictor, ResolutionUnit,
    SampleFormat,
};
use crate::error::AiocogeoError;
use crate::geo_key_directory::{spec_geo_keys, GeoKeyDirectory, GeoKeysView};
use crate::tag::{
    ARTIST, BITS_PER_SAMPLE, COLOR_MAP, COMPRESSION, COPYRIGHT, DATE_TIME, DOCUMENT_NAME,
    EXTRA_SAMPLES, GEO_ASCII_PARAMS_TAG, GEO_DOUBLE_PARAMS_TAG, GEO_KEY_DIRECTORY_TAG,
    HOST_COMPUTER, IMAGE_DESCRIPTION, IMAGE_LENGTH, IMAGE_WIDTH, JPEG_TABLES, MAX_SAMPLE_VALUE,
    MIN_SAMPLE_VALUE, MODEL_PIXEL_SCALE_TAG, MODEL_TIEPOINT_TAG, NEW_SUBFILE_TYPE, ORIENTATION,
    PHOTOMETRIC_INTERPRETATION, PLANAR_CONFIGURATION, PREDICTOR, RESOLUTION_UNIT, ROWS_PER_STRIP,
    SAMPLES_PER_PIXEL, SAMPLE_FORMAT, SOFTWARE, STRIP_BYTE_COUNTS, STRIP_OFFSETS,
    TILE_BYTE_COUNTS, TILE_LENGTH, TILE_OFFSETS, TILE_WIDTH, X_RESOLUTION, Y_RESOLUTION,
};
use crate::value::{Value, ValueView};
use std::collections::HashMap;
use vstd::arithmetic::power2::{lemma2_to64, lemma_pow2_strictly_increases, lemma_pow2_unfold, pow2};
use vstd::prelude::*;

verus! {

broadcast use vstd::std_specs::hash::group_hash_axioms;

/// What the tag `code` of `tags` holds, read by `reading`: nothing where the
/// tag is absent; an error where it holds what `reading` does not take.
pub open spec fn read_as<T>(
    tags: Map<u16, ValueView>,
    code: u16,
    reading: spec_fn(ValueView) -> Option<T>,
) -> Result<Option<T>, AiocogeoError> {
    if !tags.contains_key(code) {
        Ok(None)
    } else {
        match reading(tags[code]) {
            Some(x) => Ok(Some(x)),
            None => Err(AiocogeoError::InvalidTagEncoding),
        }
    }
}

/// The tag `code` of `tags`, read as an unsigned number of 16 bits.
pub open spec fn tag_u16(tags: Map<u16, ValueView>, code: u16) -> Result<
    Option<u16>,
    AiocogeoError,
> {
    read_as(tags, code, |v: ValueView| v.as_u16())
}

/// The tag `code` of `tags`, read as an unsigned number of 32 bits.
pub open spec fn tag_u32(tags: Map<u16, ValueView>, code: u16) -> Result<
    Option<u32>,
    AiocogeoError,
> {
    read_as(tags, code, |v: ValueView| v.as_u32())
}

/// The tag `code` of `tags`, read as an unsigned rational number.
pub open spec fn tag_rational(tags: Map<u16, ValueView>, code: u16) -> Result<
    Option<(u32, u32)>,
    AiocogeoError,
> {
    read_as(tags, code, |v: ValueView| v.as_rational())
}

/// The tag `code` of `tags`, read as a list of unsigned numbers of 8 bits.
pub open spec fn tag_u8_seq(tags: Map<u16, ValueView>, code: u16) -> Result<
    Option<Seq<u8>>,
    AiocogeoError,
> {
    read_as(tags, code, |v: ValueView| v.as_u8_seq())
}

/// The tag `code` of `tags`, read as a list of unsigned numbers of 16 bits.
pub open spec fn tag_u16_seq(tags: Map<u16, ValueView>, code: u16) -> Result<
    Option<Seq<u16>>,
    AiocogeoError,
> {
    read_as(tags, code, |v: ValueView| v.as_u16_seq())
}

/// The tag `code` of `tags`, read as a list of unsigned numbers of 32 bits.
pub open spec fn tag_u32_seq(tags: Map<u16, ValueView>, code: u16) -> Result<
    Option<Seq<u32>>,
    AiocogeoError,
> {
    read_as(tags, code, |v: ValueView| v.as_u32_seq())
}

/// The tag `code` of `tags`, read as a list of bit patterns of 64-bit
/// floating-point numbers.
pub open spec fn tag_f64_bits_seq(tags: Map<u16, ValueView>, code: u16) -> Result<
    Option<Seq<u64>>,
    AiocogeoError,
> {
    read_as(tags, code, |v: ValueView| v.as_f64_bits_seq())
}

/// The tag `code` of `tags`, read as a text.
pub open spec fn tag_text(tags: Map<u16, ValueView>, code: u16) -> Result<
    Option<Seq<char>>,
    AiocogeoError,
> {
    read_as(tags, code, |v: ValueView| v.as_text())
}

/// The tags `tags`, each value as mathematics.
pub open spec fn views(tags: Map<u16, Value>) -> Map<u16, ValueView> {
    tags.map_values(|value: Value| value@)
}

/// What a tag that may be absent holds.
pub open spec fn optional<T>(read: Result<Option<T>, AiocogeoError>) -> Option<T> {
    read->Ok_0
}

/// What a tag that must be there holds.
pub open spec fn required<T>(read: Result<Option<T>, AiocogeoError>) -> T {
    read->Ok_0->Some_0
}

/// Whether a tag is there.
pub open spec fn given<T>(read: Result<Option<T>, AiocogeoError>) -> bool {
    read matches Ok(Some(_))
}

/// The sample formats that the codes `codes` stand for.
pub open spec fn sample_formats(codes: Seq<u16>) -> Seq<SampleFormat> {
    Seq::new(codes.len(), |i: int| SampleFormat::spec_from_u16_exhaustive(codes[i]))
}

/// The items of a list that may be absent.
pub open spec fn seq_of<T>(list: Option<Vec<T>>) -> Option<Seq<T>> {
    match list {
        Some(items) => Some(items@),
        None => None,
    }
}

/// The characters of a text that may be absent.
pub open spec fn text_of(text: Option<String>) -> Option<Seq<char>> {
    match text {
        Some(text) => Some(text@),
        None => None,
    }
}

/// The least number of pieces of size `b` that cover `a`.
pub open spec fn ceil_div(a: int, b: int) -> int {
    if a % b == 0 {
        a / b
    } else {
        a / b + 1
    }
}

/// Whether an image of `width` by `height` pixels, cut into tiles of
/// `tile_width` by `tile_height` pixels, has `offsets` tile offsets and
/// `byte_counts` tile byte counts: one of each for each tile.
pub open spec fn tiles_consistent(
    width: u32,
    height: u32,
    tile_width: u32,
    tile_height: u32,
    offsets: nat,
    byte_counts: nat,
) -> bool {
    &&& tile_width > 0
    &&& tile_height > 0
    &&& offsets == ceil_div(width as int, tile_width as int) * ceil_div(
        height as int,
        tile_height as int,
    )
    &&& byte_counts == offsets
}

/// The codes of the tags that have a place of their own in an image directory.
pub open spec fn known_tags() -> Set<u16> {
    set![
        NEW_SUBFILE_TYPE,
        IMAGE_WIDTH,
        IMAGE_LENGTH,
        BITS_PER_SAMPLE,
        COMPRESSION,
        PHOTOMETRIC_INTERPRETATION,
        DOCUMENT_NAME,
        IMAGE_DESCRIPTION,
        STRIP_OFFSETS,
        ORIENTATION,
        SAMPLES_PER_PIXEL,
        ROWS_PER_STRIP,
        STRIP_BYTE_COUNTS,
        MIN_SAMPLE_VALUE,
        MAX_SAMPLE_VALUE,
        X_RESOLUTION,
        Y_RESOLUTION,
        PLANAR_CONFIGURATION,
        RESOLUTION_UNIT,
        SOFTWARE,
        DATE_TIME,
        ARTIST,
        HOST_COMPUTER,
        PREDICTOR,
        COLOR_MAP,
        TILE_WIDTH,
        TILE_LENGTH,
        TILE_OFFSETS,
        TILE_BYTE_COUNTS,
        EXTRA_SAMPLES,
        SAMPLE_FORMAT,
        JPEG_TABLES,
        COPYRIGHT,
        MODEL_PIXEL_SCALE_TAG,
        MODEL_TIEPOINT_TAG,
        GEO_KEY_DIRECTORY_TAG,
        GEO_ASCII_PARAMS_TAG,
        GEO_DOUBLE_PARAMS_TAG,
    ]
}

/// An image directory as mathematics. A floating-point number is its
/// IEEE 754 bit pattern.
pub struct DirectoryView {
    pub new_subfile_type: Option<u32>,
    pub image_width: u32,
    pub image_height: u32,
    pub bits_per_sample: Seq<u16>,
    pub compression: CompressionMethod,
    pub photometric_interpretation: PhotometricInterpretation,
    pub document_name: Option<Seq<char>>,
    pub image_description: Option<Seq<char>>,
    pub strip_offsets: Option<Seq<u32>>,
    pub orientation: Option<u16>,
    pub samples_per_pixel: u16,
    pub rows_per_strip: Option<u32>,
    pub strip_byte_counts: Option<Seq<u32>>,
    pub min_sample_value: Option<Seq<u16>>,
    pub max_sample_value: Option<Seq<u16>>,
    pub x_resolution: Option<(u32, u32)>,
    pub y_resolution: Option<(u32, u32)>,
    pub planar_configuration: PlanarConfiguration,
    pub resolution_unit: Option<ResolutionUnit>,
    pub software: Option<Seq<char>>,
    pub date_time: Option<Seq<char>>,
    pub artist: Option<Seq<char>>,
    pub host_computer: Option<Seq<char>>,
    pub predictor: Option<Predictor>,
    pub color_map: Option<Seq<u16>>,
    pub tile_width: u32,
    pub tile_height: u32,
    pub tile_offsets: Seq<u32>,
    pub tile_byte_counts: Seq<u32>,
    pub extra_samples: Option<Seq<u8>>,
    pub sample_format: Seq<SampleFormat>,
    pub jpeg_tables: Option<Seq<u8>>,
    pub copyright: Option<Seq<char>>,
    pub model_pixel_scale: Option<Seq<u64>>,
    pub model_tiepoint: Option<Seq<u64>>,
    pub geo_key_directory: Option<GeoKeysView>,
    pub other_tags: Map<u16, ValueView>,
    pub next_ifd_offset: Option<u32>,
}

/// Whether each known tag that `tags` has holds a value of a type that the tag takes.
pub open spec fn well_typed(tags: Map<u16, ValueView>) -> bool {
    &&& tag_u32(tags, NEW_SUBFILE_TYPE) is Ok
    &&& tag_u32(tags, IMAGE_WIDTH) is Ok
    &&& tag_u32(tags, IMAGE_LENGTH) is Ok
    &&& tag_u16_seq(tags, BITS_PER_SAMPLE) is Ok
    &&& tag_u16(tags, COMPRESSION) is Ok
    &&& tag_u16(tags, PHOTOMETRIC_INTERPRETATION) is Ok
    &&& tag_text(tags, DOCUMENT_NAME) is Ok
    &&& tag_text(tags, IMAGE_DESCRIPTION) is Ok
    &&& tag_u32_seq(tags, STRIP_OFFSETS) is Ok
    &&& tag_u16(tags, ORIENTATION) is Ok
    &&& tag_u16(tags, SAMPLES_PER_PIXEL) is Ok
    &&& tag_u32(tags, ROWS_PER_STRIP) is Ok
    &&& tag_u32_seq(tags, STRIP_BYTE_COUNTS) is Ok
    &&& tag_u16_seq(tags, MIN_SAMPLE_VALUE) is Ok
    &&& tag_u16_seq(tags, MAX_SAMPLE_VALUE) is Ok
    &&& tag_rational(tags, X_RESOLUTION) is Ok
    &&& tag_rational(tags, Y_RESOLUTION) is Ok
    &&& tag_u16(tags, PLANAR_CONFIGURATION) is Ok
    &&& tag_u16(tags, RESOLUTION_UNIT) is Ok
    &&& tag_text(tags, SOFTWARE) is Ok
    &&& tag_text(tags, DATE_TIME) is Ok
    &&& tag_text(tags, ARTIST) is Ok
    &&& tag_text(tags, HOST_COMPUTER) is Ok
    &&& tag_u16(tags, PREDICTOR) is Ok
    &&& tag_u16_seq(tags, COLOR_MAP) is Ok
    &&& tag_u32(tags, TILE_WIDTH) is Ok
    &&& tag_u32(tags, TILE_LENGTH) is Ok
    &&& tag_u32_seq(tags, TILE_OFFSETS) is Ok
    &&& tag_u32_seq(tags, TILE_BYTE_COUNTS) is Ok
    &&& tag_u8_seq(tags, EXTRA_SAMPLES) is Ok
    &&& tag_u16_seq(tags, SAMPLE_FORMAT) is Ok
    &&& tag_u8_seq(tags, JPEG_TABLES) is Ok
    &&& tag_text(tags, COPYRIGHT) is Ok
    &&& tag_f64_bits_seq(tags, MODEL_PIXEL_SCALE_TAG) is Ok
    &&& tag_f64_bits_seq(tags, MODEL_TIEPOINT_TAG) is Ok
    &&& tag_u16_seq(tags, GEO_KEY_DIRECTORY_TAG) is Ok
    &&& tag_text(tags, GEO_ASCII_PARAMS_TAG) is Ok
    &&& tag_f64_bits_seq(tags, GEO_DOUBLE_PARAMS_TAG) is Ok
}

/// Whether `tags` has each tag that an image directory must have.
pub open spec fn complete(tags: Map<u16, ValueView>) -> bool {
    &&& given(tag_u32(tags, IMAGE_WIDTH))
    &&& given(tag_u32(tags, IMAGE_LENGTH))
    &&& given(tag_u16_seq(tags, BITS_PER_SAMPLE))
    &&& given(tag_u16(tags, COMPRESSION))
    &&& given(tag_u16(tags, PHOTOMETRIC_INTERPRETATION))
    &&& given(tag_u16(tags, SAMPLES_PER_PIXEL))
    &&& given(tag_u16(tags, PLANAR_CONFIGURATION))
    &&& given(tag_u32(tags, TILE_WIDTH))
    &&& given(tag_u32(tags, TILE_LENGTH))
    &&& given(tag_u32_seq(tags, TILE_OFFSETS))
    &&& given(tag_u32_seq(tags, TILE_BYTE_COUNTS))
    &&& given(tag_u16_seq(tags, SAMPLE_FORMAT))
}

/// Whether each enumerated tag that decoding a tile depends on holds a code of
/// its enumeration.
pub open spec fn enumerated(tags: Map<u16, ValueView>) -> bool {
    &&& CompressionMethod::spec_from_u16(required(tag_u16(tags, COMPRESSION))) is Some
    &&& PhotometricInterpretation::spec_from_u16(
        required(tag_u16(tags, PHOTOMETRIC_INTERPRETATION)),
    ) is Some
    &&& PlanarConfiguration::spec_from_u16(required(tag_u16(tags, PLANAR_CONFIGURATION))) is Some
    &&& optional(tag_u16(tags, PREDICTOR)) matches Some(code) ==> Predictor::spec_from_u16(code)
        is Some
}

/// Whether `tags` has one tile offset and one tile byte count for each tile.
pub open spec fn tiled(tags: Map<u16, ValueView>) -> bool {
    tiles_consistent(
        required(tag_u32(tags, IMAGE_WIDTH)),
        required(tag_u32(tags, IMAGE_LENGTH)),
        required(tag_u32(tags, TILE_WIDTH)),
        required(tag_u32(tags, TILE_LENGTH)),
        required(tag_u32_seq(tags, TILE_OFFSETS)).len(),
        required(tag_u32_seq(tags, TILE_BYTE_COUNTS)).len(),
    )
}

/// The GeoKey directory that `tags` hold, if they hold one.
pub open spec fn geo_keys(tags: Map<u16, ValueView>) -> Result<Option<GeoKeysView>, AiocogeoError> {
    match optional(tag_u16_seq(tags, GEO_KEY_DIRECTORY_TAG)) {
        None => Ok(None),
        Some(data) => match spec_geo_keys(
            data,
            optional(tag_text(tags, GEO_ASCII_PARAMS_TAG)),
            optional(tag_f64_bits_seq(tags, GEO_DOUBLE_PARAMS_TAG)),
        ) {
            Ok(keys) => Ok(Some(keys)),
            Err(error) => Err(error),
        },
    }
}

/// The image directory that `tags` spell, given that nothing is wrong with them.
pub open spec fn assembled(
    tags: Map<u16, ValueView>,
    geo_key_directory: Option<GeoKeysView>,
    next_ifd_offset: Option<u32>,
) -> DirectoryView {
    DirectoryView {
        new_subfile_type: optional(tag_u32(tags, NEW_SUBFILE_TYPE)),
        image_width: required(tag_u32(tags, IMAGE_WIDTH)),
        image_height: required(tag_u32(tags, IMAGE_LENGTH)),
        bits_per_sample: required(tag_u16_seq(tags, BITS_PER_SAMPLE)),
        compression: CompressionMethod::spec_from_u16(required(tag_u16(tags, COMPRESSION)))->Some_0,
        photometric_interpretation: PhotometricInterpretation::spec_from_u16(
            required(tag_u16(tags, PHOTOMETRIC_INTERPRETATION)),
        )->Some_0,
        document_name: optional(tag_text(tags, DOCUMENT_NAME)),
        image_description: optional(tag_text(tags, IMAGE_DESCRIPTION)),
        strip_offsets: optional(tag_u32_seq(tags, STRIP_OFFSETS)),
        orientation: optional(tag_u16(tags, ORIENTATION)),
        samples_per_pixel: required(tag_u16(tags, SAMPLES_PER_PIXEL)),
        rows_per_strip: optional(tag_u32(tags, ROWS_PER_STRIP)),
        strip_byte_counts: optional(tag_u32_seq(tags, STRIP_BYTE_COUNTS)),
        min_sample_value: optional(tag_u16_seq(tags, MIN_SAMPLE_VALUE)),
        max_sample_value: optional(tag_u16_seq(tags, MAX_SAMPLE_VALUE)),
        x_resolution: optional(tag_rational(tags, X_RESOLUTION)),
        y_resolution: optional(tag_rational(tags, Y_RESOLUTION)),
        planar_configuration: PlanarConfiguration::spec_from_u16(
            required(tag_u16(tags, PLANAR_CONFIGURATION)),
        )->Some_0,
        resolution_unit: match optional(tag_u16(tags, RESOLUTION_UNIT)) {
            Some(code) => ResolutionUnit::spec_from_u16(code),
            None => None,
        },
        software: optional(tag_text(tags, SOFTWARE)),
        date_time: optional(tag_text(tags, DATE_TIME)),
        artist: optional(tag_text(tags, ARTIST)),
        host_computer: optional(tag_text(tags, HOST_COMPUTER)),
        predictor: match optional(tag_u16(tags, PREDICTOR)) {
            Some(code) => Predictor::spec_from_u16(code),
            None => None,
        },
        color_map: optional(tag_u16_seq(tags, COLOR_MAP)),
        tile_width: required(tag_u32(tags, TILE_WIDTH)),
        tile_height: required(tag_u32(tags, TILE_LENGTH)),
        tile_offsets: required(tag_u32_seq(tags, TILE_OFFSETS)),
        tile_byte_counts: required(tag_u32_seq(tags, TILE_BYTE_COUNTS)),
        extra_samples: optional(tag_u8_seq(tags, EXTRA_SAMPLES)),
        sample_format: sample_formats(required(tag_u16_seq(tags, SAMPLE_FORMAT))),
        jpeg_tables: optional(tag_u8_seq(tags, JPEG_TABLES)),
        copyright: optional(tag_text(tags, COPYRIGHT)),
        model_pixel_scale: optional(tag_f64_bits_seq(tags, MODEL_PIXEL_SCALE_TAG)),
        model_tiepoint: optional(tag_f64_bits_seq(tags, MODEL_TIEPOINT_TAG)),
        geo_key_directory,
        other_tags: tags.remove_keys(known_tags()),
        next_ifd_offset,
    }
}

/// The image directory that the tags `tags` of one node of the directory chain
/// spell, `next_ifd_offset` being the offset of the next node.
///
/// It is refused with `InvalidTagEncoding` where a known tag holds a value of
/// a type that it does not take, else with `MissingTag` where a required tag
/// is absent, else with `UnsupportedValue` where compression, photometric
/// interpretation, planar configuration or predictor is a code outside its
/// enumeration, else with `InvalidTagEncoding` where the tile tables do not
/// hold one entry per tile, else with the error of its GeoKey directory.
pub open spec fn spec_from_tags(tags: Map<u16, ValueView>, next_ifd_offset: Option<u32>) -> Result<
    DirectoryView,
    AiocogeoError,
> {
    if !well_typed(tags) {
        Err(AiocogeoError::InvalidTagEncoding)
    } else if !complete(tags) {
        Err(AiocogeoError::MissingTag)
    } else if !enumerated(tags) {
        Err(AiocogeoError::UnsupportedValue)
    } else if !tiled(tags) {
        Err(AiocogeoError::InvalidTagEncoding)
    } else {
        match geo_keys(tags) {
            Ok(geo_key_directory) => Ok(assembled(tags, geo_key_directory, next_ifd_offset)),
            Err(error) => Err(error),
        }
    }
}

/// Whether `got` is the list, the absence or the error that `wanted` describes.
pub open spec fn list_is<T>(
    got: Result<Option<Vec<T>>, AiocogeoError>,
    wanted: Result<Option<Seq<T>>, AiocogeoError>,
) -> bool {
    match wanted {
        Ok(Some(items)) => got matches Ok(Some(list)) && list@ == items,
        Ok(None) => got matches Ok(None),
        Err(error) => got matches Err(e) && e == error,
    }
}

/// Whether `got` is the text, the absence or the error that `wanted` describes.
pub open spec fn text_is(
    got: Result<Option<String>, AiocogeoError>,
    wanted: Result<Option<Seq<char>>, AiocogeoError>,
) -> bool {
    match wanted {
        Ok(Some(chars)) => got matches Ok(Some(text)) && text@ == chars,
        Ok(None) => got matches Ok(None),
        Err(error) => got matches Err(e) && e == error,
    }
}

fn get_u16(tags: &HashMap<u16, Value>, code: u16) -> (r: Result<Option<u16>, AiocogeoError>)
    ensures
        r == tag_u16(views(tags@), code),
{
    match tags.get(&code) {
        None => Ok(None),
        Some(value) => Ok(Some(value.to_u16()?)),
    }
}

fn get_u32(tags: &HashMap<u16, Value>, code: u16) -> (r: Result<Option<u32>, AiocogeoError>)
    ensures
        r == tag_u32(views(tags@), code),
{
    match tags.get(&code) {
        None => Ok(None),
        Some(value) => Ok(Some(value.to_u32()?)),
    }
}

fn get_rational(tags: &HashMap<u16, Value>, code: u16) -> (r: Result<
    Option<(u32, u32)>,
    AiocogeoError,
>)
    ensures
        r == tag_rational(views(tags@), code),
{
    match tags.get(&code) {
        None => Ok(None),
        Some(value) => Ok(Some(value.to_rational()?)),
    }
}

fn get_u8_vec(tags: &HashMap<u16, Value>, code: u16) -> (r: Result<Option<Vec<u8>>, AiocogeoError>)
    ensures
        list_is(r, tag_u8_seq(views(tags@), code)),
{
    match tags.get(&code) {
        None => Ok(None),
        Some(value) => Ok(Some(value.to_u8_vec()?)),
    }
}

fn get_u16_vec(tags: &HashMap<u16, Value>, code: u16) -> (r: Result<
    Option<Vec<u16>>,
    AiocogeoError,
>)
    ensures
        list_is(r, tag_u16_seq(views(tags@), code)),
{
    match tags.get(&code) {
        None => Ok(None),
        Some(value) => Ok(Some(value.to_u16_vec()?)),
    }
}

fn get_u32_vec(tags: &HashMap<u16, Value>, code: u16) -> (r: Result<
    Option<Vec<u32>>,
    AiocogeoError,
>)
    ensures
        list_is(r, tag_u32_seq(views(tags@), code)),
{
    match tags.get(&code) {
        None => Ok(None),
        Some(value) => Ok(Some(value.to_u32_vec()?)),
    }
}

fn get_f64_bits_vec(tags: &HashMap<u16, Value>, code: u16) -> (r: Result<
    Option<Vec<u64>>,
    AiocogeoError,
>)
    ensures
        list_is(r, tag_f64_bits_seq(views(tags@), code)),
{
    match tags.get(&code) {
        None => Ok(None),
        Some(value) => Ok(Some(value.to_f64_bits_vec()?)),
    }
}

fn get_text(tags: &HashMap<u16, Value>, code: u16) -> (r: Result<Option<String>, AiocogeoError>)
    ensures
        text_is(r, tag_text(views(tags@), code)),
{
    match tags.get(&code) {
        None => Ok(None),
        Some(value) => Ok(Some(value.to_text()?)),
    }
}

fn to_sample_formats(codes: &Vec<u16>) -> (formats: Vec<SampleFormat>)
    ensures
        formats@ == sample_formats(codes@),
{
    let mut formats: Vec<SampleFormat> = Vec::new();
    let mut i: usize = 0;
    while i < codes.len()
        invariant
            i <= codes@.len(),
            formats@.len() == i,
            forall|j: int|
                0 <= j < i ==> #[trigger] formats@[j] == SampleFormat::spec_from_u16_exhaustive(
                    codes@[j],
                ),
        decreases codes@.len() - i,
    {
        formats.push(SampleFormat::from_u16_exhaustive(codes[i]));
        i += 1;
    }
    assert(formats@ =~= sample_formats(codes@));
    formats
}

/// Takes the tags with a place of their own out of `tags`.
fn remove_known(tags: &mut HashMap<u16, Value>)
    ensures
        final(tags)@ == old(tags)@.remove_keys(known_tags()),
{
    tags.remove(&NEW_SUBFILE_TYPE);
    tags.remove(&IMAGE_WIDTH);
    tags.remove(&IMAGE_LENGTH);
    tags.remove(&BITS_PER_SAMPLE);
    tags.remove(&COMPRESSION);
    tags.remove(&PHOTOMETRIC_INTERPRETATION);
    tags.remove(&DOCUMENT_NAME);
    tags.remove(&IMAGE_DESCRIPTION);
    tags.remove(&STRIP_OFFSETS);
    tags.remove(&ORIENTATION);
    tags.remove(&SAMPLES_PER_PIXEL);
    tags.remove(&ROWS_PER_STRIP);
    tags.remove(&STRIP_BYTE_COUNTS);
    tags.remove(&MIN_SAMPLE_VALUE);
    tags.remove(&MAX_SAMPLE_VALUE);
    tags.remove(&X_RESOLUTION);
    tags.remove(&Y_RESOLUTION);
    tags.remove(&PLANAR_CONFIGURATION);
    tags.remove(&RESOLUTION_UNIT);
    tags.remove(&SOFTWARE);
    tags.remove(&DATE_TIME);
    tags.remove(&ARTIST);
    tags.remove(&HOST_COMPUTER);
    tags.remove(&PREDICTOR);
    tags.remove(&COLOR_MAP);
    tags.remove(&TILE_WIDTH);
    tags.remove(&TILE_LENGTH);
    tags.remove(&TILE_OFFSETS);
    tags.remove(&TILE_BYTE_COUNTS);
    tags.remove(&EXTRA_SAMPLES);
    tags.remove(&SAMPLE_FORMAT);
    tags.remove(&JPEG_TABLES);
    tags.remove(&COPYRIGHT);
    tags.remove(&MODEL_PIXEL_SCALE_TAG);
    tags.remove(&MODEL_TIEPOINT_TAG);
    tags.remove(&GEO_KEY_DIRECTORY_TAG);
    tags.remove(&GEO_ASCII_PARAMS_TAG);
    tags.remove(&GEO_DOUBLE_PARAMS_TAG);
    assert(tags@ =~= old(tags)@.remove_keys(known_tags()));
}

/// Number of pieces of size `b` that cover `a`.
fn div_ceil(a: u32, b: u32) -> (q: u32)
    requires
        b > 0,
    ensures
        q == ceil_div(a as int, b as int),
{
    if a % b == 0 {
        a / b
    } else {
        assert(a / b + 1 <= a) by (nonlinear_arith)
            requires
                a % b != 0,
                b > 0,
                a >= 0,
        ;
        a / b + 1
    }
}

/// An ImageFileDirectory representing Image content
// The ordering of these tags matches the sorted order in TIFF spec Appendix A
#[derive(Debug)]
pub struct ImageFileDirectory {
    /// Bits that say what kind of image this is.
    new_subfile_type: Option<u32>,
    /// The number of columns in the image, i.e., the number of pixels per row.
    image_width: u32,
    /// The number of rows of pixels in the image.
    image_height: u32,
    bits_per_sample: Vec<u16>,
    compression: CompressionMethod,
    photometric_interpretation: PhotometricInterpretation,
    document_name: Option<String>,
    image_description: Option<String>,
    strip_offsets: Option<Vec<u32>>,
    orientation: Option<u16>,
    samples_per_pixel: u16,
    rows_per_strip: Option<u32>,
    strip_byte_counts: Option<Vec<u32>>,
    min_sample_value: Option<Vec<u16>>,
    max_sample_value: Option<Vec<u16>>,
    /// Numerator and denominator of the number of pixels per resolution unit across.
    x_resolution: Option<(u32, u32)>,
    /// Numerator and denominator of the number of pixels per resolution unit down.
    y_resolution: Option<(u32, u32)>,
    planar_configuration: PlanarConfiguration,
    resolution_unit: Option<ResolutionUnit>,
    software: Option<String>,
    date_time: Option<String>,
    artist: Option<String>,
    host_computer: Option<String>,
    predictor: Option<Predictor>,
    /// A color map for palette color images: all red values, then all green
    /// values, then all blue values, 2**BitsPerSample of each.
    color_map: Option<Vec<u16>>,
    tile_width: u32,
    tile_height: u32,
    tile_offsets: Vec<u32>,
    tile_byte_counts: Vec<u32>,
    extra_samples: Option<Vec<u8>>,
    sample_format: Vec<SampleFormat>,
    jpeg_tables: Option<Vec<u8>>,
    copyright: Option<String>,
    /// Bit patterns of the pixel sizes in model space.
    model_pixel_scale: Option<Vec<u64>>,
    /// Bit patterns of the raster and model coordinates of the tie points.
    model_tiepoint: Option<Vec<u64>>,
    // Geospatial tags
    geo_key_directory: Option<GeoKeyDirectory>,
    /// Tags without a place of their own, by code, as they were decoded.
    other_tags: HashMap<u16, Value>,
    next_ifd_offset: Option<u32>,
}

impl View for ImageFileDirectory {
    type V = DirectoryView;

    closed spec fn view(&self) -> DirectoryView {
        DirectoryView {
            new_subfile_type: self.new_subfile_type,
            image_width: self.image_width,
            image_height: self.image_height,
            bits_per_sample: self.bits_per_sample@,
            compression: self.compression,
            photometric_interpretation: self.photometric_interpretation,
            document_name: text_of(self.document_name),
            image_description: text_of(self.image_description),
            strip_offsets: seq_of(self.strip_offsets),
            orientation: self.orientation,
            samples_per_pixel: self.samples_per_pixel,
            rows_per_strip: self.rows_per_strip,
            strip_byte_counts: seq_of(self.strip_byte_counts),
            min_sample_value: seq_of(self.min_sample_value),
            max_sample_value: seq_of(self.max_sample_value),
            x_resolution: self.x_resolution,
            y_resolution: self.y_resolution,
            planar_configuration: self.planar_configuration,
            resolution_unit: self.resolution_unit,
            software: text_of(self.software),
            date_time: text_of(self.date_time),
            artist: text_of(self.artist),
            host_computer: text_of(self.host_computer),
            predictor: self.predictor,
            color_map: seq_of(self.color_map),
            tile_width: self.tile_width,
            tile_height: self.tile_height,
            tile_offsets: self.tile_offsets@,
            tile_byte_counts: self.tile_byte_counts@,
            extra_samples: seq_of(self.extra_samples),
            sample_format: self.sample_format@,
            jpeg_tables: seq_of(self.jpeg_tables),
            copyright: text_of(self.copyright),
            model_pixel_scale: seq_of(self.model_pixel_scale),
            model_tiepoint: seq_of(self.model_tiepoint),
            geo_key_directory: match self.geo_key_directory {
                Some(keys) => Some(keys@),
                None => None,
            },
            other_tags: views(self.other_tags@),
            next_ifd_offset: self.next_ifd_offset,
        }
    }
}

impl DirectoryView {
    /// Number of tiles across and down.
    pub open spec fn tile_count(self) -> (int, int) {
        (
            ceil_div(self.image_width as int, self.tile_width as int),
            ceil_div(self.image_height as int, self.tile_height as int),
        )
    }

    /// Whether there is one tile offset and one tile byte count for each tile.
    pub open spec fn tiles_consistent(self) -> bool {
        tiles_consistent(
            self.image_width,
            self.image_height,
            self.tile_width,
            self.tile_height,
            self.tile_offsets.len(),
            self.tile_byte_counts.len(),
        )
    }
}

impl ImageFileDirectory {
    #[verifier::type_invariant]
    spec fn tile_tables_fit(self) -> bool {
        tiles_consistent(
            self.image_width,
            self.image_height,
            self.tile_width,
            self.tile_height,
            self.tile_offsets@.len(),
            self.tile_byte_counts@.len(),
        )
    }

    /// Assembles the image directory that the decoded tags of one node of the
    /// directory chain spell.
    pub fn from_tags(tag_data: HashMap<u16, Value>, next_ifd_offset: Option<u32>) -> (r: Result<
        ImageFileDirectory,
        AiocogeoError,
    >)
        ensures
            match spec_from_tags(views(tag_data@), next_ifd_offset) {
                Ok(directory) => r is Ok && r->Ok_0@ == directory && directory.tiles_consistent(),
                Err(error) => r == Err::<ImageFileDirectory, _>(error),
            },
    {
        let mut tag_data = tag_data;
        let ghost tags = views(tag_data@);
        let new_subfile_type = get_u32(&tag_data, NEW_SUBFILE_TYPE)?;
        let image_width = get_u32(&tag_data, IMAGE_WIDTH)?;
        let image_height = get_u32(&tag_data, IMAGE_LENGTH)?;
        let bits_per_sample = get_u16_vec(&tag_data, BITS_PER_SAMPLE)?;
        let compression = get_u16(&tag_data, COMPRESSION)?;
        let photometric_interpretation = get_u16(&tag_data, PHOTOMETRIC_INTERPRETATION)?;
        let document_name = get_text(&tag_data, DOCUMENT_NAME)?;
        let image_description = get_text(&tag_data, IMAGE_DESCRIPTION)?;
        let strip_offsets = get_u32_vec(&tag_data, STRIP_OFFSETS)?;
        let orientation = get_u16(&tag_data, ORIENTATION)?;
        let samples_per_pixel = get_u16(&tag_data, SAMPLES_PER_PIXEL)?;
        let rows_per_strip = get_u32(&tag_data, ROWS_PER_STRIP)?;
        let strip_byte_counts = get_u32_vec(&tag_data, STRIP_BYTE_COUNTS)?;
        let min_sample_value = get_u16_vec(&tag_data, MIN_SAMPLE_VALUE)?;
        let max_sample_value = get_u16_vec(&tag_data, MAX_SAMPLE_VALUE)?;
        let x_resolution = get_rational(&tag_data, X_RESOLUTION)?;
        let y_resolution = get_rational(&tag_data, Y_RESOLUTION)?;
        let planar_configuration = get_u16(&tag_data, PLANAR_CONFIGURATION)?;
        let resolution_unit = get_u16(&tag_data, RESOLUTION_UNIT)?;
        let software = get_text(&tag_data, SOFTWARE)?;
        let date_time = get_text(&tag_data, DATE_TIME)?;
        let artist = get_text(&tag_data, ARTIST)?;
        let host_computer = get_text(&tag_data, HOST_COMPUTER)?;
        let predictor = get_u16(&tag_data, PREDICTOR)?;
        let color_map = get_u16_vec(&tag_data, COLOR_MAP)?;
        let tile_width = get_u32(&tag_data, TILE_WIDTH)?;
        let tile_height = get_u32(&tag_data, TILE_LENGTH)?;
        let tile_offsets = get_u32_vec(&tag_data, TILE_OFFSETS)?;
        let tile_byte_counts = get_u32_vec(&tag_data, TILE_BYTE_COUNTS)?;
        let extra_samples = get_u8_vec(&tag_data, EXTRA_SAMPLES)?;
        let sample_format = get_u16_vec(&tag_data, SAMPLE_FORMAT)?;
        let jpeg_tables = get_u8_vec(&tag_data, JPEG_TABLES)?;
        let copyright = get_text(&tag_data, COPYRIGHT)?;
        let model_pixel_scale = get_f64_bits_vec(&tag_data, MODEL_PIXEL_SCALE_TAG)?;
        let model_tiepoint = get_f64_bits_vec(&tag_data, MODEL_TIEPOINT_TAG)?;
        let geo_key_directory_data = get_u16_vec(&tag_data, GEO_KEY_DIRECTORY_TAG)?;
        let geo_ascii_params = get_text(&tag_data, GEO_ASCII_PARAMS_TAG)?;
        let geo_double_params = get_f64_bits_vec(&tag_data, GEO_DOUBLE_PARAMS_TAG)?;
        assert(well_typed(tags));
        let (
            image_width,
            image_height,
            bits_per_sample,
            compression,
            photometric_interpretation,
            samples_per_pixel,
            planar_configuration,
            tile_width,
            tile_height,
            tile_offsets,
            tile_byte_counts,
            sample_format,
        ) = match (
            image_width,
            image_height,
            bits_per_sample,
            compression,
            photometric_interpretation,
            samples_per_pixel,
            planar_configuration,
            tile_width,
            tile_height,
            tile_offsets,
            tile_byte_counts,
            sample_format,
        ) {
            (
                Some(image_width),
                Some(image_height),
                Some(bits_per_sample),
                Some(compression),
                Some(photometric_interpretation),
                Some(samples_per_pixel),
                Some(planar_configuration),
                Some(tile_width),
                Some(tile_height),
                Some(tile_offsets),
                Some(tile_byte_counts),
                Some(sample_format),
            ) => (
                image_width,
                image_height,
                bits_per_sample,
                compression,
                photometric_interpretation,
                samples_per_pixel,
                planar_configuration,
                tile_width,
                tile_height,
                tile_offsets,
                tile_byte_counts,
                sample_format,
            ),
            _ => {
                return Err(AiocogeoError::MissingTag);
            },
        };
        assert(complete(tags));
        let predictor = match predictor {
            Some(code) => match Predictor::from_u16(code) {
                Some(predictor) => Some(predictor),
                None => {
                    return Err(AiocogeoError::UnsupportedValue);
                },
            },
            None => None,
        };
        let (compression, photometric_interpretation, planar_configuration) = match (
            CompressionMethod::from_u16(compression),
            PhotometricInterpretation::from_u16(photometric_interpretation),
            PlanarConfiguration::from_u16(planar_configuration),
        ) {
            (Some(compression), Some(photometric), Some(planar)) => (
                compression,
                photometric,
                planar,
            ),
            _ => {
                return Err(AiocogeoError::UnsupportedValue);
            },
        };
        assert(enumerated(tags));
        let resolution_unit = match resolution_unit {
            Some(code) => ResolutionUnit::from_u16(code),
            None => None,
        };
        let sample_format = to_sample_formats(&sample_format);
        if tile_width == 0 || tile_height == 0 {
            return Err(AiocogeoError::InvalidTagEncoding);
        }
        let across = div_ceil(image_width, tile_width) as u64;
        let down = div_ceil(image_height, tile_height) as u64;
        assert(across * down <= 0xffff_ffff * 0xffff_ffff) by (nonlinear_arith)
            requires
                0 <= across <= 0xffff_ffff,
                0 <= down <= 0xffff_ffff,
        ;
        if tile_offsets.len() as u64 != across * down || tile_byte_counts.len()
            != tile_offsets.len() {
            return Err(AiocogeoError::InvalidTagEncoding);
        }
        assert(tiled(tags));
        let geo_key_directory = match &geo_key_directory_data {
            Some(data) => {
                let texts = match &geo_ascii_params {
                    Some(text) => Some(text.as_str()),
                    None => None,
                };
                let doubles = match &geo_double_params {
                    Some(list) => Some(list.as_slice()),
                    None => None,
                };
                Some(GeoKeyDirectory::from_tags(data.as_slice(), texts, doubles)?)
            },
            None => None,
        };
        remove_known(&mut tag_data);
        assert(views(tag_data@) =~= tags.remove_keys(known_tags()));
        let directory = ImageFileDirectory {
            new_subfile_type,
            image_width,
            image_height,
            bits_per_sample,
            compression,
            photometric_interpretation,
            document_name,
            image_description,
            strip_offsets,
            orientation,
            samples_per_pixel,
            rows_per_strip,
            strip_byte_counts,
            min_sample_value,
            max_sample_value,
            x_resolution,
            y_resolution,
            planar_configuration,
            resolution_unit,
            software,
            date_time,
            artist,
            host_computer,
            predictor,
            color_map,
            tile_width,
            tile_height,
            tile_offsets,
            tile_byte_counts,
            extra_samples,
            sample_format,
            jpeg_tables,
            copyright,
            model_pixel_scale,
            model_tiepoint,
            geo_key_directory,
            other_tags: tag_data,
            next_ifd_offset,
        };
        Ok(directory)
    }
}

/// What an image directory is in its file.
#[derive(Debug, Clone, Copy, PartialEq, Eq, Structural)]
pub enum DirectoryKind {
    /// An internal transparency mask.
    Mask,
    /// A copy of the image at reduced resolution.
    Overview,
    /// The image at full resolution.
    FullResolution,
}

/// The 8-bit intensity that the 16-bit intensity `value` of a color map scales to.
pub open spec fn spec_color(value: u16) -> u8 {
    (value * 255 / 65535) as u8
}

impl DirectoryView {
    /// Whether this is an internal transparency mask: subfile type, photometric
    /// interpretation and compression all say so.
    pub open spec fn is_masked(self) -> bool {
        &&& self.new_subfile_type matches Some(subfile_type)
        &&& subfile_type == 1 || subfile_type == 2
        &&& self.photometric_interpretation == PhotometricInterpretation::TransparencyMask
        &&& self.compression == CompressionMethod::Deflate
    }

    /// Whether this is the image at full resolution: it is, unless the subfile
    /// type is there and its lowest bit, for a reduced-resolution copy, is set.
    pub open spec fn is_full_resolution(self) -> bool {
        !(self.new_subfile_type matches Some(subfile_type) && subfile_type % 2 == 1)
    }

    /// Whether a directory counts as a mask and as a reduced-resolution copy at
    /// once. Such a directory is treated as a mask first.
    pub open spec fn is_ambiguous(self) -> bool {
        self.is_masked() && !self.is_full_resolution()
    }

    /// What the directory is: a mask where it counts as one, whatever its
    /// resolution; else an overview unless it is at full resolution.
    pub open spec fn kind(self) -> DirectoryKind {
        if self.is_masked() {
            DirectoryKind::Mask
        } else if !self.is_full_resolution() {
            DirectoryKind::Overview
        } else {
            DirectoryKind::FullResolution
        }
    }

    /// Whether there is a tile in column `x` and row `y` of the tile grid.
    pub open spec fn has_tile(self, x: int, y: int) -> bool {
        0 <= x < self.tile_count().0 && 0 <= y < self.tile_count().1
    }

    /// Where the tile in column `x` and row `y` stands in the tile tables:
    /// tiles are counted row by row, from 0.
    pub open spec fn tile_index(self, x: int, y: int) -> int {
        y * self.tile_count().0 + x
    }

    /// The bytes of the tile in column `x` and row `y`.
    pub open spec fn tile_range(self, x: int, y: int) -> ByteRange {
        ByteRange {
            start: self.tile_offsets[self.tile_index(x, y)] as u64,
            end: (self.tile_offsets[self.tile_index(x, y)] + self.tile_byte_counts[self.tile_index(
                x,
                y,
            )]) as u64,
        }
    }

    /// The map from pixels to world coordinates: pixel scale and tie point
    /// must both be there, the scale with an x and a y, the tie point with a
    /// world x and y.
    pub open spec fn geotransform(self) -> Option<AffineTransform> {
        match (self.model_pixel_scale, self.model_tiepoint) {
            (Some(scale), Some(tiepoint)) => if scale.len() >= 2 && tiepoint.len() >= 5 {
                Some(
                    AffineTransform(
                        scale[0],
                        0,
                        tiepoint[3],
                        0,
                        spec_negated(scale[1]),
                        tiepoint[4],
                    ),
                )
            } else {
                None
            },
            _ => None,
        }
    }

    /// Number of colors of the color map: two to the number of bits of the
    /// first sample, where there is a color map that holds three intensities
    /// for each of them. `None` where there is no such map.
    pub open spec fn color_count(self) -> Option<nat> {
        match self.color_map {
            Some(map) => if self.bits_per_sample.len() > 0 && 3 * pow2(
                self.bits_per_sample[0] as nat,
            ) <= map.len() {
                Some(pow2(self.bits_per_sample[0] as nat))
            } else {
                None
            },
            None => None,
        }
    }

    /// Red, green and blue of color `index` of the color map, 8 bits each.
    pub open spec fn color(self, index: int) -> Seq<u8> {
        let map = self.color_map->Some_0;
        let count = self.color_count()->Some_0 as int;
        seq![
            spec_color(map[index]),
            spec_color(map[index + count]),
            spec_color(map[index + 2 * count]),
        ]
    }
}

/// The 8-bit intensity that the 16-bit intensity `value` of a color map scales to.
pub fn cmap_transform(value: u16) -> (scaled: u8)
    ensures
        scaled == spec_color(value),
{
    (value as u32 * 255 / 65535) as u8
}

/// The number of tiles in a row of tiles is the least that covers the image.
pub proof fn lemma_ceil_div_is_least_cover(a: int, b: int)
    requires
        a >= 0,
        b > 0,
    ensures
        ceil_div(a, b) * b >= a,
        (ceil_div(a, b) - 1) * b < a || a == 0,
        ceil_div(a, b) >= 0,
{
    assert(a == b * (a / b) + a % b && 0 <= a % b < b) by (nonlinear_arith)
        requires
            b > 0,
    ;
    assert(ceil_div(a, b) * b >= a && ((ceil_div(a, b) - 1) * b < a || a == 0) && ceil_div(a, b)
        >= 0) by (nonlinear_arith)
        requires
            a == b * (a / b) + a % b,
            0 <= a % b < b,
            a >= 0,
            b > 0,
            ceil_div(a, b) == if a % b == 0 {
                a / b
            } else {
                a / b + 1
            },
    ;
}

impl ImageFileDirectory {
    pub fn new_subfile_type(&self) -> (r: Option<u32>)
        ensures
            r == self@.new_subfile_type,
    {
        self.new_subfile_type
    }

    pub fn image_width(&self) -> (r: u32)
        ensures
            r == self@.image_width,
    {
        self.image_width
    }

    pub fn image_height(&self) -> (r: u32)
        ensures
            r == self@.image_height,
    {
        self.image_height
    }

    pub fn bits_per_sample(&self) -> (r: &Vec<u16>)
        ensures
            r@ == self@.bits_per_sample,
    {
        &self.bits_per_sample
    }

    pub fn photometric_interpretation(&self) -> (r: PhotometricInterpretation)
        ensures
            r == self@.photometric_interpretation,
    {
        self.photometric_interpretation
    }

    pub fn document_name(&self) -> (r: Option<&String>)
        ensures
            text_of(match r {
                Some(text) => Some(*text),
                None => None,
            }) == self@.document_name,
    {
        self.document_name.as_ref()
    }

    pub fn image_description(&self) -> (r: Option<&String>)
        ensures
            text_of(match r {
                Some(text) => Some(*text),
                None => None,
            }) == self@.image_description,
    {
        self.image_description.as_ref()
    }

    pub fn strip_offsets(&self) -> (r: Option<&Vec<u32>>)
        ensures
            seq_of(match r {
                Some(list) => Some(*list),
                None => None,
            }) == self@.strip_offsets,
    {
        self.strip_offsets.as_ref()
    }

    pub fn orientation(&self) -> (r: Option<u16>)
        ensures
            r == self@.orientation,
    {
        self.orientation
    }

    pub fn samples_per_pixel(&self) -> (r: u16)
        ensures
            r == self@.samples_per_pixel,
    {
        self.samples_per_pixel
    }

    pub fn rows_per_strip(&self) -> (r: Option<u32>)
        ensures
            r == self@.rows_per_strip,
    {
        self.rows_per_strip
    }

    pub fn strip_byte_counts(&self) -> (r: Option<&Vec<u32>>)
        ensures
            seq_of(match r {
                Some(list) => Some(*list),
                None => None,
            }) == self@.strip_byte_counts,
    {
        self.strip_byte_counts.as_ref()
    }

    pub fn min_sample_value(&self) -> (r: Option<&Vec<u16>>)
        ensures
            seq_of(match r {
                Some(list) => Some(*list),
                None => None,
            }) == self@.min_sample_value,
    {
        self.min_sample_value.as_ref()
    }

    pub fn max_sample_value(&self) -> (r: Option<&Vec<u16>>)
        ensures
            seq_of(match r {
                Some(list) => Some(*list),
                None => None,
            }) == self@.max_sample_value,
    {
        self.max_sample_value.as_ref()
    }

    pub fn x_resolution(&self) -> (r: Option<(u32, u32)>)
        ensures
            r == self@.x_resolution,
    {
        self.x_resolution
    }

    pub fn y_resolution(&self) -> (r: Option<(u32, u32)>)
        ensures
            r == self@.y_resolution,
    {
        self.y_resolution
    }

    pub fn planar_configuration(&self) -> (r: PlanarConfiguration)
        ensures
            r == self@.planar_configuration,
    {
        self.planar_configuration
    }

    pub fn resolution_unit(&self) -> (r: Option<ResolutionUnit>)
        ensures
            r == self@.resolution_unit,
    {
        self.resolution_unit
    }

    pub fn software(&self) -> (r: Option<&String>)
        ensures
            text_of(match r {
                Some(text) => Some(*text),
                None => None,
            }) == self@.software,
    {
        self.software.as_ref()
    }

    pub fn date_time(&self) -> (r: Option<&String>)
        ensures
            text_of(match r {
                Some(text) => Some(*text),
                None => None,
            }) == self@.date_time,
    {
        self.date_time.as_ref()
    }

    pub fn artist(&self) -> (r: Option<&String>)
        ensures
            text_of(match r {
                Some(text) => Some(*text),
                None => None,
            }) == self@.artist,
    {
        self.artist.as_ref()
    }

    pub fn host_computer(&self) -> (r: Option<&String>)
        ensures
            text_of(match r {
                Some(text) => Some(*text),
                None => None,
            }) == self@.host_computer,
    {
        self.host_computer.as_ref()
    }

    pub fn predictor(&self) -> (r: Option<Predictor>)
        ensures
            r == self@.predictor,
    {
        self.predictor
    }

    pub fn color_map(&self) -> (r: Option<&Vec<u16>>)
        ensures
            seq_of(match r {
                Some(list) => Some(*list),
                None => None,
            }) == self@.color_map,
    {
        self.color_map.as_ref()
    }

    pub fn tile_width(&self) -> (r: u32)
        ensures
            r == self@.tile_width,
    {
        self.tile_width
    }

    pub fn tile_height(&self) -> (r: u32)
        ensures
            r == self@.tile_height,
    {
        self.tile_height
    }

    pub fn tile_offsets(&self) -> (r: &Vec<u32>)
        ensures
            r@ == self@.tile_offsets,
    {
        &self.tile_offsets
    }

    pub fn tile_byte_counts(&self) -> (r: &Vec<u32>)
        ensures
            r@ == self@.tile_byte_counts,
    {
        &self.tile_byte_counts
    }

    pub fn extra_samples(&self) -> (r: Option<&Vec<u8>>)
        ensures
            seq_of(match r {
                Some(list) => Some(*list),
                None => None,
            }) == self@.extra_samples,
    {
        self.extra_samples.as_ref()
    }

    pub fn sample_format(&self) -> (r: &Vec<SampleFormat>)
        ensures
            r@ == self@.sample_format,
    {
        &self.sample_format
    }

    pub fn jpeg_tables(&self) -> (r: Option<&Vec<u8>>)
        ensures
            seq_of(match r {
                Some(list) => Some(*list),
                None => None,
            }) == self@.jpeg_tables,
    {
        self.jpeg_tables.as_ref()
    }

    pub fn copyright(&self) -> (r: Option<&String>)
        ensures
            text_of(match r {
                Some(text) => Some(*text),
                None => None,
            }) == self@.copyright,
    {
        self.copyright.as_ref()
    }

    pub fn model_pixel_scale(&self) -> (r: Option<&Vec<u64>>)
        ensures
            seq_of(match r {
                Some(list) => Some(*list),
                None => None,
            }) == self@.model_pixel_scale,
    {
        self.model_pixel_scale.as_ref()
    }

    pub fn model_tiepoint(&self) -> (r: Option<&Vec<u64>>)
        ensures
            seq_of(match r {
                Some(list) => Some(*list),
                None => None,
            }) == self@.model_tiepoint,
    {
        self.model_tiepoint.as_ref()
    }

    pub fn geo_key_directory(&self) -> (r: Option<&GeoKeyDirectory>)
        ensures
            match r {
                Some(keys) => self@.geo_key_directory == Some(keys@),
                None => self@.geo_key_directory is None,
            },
    {
        self.geo_key_directory.as_ref()
    }

    /// The tags without a place of their own, by code.
    pub fn other_tags(&self) -> (r: &HashMap<u16, Value>)
        ensures
            views(r@) == self@.other_tags,
    {
        &self.other_tags
    }

    pub fn next_ifd_offset(&self) -> (r: Option<u32>)
        ensures
            r == self@.next_ifd_offset,
    {
        self.next_ifd_offset
    }

    /// Check if an IFD is masked based on a dictionary of tiff tags
    pub fn is_masked(&self) -> (masked: bool)
        ensures
            masked == self@.is_masked(),
    {
        match self.new_subfile_type {
            Some(subfile_type) => (subfile_type == 1 || subfile_type == 2) && matches!(
                self.photometric_interpretation,
                PhotometricInterpretation::TransparencyMask
            ) && matches!(self.compression, CompressionMethod::Deflate),
            None => false,
        }
    }

    /// Whether this directory counts as a mask and as a reduced-resolution copy
    /// at once, so that a caller may look at the file more closely.
    pub fn is_ambiguous(&self) -> (ambiguous: bool)
        ensures
            ambiguous == self@.is_ambiguous(),
    {
        self.is_masked() && !self.is_full_resolution()
    }

    /// What the directory is in its file. A directory that counts as a mask
    /// and as a reduced-resolution copy at once is a mask.
    pub fn kind(&self) -> (kind: DirectoryKind)
        ensures
            kind == self@.kind(),
    {
        if self.is_masked() {
            DirectoryKind::Mask
        } else if !self.is_full_resolution() {
            DirectoryKind::Overview
        } else {
            DirectoryKind::FullResolution
        }
    }

    /// Construct colormap from colormap tag
    pub fn colormap(&self) -> (colors: Option<HashMap<usize, [u8; 3]>>)
        ensures
            match self@.color_count() {
                Some(count) => colors is Some && colors->Some_0@.dom() =~= Set::new(
                    |index: usize| index < count,
                ) && forall|index: usize|
                    index < count ==> (#[trigger] colors->Some_0@[index])@ == self@.color(
                        index as int,
                    ),
                None => colors is None,
            },
    {
        let cmap_data = match &self.color_map {
            Some(cmap_data) => cmap_data,
            None => {
                return None;
            },
        };
        if self.bits_per_sample.len() == 0 {
            return None;
        }
        let bits_per_sample = self.bits_per_sample[0];
        let len = cmap_data.len();
        let mut count: usize = 1;
        let mut k: u16 = 0;
        proof {
            lemma2_to64();
        }
        while k < bits_per_sample
            invariant
                k <= bits_per_sample,
                count == pow2(k as nat),
                count <= len || k == 0,
                len == cmap_data@.len(),
                self@.color_map == Some(cmap_data@),
                self@.bits_per_sample.len() > 0,
                bits_per_sample == self@.bits_per_sample[0],
            decreases bits_per_sample - k,
        {
            proof {
                lemma_pow2_unfold((k + 1) as nat);
                if k + 1 < bits_per_sample {
                    lemma_pow2_strictly_increases((k + 1) as nat, bits_per_sample as nat);
                }
            }
            if count > len / 2 {
                assert(pow2(bits_per_sample as nat) >= 2 * count);
                assert(3 * pow2(bits_per_sample as nat) > len);
                return None;
            }
            count = count * 2;
            k += 1;
        }
        if count > len / 3 {
            return None;
        }
        let mut result: HashMap<usize, [u8; 3]> = HashMap::new();
        let mut idx: usize = 0;
        while idx < count
            invariant
                idx <= count,
                3 * count <= cmap_data@.len(),
                cmap_data@.len() <= usize::MAX,
                self@.color_count() == Some(count as nat),
                self@.color_map == Some(cmap_data@),
                result@.dom() =~= Set::new(|index: usize| index < idx),
                forall|index: usize|
                    index < idx ==> (#[trigger] result@[index])@ == self@.color(index as int),
            decreases count - idx,
        {
            let color: [u8; 3] = [
                cmap_transform(cmap_data[idx]),
                cmap_transform(cmap_data[idx + count]),
                cmap_transform(cmap_data[idx + 2 * count]),
            ];
            assert(color@ =~= self@.color(idx as int));
            result.insert(idx, color);
            idx += 1;
        }
        Some(result)
    }

    pub fn compression(&self) -> (r: CompressionMethod)
        ensures
            r == self@.compression,
    {
        self.compression
    }

    pub fn bands(&self) -> (r: u16)
        ensures
            r == self@.samples_per_pixel,
    {
        self.samples_per_pixel
    }

    pub fn has_extra_samples(&self) -> (r: bool)
        ensures
            r == self@.extra_samples is Some,
    {
        self.extra_samples.is_some()
    }

    /// Return the interleave of the IFD
    pub fn interleave(&self) -> (r: PlanarConfiguration)
        ensures
            r == self@.planar_configuration,
    {
        self.planar_configuration
    }

    /// Returns true if this IFD contains a full resolution image (not an overview)
    pub fn is_full_resolution(&self) -> (full: bool)
        ensures
            full == self@.is_full_resolution(),
    {
        match self.new_subfile_type {
            Some(subfile_type) => subfile_type % 2 != 1,
            None => true,
        }
    }

    /// The byte range of the tile in column `x` and row `y` of the tile grid:
    /// what has to be fetched, and handed to the decoder of the directory's
    /// compression method, for the pixels of that tile.
    pub fn get_tile(&self, x: usize, y: usize) -> (r: Result<ByteRange, AiocogeoError>)
        ensures
            self@.tiles_consistent(),
            self@.has_tile(x as int, y as int) ==> r == Ok::<_, AiocogeoError>(
                self@.tile_range(x as int, y as int),
            ),
            !self@.has_tile(x as int, y as int) ==> r == Err::<ByteRange, _>(
                AiocogeoError::OutOfRange,
            ),
    {
        let (across, down) = self.tile_count();
        if x >= across || y >= down {
            return Err(AiocogeoError::OutOfRange);
        }
        let idx = self.tile_index(x, y);
        let offset = self.tile_offsets[idx] as u64;
        let byte_count = self.tile_byte_counts[idx] as u64;
        Ok(ByteRange { start: offset, end: offset + byte_count })
    }

    /// Return the number of x/y tiles in the IFD
    pub fn tile_count(&self) -> (count: (usize, usize))
        ensures
            self@.tiles_consistent(),
            count.0 == self@.tile_count().0,
            count.1 == self@.tile_count().1,
    {
        proof {
            use_type_invariant(self);
        }
        (
            div_ceil(self.image_width, self.tile_width) as usize,
            div_ceil(self.image_height, self.tile_height) as usize,
        )
    }

    /// Where the tile in column `x` and row `y` of the tile grid stands in the
    /// tile tables.
    pub fn tile_index(&self, x: usize, y: usize) -> (index: usize)
        requires
            self@.has_tile(x as int, y as int),
        ensures
            index == self@.tile_index(x as int, y as int),
            index < self@.tile_offsets.len(),
            index < self@.tile_byte_counts.len(),
    {
        proof {
            use_type_invariant(self);
        }
        let (across, down) = self.tile_count();
        let tiles = self.tile_offsets.len();
        assert(0 <= y * across && y * across + x < across * down) by (nonlinear_arith)
            requires
                0 <= x < across,
                0 <= y < down,
        ;
        y * across + x
    }

    /// Return the geotransform of the image
    ///
    /// This does not yet implement decimation
    pub fn geotransform(&self) -> (transform: Option<AffineTransform>)
        ensures
            transform == self@.geotransform(),
    {
        match (&self.model_pixel_scale, &self.model_tiepoint) {
            (Some(model_pixel_scale), Some(model_tiepoint)) => {
                if model_pixel_scale.len() >= 2 && model_tiepoint.len() >= 5 {
                    Some(
                        AffineTransform::new(
                            model_pixel_scale[0],
                            0,
                            model_tiepoint[3],
                            0,
                            negated(model_pixel_scale[1]),
                            model_tiepoint[4],
                        ),
                    )
                } else {
                    None
                }
            },
            _ => None,
        }
    }
}

} // verus!

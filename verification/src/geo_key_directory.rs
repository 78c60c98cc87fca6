use crate::error::AiocogeoError;
use crate::tag::{GEO_ASCII_PARAMS_TAG, GEO_DOUBLE_PARAMS_TAG};
use crate::value::{all_seven_bit, lemma_seven_bit_is_utf8, string_from_utf8};
use std::collections::HashMap;
use vstd::prelude::*;
use vstd::slice::{slice_subrange, slice_to_vec};
use vstd::utf8::{decode_utf8, encode_utf8, is_ascii_chars, is_ascii_chars_encode_utf8, valid_utf8};

verus! {

broadcast use vstd::std_specs::hash::group_hash_axioms;

/// The keys of a GeoKey directory.
#[derive(Clone, Copy, Debug, PartialEq, Eq, Hash, Structural)]
pub enum GeoKeyTag {
    // GeoTIFF configuration keys
    ModelType,
    RasterType,
    Citation,

    // Geodetic CRS parameter keys
    GeographicType,
    GeogCitation,
    GeogGeodeticDatum,
    GeogPrimeMeridian,
    GeogLinearUnits,
    GeogLinearUnitSize,
    GeogAngularUnits,
    GeogAngularUnitSize,
    GeogEllipsoid,
    GeogSemiMajorAxis,
    GeogSemiMinorAxis,
    GeogInvFlattening,
    GeogAzimuthUnits,
    GeogPrimeMeridianLong,

    // Projected CRS parameter keys
    ProjectedType,
    ProjCitation,
    Projection,
    ProjCoordTrans,
    ProjLinearUnits,
    ProjLinearUnitSize,
    ProjStdParallel1,
    ProjStdParallel2,
    ProjNatOriginLong,
    ProjNatOriginLat,
    ProjFalseEasting,
    ProjFalseNorthing,
    ProjFalseOriginLong,
    ProjFalseOriginLat,
    ProjFalseOriginEasting,
    ProjFalseOriginNorthing,
    ProjCenterLong,
    ProjCenterLat,
    ProjCenterEasting,
    ProjCenterNorthing,
    ProjScaleAtNatOrigin,
    ProjScaleAtCenter,
    ProjAzimuthAngle,
    ProjStraightVertPoleLong,

    // Vertical CRS parameter keys
    Vertical,
    VerticalCitation,
    VerticalDatum,
    VerticalUnits,
}

/// The type of the value of a GeoKey. It goes with the key, whatever the
/// record of the key says.
#[derive(Clone, Copy, Debug, PartialEq, Eq, Structural)]
pub enum GeoKeyKind {
    Short,
    Double,
    Ascii,
}

impl GeoKeyTag {
    /// The key that the id `id` stands for, if any.
    pub open spec fn spec_from_code(id: u16) -> Option<GeoKeyTag> {
        match id {
            1024 => Some(GeoKeyTag::ModelType),
            1025 => Some(GeoKeyTag::RasterType),
            1026 => Some(GeoKeyTag::Citation),
            2048 => Some(GeoKeyTag::GeographicType),
            2049 => Some(GeoKeyTag::GeogCitation),
            2050 => Some(GeoKeyTag::GeogGeodeticDatum),
            2051 => Some(GeoKeyTag::GeogPrimeMeridian),
            2052 => Some(GeoKeyTag::GeogLinearUnits),
            2053 => Some(GeoKeyTag::GeogLinearUnitSize),
            2054 => Some(GeoKeyTag::GeogAngularUnits),
            2055 => Some(GeoKeyTag::GeogAngularUnitSize),
            2056 => Some(GeoKeyTag::GeogEllipsoid),
            2057 => Some(GeoKeyTag::GeogSemiMajorAxis),
            2058 => Some(GeoKeyTag::GeogSemiMinorAxis),
            2059 => Some(GeoKeyTag::GeogInvFlattening),
            2060 => Some(GeoKeyTag::GeogAzimuthUnits),
            2061 => Some(GeoKeyTag::GeogPrimeMeridianLong),
            3072 => Some(GeoKeyTag::ProjectedType),
            3073 => Some(GeoKeyTag::ProjCitation),
            3074 => Some(GeoKeyTag::Projection),
            3075 => Some(GeoKeyTag::ProjCoordTrans),
            3076 => Some(GeoKeyTag::ProjLinearUnits),
            3077 => Some(GeoKeyTag::ProjLinearUnitSize),
            3078 => Some(GeoKeyTag::ProjStdParallel1),
            3079 => Some(GeoKeyTag::ProjStdParallel2),
            3080 => Some(GeoKeyTag::ProjNatOriginLong),
            3081 => Some(GeoKeyTag::ProjNatOriginLat),
            3082 => Some(GeoKeyTag::ProjFalseEasting),
            3083 => Some(GeoKeyTag::ProjFalseNorthing),
            3084 => Some(GeoKeyTag::ProjFalseOriginLong),
            3085 => Some(GeoKeyTag::ProjFalseOriginLat),
            3086 => Some(GeoKeyTag::ProjFalseOriginEasting),
            3087 => Some(GeoKeyTag::ProjFalseOriginNorthing),
            3088 => Some(GeoKeyTag::ProjCenterLong),
            3089 => Some(GeoKeyTag::ProjCenterLat),
            3090 => Some(GeoKeyTag::ProjCenterEasting),
            3091 => Some(GeoKeyTag::ProjCenterNorthing),
            3092 => Some(GeoKeyTag::ProjScaleAtNatOrigin),
            3093 => Some(GeoKeyTag::ProjScaleAtCenter),
            3094 => Some(GeoKeyTag::ProjAzimuthAngle),
            3095 => Some(GeoKeyTag::ProjStraightVertPoleLong),
            4096 => Some(GeoKeyTag::Vertical),
            4097 => Some(GeoKeyTag::VerticalCitation),
            4098 => Some(GeoKeyTag::VerticalDatum),
            4099 => Some(GeoKeyTag::VerticalUnits),
            _ => None,
        }
    }

    /// The id of this key.
    pub open spec fn spec_code(self) -> u16 {
        match self {
            GeoKeyTag::ModelType => 1024,
            GeoKeyTag::RasterType => 1025,
            GeoKeyTag::Citation => 1026,
            GeoKeyTag::GeographicType => 2048,
            GeoKeyTag::GeogCitation => 2049,
            GeoKeyTag::GeogGeodeticDatum => 2050,
            GeoKeyTag::GeogPrimeMeridian => 2051,
            GeoKeyTag::GeogLinearUnits => 2052,
            GeoKeyTag::GeogLinearUnitSize => 2053,
            GeoKeyTag::GeogAngularUnits => 2054,
            GeoKeyTag::GeogAngularUnitSize => 2055,
            GeoKeyTag::GeogEllipsoid => 2056,
            GeoKeyTag::GeogSemiMajorAxis => 2057,
            GeoKeyTag::GeogSemiMinorAxis => 2058,
            GeoKeyTag::GeogInvFlattening => 2059,
            GeoKeyTag::GeogAzimuthUnits => 2060,
            GeoKeyTag::GeogPrimeMeridianLong => 2061,
            GeoKeyTag::ProjectedType => 3072,
            GeoKeyTag::ProjCitation => 3073,
            GeoKeyTag::Projection => 3074,
            GeoKeyTag::ProjCoordTrans => 3075,
            GeoKeyTag::ProjLinearUnits => 3076,
            GeoKeyTag::ProjLinearUnitSize => 3077,
            GeoKeyTag::ProjStdParallel1 => 3078,
            GeoKeyTag::ProjStdParallel2 => 3079,
            GeoKeyTag::ProjNatOriginLong => 3080,
            GeoKeyTag::ProjNatOriginLat => 3081,
            GeoKeyTag::ProjFalseEasting => 3082,
            GeoKeyTag::ProjFalseNorthing => 3083,
            GeoKeyTag::ProjFalseOriginLong => 3084,
            GeoKeyTag::ProjFalseOriginLat => 3085,
            GeoKeyTag::ProjFalseOriginEasting => 3086,
            GeoKeyTag::ProjFalseOriginNorthing => 3087,
            GeoKeyTag::ProjCenterLong => 3088,
            GeoKeyTag::ProjCenterLat => 3089,
            GeoKeyTag::ProjCenterEasting => 3090,
            GeoKeyTag::ProjCenterNorthing => 3091,
            GeoKeyTag::ProjScaleAtNatOrigin => 3092,
            GeoKeyTag::ProjScaleAtCenter => 3093,
            GeoKeyTag::ProjAzimuthAngle => 3094,
            GeoKeyTag::ProjStraightVertPoleLong => 3095,
            GeoKeyTag::Vertical => 4096,
            GeoKeyTag::VerticalCitation => 4097,
            GeoKeyTag::VerticalDatum => 4098,
            GeoKeyTag::VerticalUnits => 4099,
        }
    }

    /// The type of this key's value.
    pub open spec fn spec_kind(self) -> GeoKeyKind {
        match self {
            GeoKeyTag::ModelType
            | GeoKeyTag::RasterType
            | GeoKeyTag::GeographicType
            | GeoKeyTag::GeogGeodeticDatum
            | GeoKeyTag::GeogPrimeMeridian
            | GeoKeyTag::GeogLinearUnits
            | GeoKeyTag::GeogAngularUnits
            | GeoKeyTag::GeogEllipsoid
            | GeoKeyTag::GeogAzimuthUnits
            | GeoKeyTag::ProjectedType
            | GeoKeyTag::Projection
            | GeoKeyTag::ProjCoordTrans
            | GeoKeyTag::ProjLinearUnits
            | GeoKeyTag::Vertical
            | GeoKeyTag::VerticalDatum
            | GeoKeyTag::VerticalUnits => GeoKeyKind::Short,
            GeoKeyTag::Citation
            | GeoKeyTag::GeogCitation
            | GeoKeyTag::ProjCitation
            | GeoKeyTag::VerticalCitation => GeoKeyKind::Ascii,
            _ => GeoKeyKind::Double,
        }
    }

    pub fn from_code(id: u16) -> (key: Option<GeoKeyTag>)
        ensures
            key == GeoKeyTag::spec_from_code(id),
    {
        match id {
            1024 => Some(GeoKeyTag::ModelType),
            1025 => Some(GeoKeyTag::RasterType),
            1026 => Some(GeoKeyTag::Citation),
            2048 => Some(GeoKeyTag::GeographicType),
            2049 => Some(GeoKeyTag::GeogCitation),
            2050 => Some(GeoKeyTag::GeogGeodeticDatum),
            2051 => Some(GeoKeyTag::GeogPrimeMeridian),
            2052 => Some(GeoKeyTag::GeogLinearUnits),
            2053 => Some(GeoKeyTag::GeogLinearUnitSize),
            2054 => Some(GeoKeyTag::GeogAngularUnits),
            2055 => Some(GeoKeyTag::GeogAngularUnitSize),
            2056 => Some(GeoKeyTag::GeogEllipsoid),
            2057 => Some(GeoKeyTag::GeogSemiMajorAxis),
            2058 => Some(GeoKeyTag::GeogSemiMinorAxis),
            2059 => Some(GeoKeyTag::GeogInvFlattening),
            2060 => Some(GeoKeyTag::GeogAzimuthUnits),
            2061 => Some(GeoKeyTag::GeogPrimeMeridianLong),
            3072 => Some(GeoKeyTag::ProjectedType),
            3073 => Some(GeoKeyTag::ProjCitation),
            3074 => Some(GeoKeyTag::Projection),
            3075 => Some(GeoKeyTag::ProjCoordTrans),
            3076 => Some(GeoKeyTag::ProjLinearUnits),
            3077 => Some(GeoKeyTag::ProjLinearUnitSize),
            3078 => Some(GeoKeyTag::ProjStdParallel1),
            3079 => Some(GeoKeyTag::ProjStdParallel2),
            3080 => Some(GeoKeyTag::ProjNatOriginLong),
            3081 => Some(GeoKeyTag::ProjNatOriginLat),
            3082 => Some(GeoKeyTag::ProjFalseEasting),
            3083 => Some(GeoKeyTag::ProjFalseNorthing),
            3084 => Some(GeoKeyTag::ProjFalseOriginLong),
            3085 => Some(GeoKeyTag::ProjFalseOriginLat),
            3086 => Some(GeoKeyTag::ProjFalseOriginEasting),
            3087 => Some(GeoKeyTag::ProjFalseOriginNorthing),
            3088 => Some(GeoKeyTag::ProjCenterLong),
            3089 => Some(GeoKeyTag::ProjCenterLat),
            3090 => Some(GeoKeyTag::ProjCenterEasting),
            3091 => Some(GeoKeyTag::ProjCenterNorthing),
            3092 => Some(GeoKeyTag::ProjScaleAtNatOrigin),
            3093 => Some(GeoKeyTag::ProjScaleAtCenter),
            3094 => Some(GeoKeyTag::ProjAzimuthAngle),
            3095 => Some(GeoKeyTag::ProjStraightVertPoleLong),
            4096 => Some(GeoKeyTag::Vertical),
            4097 => Some(GeoKeyTag::VerticalCitation),
            4098 => Some(GeoKeyTag::VerticalDatum),
            4099 => Some(GeoKeyTag::VerticalUnits),
            _ => None,
        }
    }

    pub fn code(&self) -> (id: u16)
        ensures
            id == self.spec_code(),
            GeoKeyTag::spec_from_code(id) == Some(*self),
    {
        match self {
            GeoKeyTag::ModelType => 1024,
            GeoKeyTag::RasterType => 1025,
            GeoKeyTag::Citation => 1026,
            GeoKeyTag::GeographicType => 2048,
            GeoKeyTag::GeogCitation => 2049,
            GeoKeyTag::GeogGeodeticDatum => 2050,
            GeoKeyTag::GeogPrimeMeridian => 2051,
            GeoKeyTag::GeogLinearUnits => 2052,
            GeoKeyTag::GeogLinearUnitSize => 2053,
            GeoKeyTag::GeogAngularUnits => 2054,
            GeoKeyTag::GeogAngularUnitSize => 2055,
            GeoKeyTag::GeogEllipsoid => 2056,
            GeoKeyTag::GeogSemiMajorAxis => 2057,
            GeoKeyTag::GeogSemiMinorAxis => 2058,
            GeoKeyTag::GeogInvFlattening => 2059,
            GeoKeyTag::GeogAzimuthUnits => 2060,
            GeoKeyTag::GeogPrimeMeridianLong => 2061,
            GeoKeyTag::ProjectedType => 3072,
            GeoKeyTag::ProjCitation => 3073,
            GeoKeyTag::Projection => 3074,
            GeoKeyTag::ProjCoordTrans => 3075,
            GeoKeyTag::ProjLinearUnits => 3076,
            GeoKeyTag::ProjLinearUnitSize => 3077,
            GeoKeyTag::ProjStdParallel1 => 3078,
            GeoKeyTag::ProjStdParallel2 => 3079,
            GeoKeyTag::ProjNatOriginLong => 3080,
            GeoKeyTag::ProjNatOriginLat => 3081,
            GeoKeyTag::ProjFalseEasting => 3082,
            GeoKeyTag::ProjFalseNorthing => 3083,
            GeoKeyTag::ProjFalseOriginLong => 3084,
            GeoKeyTag::ProjFalseOriginLat => 3085,
            GeoKeyTag::ProjFalseOriginEasting => 3086,
            GeoKeyTag::ProjFalseOriginNorthing => 3087,
            GeoKeyTag::ProjCenterLong => 3088,
            GeoKeyTag::ProjCenterLat => 3089,
            GeoKeyTag::ProjCenterEasting => 3090,
            GeoKeyTag::ProjCenterNorthing => 3091,
            GeoKeyTag::ProjScaleAtNatOrigin => 3092,
            GeoKeyTag::ProjScaleAtCenter => 3093,
            GeoKeyTag::ProjAzimuthAngle => 3094,
            GeoKeyTag::ProjStraightVertPoleLong => 3095,
            GeoKeyTag::Vertical => 4096,
            GeoKeyTag::VerticalCitation => 4097,
            GeoKeyTag::VerticalDatum => 4098,
            GeoKeyTag::VerticalUnits => 4099,
        }
    }

    pub fn kind(&self) -> (kind: GeoKeyKind)
        ensures
            kind == self.spec_kind(),
    {
        match self {
            GeoKeyTag::ModelType
            | GeoKeyTag::RasterType
            | GeoKeyTag::GeographicType
            | GeoKeyTag::GeogGeodeticDatum
            | GeoKeyTag::GeogPrimeMeridian
            | GeoKeyTag::GeogLinearUnits
            | GeoKeyTag::GeogAngularUnits
            | GeoKeyTag::GeogEllipsoid
            | GeoKeyTag::GeogAzimuthUnits
            | GeoKeyTag::ProjectedType
            | GeoKeyTag::Projection
            | GeoKeyTag::ProjCoordTrans
            | GeoKeyTag::ProjLinearUnits
            | GeoKeyTag::Vertical
            | GeoKeyTag::VerticalDatum
            | GeoKeyTag::VerticalUnits => GeoKeyKind::Short,
            GeoKeyTag::Citation
            | GeoKeyTag::GeogCitation
            | GeoKeyTag::ProjCitation
            | GeoKeyTag::VerticalCitation => GeoKeyKind::Ascii,
            _ => GeoKeyKind::Double,
        }
    }
}

/// The type of the value of the key with id `id`, if there is such a key.
pub open spec fn kind_of(id: u16) -> Option<GeoKeyKind> {
    match GeoKeyTag::spec_from_code(id) {
        Some(key) => Some(key.spec_kind()),
        None => None,
    }
}

/// A GeoKey directory as mathematics: the values of its keys, by key id and by
/// type. A floating-point value is its IEEE 754 bit pattern.
pub struct GeoKeysView {
    pub shorts: Map<u16, u16>,
    pub doubles: Map<u16, u64>,
    pub texts: Map<u16, Seq<char>>,
}

impl GeoKeysView {
    /// The directory without any key.
    pub open spec fn empty() -> GeoKeysView {
        GeoKeysView { shorts: Map::empty(), doubles: Map::empty(), texts: Map::empty() }
    }

    /// Whether each key holds a value of the key's own type.
    pub open spec fn well_typed(self) -> bool {
        &&& forall|id: u16| #[trigger]
            self.shorts.contains_key(id) ==> kind_of(id) == Some(GeoKeyKind::Short)
        &&& forall|id: u16| #[trigger]
            self.doubles.contains_key(id) ==> kind_of(id) == Some(GeoKeyKind::Double)
        &&& forall|id: u16| #[trigger]
            self.texts.contains_key(id) ==> kind_of(id) == Some(GeoKeyKind::Ascii)
    }

    /// The EPSG code of the coordinate reference system: that of the projected
    /// system where the directory names one, else that of the geographic one.
    pub open spec fn epsg_code(self) -> Option<u16> {
        if self.shorts.contains_key(GeoKeyTag::ProjectedType.spec_code()) {
            Some(self.shorts[GeoKeyTag::ProjectedType.spec_code()])
        } else if self.shorts.contains_key(GeoKeyTag::GeographicType.spec_code()) {
            Some(self.shorts[GeoKeyTag::GeographicType.spec_code()])
        } else {
            None
        }
    }
}

/// The four numbers of the `i`-th key record of the directory `data`:
/// key id, location, count, and value or offset.
pub open spec fn key_record(data: Seq<u16>, i: int) -> (u16, u16, u16, u16) {
    (data[4 + 4 * i], data[5 + 4 * i], data[6 + 4 * i], data[7 + 4 * i])
}

/// The text that the bytes `bytes` of the text parameters hold from `offset`
/// on, `count` bytes long, without the one separator `|` that may end it.
/// `None` where the parameters are shorter, or where what is cut out is not a
/// text of its own.
pub open spec fn spec_text_param(bytes: Seq<u8>, offset: u16, count: u16) -> Option<Seq<char>> {
    if offset + count > bytes.len() {
        None
    } else {
        let part = bytes.subrange(offset as int, offset + count);
        let text = if part.len() > 0 && part.last() == 0x7c {
            part.drop_last()
        } else {
            part
        };
        if valid_utf8(text) {
            Some(decode_utf8(text))
        } else {
            None
        }
    }
}

/// The directory `keys` after one more key record `record`.
///
/// A record with location 0 holds a short itself. One that names the tag of
/// the text parameters holds a piece of `texts`, one that names the tag of the
/// floating-point parameters holds the one number of `doubles` at its offset.
/// A record with any other location is passed over. A later record of a key
/// replaces an earlier one.
pub open spec fn spec_apply_record(
    keys: GeoKeysView,
    record: (u16, u16, u16, u16),
    texts: Option<Seq<char>>,
    doubles: Option<Seq<u64>>,
) -> Result<GeoKeysView, AiocogeoError> {
    let (id, location, count, value) = record;
    match kind_of(id) {
        None => Err(AiocogeoError::UnsupportedGeoKey),
        Some(kind) => if location == 0 {
            if kind == GeoKeyKind::Short {
                Ok(GeoKeysView { shorts: keys.shorts.insert(id, value), ..keys })
            } else {
                Err(AiocogeoError::InvalidGeoKeyDirectory)
            }
        } else if location == GEO_ASCII_PARAMS_TAG {
            if kind == GeoKeyKind::Ascii && texts is Some && spec_text_param(
                encode_utf8(texts.unwrap()),
                value,
                count,
            ) is Some {
                Ok(
                    GeoKeysView {
                        texts: keys.texts.insert(
                            id,
                            spec_text_param(encode_utf8(texts.unwrap()), value, count).unwrap(),
                        ),
                        ..keys
                    },
                )
            } else {
                Err(AiocogeoError::InvalidGeoKeyDirectory)
            }
        } else if location == GEO_DOUBLE_PARAMS_TAG {
            if kind == GeoKeyKind::Double && doubles is Some && count == 1 && value
                < doubles.unwrap().len() {
                Ok(
                    GeoKeysView {
                        doubles: keys.doubles.insert(id, doubles.unwrap()[value as int]),
                        ..keys
                    },
                )
            } else {
                Err(AiocogeoError::InvalidGeoKeyDirectory)
            }
        } else {
            Ok(keys)
        },
    }
}

/// The directory that the first `n` key records of `data` give, or the error
/// of the first record among them that is refused.
pub open spec fn spec_keys(
    data: Seq<u16>,
    n: nat,
    texts: Option<Seq<char>>,
    doubles: Option<Seq<u64>>,
) -> Result<GeoKeysView, AiocogeoError>
    decreases n,
{
    if n == 0 {
        Ok(GeoKeysView::empty())
    } else {
        match spec_keys(data, (n - 1) as nat, texts, doubles) {
            Ok(keys) => spec_apply_record(keys, key_record(data, n - 1), texts, doubles),
            Err(error) => Err(error),
        }
    }
}

/// What the three GeoKey tags of an image directory decode to: `data` is the
/// value of the directory tag, `texts` and `doubles` those of the two
/// parameter tags, where the image directory has them.
///
/// The first four numbers of `data` are version, key revision, minor revision
/// and number of keys. Version and key revision must be 1, and `data` must
/// hold four numbers for each key.
pub open spec fn spec_geo_keys(
    data: Seq<u16>,
    texts: Option<Seq<char>>,
    doubles: Option<Seq<u64>>,
) -> Result<GeoKeysView, AiocogeoError> {
    if data.len() < 4 {
        Err(AiocogeoError::InvalidGeoKeyDirectory)
    } else if data[0] != 1 || data[1] != 1 {
        Err(AiocogeoError::UnsupportedFormat)
    } else if data.len() < 4 + 4 * data[3] {
        Err(AiocogeoError::InvalidGeoKeyDirectory)
    } else {
        spec_keys(data, data[3] as nat, texts, doubles)
    }
}

/// The piece of `params` from `offset` on, `count` characters long, without
/// the one separator `|` that may end it.
pub open spec fn text_piece(params: Seq<char>, offset: u16, count: u16) -> Seq<char> {
    let part = params.subrange(offset as int, offset + count);
    if part.len() > 0 && part.last() == '|' {
        part.drop_last()
    } else {
        part
    }
}

/// Of text parameters that are 7-bit characters all, the text of a key is a
/// piece of the parameters themselves, character by character.
pub proof fn lemma_text_param_of_seven_bit_text(params: Seq<char>, offset: u16, count: u16)
    requires
        is_ascii_chars(params),
    ensures
        spec_text_param(encode_utf8(params), offset, count) == if offset + count <= params.len() {
            Some(text_piece(params, offset, count))
        } else {
            None
        },
{
    is_ascii_chars_encode_utf8(params);
    let bytes = encode_utf8(params);
    if offset + count <= params.len() {
        let part = bytes.subrange(offset as int, offset + count);
        let chars = params.subrange(offset as int, offset + count);
        assert forall|i: int| 0 <= i < part.len() implies #[trigger] part[i] == chars[i] as u8
            && part[i] < 0x80 && part[i] as char == chars[i] by {
            assert(part[i] == bytes[offset + i]);
            assert(chars[i] == params[offset + i]);
        }
        let text = if part.len() > 0 && part.last() == 0x7c {
            part.drop_last()
        } else {
            part
        };
        let piece = text_piece(params, offset, count);
        assert(part.len() > 0 ==> (part.last() == 0x7c <==> chars.last() == '|'));
        assert(all_seven_bit(text));
        lemma_seven_bit_is_utf8(text);
        assert(decode_utf8(text) =~= piece);
    }
}

/// The code of the projected coordinate reference system is preferred to that
/// of the geographic one: a projected system still carries its geographic base.
pub proof fn lemma_epsg_prefers_projected(keys: GeoKeysView)
    ensures
        keys.shorts.contains_key(3072) ==> keys.epsg_code() == Some(keys.shorts[3072]),
        !keys.shorts.contains_key(3072) && keys.shorts.contains_key(2048) ==> keys.epsg_code()
            == Some(keys.shorts[2048]),
        !keys.shorts.contains_key(3072) && !keys.shorts.contains_key(2048) ==> keys.epsg_code()
            is None,
{
}

/// Once a key record is refused, so is the directory, with the same error.
pub proof fn lemma_error_stays(
    data: Seq<u16>,
    k: nat,
    n: nat,
    texts: Option<Seq<char>>,
    doubles: Option<Seq<u64>>,
)
    requires
        k <= n,
        spec_keys(data, k, texts, doubles) is Err,
    ensures
        spec_keys(data, n, texts, doubles) == spec_keys(data, k, texts, doubles),
    decreases n - k,
{
    if k < n {
        lemma_error_stays(data, k, (n - 1) as nat, texts, doubles);
    }
}

/// A decoded GeoKey directory.
#[derive(Debug, Clone)]
pub struct GeoKeyDirectory {
    shorts: HashMap<u16, u16>,
    doubles: HashMap<u16, u64>,
    texts: HashMap<u16, String>,
}

impl View for GeoKeyDirectory {
    type V = GeoKeysView;

    closed spec fn view(&self) -> GeoKeysView {
        GeoKeysView {
            shorts: self.shorts@,
            doubles: self.doubles@,
            texts: self.texts@.map_values(|text: String| text@),
        }
    }
}

/// Cuts the text of one key out of the text parameters.
pub fn text_param(params: &str, offset: u16, count: u16) -> (text: Option<String>)
    ensures
        match spec_text_param(encode_utf8(params@), offset, count) {
            Some(chars) => text is Some && text->Some_0@ == chars,
            None => text is None,
        },
{
    let bytes = params.as_bytes();
    let start = offset as usize;
    let end = start + count as usize;
    if end > bytes.len() {
        return None;
    }
    let ghost part = bytes@.subrange(start as int, end as int);
    let cut = if end > start && bytes[end - 1] == 0x7c {
        end - 1
    } else {
        end
    };
    assert(bytes@.subrange(start as int, cut as int) =~= if part.len() > 0 && part.last() == 0x7c {
        part.drop_last()
    } else {
        part
    });
    string_from_utf8(slice_to_vec(slice_subrange(bytes, start, cut)))
}

impl GeoKeyDirectory {
    /// Decodes the GeoKey directory of an image directory from the values of
    /// its three GeoKey tags.
    pub fn from_tags(data: &[u16], texts: Option<&str>, doubles: Option<&[u64]>) -> (r: Result<
        GeoKeyDirectory,
        AiocogeoError,
    >)
        ensures
            match spec_geo_keys(
                data@,
                match texts {
                    Some(t) => Some(t@),
                    None => None,
                },
                match doubles {
                    Some(d) => Some(d@),
                    None => None,
                },
            ) {
                Ok(keys) => r is Ok && r->Ok_0@ == keys && keys.well_typed(),
                Err(error) => r == Err::<GeoKeyDirectory, _>(error),
            },
    {
        let ghost spec_texts = match texts {
            Some(t) => Some(t@),
            None => None,
        };
        let ghost spec_doubles = match doubles {
            Some(d) => Some(d@),
            None => None,
        };
        if data.len() < 4 {
            return Err(AiocogeoError::InvalidGeoKeyDirectory);
        }
        if data[0] != 1 || data[1] != 1 {
            return Err(AiocogeoError::UnsupportedFormat);
        }
        let number_of_keys = data[3] as usize;
        if data.len() < 4 || (data.len() - 4) / 4 < number_of_keys {
            return Err(AiocogeoError::InvalidGeoKeyDirectory);
        }
        let mut keys = GeoKeyDirectory {
            shorts: HashMap::new(),
            doubles: HashMap::new(),
            texts: HashMap::new(),
        };
        assert(keys@.texts =~= Map::empty());
        let mut i: usize = 0;
        while i < number_of_keys
            invariant
                i <= number_of_keys,
                number_of_keys == data@[3],
                data@[0] == 1,
                data@[1] == 1,
                4 + 4 * number_of_keys <= data@.len(),
                spec_texts == match texts {
                    Some(t) => Some(t@),
                    None => None,
                },
                spec_doubles == match doubles {
                    Some(d) => Some(d@),
                    None => None,
                },
                spec_keys(data@, i as nat, spec_texts, spec_doubles) == Ok::<_, AiocogeoError>(
                    keys@,
                ),
                keys@.well_typed(),
            decreases number_of_keys - i,
        {
            let id = data[4 + 4 * i];
            let location = data[5 + 4 * i];
            let count = data[6 + 4 * i];
            let value = data[7 + 4 * i];
            let ghost before = keys@;
            let ghost after = spec_apply_record(
                before,
                key_record(data@, i as int),
                spec_texts,
                spec_doubles,
            );
            assert(spec_keys(data@, (i + 1) as nat, spec_texts, spec_doubles) == after);
            proof {
                if after is Err {
                    lemma_error_stays(
                        data@,
                        (i + 1) as nat,
                        number_of_keys as nat,
                        spec_texts,
                        spec_doubles,
                    );
                }
            }
            let key = match GeoKeyTag::from_code(id) {
                Some(key) => key,
                None => {
                    return Err(AiocogeoError::UnsupportedGeoKey);
                },
            };
            if location == 0 {
                match key.kind() {
                    GeoKeyKind::Short => {
                        keys.shorts.insert(id, value);
                    },
                    _ => {
                        return Err(AiocogeoError::InvalidGeoKeyDirectory);
                    },
                }
            } else if location == GEO_ASCII_PARAMS_TAG {
                let text = match (key.kind(), texts) {
                    (GeoKeyKind::Ascii, Some(params)) => text_param(params, value, count),
                    _ => None,
                };
                match text {
                    Some(text) => {
                        keys.texts.insert(id, text);
                        assert(keys@.texts =~= before.texts.insert(id, text@));
                    },
                    None => {
                        return Err(AiocogeoError::InvalidGeoKeyDirectory);
                    },
                }
            } else if location == GEO_DOUBLE_PARAMS_TAG {
                let bits = match (key.kind(), doubles) {
                    (GeoKeyKind::Double, Some(params)) => if count == 1 && (value as usize)
                        < params.len() {
                        Some(params[value as usize])
                    } else {
                        None
                    },
                    _ => None,
                };
                match bits {
                    Some(bits) => {
                        keys.doubles.insert(id, bits);
                    },
                    None => {
                        return Err(AiocogeoError::InvalidGeoKeyDirectory);
                    },
                }
            }
            assert(keys@ == after->Ok_0);
            i += 1;
        }
        Ok(keys)
    }

    /// The value of a key of type short.
    pub fn short(&self, key: GeoKeyTag) -> (value: Option<u16>)
        ensures
            value == if self@.shorts.contains_key(key.spec_code()) {
                Some(self@.shorts[key.spec_code()])
            } else {
                None
            },
    {
        match self.shorts.get(&key.code()) {
            Some(value) => Some(*value),
            None => None,
        }
    }

    /// The bit pattern of the value of a key of type double.
    pub fn double_bits(&self, key: GeoKeyTag) -> (value: Option<u64>)
        ensures
            value == if self@.doubles.contains_key(key.spec_code()) {
                Some(self@.doubles[key.spec_code()])
            } else {
                None
            },
    {
        match self.doubles.get(&key.code()) {
            Some(value) => Some(*value),
            None => None,
        }
    }

    /// The value of a key of type text.
    pub fn text(&self, key: GeoKeyTag) -> (value: Option<&String>)
        ensures
            match value {
                Some(text) => self@.texts.contains_key(key.spec_code())
                    && self@.texts[key.spec_code()] == text@,
                None => !self@.texts.contains_key(key.spec_code()),
            },
    {
        self.texts.get(&key.code())
    }

    /// Return the EPSG code representing the crs of the image
    pub fn epsg_code(&self) -> (code: Option<u16>)
        ensures
            code == self@.epsg_code(),
    {
        match self.short(GeoKeyTag::ProjectedType) {
            Some(projected_type) => Some(projected_type),
            None => self.short(GeoKeyTag::GeographicType),
        }
    }
}

} // verus!

use crate::cursor::{
    decode_u16, decode_u32, spec_u16, spec_u32, ByteRange, ByteRangeCursor, CursorView, Endianness,
};
use crate::error::AiocogeoError;
use crate::value::{decode_value, spec_decode_value, value_is, Value, ValueView};
use vstd::prelude::*;
use vstd::slice::slice_subrange;

verus! {

// Codes of the tags that an image directory is assembled from.
pub const NEW_SUBFILE_TYPE: u16 = 254;

pub const IMAGE_WIDTH: u16 = 256;

pub const IMAGE_LENGTH: u16 = 257;

pub const BITS_PER_SAMPLE: u16 = 258;

pub const COMPRESSION: u16 = 259;

pub const PHOTOMETRIC_INTERPRETATION: u16 = 262;

pub const DOCUMENT_NAME: u16 = 269;

pub const IMAGE_DESCRIPTION: u16 = 270;

pub const STRIP_OFFSETS: u16 = 273;

pub const ORIENTATION: u16 = 274;

pub const SAMPLES_PER_PIXEL: u16 = 277;

pub const ROWS_PER_STRIP: u16 = 278;

pub const STRIP_BYTE_COUNTS: u16 = 279;

pub const MIN_SAMPLE_VALUE: u16 = 280;

pub const MAX_SAMPLE_VALUE: u16 = 281;

pub const X_RESOLUTION: u16 = 282;

pub const Y_RESOLUTION: u16 = 283;

pub const PLANAR_CONFIGURATION: u16 = 284;

pub const RESOLUTION_UNIT: u16 = 296;

pub const SOFTWARE: u16 = 305;

pub const DATE_TIME: u16 = 306;

pub const ARTIST: u16 = 315;

pub const HOST_COMPUTER: u16 = 316;

pub const PREDICTOR: u16 = 317;

pub const COLOR_MAP: u16 = 320;

pub const TILE_WIDTH: u16 = 322;

pub const TILE_LENGTH: u16 = 323;

pub const TILE_OFFSETS: u16 = 324;

pub const TILE_BYTE_COUNTS: u16 = 325;

pub const EXTRA_SAMPLES: u16 = 338;

pub const SAMPLE_FORMAT: u16 = 339;

pub const JPEG_TABLES: u16 = 347;

pub const COPYRIGHT: u16 = 33432;

pub const MODEL_PIXEL_SCALE_TAG: u16 = 33550;

pub const MODEL_TIEPOINT_TAG: u16 = 33922;

/// Code of the tag that holds the GeoKey directory.
pub const GEO_KEY_DIRECTORY_TAG: u16 = 34735;

/// Code of the tag that holds the floating-point parameters of the GeoKeys.
pub const GEO_DOUBLE_PARAMS_TAG: u16 = 34736;

/// Code of the tag that holds the text parameters of the GeoKeys.
pub const GEO_ASCII_PARAMS_TAG: u16 = 34737;

/// The type of the values of a tag, as its record names it.
#[derive(Debug, Clone, Copy, PartialEq, Eq, Structural)]
pub enum WireType {
    /// 8-bit unsigned integer.
    Byte,
    /// 8-bit character code; the last one is NUL.
    Ascii,
    /// 16-bit unsigned integer.
    Short,
    /// 32-bit unsigned integer.
    Long,
    /// Two 32-bit unsigned integers, numerator and denominator.
    Rational,
    /// 8-bit signed integer.
    SByte,
    /// 8-bit byte without a fixed meaning.
    Undefined,
    /// 16-bit signed integer.
    SShort,
    /// 32-bit signed integer.
    SLong,
    /// Two 32-bit signed integers, numerator and denominator.
    SRational,
    /// 32-bit IEEE 754 number.
    Float,
    /// 64-bit IEEE 754 number.
    Double,
    /// 32-bit offset of an image directory.
    Ifd,
    /// 64-bit unsigned integer.
    Long8,
    /// 64-bit signed integer.
    SLong8,
    /// 64-bit offset of an image directory.
    Ifd8,
}

impl WireType {
    /// The wire type that the code `code` of a tag record stands for.
    pub open spec fn spec_from_code(code: u16) -> Option<WireType> {
        match code {
            1 => Some(WireType::Byte),
            2 => Some(WireType::Ascii),
            3 => Some(WireType::Short),
            4 => Some(WireType::Long),
            5 => Some(WireType::Rational),
            6 => Some(WireType::SByte),
            7 => Some(WireType::Undefined),
            8 => Some(WireType::SShort),
            9 => Some(WireType::SLong),
            10 => Some(WireType::SRational),
            11 => Some(WireType::Float),
            12 => Some(WireType::Double),
            13 => Some(WireType::Ifd),
            16 => Some(WireType::Long8),
            17 => Some(WireType::SLong8),
            18 => Some(WireType::Ifd8),
            _ => None,
        }
    }

    /// The code under which a tag record names this wire type.
    pub open spec fn spec_code(self) -> u16 {
        match self {
            WireType::Byte => 1,
            WireType::Ascii => 2,
            WireType::Short => 3,
            WireType::Long => 4,
            WireType::Rational => 5,
            WireType::SByte => 6,
            WireType::Undefined => 7,
            WireType::SShort => 8,
            WireType::SLong => 9,
            WireType::SRational => 10,
            WireType::Float => 11,
            WireType::Double => 12,
            WireType::Ifd => 13,
            WireType::Long8 => 16,
            WireType::SLong8 => 17,
            WireType::Ifd8 => 18,
        }
    }

    /// Number of bytes that one value of this type takes in the file.
    pub open spec fn spec_width(self) -> int {
        match self {
            WireType::Byte | WireType::SByte | WireType::Ascii | WireType::Undefined => 1,
            WireType::Short | WireType::SShort => 2,
            WireType::Long | WireType::SLong | WireType::Float | WireType::Ifd => 4,
            WireType::Long8
            | WireType::SLong8
            | WireType::Double
            | WireType::Rational
            | WireType::SRational
            | WireType::Ifd8 => 8,
        }
    }

    pub fn from_code(code: u16) -> (wire_type: Option<WireType>)
        ensures
            wire_type == WireType::spec_from_code(code),
    {
        match code {
            1 => Some(WireType::Byte),
            2 => Some(WireType::Ascii),
            3 => Some(WireType::Short),
            4 => Some(WireType::Long),
            5 => Some(WireType::Rational),
            6 => Some(WireType::SByte),
            7 => Some(WireType::Undefined),
            8 => Some(WireType::SShort),
            9 => Some(WireType::SLong),
            10 => Some(WireType::SRational),
            11 => Some(WireType::Float),
            12 => Some(WireType::Double),
            13 => Some(WireType::Ifd),
            16 => Some(WireType::Long8),
            17 => Some(WireType::SLong8),
            18 => Some(WireType::Ifd8),
            _ => None,
        }
    }

    pub fn code(&self) -> (code: u16)
        ensures
            code == self.spec_code(),
    {
        match self {
            WireType::Byte => 1,
            WireType::Ascii => 2,
            WireType::Short => 3,
            WireType::Long => 4,
            WireType::Rational => 5,
            WireType::SByte => 6,
            WireType::Undefined => 7,
            WireType::SShort => 8,
            WireType::SLong => 9,
            WireType::SRational => 10,
            WireType::Float => 11,
            WireType::Double => 12,
            WireType::Ifd => 13,
            WireType::Long8 => 16,
            WireType::SLong8 => 17,
            WireType::Ifd8 => 18,
        }
    }

    pub fn width(&self) -> (width: u64)
        ensures
            width == self.spec_width(),
    {
        match self {
            WireType::Byte | WireType::SByte | WireType::Ascii | WireType::Undefined => 1,
            WireType::Short | WireType::SShort => 2,
            WireType::Long | WireType::SLong | WireType::Float | WireType::Ifd => 4,
            WireType::Long8
            | WireType::SLong8
            | WireType::Double
            | WireType::Rational
            | WireType::SRational
            | WireType::Ifd8 => 8,
        }
    }
}

/// Number of bytes that `count` values of type `wire_type` take in the file.
pub open spec fn spec_value_len(wire_type: WireType, count: u32) -> int {
    count * wire_type.spec_width()
}

/// Number of bytes that `count` values of type `wire_type` take in the file.
pub fn value_len(wire_type: WireType, count: u32) -> (len: u64)
    ensures
        len == spec_value_len(wire_type, count),
{
    let width = wire_type.width();
    assert(count * width <= 0xffff_ffff * 8) by (nonlinear_arith)
        requires
            0 <= count <= 0xffff_ffff,
            1 <= width <= 8,
    ;
    count as u64 * width
}

/// One 12-byte tag record of an image directory, before its value is decoded.
#[derive(Debug, Clone, Copy, PartialEq, Eq)]
pub struct TagEntry {
    /// The tag's code.
    pub code: u16,
    /// The type of the tag's values.
    pub wire_type: WireType,
    /// How many values the tag has.
    pub count: u32,
    /// The last four bytes of the record: the values themselves where they fit,
    /// else the offset at which they stand.
    pub field: [u8; 4],
}

impl TagEntry {
    /// Number of bytes that the tag's values take in the file.
    pub open spec fn spec_value_len(self) -> int {
        spec_value_len(self.wire_type, self.count)
    }

    /// Whether the values stand in the record itself.
    pub open spec fn is_inline(self) -> bool {
        self.spec_value_len() <= 4
    }

    /// What the record `record` of an image directory says in byte order `e`:
    /// two bytes of tag code, two of wire type, four of count, four of value
    /// field. It is refused with `RangeFetch` unless it has 12 bytes, and with
    /// `InvalidTagEncoding` where it names no known wire type.
    pub open spec fn spec_parse(record: Seq<u8>, e: Endianness) -> Result<TagEntry, AiocogeoError> {
        if record.len() != 12 {
            Err(AiocogeoError::RangeFetch)
        } else {
            match WireType::spec_from_code(spec_u16(record.subrange(2, 4), e)) {
                Some(wire_type) => Ok(
                    TagEntry {
                        code: spec_u16(record, e),
                        wire_type,
                        count: spec_u32(record.subrange(4, 8), e),
                        field: [record[8], record[9], record[10], record[11]],
                    },
                ),
                None => Err(AiocogeoError::InvalidTagEncoding),
            }
        }
    }

    /// Reads a tag record.
    pub fn parse(record: &[u8], endianness: Endianness) -> (r: Result<TagEntry, AiocogeoError>)
        ensures
            r == TagEntry::spec_parse(record@, endianness),
    {
        if record.len() != 12 {
            return Err(AiocogeoError::RangeFetch);
        }
        let code = decode_u16(record, endianness);
        let type_code = decode_u16(slice_subrange(record, 2, 4), endianness);
        let count = decode_u32(slice_subrange(record, 4, 8), endianness);
        let field: [u8; 4] = [record[8], record[9], record[10], record[11]];
        match WireType::from_code(type_code) {
            Some(wire_type) => Ok(TagEntry { code, wire_type, count, field }),
            None => Err(AiocogeoError::InvalidTagEncoding),
        }
    }

    /// Number of bytes that the tag's values take in the file.
    pub fn value_len(&self) -> (len: u64)
        ensures
            len == self.spec_value_len(),
    {
        value_len(self.wire_type, self.count)
    }

    /// The byte range that has to be fetched before the tag's values can be
    /// decoded: none where they stand in the record itself, which is where they
    /// take four bytes at most; else the range of their bytes, from the offset
    /// that the record names.
    pub open spec fn spec_value_range(self, e: Endianness) -> Option<ByteRange> {
        if self.is_inline() {
            None
        } else {
            Some(
                ByteRange {
                    start: spec_u32(self.field@, e) as u64,
                    end: (spec_u32(self.field@, e) + self.spec_value_len()) as u64,
                },
            )
        }
    }

    /// The byte range that has to be fetched before the tag's values can be
    /// decoded, if any has to.
    pub fn value_range(&self, endianness: Endianness) -> (range: Option<ByteRange>)
        ensures
            range == self.spec_value_range(endianness),
            range matches Some(r) ==> r.spec_len() == self.spec_value_len(),
    {
        let len = self.value_len();
        if len <= 4 {
            None
        } else {
            let start = decode_u32(vstd::array::array_as_slice(&self.field), endianness) as u64;
            Some(ByteRange { start, end: start + len })
        }
    }

    /// What the tag's values decode to. Values that stand in the record itself
    /// are decoded from it, whatever `fetched` is; others from `fetched`, which
    /// is what was fetched for `value_range`, if anything.
    pub open spec fn spec_value(self, fetched: Option<Seq<u8>>, e: Endianness) -> Result<
        ValueView,
        AiocogeoError,
    > {
        if self.is_inline() {
            spec_decode_value(
                self.wire_type,
                self.count,
                self.field@.subrange(0, self.spec_value_len()),
                e,
            )
        } else {
            match fetched {
                Some(bytes) => spec_decode_value(self.wire_type, self.count, bytes, e),
                None => Err(AiocogeoError::RangeFetch),
            }
        }
    }

    /// Decodes the tag's values.
    pub fn value(&self, fetched: Option<&[u8]>, endianness: Endianness) -> (r: Result<
        Value,
        AiocogeoError,
    >)
        ensures
            value_is(
                r,
                self.spec_value(
                    match fetched {
                        Some(bytes) => Some(bytes@),
                        None => None,
                    },
                    endianness,
                ),
            ),
    {
        let len = self.value_len();
        if len <= 4 {
            let field = vstd::array::array_as_slice(&self.field);
            decode_value(
                self.wire_type,
                self.count,
                slice_subrange(field, 0, len as usize),
                endianness,
            )
        } else {
            match fetched {
                Some(bytes) => decode_value(self.wire_type, self.count, bytes, endianness),
                None => Err(AiocogeoError::RangeFetch),
            }
        }
    }
}

/// What `read_tag_value` gives for a cursor `c` that stands at the value field
/// of a tag record, and where it leaves the cursor.
///
/// No value is the empty list, and nothing is read. Values of four bytes at
/// most are decoded from the field, and the cursor is left behind the field.
/// For others the field holds the offset of their bytes: the cursor goes
/// there, and is left behind the bytes that it read.
pub open spec fn spec_read_tag_value(c: CursorView, wire_type: WireType, count: u32) -> (
    Result<ValueView, AiocogeoError>,
    CursorView,
) {
    let len = spec_value_len(wire_type, count);
    if count == 0 {
        (Ok(ValueView::List(Seq::empty())), c)
    } else if !c.covers(4) {
        (Err(AiocogeoError::RangeFetch), c)
    } else if len <= 4 {
        (spec_decode_value(wire_type, count, c.peek(len), c.endianness), c.skip(4))
    } else {
        let target = c.at(spec_u32(c.peek(4), c.endianness) as int);
        if !target.covers(len) {
            (Err(AiocogeoError::RangeFetch), target)
        } else {
            (
                spec_decode_value(wire_type, count, target.peek(len), c.endianness),
                target.skip(len),
            )
        }
    }
}

/// Values of four bytes at most are read from the four bytes of the value
/// field and from nowhere else: whatever else the window holds, they decode to
/// the same, and the cursor is left behind the field.
pub proof fn lemma_inline_values_stand_in_the_field(
    c: CursorView,
    other: CursorView,
    wire_type: WireType,
    count: u32,
)
    requires
        spec_value_len(wire_type, count) <= 4,
        c.covers(4),
        other.covers(4),
        other.peek(4) == c.peek(4),
        other.endianness == c.endianness,
    ensures
        spec_read_tag_value(other, wire_type, count).0 == spec_read_tag_value(
            c,
            wire_type,
            count,
        ).0,
        count > 0 ==> spec_read_tag_value(c, wire_type, count).1 == c.skip(4),
        count == 0 ==> spec_read_tag_value(c, wire_type, count).1 == c,
{
    let len = spec_value_len(wire_type, count);
    assert(c.peek(len) =~= c.peek(4).subrange(0, len));
    assert(other.peek(len) =~= other.peek(4).subrange(0, len));
}

/// Values of more than four bytes are read from the offset that the value
/// field names: as many bytes as they take, and the cursor is left behind
/// them.
pub proof fn lemma_indirect_values_stand_at_the_offset(
    c: CursorView,
    wire_type: WireType,
    count: u32,
)
    requires
        spec_value_len(wire_type, count) > 4,
        c.covers(4),
    ensures
        ({
            let len = spec_value_len(wire_type, count);
            let target = c.at(spec_u32(c.peek(4), c.endianness) as int);
            &&& len == count * wire_type.spec_width()
            &&& target.covers(len) ==> spec_read_tag_value(c, wire_type, count) == (
                spec_decode_value(wire_type, count, target.peek(len), c.endianness),
                target.skip(len),
            )
            &&& !target.covers(len) ==> spec_read_tag_value(c, wire_type, count).0 == Err::<
                ValueView,
                _,
            >(AiocogeoError::RangeFetch)
        }),
{
}

/// Reads the values of a tag, the cursor standing at the value field of its record.
pub fn read_tag_value(cursor: &mut ByteRangeCursor, tag_type: WireType, count: u32) -> (r: Result<
    Value,
    AiocogeoError,
>)
    ensures
        value_is(r, spec_read_tag_value(old(cursor)@, tag_type, count).0),
        final(cursor)@ == spec_read_tag_value(old(cursor)@, tag_type, count).1,
{
    if count == 0 {
        return decode_value(tag_type, count, &[], cursor.endianness());
    }
    let ghost before = cursor@;
    let len = value_len(tag_type, count);
    let field = cursor.read(4)?;
    if len <= 4 {
        assert(field@.subrange(0, len as int) =~= before.peek(len as int));
        return decode_value(
            tag_type,
            count,
            slice_subrange(field, 0, len as usize),
            cursor.endianness(),
        );
    }
    cursor.seek(decode_u32(field, cursor.endianness()) as u64);
    let bytes = cursor.read(len)?;
    decode_value(tag_type, count, bytes, cursor.endianness())
}

/// What `read_tag` gives for a cursor `c` that stands at a tag record, and
/// where it leaves the cursor: behind the record, unless the window does not
/// hold the whole record.
pub open spec fn spec_read_tag(c: CursorView) -> (
    Result<(u16, ValueView), AiocogeoError>,
    CursorView,
) {
    if !c.covers(12) {
        (Err(AiocogeoError::RangeFetch), c)
    } else {
        let record = c.peek(12);
        match WireType::spec_from_code(spec_u16(record.subrange(2, 4), c.endianness)) {
            None => (Err(AiocogeoError::InvalidTagEncoding), c.skip(12)),
            Some(wire_type) => match spec_read_tag_value(
                c.skip(8),
                wire_type,
                spec_u32(record.subrange(4, 8), c.endianness),
            ).0 {
                Ok(value) => (Ok((spec_u16(record, c.endianness), value)), c.skip(12)),
                Err(error) => (Err(error), c.skip(12)),
            },
        }
    }
}

/// Reading a tag from a window gives what its record and its values give:
/// the values are those that the record holds, or those that the window holds
/// in the byte range of the record's values.
pub proof fn lemma_read_tag_is_entry_value(c: CursorView)
    requires
        c.covers(12),
    ensures
        match TagEntry::spec_parse(c.peek(12), c.endianness) {
            Err(error) => spec_read_tag(c).0 == Err::<(u16, ValueView), _>(error),
            Ok(entry) => {
                let fetched = match entry.spec_value_range(c.endianness) {
                    Some(range) => if c.at(range.start as int).covers(range.spec_len()) {
                        Some(c.at(range.start as int).peek(range.spec_len()))
                    } else {
                        None
                    },
                    None => None,
                };
                spec_read_tag(c).0 == match entry.spec_value(fetched, c.endianness) {
                    Ok(value) => Ok((entry.code, value)),
                    Err(error) => Err(error),
                }
            },
        },
{
    let record = c.peek(12);
    if TagEntry::spec_parse(record, c.endianness) is Ok {
        let entry = TagEntry::spec_parse(record, c.endianness)->Ok_0;
        let len = entry.spec_value_len();
        let field = c.skip(8);
        assert(field.peek(4) =~= record.subrange(8, 12));
        assert(entry.field@ =~= record.subrange(8, 12));
        assert(len <= 8 * 0xffff_ffff) by (nonlinear_arith)
            requires
                len == entry.count * entry.wire_type.spec_width(),
                0 <= entry.count <= 0xffff_ffff,
                1 <= entry.wire_type.spec_width() <= 8,
        ;
        if len <= 4 {
            assert(field.peek(len) =~= entry.field@.subrange(0, len));
        }
    }
}

/// Reads a single tag, the cursor standing at its record: the tag's code and
/// its decoded values.
pub fn read_tag(cursor: &mut ByteRangeCursor) -> (r: Result<(u16, Value), AiocogeoError>)
    ensures
        final(cursor)@ == spec_read_tag(old(cursor)@).1,
        match spec_read_tag(old(cursor)@).0 {
            Ok((code, value)) => r is Ok && r->Ok_0.0 == code && r->Ok_0.1@ == value,
            Err(error) => r == Err::<(u16, Value), _>(error),
        },
{
    let ghost before = cursor@;
    let start = cursor.position();
    let record = cursor.read(12)?;
    let end = cursor.position();
    let entry = match TagEntry::parse(record, cursor.endianness()) {
        Ok(entry) => entry,
        Err(error) => {
            return Err(error);
        },
    };
    cursor.seek(start + 8);
    assert(cursor@ == before.skip(8));
    let value = read_tag_value(cursor, entry.wire_type, entry.count);
    cursor.seek(end);
    match value {
        Ok(value) => Ok((entry.code, value)),
        Err(error) => Err(error),
    }
}


} // verus!

use crate::cursor::{
    decode_u16, decode_u32, spec_u16, spec_u32, ByteRange, ByteRangeCursor, CursorView, Endianness,
};
use crate::error::AiocogeoError;
use crate::ifd::{DirectoryView, ImageFileDirectory};
use crate::walker::{lemma_run_from_anywhere, ImageFileDirectories, WalkerView};
use vstd::prelude::*;
use vstd::slice::slice_subrange;

verus! {

/// Number of bytes of the header of a file.
pub const HEADER_LEN: u64 = 8;

/// The version number of a classic TIFF file.
pub const TIFF_VERSION: u16 = 42;

/// What the header of a file says.
#[derive(Debug, Clone, Copy, PartialEq, Eq, Structural)]
pub struct Header {
    pub endianness: Endianness,
    /// Offset of the first image directory.
    pub first_ifd_offset: u32,
}

/// What the eight bytes `bytes` at the start of a file say.
///
/// The first two are `II` for little-endian or `MM` for big-endian byte
/// order. The next two are the version, which must be 42. The last four are
/// the offset of the first image directory. Anything else is refused with
/// `UnsupportedFormat`; fewer or more than eight bytes with `RangeFetch`.
pub open spec fn spec_header(bytes: Seq<u8>) -> Result<Header, AiocogeoError> {
    if bytes.len() != HEADER_LEN {
        Err(AiocogeoError::RangeFetch)
    } else if !(bytes[0] == 0x49 && bytes[1] == 0x49 || bytes[0] == 0x4d && bytes[1] == 0x4d) {
        Err(AiocogeoError::UnsupportedFormat)
    } else {
        let endianness = if bytes[0] == 0x49 {
            Endianness::LittleEndian
        } else {
            Endianness::BigEndian
        };
        if spec_u16(bytes.subrange(2, 4), endianness) != TIFF_VERSION {
            Err(AiocogeoError::UnsupportedFormat)
        } else {
            Ok(Header { endianness, first_ifd_offset: spec_u32(bytes.subrange(4, 8), endianness) })
        }
    }
}

/// Reads the header of a file from its first eight bytes.
pub fn parse_header(bytes: &[u8]) -> (r: Result<Header, AiocogeoError>)
    ensures
        r == spec_header(bytes@),
{
    if bytes.len() != 8 {
        return Err(AiocogeoError::RangeFetch);
    }
    // Should be b"II" for little endian or b"MM" for big endian
    let endianness = if bytes[0] == 0x49 && bytes[1] == 0x49 {
        Endianness::LittleEndian
    } else if bytes[0] == 0x4d && bytes[1] == 0x4d {
        Endianness::BigEndian
    } else {
        return Err(AiocogeoError::UnsupportedFormat);
    };
    let version = decode_u16(slice_subrange(bytes, 2, 4), endianness);
    // Assert it's a standard non-big tiff
    if version != TIFF_VERSION {
        return Err(AiocogeoError::UnsupportedFormat);
    }
    let first_ifd_offset = decode_u32(slice_subrange(bytes, 4, 8), endianness);
    Ok(Header { endianness, first_ifd_offset })
}

/// What `COGReader::try_open` makes of the window of the cursor `c`: the
/// directories of the file, in chain order.
pub open spec fn spec_open(c: CursorView) -> Result<Seq<DirectoryView>, AiocogeoError> {
    let start = c.at(0);
    if !start.covers(HEADER_LEN as int) {
        Err(AiocogeoError::RangeFetch)
    } else {
        match spec_header(start.peek(HEADER_LEN as int)) {
            Err(error) => Err(error),
            Ok(header) => {
                let window = CursorView { endianness: header.endianness, ..c };
                WalkerView::start(header.endianness, header.first_ifd_offset).run(window).result()
            },
        }
    }
}

/// A file whose image directories have been read.
#[derive(Debug)]
pub struct COGReader {
    ifds: ImageFileDirectories,
}

impl View for COGReader {
    type V = Seq<DirectoryView>;

    closed spec fn view(&self) -> Seq<DirectoryView> {
        self.ifds@
    }
}

impl COGReader {
    /// A reader of a file with the image directories `ifds`.
    pub fn new(ifds: ImageFileDirectories) -> (reader: Self)
        ensures
            reader@ == ifds@,
    {
        COGReader { ifds }
    }

    /// Opens the file whose bytes the window of `cursor` holds: checks its
    /// header, and reads its image directories. A file with a header that is
    /// refused has nothing read but the header.
    ///
    /// The cursor takes the byte order of the file. But for that, only its
    /// position changes.
    pub fn try_open(cursor: &mut ByteRangeCursor) -> (r: Result<Self, AiocogeoError>)
        ensures
            match spec_open(old(cursor)@) {
                Ok(directories) => r is Ok && r->Ok_0@ == directories,
                Err(error) => r == Err::<COGReader, _>(error),
            },
            !old(cursor)@.at(0).covers(HEADER_LEN as int) ==> final(cursor)@ == old(cursor)@.at(0),
            old(cursor)@.at(0).covers(HEADER_LEN as int) ==> match spec_header(
                old(cursor)@.at(0).peek(HEADER_LEN as int),
            ) {
                Ok(header) => final(cursor)@ == (CursorView {
                    endianness: header.endianness,
                    offset: final(cursor)@.offset,
                    ..old(cursor)@
                }),
                Err(_) => final(cursor)@ == old(cursor)@.at(HEADER_LEN as int),
            },
    {
        cursor.seek(0);
        let header = parse_header(cursor.read(HEADER_LEN)?)?;
        cursor.set_endianness(header.endianness);
        proof {
            lemma_run_from_anywhere(
                WalkerView::start(header.endianness, header.first_ifd_offset),
                CursorView { endianness: header.endianness, ..old(cursor)@ },
                cursor@.offset,
            );
        }
        let ifds = ImageFileDirectories::open(cursor, header.first_ifd_offset)?;
        Ok(COGReader { ifds })
    }

    /// The image directories of the file, in chain order. The first is the
    /// image at full resolution.
    pub fn ifds(&self) -> (ifds: &[ImageFileDirectory])
        ensures
            ifds@.map_values(|d: ImageFileDirectory| d@) == self@,
            ifds@.len() > 0,
    {
        self.ifds.as_ref()
    }

    /// Return the EPSG code representing the crs of the image
    pub fn epsg(&self) -> (code: Option<u16>)
        ensures
            self@.len() > 0,
            code == match self@[0].geo_key_directory {
                Some(keys) => keys.epsg_code(),
                None => None,
            },
    {
        let ifd = &self.ifds.as_ref()[0];
        match ifd.geo_key_directory() {
            Some(gkd) => gkd.epsg_code(),
            None => None,
        }
    }

    /// The byte range of the tile in column `x` and row `y` of the tile grid
    /// of the directory `directory_index`.
    pub fn get_tile(&self, directory_index: usize, x: usize, y: usize) -> (r: Result<
        ByteRange,
        AiocogeoError,
    >)
        ensures
            directory_index < self@.len() && self@[directory_index as int].has_tile(
                x as int,
                y as int,
            ) ==> r == Ok::<_, AiocogeoError>(
                self@[directory_index as int].tile_range(x as int, y as int),
            ),
            !(directory_index < self@.len() && self@[directory_index as int].has_tile(
                x as int,
                y as int,
            )) ==> r == Err::<ByteRange, _>(AiocogeoError::OutOfRange),
    {
        let ifds = self.ifds.as_ref();
        if directory_index >= ifds.len() {
            return Err(AiocogeoError::OutOfRange);
        }
        ifds[directory_index].get_tile(x, y)
    }
}

} // verus!

use aiocogeo::cog::{parse_header, COGReader, Header};
use aiocogeo::cursor::{ByteRange, ByteRangeCursor, Endianness};
use aiocogeo::enums::CompressionMethod;
use aiocogeo::error::AiocogeoError;
use aiocogeo::ifd::ImageFileDirectory;
use aiocogeo::value::Value;
use aiocogeo::walker::{DirectoryChainWalker, ImageFileDirectories};

const LE: Endianness = Endianness::LittleEndian;
const BE: Endianness = Endianness::BigEndian;

fn u16_bytes(x: u16, e: Endianness) -> [u8; 2] {
    match e {
        Endianness::LittleEndian => x.to_le_bytes(),
        Endianness::BigEndian => x.to_be_bytes(),
    }
}

fn u32_bytes(x: u32, e: Endianness) -> [u8; 4] {
    match e {
        Endianness::LittleEndian => x.to_le_bytes(),
        Endianness::BigEndian => x.to_be_bytes(),
    }
}

fn u64_bytes(x: u64, e: Endianness) -> [u8; 8] {
    match e {
        Endianness::LittleEndian => x.to_le_bytes(),
        Endianness::BigEndian => x.to_be_bytes(),
    }
}

/// One tag: its code, the code of its wire type, its count, and the bytes of
/// its values as the file holds them.
struct Field {
    code: u16,
    wire_type: u16,
    count: u32,
    bytes: Vec<u8>,
}

fn short(code: u16, value: u16, e: Endianness) -> Field {
    Field { code, wire_type: 3, count: 1, bytes: u16_bytes(value, e).to_vec() }
}

fn long(code: u16, value: u32, e: Endianness) -> Field {
    Field { code, wire_type: 4, count: 1, bytes: u32_bytes(value, e).to_vec() }
}

fn shorts(code: u16, values: &[u16], e: Endianness) -> Field {
    let bytes = values.iter().flat_map(|v| u16_bytes(*v, e)).collect();
    Field { code, wire_type: 3, count: values.len() as u32, bytes }
}

fn longs(code: u16, values: &[u32], e: Endianness) -> Field {
    let bytes = values.iter().flat_map(|v| u32_bytes(*v, e)).collect();
    Field { code, wire_type: 4, count: values.len() as u32, bytes }
}

fn doubles(code: u16, values: &[f64], e: Endianness) -> Field {
    let bytes = values.iter().flat_map(|v| u64_bytes(v.to_bits(), e)).collect();
    Field { code, wire_type: 12, count: values.len() as u32, bytes }
}

fn ascii(code: u16, text: &str) -> Field {
    let mut bytes = text.as_bytes().to_vec();
    bytes.push(0);
    Field { code, wire_type: 2, count: bytes.len() as u32, bytes }
}

fn put(file: &mut Vec<u8>, at: usize, bytes: &[u8]) {
    if file.len() < at + bytes.len() {
        file.resize(at + bytes.len(), 0);
    }
    file[at..at + bytes.len()].copy_from_slice(bytes);
}

/// Writes a directory with the tags `fields` at offset `at` of `file`. Values
/// that do not fit into their record go to `values_at` and behind.
fn put_directory(
    file: &mut Vec<u8>,
    at: usize,
    fields: &[Field],
    next: u32,
    mut values_at: usize,
    e: Endianness,
) {
    put(file, at, &u16_bytes(fields.len() as u16, e));
    for (i, field) in fields.iter().enumerate() {
        let record = at + 2 + 12 * i;
        put(file, record, &u16_bytes(field.code, e));
        put(file, record + 2, &u16_bytes(field.wire_type, e));
        put(file, record + 4, &u32_bytes(field.count, e));
        if field.bytes.len() <= 4 {
            put(file, record + 8, &[0; 4]);
            put(file, record + 8, &field.bytes);
        } else {
            put(file, record + 8, &u32_bytes(values_at as u32, e));
            put(file, values_at, &field.bytes);
            values_at += field.bytes.len();
        }
    }
    put(file, at + 2 + 12 * fields.len(), &u32_bytes(next, e));
}

fn header(e: Endianness, version: u16, first: u32) -> Vec<u8> {
    let mut bytes = match e {
        Endianness::LittleEndian => b"II".to_vec(),
        Endianness::BigEndian => b"MM".to_vec(),
    };
    bytes.extend_from_slice(&u16_bytes(version, e));
    bytes.extend_from_slice(&u32_bytes(first, e));
    bytes
}

/// The tags of an image of `width` by `width` pixels in one tile.
fn one_tile(width: u32, e: Endianness) -> Vec<Field> {
    vec![
        long(256, width, e),
        long(257, width, e),
        short(258, 8, e),
        short(259, 8, e),
        short(262, 1, e),
        short(277, 1, e),
        short(284, 1, e),
        long(322, 1024, e),
        long(323, 1024, e),
        long(324, 5000, e),
        long(325, width * width, e),
        short(339, 1, e),
    ]
}

/// A file with a chain of directories at `offsets`, the directory at
/// `offsets[i]` pointing to `nexts[i]`. The directory at `offsets[i]` is an
/// image of `1000 >> i` pixels in each direction.
fn chain(offsets: &[u32], nexts: &[u32], e: Endianness) -> Vec<u8> {
    let mut file = header(e, 42, offsets[0]);
    for (i, (offset, next)) in offsets.iter().zip(nexts).enumerate() {
        let at = *offset as usize;
        put_directory(&mut file, at, &one_tile(1000 >> i, e), *next, at + 400, e);
    }
    file
}

/// What is fetched for `range` from a store that holds `file`: fewer bytes
/// than asked for where the file ends before the range does.
fn fetch(file: &[u8], range: ByteRange) -> &[u8] {
    let start = (range.start as usize).min(file.len());
    let end = (range.end as usize).min(file.len());
    &file[start..end]
}

/// Walks the chain that starts at `first`, fetching what the walker asks for.
fn walk(
    file: &[u8],
    e: Endianness,
    first: u32,
) -> (Result<ImageFileDirectories, AiocogeoError>, Vec<ByteRange>) {
    let mut walker = DirectoryChainWalker::new(e, first);
    let mut requests = Vec::new();
    while let Some(range) = walker.request() {
        requests.push(range);
        assert!(requests.len() < 10_000);
        walker = walker.supply(fetch(file, range));
    }
    (walker.finish(), requests)
}

fn widths(directories: &[ImageFileDirectory]) -> Vec<u32> {
    directories.iter().map(|d| d.image_width()).collect()
}

#[test]
fn header_of_a_classic_tiff() {
    assert_eq!(
        parse_header(&header(LE, 42, 8)),
        Ok(Header { endianness: LE, first_ifd_offset: 8 })
    );
    assert_eq!(
        parse_header(&header(BE, 42, 0x0102_0304)),
        Ok(Header { endianness: BE, first_ifd_offset: 0x0102_0304 })
    );
    assert_eq!(
        parse_header(&[0x49, 0x49, 0x2a, 0x00, 0x10, 0x00, 0x00, 0x00]),
        Ok(Header { endianness: LE, first_ifd_offset: 16 })
    );
    assert_eq!(
        parse_header(&[0x4d, 0x4d, 0x00, 0x2a, 0x00, 0x00, 0x00, 0x10]),
        Ok(Header { endianness: BE, first_ifd_offset: 16 })
    );
}

#[test]
fn unsupported_versions_are_refused() {
    assert_eq!(parse_header(&header(LE, 43, 8)), Err(AiocogeoError::UnsupportedFormat));
    assert_eq!(parse_header(&header(BE, 43, 8)), Err(AiocogeoError::UnsupportedFormat));
    assert_eq!(parse_header(&header(LE, 0, 8)), Err(AiocogeoError::UnsupportedFormat));
    assert_eq!(parse_header(&header(LE, 41, 8)), Err(AiocogeoError::UnsupportedFormat));
    // The version in the other byte order.
    assert_eq!(
        parse_header(&[0x49, 0x49, 0x00, 0x2a, 8, 0, 0, 0]),
        Err(AiocogeoError::UnsupportedFormat)
    );
    assert_eq!(
        parse_header(&[0x4d, 0x4d, 0x2a, 0x00, 0, 0, 0, 8]),
        Err(AiocogeoError::UnsupportedFormat)
    );
}

#[test]
fn other_byte_order_marks_are_refused() {
    for magic in [*b"IM", *b"MI", *b"ii", *b"mm", [0, 0], *b"GI", *b"\x89P"] {
        let mut bytes = header(LE, 42, 8);
        bytes[..2].copy_from_slice(&magic);
        assert_eq!(parse_header(&bytes), Err(AiocogeoError::UnsupportedFormat));
    }
}

#[test]
fn a_header_has_eight_bytes() {
    let bytes = header(LE, 42, 8);
    assert_eq!(parse_header(&bytes[..7]), Err(AiocogeoError::RangeFetch));
    assert_eq!(parse_header(&[]), Err(AiocogeoError::RangeFetch));
    let mut longer = bytes.clone();
    longer.push(0);
    assert_eq!(parse_header(&longer), Err(AiocogeoError::RangeFetch));
    // A short header is reported as such, whatever it starts with.
    assert_eq!(parse_header(b"XX"), Err(AiocogeoError::RangeFetch));
}

#[test]
fn a_directory_is_asked_for_record_by_record() {
    let file = chain(&[8], &[0], LE);
    let (result, requests) = walk(&file, LE, 8);
    assert_eq!(widths(result.unwrap().as_ref()), vec![1000]);
    let mut expected = vec![ByteRange { start: 8, end: 10 }];
    for i in 0..12 {
        expected.push(ByteRange { start: 10 + 12 * i, end: 22 + 12 * i });
    }
    expected.push(ByteRange { start: 154, end: 158 });
    assert_eq!(requests, expected);
}

#[test]
fn values_outside_their_record_are_asked_for_after_it() {
    let mut fields = one_tile(1000, BE);
    fields.insert(6, ascii(270, "an image"));
    fields.push(doubles(33550, &[10.0, 10.0, 0.0], BE));
    fields.push(shorts(700, &[1, 2], BE));
    fields.push(shorts(701, &[1, 2, 3], BE));
    let mut file = header(BE, 42, 100);
    put_directory(&mut file, 100, &fields, 0, 600, BE);
    let (result, requests) = walk(&file, BE, 100);
    let directories = result.unwrap();
    let ifd = &directories.as_ref()[0];
    assert_eq!(ifd.image_description(), Some(&"an image".to_string()));
    assert_eq!(ifd.model_pixel_scale(), Some(&vec![10.0f64.to_bits(), 10.0f64.to_bits(), 0]));
    assert_eq!(
        ifd.other_tags().get(&700),
        Some(&Value::List(vec![Value::Short(1), Value::Short(2)]))
    );
    assert_eq!(
        ifd.other_tags().get(&701),
        Some(&Value::List(vec![Value::Short(1), Value::Short(2), Value::Short(3)]))
    );
    let record = |i: u64| ByteRange { start: 102 + 12 * i, end: 114 + 12 * i };
    let mut expected = vec![ByteRange { start: 100, end: 102 }];
    for i in 0..7 {
        expected.push(record(i));
    }
    expected.push(ByteRange { start: 600, end: 609 });
    for i in 7..14 {
        expected.push(record(i));
    }
    expected.push(ByteRange { start: 609, end: 633 });
    expected.push(record(14));
    expected.push(record(15));
    expected.push(ByteRange { start: 633, end: 639 });
    expected.push(ByteRange { start: 102 + 12 * 16, end: 106 + 12 * 16 });
    assert_eq!(requests, expected);
}

#[test]
fn a_chain_of_three_directories_is_read_in_chain_order() {
    let file = chain(&[8, 1000, 2000], &[1000, 2000, 0], LE);
    let (result, _) = walk(&file, LE, 8);
    let directories = result.unwrap();
    assert_eq!(directories.as_ref().len(), 3);
    assert_eq!(widths(directories.as_ref()), vec![1000, 500, 250]);
    let nexts: Vec<Option<u32>> =
        directories.as_ref().iter().map(|d| d.next_ifd_offset()).collect();
    assert_eq!(nexts, vec![Some(1000), Some(2000), None]);
}

#[test]
fn the_chain_is_followed_wherever_it_leads() {
    let file = chain(&[3000, 8, 1500], &[8, 1500, 0], BE);
    let (result, _) = walk(&file, BE, 3000);
    assert_eq!(widths(result.unwrap().as_ref()), vec![1000, 500, 250]);
    let mut cursor = ByteRangeCursor::new(&file, 0, BE);
    let directories = ImageFileDirectories::open(&mut cursor, 3000).unwrap();
    assert_eq!(widths(directories.as_ref()), vec![1000, 500, 250]);
}

#[test]
fn a_cyclic_chain_is_refused() {
    let file = chain(&[8, 1000, 2000], &[1000, 2000, 8], LE);
    let (result, requests) = walk(&file, LE, 8);
    assert_eq!(result.err(), Some(AiocogeoError::DirectoryCycle));
    assert_eq!(requests.len(), 3 * 14);
    let file = chain(&[8, 1000, 2000], &[1000, 2000, 1000], LE);
    assert_eq!(walk(&file, LE, 8).0.err(), Some(AiocogeoError::DirectoryCycle));
    let file = chain(&[8, 1000, 2000], &[1000, 2000, 2000], LE);
    assert_eq!(walk(&file, LE, 8).0.err(), Some(AiocogeoError::DirectoryCycle));
    let mut cursor = ByteRangeCursor::new(&file, 0, LE);
    assert_eq!(
        ImageFileDirectories::open(&mut cursor, 8).err(),
        Some(AiocogeoError::DirectoryCycle)
    );
}

#[test]
fn a_directory_that_points_to_itself_is_refused() {
    let file = chain(&[8], &[8], LE);
    let (result, requests) = walk(&file, LE, 8);
    assert_eq!(result.err(), Some(AiocogeoError::DirectoryCycle));
    assert_eq!(requests.len(), 14);
    let file = chain(&[8, 1000], &[1000, 1000], BE);
    assert_eq!(walk(&file, BE, 8).0.err(), Some(AiocogeoError::DirectoryCycle));
}

#[test]
fn a_walk_that_failed_asks_for_nothing_more() {
    let file = chain(&[8], &[8], LE);
    let mut walker = DirectoryChainWalker::new(LE, 8);
    while let Some(range) = walker.request() {
        walker = walker.supply(fetch(&file, range));
    }
    assert_eq!(walker.outcome(), Err(AiocogeoError::DirectoryCycle));
    assert!(!walker.is_done());
    let walker = walker.supply(&[1, 2, 3]);
    assert_eq!(walker.request(), None);
    assert_eq!(walker.outcome(), Err(AiocogeoError::DirectoryCycle));
    assert_eq!(walker.finish().err(), Some(AiocogeoError::DirectoryCycle));
}

#[test]
fn a_walk_that_is_over_asks_for_nothing_more() {
    let file = chain(&[8], &[0], LE);
    let mut walker = DirectoryChainWalker::new(LE, 8);
    assert!(!walker.is_done());
    assert_eq!(walker.outcome(), Ok(()));
    while let Some(range) = walker.request() {
        walker = walker.supply(fetch(&file, range));
        assert_eq!(walker.outcome(), Ok(()));
    }
    assert!(walker.is_done());
    assert_eq!(walker.directories().len(), 1);
    let walker = walker.supply(&[1, 2, 3]);
    assert!(walker.is_done());
    assert_eq!(walker.request(), None);
    assert_eq!(widths(walker.finish().unwrap().as_ref()), vec![1000]);
}

#[test]
fn a_walk_left_before_its_end_has_no_directories() {
    let file = chain(&[8, 1000], &[1000, 0], LE);
    let mut walker = DirectoryChainWalker::new(LE, 8);
    assert_eq!(
        DirectoryChainWalker::new(LE, 8).finish().err(),
        Some(AiocogeoError::RangeFetch)
    );
    for _ in 0..14 {
        let range = walker.request().unwrap();
        walker = walker.supply(fetch(&file, range));
    }
    assert_eq!(walker.directories().len(), 1);
    assert_eq!(walker.request(), Some(ByteRange { start: 1000, end: 1002 }));
    assert_eq!(walker.finish().err(), Some(AiocogeoError::RangeFetch));
}

#[test]
fn a_short_read_fails_the_walk() {
    let file = chain(&[8, 1000], &[1000, 0], LE);
    for keep in [8usize, 9, 10, 21, 153, 157, 1000, 1001, 1100, 1149] {
        let (result, _) = walk(&file[..keep], LE, 8);
        assert_eq!(result.err(), Some(AiocogeoError::RangeFetch));
        let mut cursor = ByteRangeCursor::new(&file[..keep], 0, LE);
        assert_eq!(
            ImageFileDirectories::open(&mut cursor, 8).err(),
            Some(AiocogeoError::RangeFetch)
        );
    }
    let (result, _) = walk(&file[..1150], LE, 8);
    assert_eq!(widths(result.unwrap().as_ref()), vec![1000, 500]);
}

#[test]
fn more_bytes_than_asked_for_fail_the_walk() {
    let file = chain(&[8], &[0], LE);
    let walker = DirectoryChainWalker::new(LE, 8).supply(&file[8..11]);
    assert_eq!(walker.outcome(), Err(AiocogeoError::RangeFetch));
    let walker = DirectoryChainWalker::new(LE, 8).supply(&file[8..10]).supply(&file[10..23]);
    assert_eq!(walker.outcome(), Err(AiocogeoError::RangeFetch));
}

#[test]
fn a_directory_that_is_refused_fails_the_whole_walk() {
    let mut file = chain(&[8, 1000, 2000], &[1000, 2000, 0], LE);
    let mut fields = one_tile(500, LE);
    fields.remove(0);
    put_directory(&mut file, 1000, &fields, 2000, 1400, LE);
    let (result, _) = walk(&file, LE, 8);
    assert_eq!(result.err(), Some(AiocogeoError::MissingTag));
    let mut file = chain(&[8, 1000], &[1000, 0], LE);
    let mut fields = one_tile(500, LE);
    fields[3] = short(259, 34887, LE);
    put_directory(&mut file, 1000, &fields, 0, 1400, LE);
    assert_eq!(walk(&file, LE, 8).0.err(), Some(AiocogeoError::UnsupportedValue));
}

#[test]
fn a_record_with_an_unknown_wire_type_fails_the_walk() {
    let mut file = chain(&[8], &[0], LE);
    file[10 + 12 * 5 + 2] = 99;
    let (result, requests) = walk(&file, LE, 8);
    assert_eq!(result.err(), Some(AiocogeoError::InvalidTagEncoding));
    assert_eq!(requests.len(), 7);
}

#[test]
fn a_directory_without_tags_is_refused() {
    let mut file = header(LE, 42, 8);
    put_directory(&mut file, 8, &[], 0, 100, LE);
    let (result, requests) = walk(&file, LE, 8);
    assert_eq!(result.err(), Some(AiocogeoError::MissingTag));
    assert_eq!(requests, vec![ByteRange { start: 8, end: 10 }, ByteRange { start: 10, end: 14 }]);
}

#[test]
fn of_two_tags_with_one_code_the_later_one_stays() {
    let mut fields = one_tile(1000, LE);
    fields.push(long(256, 777, LE));
    fields.push(long(257, 888, LE));
    fields[10] = long(325, 777 * 888, LE);
    let mut file = header(LE, 42, 8);
    put_directory(&mut file, 8, &fields, 0, 400, LE);
    let directories = walk(&file, LE, 8).0.unwrap();
    assert_eq!(directories.as_ref()[0].image_width(), 777);
    assert_eq!(directories.as_ref()[0].image_height(), 888);
}

#[test]
fn the_largest_offsets_are_asked_for_without_overflow() {
    let walker = DirectoryChainWalker::new(LE, u32::MAX);
    assert_eq!(
        walker.request(),
        Some(ByteRange { start: 0xffff_ffff, end: 0x1_0000_0001 })
    );
    let walker = walker.supply(&[0xff, 0xff]);
    assert_eq!(
        walker.request(),
        Some(ByteRange { start: 0x1_0000_0001, end: 0x1_0000_000d })
    );
    let mut record = vec![1, 0, 12, 0];
    record.extend_from_slice(&[0xff; 8]);
    let walker = walker.supply(&record);
    assert_eq!(
        walker.request(),
        Some(ByteRange { start: 0xffff_ffff, end: 0xffff_ffff + 8 * 0xffff_ffffu64 })
    );
}

#[test]
fn open_reads_the_chain_from_the_window() {
    let file = chain(&[8, 1000, 2000], &[1000, 2000, 0], LE);
    let mut cursor = ByteRangeCursor::new(&file, 0, LE);
    let directories = ImageFileDirectories::open(&mut cursor, 8).unwrap();
    assert_eq!(widths(directories.as_ref()), vec![1000, 500, 250]);
    let mut cursor = ByteRangeCursor::new(&file, 0, LE);
    let directories = ImageFileDirectories::open(&mut cursor, 1000).unwrap();
    assert_eq!(widths(directories.as_ref()), vec![500, 250]);
    // The wrong byte order makes no sense of the file.
    let mut cursor = ByteRangeCursor::new(&file, 0, BE);
    assert!(ImageFileDirectories::open(&mut cursor, 8).is_err());
}

#[test]
fn open_from_a_window_that_starts_within_the_file() {
    let file = chain(&[8, 1000, 2000], &[1000, 2000, 0], LE);
    let mut cursor = ByteRangeCursor::new(&file[1000..], 1000, LE);
    let directories = ImageFileDirectories::open(&mut cursor, 1000).unwrap();
    assert_eq!(widths(directories.as_ref()), vec![500, 250]);
    let mut cursor = ByteRangeCursor::new(&file[1000..], 1000, LE);
    assert_eq!(
        ImageFileDirectories::open(&mut cursor, 8).err(),
        Some(AiocogeoError::RangeFetch)
    );
}

#[test]
fn read_reads_one_directory_wherever_it_points_to() {
    let file = chain(&[8, 1000, 2000], &[1000, 2000, 2000], LE);
    for (offset, width, next) in [(8, 1000, 1000), (1000, 500, 2000), (2000, 250, 2000)] {
        let mut cursor = ByteRangeCursor::new(&file, 0, LE);
        let ifd = ImageFileDirectory::read(&mut cursor, offset).unwrap();
        assert_eq!(ifd.image_width(), width);
        assert_eq!(ifd.next_ifd_offset(), Some(next));
    }
    let file = chain(&[8], &[0], BE);
    let mut cursor = ByteRangeCursor::new(&file, 0, BE);
    let ifd = ImageFileDirectory::read(&mut cursor, 8).unwrap();
    assert_eq!(ifd.next_ifd_offset(), None);
}

#[test]
fn read_failures() {
    let file = chain(&[8], &[0], LE);
    let mut cursor = ByteRangeCursor::new(&file[..157], 0, LE);
    assert_eq!(
        ImageFileDirectory::read(&mut cursor, 8).err(),
        Some(AiocogeoError::RangeFetch)
    );
    let mut cursor = ByteRangeCursor::new(&file, 0, LE);
    assert_eq!(
        ImageFileDirectory::read(&mut cursor, 5000).err(),
        Some(AiocogeoError::RangeFetch)
    );
    let mut fields = one_tile(500, LE);
    fields.remove(4);
    let mut file = header(LE, 42, 8);
    put_directory(&mut file, 8, &fields, 0, 400, LE);
    let mut cursor = ByteRangeCursor::new(&file, 0, LE);
    assert_eq!(
        ImageFileDirectory::read(&mut cursor, 8).err(),
        Some(AiocogeoError::MissingTag)
    );
}

/// A georeferenced image of 1000 by 500 pixels with eight tiles and one
/// overview.
fn cog(e: Endianness) -> Vec<u8> {
    let mut fields = one_tile(1000, e);
    fields[1] = long(257, 500, e);
    fields[7] = long(322, 256, e);
    fields[8] = long(323, 256, e);
    fields[9] = longs(324, &[10, 20, 30, 40, 50, 60, 70, 80], e);
    fields[10] = longs(325, &[1, 2, 3, 4, 5, 6, 7, 8], e);
    fields.push(doubles(33550, &[10.0, 10.0, 0.0], e));
    fields.push(doubles(33922, &[0.0, 0.0, 0.0, 500000.0, 4000000.0, 0.0], e));
    fields.push(shorts(
        34735,
        &[1, 1, 0, 3, 2048, 0, 1, 4326, 3072, 0, 1, 32631, 2049, 34737, 7, 0],
        e,
    ));
    fields.push(ascii(34737, "WGS 84|"));
    let mut file = header(e, 42, 16);
    put_directory(&mut file, 16, &fields, 2000, 500, e);
    let mut overview = one_tile(500, e);
    overview.insert(0, long(254, 1, e));
    put_directory(&mut file, 2000, &overview, 0, 2400, e);
    file
}

#[test]
fn try_open_reads_header_and_directories() {
    for e in [LE, BE] {
        let file = cog(e);
        let other = match e {
            Endianness::LittleEndian => BE,
            Endianness::BigEndian => LE,
        };
        let mut cursor = ByteRangeCursor::new(&file, 0, other);
        cursor.seek(77);
        let reader = COGReader::try_open(&mut cursor).unwrap();
        assert_eq!(cursor.endianness(), e);
        assert_eq!(reader.ifds().len(), 2);
        assert_eq!(widths(reader.ifds()), vec![1000, 500]);
        assert!(reader.ifds()[0].is_full_resolution());
        assert!(!reader.ifds()[1].is_full_resolution());
        assert_eq!(reader.ifds()[0].compression(), CompressionMethod::Deflate);
        assert_eq!(reader.epsg(), Some(32631));
        let transform = reader.ifds()[0].geotransform().unwrap();
        assert_eq!(f64::from_bits(transform.a()), 10.0);
        assert_eq!(f64::from_bits(transform.e()), -10.0);
        assert_eq!(f64::from_bits(transform.c()), 500000.0);
        assert_eq!(f64::from_bits(transform.f()), 4000000.0);
        assert_eq!(reader.ifds()[1].geotransform(), None);
    }
}

#[test]
fn try_open_refuses_an_unsupported_version_before_any_directory() {
    let mut file = cog(LE);
    file[2] = 43;
    let mut cursor = ByteRangeCursor::new(&file, 0, LE);
    assert_eq!(COGReader::try_open(&mut cursor).err(), Some(AiocogeoError::UnsupportedFormat));
    assert_eq!(cursor.position(), 8);
    // The header alone is enough to refuse the file.
    let mut cursor = ByteRangeCursor::new(&file[..8], 0, LE);
    assert_eq!(COGReader::try_open(&mut cursor).err(), Some(AiocogeoError::UnsupportedFormat));
    let mut file = cog(BE);
    file[0] = b'I';
    let mut cursor = ByteRangeCursor::new(&file, 0, LE);
    assert_eq!(COGReader::try_open(&mut cursor).err(), Some(AiocogeoError::UnsupportedFormat));
    assert_eq!(cursor.position(), 8);
}

#[test]
fn try_open_failures() {
    let file = cog(LE);
    let mut cursor = ByteRangeCursor::new(&file[..7], 0, LE);
    assert_eq!(COGReader::try_open(&mut cursor).err(), Some(AiocogeoError::RangeFetch));
    let mut cursor = ByteRangeCursor::new(&file[..8], 0, LE);
    assert_eq!(COGReader::try_open(&mut cursor).err(), Some(AiocogeoError::RangeFetch));
    let mut cursor = ByteRangeCursor::new(&file[..2100], 0, LE);
    assert_eq!(COGReader::try_open(&mut cursor).err(), Some(AiocogeoError::RangeFetch));
    let mut cursor = ByteRangeCursor::new(&file[8..], 8, LE);
    assert_eq!(COGReader::try_open(&mut cursor).err(), Some(AiocogeoError::RangeFetch));
    let mut cyclic = cog(LE);
    let next_at = 2000 + 2 + 12 * 13;
    cyclic[next_at..next_at + 4].copy_from_slice(&16u32.to_le_bytes());
    let mut cursor = ByteRangeCursor::new(&cyclic, 0, LE);
    assert_eq!(COGReader::try_open(&mut cursor).err(), Some(AiocogeoError::DirectoryCycle));
}

#[test]
fn a_reader_made_of_directories_that_were_walked() {
    let file = cog(BE);
    let header = parse_header(fetch(&file, ByteRange { start: 0, end: 8 })).unwrap();
    let (result, _) = walk(&file, header.endianness, header.first_ifd_offset);
    let reader = COGReader::new(result.unwrap());
    assert_eq!(reader.epsg(), Some(32631));
    assert_eq!(widths(reader.ifds()), vec![1000, 500]);
}

#[test]
fn epsg_of_a_file_without_geokeys() {
    let file = chain(&[8], &[0], LE);
    let mut cursor = ByteRangeCursor::new(&file, 0, LE);
    assert_eq!(COGReader::try_open(&mut cursor).unwrap().epsg(), None);
}

#[test]
fn get_tile_of_a_directory_of_the_file() {
    let file = cog(LE);
    let mut cursor = ByteRangeCursor::new(&file, 0, LE);
    let reader = COGReader::try_open(&mut cursor).unwrap();
    assert_eq!(reader.get_tile(0, 0, 0), Ok(ByteRange { start: 10, end: 11 }));
    assert_eq!(reader.get_tile(0, 3, 0), Ok(ByteRange { start: 40, end: 44 }));
    assert_eq!(reader.get_tile(0, 0, 1), Ok(ByteRange { start: 50, end: 55 }));
    assert_eq!(reader.get_tile(0, 3, 1), Ok(ByteRange { start: 80, end: 88 }));
    assert_eq!(reader.get_tile(1, 0, 0), Ok(ByteRange { start: 5000, end: 255_000 }));
}

#[test]
fn get_tile_beyond_the_file_is_out_of_range() {
    let file = cog(LE);
    let mut cursor = ByteRangeCursor::new(&file, 0, LE);
    let reader = COGReader::try_open(&mut cursor).unwrap();
    assert_eq!(reader.get_tile(0, 4, 0), Err(AiocogeoError::OutOfRange));
    assert_eq!(reader.get_tile(0, 0, 2), Err(AiocogeoError::OutOfRange));
    assert_eq!(reader.get_tile(0, 4, 2), Err(AiocogeoError::OutOfRange));
    assert_eq!(reader.get_tile(1, 1, 0), Err(AiocogeoError::OutOfRange));
    assert_eq!(reader.get_tile(1, 0, 1), Err(AiocogeoError::OutOfRange));
    assert_eq!(reader.get_tile(2, 0, 0), Err(AiocogeoError::OutOfRange));
    assert_eq!(reader.get_tile(usize::MAX, 0, 0), Err(AiocogeoError::OutOfRange));
    assert_eq!(reader.get_tile(0, usize::MAX, usize::MAX), Err(AiocogeoError::OutOfRange));
}

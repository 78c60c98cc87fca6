use crate::error::AiocogeoError;
use byteorder::ByteOrder;
use vstd::prelude::*;
use vstd::slice::slice_subrange;

verus! {

/// Byte order of every multi-byte scalar of a file, fixed by its first two bytes.
#[derive(Debug, Clone, Copy, PartialEq, Eq, Structural)]
pub enum Endianness {
    LittleEndian,
    BigEndian,
}

impl Default for Endianness {
    fn default() -> (e: Self)
        ensures
            e == Endianness::LittleEndian,
    {
        Endianness::LittleEndian
    }
}

/// The half-open range `[start, end)` of byte offsets into the remote object.
#[derive(Debug, Clone, Copy, PartialEq, Eq, Structural)]
pub struct ByteRange {
    pub start: u64,
    pub end: u64,
}

impl ByteRange {
    /// Number of bytes in the range.
    pub open spec fn spec_len(self) -> int {
        self.end - self.start
    }

    /// Number of bytes in the range.
    pub fn len(&self) -> (n: u64)
        ensures
            n == if self.start <= self.end {
                self.spec_len()
            } else {
                0
            },
    {
        if self.start <= self.end {
            self.end - self.start
        } else {
            0
        }
    }
}

/// The unsigned integer that `s[0]`, `s[1]` spell, least significant byte first.
pub open spec fn le_u16(s: Seq<u8>) -> u16 {
    (s[0] as int + 0x100 * s[1] as int) as u16
}

/// The unsigned integer that `s[0]`, `s[1]` spell, most significant byte first.
pub open spec fn be_u16(s: Seq<u8>) -> u16 {
    (0x100 * s[0] as int + s[1] as int) as u16
}

/// The unsigned integer that `s[0..4]` spells, least significant byte first.
pub open spec fn le_u32(s: Seq<u8>) -> u32 {
    (s[0] as int + 0x100 * s[1] as int + 0x1_0000 * s[2] as int + 0x100_0000 * s[3] as int) as u32
}

/// The unsigned integer that `s[0..4]` spells, most significant byte first.
pub open spec fn be_u32(s: Seq<u8>) -> u32 {
    (0x100_0000 * s[0] as int + 0x1_0000 * s[1] as int + 0x100 * s[2] as int + s[3] as int) as u32
}

/// The unsigned integer that `s[0..8]` spells, least significant byte first.
pub open spec fn le_u64(s: Seq<u8>) -> u64 {
    (le_u32(s) as int + 0x1_0000_0000 * le_u32(s.subrange(4, 8)) as int) as u64
}

/// The unsigned integer that `s[0..8]` spells, most significant byte first.
pub open spec fn be_u64(s: Seq<u8>) -> u64 {
    (0x1_0000_0000 * be_u32(s) as int + be_u32(s.subrange(4, 8)) as int) as u64
}

/// The unsigned 16-bit integer at the start of `s` in byte order `e`.
pub open spec fn spec_u16(s: Seq<u8>, e: Endianness) -> u16 {
    match e {
        Endianness::LittleEndian => le_u16(s),
        Endianness::BigEndian => be_u16(s),
    }
}

/// The unsigned 32-bit integer at the start of `s` in byte order `e`.
pub open spec fn spec_u32(s: Seq<u8>, e: Endianness) -> u32 {
    match e {
        Endianness::LittleEndian => le_u32(s),
        Endianness::BigEndian => be_u32(s),
    }
}

/// The unsigned 64-bit integer at the start of `s` in byte order `e`.
pub open spec fn spec_u64(s: Seq<u8>, e: Endianness) -> u64 {
    match e {
        Endianness::LittleEndian => le_u64(s),
        Endianness::BigEndian => be_u64(s),
    }
}

/// The two's-complement reading of the 8-bit pattern `x`.
pub open spec fn signed8(x: u8) -> i8 {
    if x < 0x80 {
        x as i8
    } else {
        (x - 0x100) as i8
    }
}

/// The two's-complement reading of the 16-bit pattern `x`.
pub open spec fn signed16(x: u16) -> i16 {
    if x < 0x8000 {
        x as i16
    } else {
        (x - 0x1_0000) as i16
    }
}

/// The two's-complement reading of the 32-bit pattern `x`.
pub open spec fn signed32(x: u32) -> i32 {
    if x < 0x8000_0000 {
        x as i32
    } else {
        (x - 0x1_0000_0000) as i32
    }
}

/// The two's-complement reading of the 64-bit pattern `x`.
pub open spec fn signed64(x: u64) -> i64 {
    if x < 0x8000_0000_0000_0000 {
        x as i64
    } else {
        (x - 0x1_0000_0000_0000_0000) as i64
    }
}

/// `byteorder::LittleEndian::read_u16`: the value of the first two bytes of
/// `buf`, the first byte being the least significant.
#[verifier::external_body]
fn le_read_u16(buf: &[u8]) -> (x: u16)
    requires
        buf@.len() >= 2,
    ensures
        x == le_u16(buf@),
{
    byteorder::LittleEndian::read_u16(buf)
}

/// `byteorder::BigEndian::read_u16`: the value of the first two bytes of
/// `buf`, the first byte being the most significant.
#[verifier::external_body]
fn be_read_u16(buf: &[u8]) -> (x: u16)
    requires
        buf@.len() >= 2,
    ensures
        x == be_u16(buf@),
{
    byteorder::BigEndian::read_u16(buf)
}

/// `byteorder::LittleEndian::read_u32`: the value of the first four bytes of
/// `buf`, the first byte being the least significant.
#[verifier::external_body]
fn le_read_u32(buf: &[u8]) -> (x: u32)
    requires
        buf@.len() >= 4,
    ensures
        x == le_u32(buf@),
{
    byteorder::LittleEndian::read_u32(buf)
}

/// `byteorder::BigEndian::read_u32`: the value of the first four bytes of
/// `buf`, the first byte being the most significant.
#[verifier::external_body]
fn be_read_u32(buf: &[u8]) -> (x: u32)
    requires
        buf@.len() >= 4,
    ensures
        x == be_u32(buf@),
{
    byteorder::BigEndian::read_u32(buf)
}

/// `byteorder::LittleEndian::read_u64`: the value of the first eight bytes of
/// `buf`, the first byte being the least significant.
#[verifier::external_body]
fn le_read_u64(buf: &[u8]) -> (x: u64)
    requires
        buf@.len() >= 8,
    ensures
        x == le_u64(buf@),
{
    byteorder::LittleEndian::read_u64(buf)
}

/// `byteorder::BigEndian::read_u64`: the value of the first eight bytes of
/// `buf`, the first byte being the most significant.
#[verifier::external_body]
fn be_read_u64(buf: &[u8]) -> (x: u64)
    requires
        buf@.len() >= 8,
    ensures
        x == be_u64(buf@),
{
    byteorder::BigEndian::read_u64(buf)
}

/// Decodes the unsigned 16-bit integer at the start of `buf`.
pub fn decode_u16(buf: &[u8], endianness: Endianness) -> (x: u16)
    requires
        buf@.len() >= 2,
    ensures
        x == spec_u16(buf@, endianness),
{
    match endianness {
        Endianness::LittleEndian => le_read_u16(buf),
        Endianness::BigEndian => be_read_u16(buf),
    }
}

/// Decodes the unsigned 32-bit integer at the start of `buf`.
pub fn decode_u32(buf: &[u8], endianness: Endianness) -> (x: u32)
    requires
        buf@.len() >= 4,
    ensures
        x == spec_u32(buf@, endianness),
{
    match endianness {
        Endianness::LittleEndian => le_read_u32(buf),
        Endianness::BigEndian => be_read_u32(buf),
    }
}

/// Decodes the unsigned 64-bit integer at the start of `buf`.
pub fn decode_u64(buf: &[u8], endianness: Endianness) -> (x: u64)
    requires
        buf@.len() >= 8,
    ensures
        x == spec_u64(buf@, endianness),
{
    match endianness {
        Endianness::LittleEndian => le_read_u64(buf),
        Endianness::BigEndian => be_read_u64(buf),
    }
}

/// Reads the bit pattern `x` as a two's-complement number.
pub fn to_i8(x: u8) -> (y: i8)
    ensures
        y == signed8(x),
{
    if x < 0x80 {
        x as i8
    } else {
        (x as i16 - 0x100) as i8
    }
}

/// Reads the bit pattern `x` as a two's-complement number.
pub fn to_i16(x: u16) -> (y: i16)
    ensures
        y == signed16(x),
{
    if x < 0x8000 {
        x as i16
    } else {
        (x as i32 - 0x1_0000) as i16
    }
}

/// Reads the bit pattern `x` as a two's-complement number.
pub fn to_i32(x: u32) -> (y: i32)
    ensures
        y == signed32(x),
{
    if x < 0x8000_0000 {
        x as i32
    } else {
        (x as i64 - 0x1_0000_0000) as i32
    }
}

/// Reads the bit pattern `x` as a two's-complement number.
pub fn to_i64(x: u64) -> (y: i64)
    ensures
        y == signed64(x),
{
    if x < 0x8000_0000_0000_0000 {
        x as i64
    } else {
        (x as i128 - 0x1_0000_0000_0000_0000) as i64
    }
}

/// What a cursor is, as mathematics: the bytes it holds, the offset of the
/// first of them in the remote object, and where the next read starts.
pub struct CursorView {
    pub window: Seq<u8>,
    pub base: int,
    pub offset: int,
    pub endianness: Endianness,
}

impl CursorView {
    /// Whether the window holds the `length` bytes from the current offset on,
    /// at offsets that a remote object can have.
    pub open spec fn covers(self, length: int) -> bool {
        &&& self.base <= self.offset
        &&& self.offset + length <= self.base + self.window.len()
        &&& self.offset + length <= u64::MAX
    }

    /// The `length` bytes from the current offset on.
    pub open spec fn peek(self, length: int) -> Seq<u8> {
        self.window.subrange(self.offset - self.base, self.offset - self.base + length)
    }

    /// The same cursor, `length` bytes further on.
    pub open spec fn skip(self, length: int) -> CursorView {
        CursorView { offset: self.offset + length, ..self }
    }

    /// The same cursor at the absolute offset `offset`.
    pub open spec fn at(self, offset: int) -> CursorView {
        CursorView { offset, ..self }
    }

    /// What a read of `width` bytes that decodes them to `value` does: where
    /// the window holds the bytes, it gives `value` and leaves the cursor
    /// `after` past them; where not, it fails and leaves the cursor as it was.
    pub open spec fn reads<T>(
        self,
        width: int,
        value: T,
        outcome: Result<T, AiocogeoError>,
        after: CursorView,
    ) -> bool {
        if self.covers(width) {
            outcome == Ok::<T, AiocogeoError>(value) && after == self.skip(width)
        } else {
            outcome == Err::<T, AiocogeoError>(AiocogeoError::RangeFetch) && after == self
        }
    }
}

/// A seekable reader over the bytes fetched for one range of a remote object.
///
/// Offsets are those of the remote object. A read of bytes that the window
/// does not hold fails and leaves the cursor where it was.
pub struct ByteRangeCursor<'a> {
    window: &'a [u8],
    base: u64,
    offset: u64,
    endianness: Endianness,
}

impl<'a> View for ByteRangeCursor<'a> {
    type V = CursorView;

    closed spec fn view(&self) -> CursorView {
        CursorView {
            window: self.window@,
            base: self.base as int,
            offset: self.offset as int,
            endianness: self.endianness,
        }
    }
}

impl<'a> ByteRangeCursor<'a> {
    /// A cursor over `window`, whose first byte lies at offset `base` of the
    /// remote object. It starts at `base`.
    pub fn new(window: &'a [u8], base: u64, endianness: Endianness) -> (cursor: Self)
        ensures
            cursor@ == (CursorView {
                window: window@,
                base: base as int,
                offset: base as int,
                endianness,
            }),
    {
        ByteRangeCursor { window, base, offset: base, endianness }
    }

    pub fn set_endianness(&mut self, endianness: Endianness)
        ensures
            final(self)@ == (CursorView { endianness, ..old(self)@ }),
    {
        self.endianness = endianness;
    }

    pub fn endianness(&self) -> (e: Endianness)
        ensures
            e == self@.endianness,
    {
        self.endianness
    }

    /// The offset at which the next read starts.
    pub fn position(&self) -> (offset: u64)
        ensures
            offset == self@.offset,
    {
        self.offset
    }

    /// Moves to the absolute offset `offset`. No bytes are touched.
    pub fn seek(&mut self, offset: u64)
        ensures
            final(self)@ == old(self)@.at(offset as int),
    {
        self.offset = offset;
    }

    /// Skips `amount` bytes. No bytes are touched.
    pub fn advance(&mut self, amount: u64)
        requires
            old(self)@.offset + amount <= u64::MAX,
        ensures
            final(self)@ == old(self)@.skip(amount as int),
    {
        self.offset = self.offset + amount;
    }

    /// The `length` bytes from the current offset on; the cursor moves past them.
    pub fn read(&mut self, length: u64) -> (bytes: Result<&'a [u8], AiocogeoError>)
        ensures
            old(self)@.covers(length as int) ==> bytes is Ok && bytes->Ok_0@ == old(self)@.peek(
                length as int,
            ) && final(self)@ == old(self)@.skip(length as int),
            !old(self)@.covers(length as int) ==> bytes == Err::<&[u8], _>(
                AiocogeoError::RangeFetch,
            ) && final(self)@ == old(self)@,
    {
        if self.offset < self.base {
            return Err(AiocogeoError::RangeFetch);
        }
        let start: u64 = self.offset - self.base;
        let held: u64 = self.window.len() as u64;
        if start > held || length > held - start || length > u64::MAX - self.offset {
            return Err(AiocogeoError::RangeFetch);
        }
        let from: usize = start as usize;
        let bytes = slice_subrange(self.window, from, from + length as usize);
        self.offset = self.offset + length;
        Ok(bytes)
    }

    /// Reads one byte.
    pub fn read_u8(&mut self) -> (r: Result<u8, AiocogeoError>)
        ensures
            old(self)@.reads(1, old(self)@.peek(1)[0], r, final(self)@),
    {
        let bytes = self.read(1)?;
        Ok(bytes[0])
    }

    /// Reads one byte as a two's-complement number.
    pub fn read_i8(&mut self) -> (r: Result<i8, AiocogeoError>)
        ensures
            old(self)@.reads(1, signed8(old(self)@.peek(1)[0]), r, final(self)@),
    {
        let bytes = self.read(1)?;
        Ok(to_i8(bytes[0]))
    }

    /// Reads two bytes as an unsigned integer in the cursor's byte order.
    pub fn read_u16(&mut self) -> (r: Result<u16, AiocogeoError>)
        ensures
            old(self)@.reads(
                2,
                spec_u16(old(self)@.peek(2), old(self)@.endianness),
                r,
                final(self)@,
            ),
    {
        let bytes = self.read(2)?;
        Ok(decode_u16(bytes, self.endianness))
    }

    /// Reads four bytes as an unsigned integer in the cursor's byte order.
    pub fn read_u32(&mut self) -> (r: Result<u32, AiocogeoError>)
        ensures
            old(self)@.reads(
                4,
                spec_u32(old(self)@.peek(4), old(self)@.endianness),
                r,
                final(self)@,
            ),
    {
        let bytes = self.read(4)?;
        Ok(decode_u32(bytes, self.endianness))
    }

    /// Reads eight bytes as an unsigned integer in the cursor's byte order.
    pub fn read_u64(&mut self) -> (r: Result<u64, AiocogeoError>)
        ensures
            old(self)@.reads(
                8,
                spec_u64(old(self)@.peek(8), old(self)@.endianness),
                r,
                final(self)@,
            ),
    {
        let bytes = self.read(8)?;
        Ok(decode_u64(bytes, self.endianness))
    }

    /// Reads two bytes as a two's-complement number in the cursor's byte order.
    pub fn read_i16(&mut self) -> (r: Result<i16, AiocogeoError>)
        ensures
            old(self)@.reads(
                2,
                signed16(spec_u16(old(self)@.peek(2), old(self)@.endianness)),
                r,
                final(self)@,
            ),
    {
        let bytes = self.read(2)?;
        Ok(to_i16(decode_u16(bytes, self.endianness)))
    }

    /// Reads four bytes as a two's-complement number in the cursor's byte order.
    pub fn read_i32(&mut self) -> (r: Result<i32, AiocogeoError>)
        ensures
            old(self)@.reads(
                4,
                signed32(spec_u32(old(self)@.peek(4), old(self)@.endianness)),
                r,
                final(self)@,
            ),
    {
        let bytes = self.read(4)?;
        Ok(to_i32(decode_u32(bytes, self.endianness)))
    }

    /// Reads eight bytes as a two's-complement number in the cursor's byte order.
    pub fn read_i64(&mut self) -> (r: Result<i64, AiocogeoError>)
        ensures
            old(self)@.reads(
                8,
                signed64(spec_u64(old(self)@.peek(8), old(self)@.endianness)),
                r,
                final(self)@,
            ),
    {
        let bytes = self.read(8)?;
        Ok(to_i64(decode_u64(bytes, self.endianness)))
    }

    /// Reads the bit pattern of a 32-bit IEEE 754 number in the cursor's byte order.
    pub fn read_f32_bits(&mut self) -> (r: Result<u32, AiocogeoError>)
        ensures
            old(self)@.reads(
                4,
                spec_u32(old(self)@.peek(4), old(self)@.endianness),
                r,
                final(self)@,
            ),
    {
        self.read_u32()
    }

    /// Reads the bit pattern of a 64-bit IEEE 754 number in the cursor's byte order.
    pub fn read_f64_bits(&mut self) -> (r: Result<u64, AiocogeoError>)
        ensures
            old(self)@.reads(
                8,
                spec_u64(old(self)@.peek(8), old(self)@.endianness),
                r,
                final(self)@,
            ),
    {
        self.read_u64()
    }
}

} // verus!

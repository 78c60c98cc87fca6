use crate::cursor::{
    decode_u16, decode_u32, decode_u64, signed16, signed32, signed64, signed8, spec_u16, spec_u32,
    spec_u64, to_i16, to_i32, to_i64, to_i8, Endianness,
};
use crate::error::AiocogeoError;
use crate::tag::{spec_value_len, value_len, WireType};
use vstd::prelude::*;
use vstd::slice::{slice_subrange, slice_to_vec};
use vstd::utf8::{decode_utf8, pop_first_scalar, valid_utf8};

verus! {

/// The decoded value of one tag.
///
/// A floating-point number is held as its IEEE 754 bit pattern.
#[derive(Debug, PartialEq, Eq)]
pub enum Value {
    Byte(u8),
    Short(u16),
    Signed(i32),
    SignedBig(i64),
    Unsigned(u32),
    UnsignedBig(u64),
    /// Bit pattern of a 32-bit IEEE 754 number.
    Float(u32),
    /// Bit pattern of a 64-bit IEEE 754 number.
    Double(u64),
    /// Values in the order in which the file holds them.
    List(Vec<Value>),
    /// Numerator and denominator.
    Rational(u32, u32),
    /// Numerator and denominator.
    SRational(i32, i32),
    Ascii(String),
    Ifd(u32),
    IfdBig(u64),
}

impl Clone for Value {
    fn clone(&self) -> (copy: Self)
        ensures
            self.same_as(copy),
        decreases self,
    {
        match self {
            Value::Byte(n) => Value::Byte(*n),
            Value::Short(n) => Value::Short(*n),
            Value::Signed(n) => Value::Signed(*n),
            Value::SignedBig(n) => Value::SignedBig(*n),
            Value::Unsigned(n) => Value::Unsigned(*n),
            Value::UnsignedBig(n) => Value::UnsignedBig(*n),
            Value::Float(bits) => Value::Float(*bits),
            Value::Double(bits) => Value::Double(*bits),
            Value::List(items) => {
                let mut copies: Vec<Value> = Vec::new();
                let mut i: usize = 0;
                while i < items.len()
                    invariant
                        i <= items@.len(),
                        copies@.len() == i,
                        *self == Value::List(*items),
                        forall|j: int| 0 <= j < i ==> (#[trigger] items@[j]).same_as(copies@[j]),
                    decreases items@.len() - i,
                {
                    proof {
                        vstd::std_specs::vec::axiom_vec_index_decreases(*items, i as int);
                        assert(decreases_to!(*self => self->List_0));
                    }
                    copies.push(items[i].clone());
                    i += 1;
                }
                Value::List(copies)
            },
            Value::Rational(numerator, denominator) => Value::Rational(*numerator, *denominator),
            Value::SRational(numerator, denominator) => Value::SRational(*numerator, *denominator),
            Value::Ascii(text) => Value::Ascii(text.clone()),
            Value::Ifd(n) => Value::Ifd(*n),
            Value::IfdBig(n) => Value::IfdBig(*n),
        }
    }
}

/// A value as mathematics: a list by its items, a text by its characters,
/// anything else by itself.
pub enum ValueView {
    Scalar(Value),
    List(Seq<Value>),
    Ascii(Seq<char>),
}

impl View for Value {
    type V = ValueView;

    open spec fn view(&self) -> ValueView {
        match self {
            Value::List(items) => ValueView::List(items@),
            Value::Ascii(text) => ValueView::Ascii(text@),
            _ => ValueView::Scalar(*self),
        }
    }
}

/// The outcome of a conversion that gives `wanted` where the value holds one,
/// and is refused where it holds none.
pub open spec fn converted<T>(wanted: Option<T>) -> Result<T, AiocogeoError> {
    match wanted {
        Some(x) => Ok(x),
        None => Err(AiocogeoError::InvalidTagEncoding),
    }
}

impl Value {
    /// Whether `other` holds what `self` holds: the same scalar, the same
    /// characters, or items that hold the same one by one.
    pub open spec fn same_as(self, other: Value) -> bool
        decreases self,
    {
        match (self, other) {
            (Value::List(items), Value::List(others)) => items@.len() == others@.len()
                && forall|i: int|
                0 <= i < items@.len() ==> (#[trigger] items@[i]).same_as(others@[i]),
            (Value::Ascii(text), Value::Ascii(other)) => text@ == other@,
            (Value::List(_), _) | (_, Value::List(_)) | (Value::Ascii(_), _) | (
                _,
                Value::Ascii(_),
            ) => false,
            _ => self == other,
        }
    }

    /// The number that an unsigned integer value holds; `None` for any other value.
    pub open spec fn unsigned(self) -> Option<int> {
        match self {
            Value::Byte(n) => Some(n as int),
            Value::Short(n) => Some(n as int),
            Value::Unsigned(n) => Some(n as int),
            Value::UnsignedBig(n) => Some(n as int),
            Value::Ifd(n) => Some(n as int),
            Value::IfdBig(n) => Some(n as int),
            _ => None,
        }
    }

    /// Whether this is an unsigned integer value of at most `max`.
    pub open spec fn fits(self, max: int) -> bool {
        self.unsigned() matches Some(n) && n <= max
    }
}

impl ValueView {
    /// The numbers of a list of unsigned integers of at most `max` each, or the
    /// one number of such an integer that stands alone; `None` for any other value.
    pub open spec fn unsigned_seq(self, max: int) -> Option<Seq<int>> {
        match self {
            ValueView::List(items) => if forall|i: int|
                0 <= i < items.len() ==> (#[trigger] items[i]).fits(max) {
                Some(Seq::new(items.len(), |i: int| items[i].unsigned().unwrap()))
            } else {
                None
            },
            ValueView::Scalar(value) => if value.fits(max) {
                Some(seq![value.unsigned().unwrap()])
            } else {
                None
            },
            ValueView::Ascii(_) => None,
        }
    }

    /// The number of an unsigned integer value that fits in 8 bits.
    pub open spec fn as_u8(self) -> Option<u8> {
        match self {
            ValueView::Scalar(value) => if value.fits(u8::MAX as int) {
                Some(value.unsigned().unwrap() as u8)
            } else {
                None
            },
            _ => None,
        }
    }

    /// The numbers of a list of unsigned integers that fit in 8 bits each, or
    /// the one number of such an integer that stands alone.
    pub open spec fn as_u8_seq(self) -> Option<Seq<u8>> {
        match self.unsigned_seq(u8::MAX as int) {
            Some(numbers) => Some(Seq::new(numbers.len(), |i: int| numbers[i] as u8)),
            None => None,
        }
    }

    /// The number of an unsigned integer value that fits in 16 bits.
    pub open spec fn as_u16(self) -> Option<u16> {
        match self {
            ValueView::Scalar(value) => if value.fits(u16::MAX as int) {
                Some(value.unsigned().unwrap() as u16)
            } else {
                None
            },
            _ => None,
        }
    }

    /// The numbers of a list of unsigned integers that fit in 16 bits each, or
    /// the one number of such an integer that stands alone.
    pub open spec fn as_u16_seq(self) -> Option<Seq<u16>> {
        match self.unsigned_seq(u16::MAX as int) {
            Some(numbers) => Some(Seq::new(numbers.len(), |i: int| numbers[i] as u16)),
            None => None,
        }
    }

    /// The number of an unsigned integer value that fits in 32 bits.
    pub open spec fn as_u32(self) -> Option<u32> {
        match self {
            ValueView::Scalar(value) => if value.fits(u32::MAX as int) {
                Some(value.unsigned().unwrap() as u32)
            } else {
                None
            },
            _ => None,
        }
    }

    /// The numbers of a list of unsigned integers that fit in 32 bits each, or
    /// the one number of such an integer that stands alone.
    pub open spec fn as_u32_seq(self) -> Option<Seq<u32>> {
        match self.unsigned_seq(u32::MAX as int) {
            Some(numbers) => Some(Seq::new(numbers.len(), |i: int| numbers[i] as u32)),
            None => None,
        }
    }

    /// The bit pattern of a 64-bit floating-point value.
    pub open spec fn as_f64_bits(self) -> Option<u64> {
        match self {
            ValueView::Scalar(Value::Double(bits)) => Some(bits),
            _ => None,
        }
    }

    /// The bit patterns of a list of 64-bit floating-point numbers, or the one
    /// pattern of such a number that stands alone.
    pub open spec fn as_f64_bits_seq(self) -> Option<Seq<u64>> {
        match self {
            ValueView::List(items) => if forall|i: int|
                0 <= i < items.len() ==> (#[trigger] items[i]) is Double {
                Some(Seq::new(items.len(), |i: int| items[i]->Double_0))
            } else {
                None
            },
            ValueView::Scalar(Value::Double(bits)) => Some(seq![bits]),
            _ => None,
        }
    }

    /// The characters of a text value.
    pub open spec fn as_text(self) -> Option<Seq<char>> {
        match self {
            ValueView::Ascii(text) => Some(text),
            _ => None,
        }
    }

    /// Numerator and denominator of an unsigned rational value.
    pub open spec fn as_rational(self) -> Option<(u32, u32)> {
        match self {
            ValueView::Scalar(Value::Rational(numerator, denominator)) => Some(
                (numerator, denominator),
            ),
            _ => None,
        }
    }
}

impl Value {
    fn unsigned_u64(&self) -> (n: Option<u64>)
        ensures
            n is Some <==> self.unsigned() is Some,
            n matches Some(x) ==> self.unsigned() == Some(x as int),
    {
        match self {
            Value::Byte(n) => Some(*n as u64),
            Value::Short(n) => Some(*n as u64),
            Value::Unsigned(n) => Some(*n as u64),
            Value::UnsignedBig(n) => Some(*n),
            Value::Ifd(n) => Some(*n as u64),
            Value::IfdBig(n) => Some(*n),
            _ => None,
        }
    }

    /// The number of an unsigned integer value that fits in 8 bits.
    pub fn to_u8(&self) -> (r: Result<u8, AiocogeoError>)
        ensures
            r == converted(self@.as_u8()),
    {
        match self.unsigned_u64() {
            Some(n) if n <= u8::MAX as u64 => Ok(n as u8),
            _ => Err(AiocogeoError::InvalidTagEncoding),
        }
    }

    /// The number of an unsigned integer value that fits in 16 bits.
    pub fn to_u16(&self) -> (r: Result<u16, AiocogeoError>)
        ensures
            r == converted(self@.as_u16()),
    {
        match self.unsigned_u64() {
            Some(n) if n <= u16::MAX as u64 => Ok(n as u16),
            _ => Err(AiocogeoError::InvalidTagEncoding),
        }
    }

    /// The number of an unsigned integer value that fits in 32 bits.
    pub fn to_u32(&self) -> (r: Result<u32, AiocogeoError>)
        ensures
            r == converted(self@.as_u32()),
    {
        match self.unsigned_u64() {
            Some(n) if n <= u32::MAX as u64 => Ok(n as u32),
            _ => Err(AiocogeoError::InvalidTagEncoding),
        }
    }

    /// The bit pattern of a 64-bit floating-point value.
    pub fn to_f64_bits(&self) -> (r: Result<u64, AiocogeoError>)
        ensures
            r == converted(self@.as_f64_bits()),
    {
        match self {
            Value::Double(bits) => Ok(*bits),
            _ => Err(AiocogeoError::InvalidTagEncoding),
        }
    }

    /// Numerator and denominator of an unsigned rational value.
    pub fn to_rational(&self) -> (r: Result<(u32, u32), AiocogeoError>)
        ensures
            r == converted(self@.as_rational()),
    {
        match self {
            Value::Rational(numerator, denominator) => Ok((*numerator, *denominator)),
            _ => Err(AiocogeoError::InvalidTagEncoding),
        }
    }

    /// The text of a text value.
    pub fn to_text(&self) -> (r: Result<String, AiocogeoError>)
        ensures
            match self@.as_text() {
                Some(text) => r is Ok && r->Ok_0@ == text,
                None => r == Err::<String, _>(AiocogeoError::InvalidTagEncoding),
            },
    {
        match self {
            Value::Ascii(text) => Ok(text.clone()),
            _ => Err(AiocogeoError::InvalidTagEncoding),
        }
    }

    fn to_unsigned_vec(&self, max: u64) -> (r: Result<Vec<u64>, AiocogeoError>)
        ensures
            match self@.unsigned_seq(max as int) {
                Some(numbers) => r is Ok && r->Ok_0@.len() == numbers.len() && forall|i: int|
                    0 <= i < numbers.len() ==> (#[trigger] r->Ok_0@[i]) == numbers[i] && numbers[i]
                        <= max,
                None => r == Err::<Vec<u64>, _>(AiocogeoError::InvalidTagEncoding),
            },
    {
        match self {
            Value::List(items) => {
                let mut numbers: Vec<u64> = Vec::new();
                let mut i: usize = 0;
                while i < items.len()
                    invariant
                        i <= items@.len(),
                        numbers@.len() == i,
                        *self == Value::List(*items),
                        forall|j: int|
                            0 <= j < i ==> (#[trigger] items@[j]).fits(max as int)
                                && items@[j].unsigned() == Some(numbers@[j] as int),
                    decreases items@.len() - i,
                {
                    match items[i].unsigned_u64() {
                        Some(n) if n <= max => numbers.push(n),
                        _ => {
                            assert(!items@[i as int].fits(max as int));
                            return Err(AiocogeoError::InvalidTagEncoding);
                        },
                    }
                    i += 1;
                }
                Ok(numbers)
            },
            _ => match self.unsigned_u64() {
                Some(n) if n <= max => {
                    let mut numbers: Vec<u64> = Vec::new();
                    numbers.push(n);
                    Ok(numbers)
                },
                _ => Err(AiocogeoError::InvalidTagEncoding),
            },
        }
    }

    /// The numbers of a list of unsigned integers that fit in 8 bits each, or
    /// of one such integer.
    pub fn to_u8_vec(&self) -> (r: Result<Vec<u8>, AiocogeoError>)
        ensures
            match self@.as_u8_seq() {
                Some(numbers) => r is Ok && r->Ok_0@ == numbers,
                None => r == Err::<Vec<u8>, _>(AiocogeoError::InvalidTagEncoding),
            },
    {
        let wide = self.to_unsigned_vec(u8::MAX as u64)?;
        let mut numbers: Vec<u8> = Vec::new();
        let mut i: usize = 0;
        while i < wide.len()
            invariant
                i <= wide@.len(),
                numbers@.len() == i,
                forall|j: int| 0 <= j < wide@.len() ==> (#[trigger] wide@[j]) <= u8::MAX,
                forall|j: int| 0 <= j < i ==> (#[trigger] numbers@[j]) == wide@[j],
            decreases wide@.len() - i,
        {
            numbers.push(wide[i] as u8);
            i += 1;
        }
        assert(numbers@ =~= self@.as_u8_seq().unwrap());
        Ok(numbers)
    }

    /// The numbers of a list of unsigned integers that fit in 16 bits each, or
    /// of one such integer.
    pub fn to_u16_vec(&self) -> (r: Result<Vec<u16>, AiocogeoError>)
        ensures
            match self@.as_u16_seq() {
                Some(numbers) => r is Ok && r->Ok_0@ == numbers,
                None => r == Err::<Vec<u16>, _>(AiocogeoError::InvalidTagEncoding),
            },
    {
        let wide = self.to_unsigned_vec(u16::MAX as u64)?;
        let mut numbers: Vec<u16> = Vec::new();
        let mut i: usize = 0;
        while i < wide.len()
            invariant
                i <= wide@.len(),
                numbers@.len() == i,
                forall|j: int| 0 <= j < wide@.len() ==> (#[trigger] wide@[j]) <= u16::MAX,
                forall|j: int| 0 <= j < i ==> (#[trigger] numbers@[j]) == wide@[j],
            decreases wide@.len() - i,
        {
            numbers.push(wide[i] as u16);
            i += 1;
        }
        assert(numbers@ =~= self@.as_u16_seq().unwrap());
        Ok(numbers)
    }

    /// The numbers of a list of unsigned integers that fit in 32 bits each, or
    /// of one such integer.
    pub fn to_u32_vec(&self) -> (r: Result<Vec<u32>, AiocogeoError>)
        ensures
            match self@.as_u32_seq() {
                Some(numbers) => r is Ok && r->Ok_0@ == numbers,
                None => r == Err::<Vec<u32>, _>(AiocogeoError::InvalidTagEncoding),
            },
    {
        let wide = self.to_unsigned_vec(u32::MAX as u64)?;
        let mut numbers: Vec<u32> = Vec::new();
        let mut i: usize = 0;
        while i < wide.len()
            invariant
                i <= wide@.len(),
                numbers@.len() == i,
                forall|j: int| 0 <= j < wide@.len() ==> (#[trigger] wide@[j]) <= u32::MAX,
                forall|j: int| 0 <= j < i ==> (#[trigger] numbers@[j]) == wide@[j],
            decreases wide@.len() - i,
        {
            numbers.push(wide[i] as u32);
            i += 1;
        }
        assert(numbers@ =~= self@.as_u32_seq().unwrap());
        Ok(numbers)
    }

    /// The bit patterns of a list of 64-bit floating-point numbers, or of one
    /// such number.
    pub fn to_f64_bits_vec(&self) -> (r: Result<Vec<u64>, AiocogeoError>)
        ensures
            match self@.as_f64_bits_seq() {
                Some(patterns) => r is Ok && r->Ok_0@ == patterns,
                None => r == Err::<Vec<u64>, _>(AiocogeoError::InvalidTagEncoding),
            },
    {
        match self {
            Value::List(items) => {
                let mut patterns: Vec<u64> = Vec::new();
                let mut i: usize = 0;
                while i < items.len()
                    invariant
                        i <= items@.len(),
                        patterns@.len() == i,
                        *self == Value::List(*items),
                        forall|j: int|
                            0 <= j < i ==> (#[trigger] items@[j]) is Double
                                && items@[j]->Double_0 == patterns@[j],
                    decreases items@.len() - i,
                {
                    match &items[i] {
                        Value::Double(bits) => patterns.push(*bits),
                        _ => {
                            assert(!(items@[i as int] is Double));
                            return Err(AiocogeoError::InvalidTagEncoding);
                        },
                    }
                    i += 1;
                }
                assert(patterns@ =~= Seq::new(items@.len(), |i: int| items@[i]->Double_0));
                Ok(patterns)
            },
            Value::Double(bits) => {
                let mut patterns: Vec<u64> = Vec::new();
                patterns.push(*bits);
                assert(patterns@ =~= seq![*bits]);
                Ok(patterns)
            },
            _ => Err(AiocogeoError::InvalidTagEncoding),
        }
    }
}

/// The single value of type `wire_type` that the bytes `s` hold in byte
/// order `e`. A character of a text is read as a byte here: texts are decoded
/// as a whole, by `spec_text`.
pub open spec fn spec_scalar(wire_type: WireType, s: Seq<u8>, e: Endianness) -> Value {
    match wire_type {
        WireType::Byte | WireType::Undefined | WireType::Ascii => Value::Byte(s[0]),
        WireType::SByte => Value::Signed(signed8(s[0]) as i32),
        WireType::Short => Value::Short(spec_u16(s, e)),
        WireType::SShort => Value::Signed(signed16(spec_u16(s, e)) as i32),
        WireType::Long => Value::Unsigned(spec_u32(s, e)),
        WireType::SLong => Value::Signed(signed32(spec_u32(s, e))),
        WireType::Float => Value::Float(spec_u32(s, e)),
        WireType::Ifd => Value::Ifd(spec_u32(s, e)),
        WireType::Rational => Value::Rational(spec_u32(s, e), spec_u32(s.subrange(4, 8), e)),
        WireType::SRational => Value::SRational(
            signed32(spec_u32(s, e)),
            signed32(spec_u32(s.subrange(4, 8), e)),
        ),
        WireType::Double => Value::Double(spec_u64(s, e)),
        WireType::Long8 => Value::UnsignedBig(spec_u64(s, e)),
        WireType::SLong8 => Value::SignedBig(signed64(spec_u64(s, e))),
        WireType::Ifd8 => Value::IfdBig(spec_u64(s, e)),
    }
}

/// The `i`-th of the values of type `wire_type` that `bytes` hold one after another.
pub open spec fn spec_item(wire_type: WireType, bytes: Seq<u8>, i: int, e: Endianness) -> Value {
    spec_scalar(
        wire_type,
        bytes.subrange(i * wire_type.spec_width(), (i + 1) * wire_type.spec_width()),
        e,
    )
}

/// Number of bytes of `bytes` before its first NUL; its length if it has none.
pub open spec fn text_len(bytes: Seq<u8>) -> int
    decreases bytes.len(),
{
    if bytes.len() == 0 || bytes[0] == 0 {
        0
    } else {
        1 + text_len(bytes.drop_first())
    }
}

/// Whether each of `bytes` is a 7-bit code.
pub open spec fn all_seven_bit(bytes: Seq<u8>) -> bool {
    forall|i: int| 0 <= i < bytes.len() ==> #[trigger] bytes[i] < 0x80
}

/// The text that the bytes of a text tag spell: what stands before the first
/// NUL. Bytes that fit into a tag record itself (four at most) must be 7-bit
/// codes and end in NUL; each byte of their text is a character. Bytes that
/// stand elsewhere are read as UTF-8. `None` where the bytes spell no text.
pub open spec fn spec_text(bytes: Seq<u8>) -> Option<Seq<char>> {
    let text = bytes.subrange(0, text_len(bytes));
    if bytes.len() <= 4 {
        if bytes.len() > 0 && bytes.last() == 0 && all_seven_bit(bytes) {
            Some(Seq::new(text.len(), |i: int| text[i] as char))
        } else {
            None
        }
    } else if valid_utf8(text) {
        Some(decode_utf8(text))
    } else {
        None
    }
}

/// What `count` values of type `wire_type` decode to, given the `bytes` that
/// hold them and nothing else, in byte order `e`:
/// no value at all is the empty list; a text is one value whatever its count;
/// one value stands alone; several form a list in file order.
pub open spec fn spec_decode_value(
    wire_type: WireType,
    count: u32,
    bytes: Seq<u8>,
    e: Endianness,
) -> Result<ValueView, AiocogeoError> {
    if bytes.len() != spec_value_len(wire_type, count) {
        Err(AiocogeoError::RangeFetch)
    } else if count == 0 {
        Ok(ValueView::List(Seq::empty()))
    } else if wire_type == WireType::Ascii {
        match spec_text(bytes) {
            Some(text) => Ok(ValueView::Ascii(text)),
            None => Err(AiocogeoError::InvalidTagEncoding),
        }
    } else if count == 1 {
        Ok(ValueView::Scalar(spec_scalar(wire_type, bytes, e)))
    } else {
        Ok(ValueView::List(Seq::new(count as nat, |i: int| spec_item(wire_type, bytes, i, e))))
    }
}

/// Whether `outcome` is the value, or the error, that `expected` describes.
pub open spec fn value_is(
    outcome: Result<Value, AiocogeoError>,
    expected: Result<ValueView, AiocogeoError>,
) -> bool {
    match expected {
        Ok(view) => outcome is Ok && outcome->Ok_0@ == view,
        Err(error) => outcome == Err::<Value, AiocogeoError>(error),
    }
}

/// The text ends where the bytes before are not NUL and the byte there, if any, is.
pub proof fn lemma_text_len(bytes: Seq<u8>, k: int)
    requires
        0 <= k <= bytes.len(),
        forall|i: int| 0 <= i < k ==> bytes[i] != 0,
        k < bytes.len() ==> bytes[k] == 0,
    ensures
        text_len(bytes) == k,
    decreases k,
{
    if k > 0 {
        lemma_text_len(bytes.drop_first(), k - 1);
    }
}

/// Bytes that are 7-bit codes are UTF-8, each byte a character.
pub proof fn lemma_seven_bit_is_utf8(bytes: Seq<u8>)
    requires
        all_seven_bit(bytes),
    ensures
        valid_utf8(bytes),
        decode_utf8(bytes) == Seq::new(bytes.len(), |i: int| bytes[i] as char),
    decreases bytes.len(),
{
    if bytes.len() > 0 {
        let first = bytes[0];
        let rest = bytes.subrange(1, bytes.len() as int);
        assert(first & 0x7f == first) by (bit_vector)
            requires
                first < 0x80,
        ;
        assert(pop_first_scalar(bytes) == rest);
        assert(all_seven_bit(rest)) by {
            assert forall|i: int| 0 <= i < rest.len() implies #[trigger] rest[i] < 0x80 by {
                assert(rest[i] == bytes[i + 1]);
            }
        }
        lemma_seven_bit_is_utf8(rest);
        assert(decode_utf8(bytes) =~= Seq::new(bytes.len(), |i: int| bytes[i] as char)) by {
            assert forall|i: int| 0 <= i < bytes.len() implies decode_utf8(bytes)[i]
                == bytes[i] as char by {
                if i > 0 {
                    assert(rest[i - 1] == bytes[i]);
                }
            }
        }
    } else {
        assert(decode_utf8(bytes) =~= Seq::new(bytes.len(), |i: int| bytes[i] as char));
    }
}

/// `String::from_utf8`: the text that `bytes` encode in UTF-8, where they
/// encode one; `None` where they are not valid UTF-8.
#[verifier::external_body]
pub(crate) fn string_from_utf8(bytes: Vec<u8>) -> (text: Option<String>)
    ensures
        text is Some <==> valid_utf8(bytes@),
        text matches Some(t) ==> t@ == decode_utf8(bytes@),
{
    String::from_utf8(bytes).ok()
}

fn is_seven_bit(bytes: &[u8]) -> (yes: bool)
    ensures
        yes == all_seven_bit(bytes@),
{
    let mut i: usize = 0;
    while i < bytes.len()
        invariant
            i <= bytes@.len(),
            forall|j: int| 0 <= j < i ==> #[trigger] bytes@[j] < 0x80,
        decreases bytes@.len() - i,
    {
        if bytes[i] >= 0x80 {
            return false;
        }
        i += 1;
    }
    true
}

/// Decodes the bytes of a text tag.
pub fn decode_text(bytes: &[u8]) -> (text: Option<String>)
    ensures
        match spec_text(bytes@) {
            Some(chars) => text is Some && text->Some_0@ == chars,
            None => text is None,
        },
{
    let n = bytes.len();
    if n <= 4 && !(n > 0 && bytes[n - 1] == 0 && is_seven_bit(bytes)) {
        return None;
    }
    let mut k: usize = 0;
    while k < n && bytes[k] != 0
        invariant
            k <= n,
            n == bytes@.len(),
            forall|j: int| 0 <= j < k ==> bytes@[j] != 0,
        decreases n - k,
    {
        k += 1;
    }
    proof {
        lemma_text_len(bytes@, k as int);
        if n <= 4 {
            let text = bytes@.subrange(0, k as int);
            assert(all_seven_bit(text)) by {
                assert forall|i: int| 0 <= i < text.len() implies #[trigger] text[i] < 0x80 by {
                    assert(text[i] == bytes@[i]);
                }
            }
            lemma_seven_bit_is_utf8(text);
        }
    }
    string_from_utf8(slice_to_vec(slice_subrange(bytes, 0, k)))
}

/// Decodes the one value of type `wire_type` that `bytes` hold.
fn decode_scalar(wire_type: WireType, bytes: &[u8], endianness: Endianness) -> (value: Value)
    requires
        bytes@.len() == wire_type.spec_width(),
    ensures
        value == spec_scalar(wire_type, bytes@, endianness),
{
    match wire_type {
        WireType::Byte | WireType::Undefined | WireType::Ascii => Value::Byte(bytes[0]),
        WireType::SByte => Value::Signed(to_i8(bytes[0]) as i32),
        WireType::Short => Value::Short(decode_u16(bytes, endianness)),
        WireType::SShort => Value::Signed(to_i16(decode_u16(bytes, endianness)) as i32),
        WireType::Long => Value::Unsigned(decode_u32(bytes, endianness)),
        WireType::SLong => Value::Signed(to_i32(decode_u32(bytes, endianness))),
        WireType::Float => Value::Float(decode_u32(bytes, endianness)),
        WireType::Ifd => Value::Ifd(decode_u32(bytes, endianness)),
        WireType::Rational => Value::Rational(
            decode_u32(bytes, endianness),
            decode_u32(slice_subrange(bytes, 4, 8), endianness),
        ),
        WireType::SRational => Value::SRational(
            to_i32(decode_u32(bytes, endianness)),
            to_i32(decode_u32(slice_subrange(bytes, 4, 8), endianness)),
        ),
        WireType::Double => Value::Double(decode_u64(bytes, endianness)),
        WireType::Long8 => Value::UnsignedBig(decode_u64(bytes, endianness)),
        WireType::SLong8 => Value::SignedBig(to_i64(decode_u64(bytes, endianness))),
        WireType::Ifd8 => Value::IfdBig(decode_u64(bytes, endianness)),
    }
}

/// Decodes the `count` values of type `wire_type` that `bytes` hold.
///
/// `bytes` are the values' own bytes: the first of the four bytes of the tag
/// record's value field where they fit there, else the bytes at the offset
/// that the field names.
pub fn decode_value(wire_type: WireType, count: u32, bytes: &[u8], endianness: Endianness) -> (r:
    Result<Value, AiocogeoError>)
    ensures
        value_is(r, spec_decode_value(wire_type, count, bytes@, endianness)),
{
    let width = wire_type.width();
    if bytes.len() as u64 != value_len(wire_type, count) {
        return Err(AiocogeoError::RangeFetch);
    }
    if count == 0 {
        let items: Vec<Value> = Vec::new();
        assert(items@ =~= Seq::empty());
        return Ok(Value::List(items));
    }
    match wire_type {
        WireType::Ascii => {
            return match decode_text(bytes) {
                Some(text) => Ok(Value::Ascii(text)),
                None => Err(AiocogeoError::InvalidTagEncoding),
            };
        },
        _ => {},
    }
    if count == 1 {
        return Ok(decode_scalar(wire_type, bytes, endianness));
    }
    let width: usize = width as usize;
    let mut items: Vec<Value> = Vec::new();
    let mut i: usize = 0;
    while i < count as usize
        invariant
            i <= count,
            width == wire_type.spec_width(),
            bytes@.len() == count * width,
            bytes@.len() <= usize::MAX,
            items@.len() == i,
            forall|j: int|
                0 <= j < i ==> #[trigger] items@[j] == spec_item(wire_type, bytes@, j, endianness),
        decreases count - i,
    {
        assert(0 <= i * width && i * width + width <= count * width) by (nonlinear_arith)
            requires
                0 <= i < count,
                width >= 0,
        ;
        assert((i + 1) * width == i * width + width) by (nonlinear_arith);
        let chunk = slice_subrange(bytes, i * width, i * width + width);
        items.push(decode_scalar(wire_type, chunk, endianness));
        i += 1;
    }
    assert(items@ =~= Seq::new(
        count as nat,
        |i: int| spec_item(wire_type, bytes@, i, endianness),
    ));
    Ok(Value::List(items))
}

} // verus!

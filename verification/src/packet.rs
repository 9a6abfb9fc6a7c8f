//! The byte codec: a reader that consumes fields from the front of a
//! received packet and a writer that appends fields to a new one. Every
//! multi-byte field is in network (big-endian) byte order.

use byteorder::{ByteOrder, NetworkEndian, WriteBytesExt};
use std::collections::VecDeque;
use vstd::prelude::*;
use vstd::utf8::{decode_utf8, encode_utf8, valid_utf8};

verus! {

/// The two bytes of a `u16` in network order.
pub open spec fn u16_be(v: u16) -> Seq<u8> {
    seq![(v / 0x100) as u8, (v % 0x100) as u8]
}

/// The four bytes of a `u32` in network order.
pub open spec fn u32_be(v: u32) -> Seq<u8> {
    seq![
        (v / 0x100_0000) as u8,
        (v / 0x1_0000 % 0x100) as u8,
        (v / 0x100 % 0x100) as u8,
        (v % 0x100) as u8,
    ]
}

/// The byte that stands for an `i8` in two's complement.
pub open spec fn i8_byte(v: i8) -> u8 {
    if v < 0 {
        (v + 0x100) as u8
    } else {
        v as u8
    }
}

/// The `u16` with the same sixteen bits as an `i16` in two's complement.
pub open spec fn i16_bits(v: i16) -> u16 {
    if v < 0 {
        (v + 0x1_0000) as u16
    } else {
        v as u16
    }
}

/// The two bytes of an `i16` in network order.
pub open spec fn i16_be(v: i16) -> Seq<u8> {
    u16_be(i16_bits(v))
}

/// The `u16` whose network-order bytes are `hi`, `lo`.
pub open spec fn be_u16(hi: u8, lo: u8) -> u16 {
    (hi * 0x100 + lo) as u16
}

/// The `u32` whose network-order bytes are `b0` to `b3`.
pub open spec fn be_u32(b0: u8, b1: u8, b2: u8, b3: u8) -> u32 {
    (b0 * 0x100_0000 + b1 * 0x1_0000 + b2 * 0x100 + b3) as u32
}

/// The `i8` that a byte stands for in two's complement.
pub open spec fn byte_i8(b: u8) -> i8 {
    if b >= 0x80 {
        (b - 0x100) as i8
    } else {
        b as i8
    }
}

/// The `i16` with the same sixteen bits as a `u16` in two's complement.
pub open spec fn bits_i16(v: u16) -> i16 {
    if v >= 0x8000 {
        (v - 0x1_0000) as i16
    } else {
        v as i16
    }
}

/// The text that lossy UTF-8 decoding makes of a run of bytes that is not
/// well-formed UTF-8: each malformed sequence becomes U+FFFD, everything
/// else is decoded as it is.
pub uninterp spec fn utf8_replaced(bytes: Seq<u8>) -> Seq<char>;

/// The text that a run of bytes stands for when it is decoded lossily:
/// the text it encodes where it is well-formed UTF-8, and the text with
/// replacement characters where it is not.
pub open spec fn lossy_text(bytes: Seq<u8>) -> Seq<char> {
    if valid_utf8(bytes) {
        decode_utf8(bytes)
    } else {
        utf8_replaced(bytes)
    }
}

/// What is left of `bytes` once the first `n` are consumed.
pub open spec fn rest(bytes: Seq<u8>, n: int) -> Seq<u8> {
    bytes.subrange(n, bytes.len() as int)
}

/// Whether a run of bytes starts with a whole string behind its two-byte
/// length.
pub open spec fn has_prefixed_string(bytes: Seq<u8>) -> bool {
    bytes.len() >= 2 && bytes.len() - 2 >= be_u16(bytes[0], bytes[1])
}

/// The bytes of the string behind the two-byte length at the front.
pub open spec fn prefixed_string(bytes: Seq<u8>) -> Seq<u8> {
    bytes.subrange(2, 2 + be_u16(bytes[0], bytes[1]))
}

/// `byteorder::ByteOrder::read_u16` for `NetworkEndian`: the first two
/// bytes of the slice read as a big-endian number. The outside function
/// panics on a slice shorter than two bytes.
#[verifier::external_body]
pub(crate) fn read_be_u16(buf: &[u8]) -> (val: u16)
    requires
        buf@.len() >= 2,
    ensures
        val == be_u16(buf@[0], buf@[1]),
{
    NetworkEndian::read_u16(buf)
}

/// `byteorder::ByteOrder::read_u32` for `NetworkEndian`: the first four
/// bytes of the slice read as a big-endian number. The outside function
/// panics on a slice shorter than four bytes.
#[verifier::external_body]
pub(crate) fn read_be_u32(buf: &[u8]) -> (val: u32)
    requires
        buf@.len() >= 4,
    ensures
        val == be_u32(buf@[0], buf@[1], buf@[2], buf@[3]),
{
    NetworkEndian::read_u32(buf)
}

/// `byteorder::WriteBytesExt::write_u16` with `NetworkEndian` on a `Vec<u8>`:
/// the two big-endian bytes of the value are appended. Writing to a vector
/// does not fail.
#[verifier::external_body]
pub(crate) fn append_be_u16(buf: &mut Vec<u8>, val: u16)
    ensures
        final(buf)@ == old(buf)@ + u16_be(val),
{
    buf.write_u16::<NetworkEndian>(val).unwrap();
}

/// `byteorder::WriteBytesExt::write_i16` with `NetworkEndian` on a `Vec<u8>`:
/// the two big-endian bytes of the value's two's complement are appended.
#[verifier::external_body]
pub(crate) fn append_be_i16(buf: &mut Vec<u8>, val: i16)
    ensures
        final(buf)@ == old(buf)@ + i16_be(val),
{
    buf.write_i16::<NetworkEndian>(val).unwrap();
}

/// `byteorder::WriteBytesExt::write_u32` with `NetworkEndian` on a `Vec<u8>`:
/// the four big-endian bytes of the value are appended.
#[verifier::external_body]
pub(crate) fn append_be_u32(buf: &mut Vec<u8>, val: u32)
    ensures
        final(buf)@ == old(buf)@ + u32_be(val),
{
    buf.write_u32::<NetworkEndian>(val).unwrap();
}

/// `String::from_utf8_lossy`, made an owned string. On well-formed UTF-8
/// the result is the text that the bytes encode; on anything else it is a
/// function of the bytes alone, which is only named here.
#[verifier::external_body]
pub(crate) fn lossy_string(bytes: &[u8]) -> (text: String)
    ensures
        text@ == (if valid_utf8(bytes@) {
            decode_utf8(bytes@)
        } else {
            utf8_replaced(bytes@)
        }),
{
    String::from_utf8_lossy(bytes).into_owned()
}

/// Appends a copy of `slice` to `buf`.
pub(crate) fn append_slice(buf: &mut Vec<u8>, slice: &[u8])
    ensures
        final(buf)@ == old(buf)@ + slice@,
{
    let ghost start = buf@;
    let mut i: usize = 0;
    while i < slice.len()
        invariant
            i <= slice@.len(),
            buf@ == start + slice@.subrange(0, i as int),
        decreases slice@.len() - i,
    {
        buf.push(slice[i]);
        i += 1;
    }
}

/// Removes the first `size` bytes of the queue and decodes them as text,
/// lossily.
fn take_string(bytes: &mut VecDeque<u8>, size: usize) -> (text: String)
    requires
        size <= old(bytes)@.len(),
    ensures
        text@ == lossy_text(old(bytes)@.subrange(0, size as int)),
        final(bytes)@ == rest(old(bytes)@, size as int),
{
    let ghost start = bytes@;
    let mut taken: Vec<u8> = Vec::new();
    let mut i: usize = 0;
    while i < size
        invariant
            i <= size <= start.len(),
            taken@ == start.subrange(0, i as int),
            bytes@ == rest(start, i as int),
        decreases size - i,
    {
        let byte = bytes.pop_front().unwrap();
        taken.push(byte);
        i += 1;
    }
    lossy_string(taken.as_slice())
}

/// A received packet, consumed field by field from the front.
#[derive(Debug)]
pub struct PacketReader {
    bytes: VecDeque<u8>,
}

impl View for PacketReader {
    type V = Seq<u8>;

    /// The bytes that have not been consumed yet, in order.
    closed spec fn view(&self) -> Seq<u8> {
        self.bytes@
    }
}

impl PacketReader {
    /// A reader over the bytes of `vec`.
    pub fn from_vec(vec: Vec<u8>) -> (reader: PacketReader)
        ensures
            reader@ == vec@,
    {
        let mut bytes: VecDeque<u8> = VecDeque::new();
        let mut i: usize = 0;
        while i < vec.len()
            invariant
                i <= vec@.len(),
                bytes@ == vec@.subrange(0, i as int),
            decreases vec@.len() - i,
        {
            bytes.push_back(vec[i]);
            i += 1;
        }
        PacketReader { bytes }
    }

    /// The bytes that are left, as a vector.
    pub fn into_vec(self) -> (vec: Vec<u8>)
        ensures
            vec@ == self@,
    {
        let mut bytes = self.bytes;
        let ghost start = bytes@;
        let mut vec: Vec<u8> = Vec::new();
        while bytes.len() > 0
            invariant
                vec@.len() <= start.len(),
                vec@ == start.subrange(0, vec@.len() as int),
                bytes@ == rest(start, vec@.len() as int),
            decreases bytes@.len(),
        {
            let byte = bytes.pop_front().unwrap();
            vec.push(byte);
        }
        vec
    }

    /// The number of bytes that are left.
    pub fn len(&self) -> (n: usize)
        ensures
            n == self@.len(),
    {
        self.bytes.len()
    }

    /// Consumes one byte, if there is one.
    pub fn next_u8(&mut self) -> (val: Option<u8>)
        ensures
            old(self)@.len() < 1 ==> val is None && final(self)@ == old(self)@,
            old(self)@.len() >= 1 ==> val == Some(old(self)@[0]) && final(self)@ == rest(
                old(self)@,
                1,
            ),
    {
        self.bytes.pop_front()
    }

    /// Consumes a big-endian `u16`. With fewer than two bytes left nothing
    /// is consumed.
    pub fn next_u16(&mut self) -> (val: Option<u16>)
        ensures
            old(self)@.len() < 2 ==> val is None && final(self)@ == old(self)@,
            old(self)@.len() >= 2 ==> val == Some(be_u16(old(self)@[0], old(self)@[1]))
                && final(self)@ == rest(old(self)@, 2),
    {
        if self.bytes.len() < 2 {
            None
        } else {
            let hi = self.bytes.pop_front().unwrap();
            let lo = self.bytes.pop_front().unwrap();
            let pair = [hi, lo];
            Some(read_be_u16(&pair))
        }
    }

    /// Consumes a big-endian IEEE 754 single and returns its bit pattern.
    /// With fewer than four bytes left nothing is consumed.
    pub fn next_f32(&mut self) -> (bits: Option<u32>)
        ensures
            old(self)@.len() < 4 ==> bits is None && final(self)@ == old(self)@,
            old(self)@.len() >= 4 ==> bits == Some(
                be_u32(old(self)@[0], old(self)@[1], old(self)@[2], old(self)@[3]),
            ) && final(self)@ == rest(old(self)@, 4),
    {
        if self.bytes.len() < 4 {
            None
        } else {
            let b0 = self.bytes.pop_front().unwrap();
            let b1 = self.bytes.pop_front().unwrap();
            let b2 = self.bytes.pop_front().unwrap();
            let b3 = self.bytes.pop_front().unwrap();
            let quad = [b0, b1, b2, b3];
            Some(read_be_u32(&quad))
        }
    }

    /// Consumes exactly `size` bytes and decodes them as text, lossily.
    /// With fewer than `size` bytes left nothing is consumed.
    pub fn extract_string(&mut self, size: usize) -> (text: Option<String>)
        ensures
            old(self)@.len() < size ==> text is None && final(self)@ == old(self)@,
            old(self)@.len() >= size ==> text is Some && text->0@ == lossy_text(
                old(self)@.subrange(0, size as int),
            ) && final(self)@ == rest(old(self)@, size as int),
    {
        if self.bytes.len() < size {
            None
        } else {
            Some(take_string(&mut self.bytes, size))
        }
    }

    /// Consumes a string that is preceded by its length as a big-endian
    /// `u16`. With fewer than two bytes left nothing is consumed; where the
    /// length is there but the string is not whole, only the length is
    /// consumed.
    pub fn extract_prefixed_string(&mut self) -> (text: Option<String>)
        ensures
            text is Some <==> has_prefixed_string(old(self)@),
            text is Some ==> text->0@ == lossy_text(prefixed_string(old(self)@)) && final(self)@
                == rest(old(self)@, 2 + be_u16(old(self)@[0], old(self)@[1])),
            old(self)@.len() < 2 ==> final(self)@ == old(self)@,
            old(self)@.len() >= 2 && text is None ==> final(self)@ == rest(old(self)@, 2),
    {
        extract_string_u16_size(&mut self.bytes)
    }
}

/// Consumes a string that is preceded by its length as a big-endian `u16`.
/// With fewer than two bytes nothing is consumed; where the length is there
/// but the string is not whole, only the length is consumed.
pub fn extract_string_u16_size(bytes: &mut VecDeque<u8>) -> (text: Option<String>)
    ensures
        text is Some <==> has_prefixed_string(old(bytes)@),
        text is Some ==> text->0@ == lossy_text(prefixed_string(old(bytes)@)) && final(bytes)@
            == rest(old(bytes)@, 2 + be_u16(old(bytes)@[0], old(bytes)@[1])),
        old(bytes)@.len() < 2 ==> final(bytes)@ == old(bytes)@,
        old(bytes)@.len() >= 2 && text is None ==> final(bytes)@ == rest(old(bytes)@, 2),
{
    if bytes.len() < 2 {
        None
    } else {
        let ghost start = bytes@;
        let hi = bytes.pop_front().unwrap();
        let lo = bytes.pop_front().unwrap();
        let pair = [hi, lo];
        let size = read_be_u16(&pair);
        assert(bytes@ == rest(start, 2));
        if bytes.len() < size as usize {
            None
        } else {
            let text = take_string(bytes, size as usize);
            assert(rest(start, 2).subrange(0, size as int) == prefixed_string(start));
            Some(text)
        }
    }
}

/// A packet under construction: fields are appended at the end.
#[derive(Debug)]
pub struct PacketWriter {
    bytes: Vec<u8>,
}

impl View for PacketWriter {
    type V = Seq<u8>;

    /// The bytes written so far, in order.
    closed spec fn view(&self) -> Seq<u8> {
        self.bytes@
    }
}

impl PacketWriter {
    /// An empty packet.
    pub fn new() -> (writer: PacketWriter)
        ensures
            writer@ == Seq::<u8>::empty(),
    {
        PacketWriter { bytes: Vec::new() }
    }

    /// The bytes of the packet.
    pub fn into_vec(self) -> (vec: Vec<u8>)
        ensures
            vec@ == self@,
    {
        self.bytes
    }

    /// The length of the packet in bytes.
    pub fn len(&self) -> (n: usize)
        ensures
            n == self@.len(),
    {
        self.bytes.len()
    }

    /// Appends one byte.
    pub fn write_u8(&mut self, val: u8)
        ensures
            final(self)@ == old(self)@.push(val),
    {
        self.bytes.push(val);
    }

    /// Appends one signed byte in two's complement.
    pub fn write_i8(&mut self, val: i8)
        ensures
            final(self)@ == old(self)@.push(i8_byte(val)),
    {
        assert(val as u8 == i8_byte(val)) by (bit_vector);
        self.bytes.push(val as u8);
    }

    /// Appends a `u16`, high byte first.
    pub fn write_u16(&mut self, val: u16)
        ensures
            final(self)@ == old(self)@ + u16_be(val),
    {
        append_be_u16(&mut self.bytes, val);
    }

    /// Appends an `i16` in two's complement, high byte first.
    pub fn write_i16(&mut self, val: i16)
        ensures
            final(self)@ == old(self)@ + i16_be(val),
    {
        append_be_i16(&mut self.bytes, val);
    }

    /// Appends a `u32`, high byte first.
    pub fn write_u32(&mut self, val: u32)
        ensures
            final(self)@ == old(self)@ + u32_be(val),
    {
        append_be_u32(&mut self.bytes, val);
    }

    /// Appends an IEEE 754 single, given by its bit pattern, high byte
    /// first.
    pub fn write_f32(&mut self, bits: u32)
        ensures
            final(self)@ == old(self)@ + u32_be(bits),
    {
        append_be_u32(&mut self.bytes, bits);
    }

    /// Appends the UTF-8 bytes of a string, with no length and no
    /// terminator.
    pub fn write_string(&mut self, val: String)
        ensures
            final(self)@ == old(self)@ + encode_utf8(val@),
    {
        append_slice(&mut self.bytes, val.as_str().as_bytes());
    }

    /// Appends all bytes of another packet.
    pub fn append_packet(&mut self, other: PacketWriter)
        ensures
            final(self)@ == old(self)@ + other@,
    {
        let mut tail = other.bytes;
        self.bytes.append(&mut tail);
    }

    /// Appends a run of bytes.
    pub fn write_slice(&mut self, slice: &[u8])
        ensures
            final(self)@ == old(self)@ + slice@,
    {
        append_slice(&mut self.bytes, slice);
    }

    /// Appends the bytes of a vector.
    pub fn write_vec(&mut self, vec: Vec<u8>)
        ensures
            final(self)@ == old(self)@ + vec@,
    {
        self.write_slice(vec.as_slice());
    }
}

/// Reading the network-order bytes of a `u16` gives the number back.
pub proof fn u16_round_trip(v: u16)
    ensures
        u16_be(v).len() == 2,
        be_u16(u16_be(v)[0], u16_be(v)[1]) == v,
{
}

/// The network-order bytes of the `u16` that two bytes stand for are those
/// two bytes.
pub proof fn u16_bytes_round_trip(hi: u8, lo: u8)
    ensures
        u16_be(be_u16(hi, lo)) == seq![hi, lo],
{
}

/// Reading the network-order bytes of a `u32` gives the number back.
pub proof fn u32_round_trip(v: u32)
    ensures
        u32_be(v).len() == 4,
        be_u32(u32_be(v)[0], u32_be(v)[1], u32_be(v)[2], u32_be(v)[3]) == v,
{
}

/// Reading the byte of an `i8` gives the number back.
pub proof fn i8_round_trip(v: i8)
    ensures
        byte_i8(i8_byte(v)) == v,
{
}

/// Reading the network-order bytes of an `i16` gives the number back.
pub proof fn i16_round_trip(v: i16)
    ensures
        i16_be(v).len() == 2,
        bits_i16(be_u16(i16_be(v)[0], i16_be(v)[1])) == v,
{
}

/// Decoding the UTF-8 bytes of a text lossily gives the text back.
pub proof fn text_round_trip(text: Seq<char>)
    ensures
        lossy_text(encode_utf8(text)) == text,
{
    vstd::utf8::encode_utf8_valid_utf8(text);
    vstd::utf8::encode_utf8_decode_utf8(text);
}

} // verus!

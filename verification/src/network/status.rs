use std::time::Duration;

use vstd::prelude::*;
use vstd::string::StringSliceAdditionalSpecFns;

use crate::foundation::text::{
    append, chars_of, decimal, decimal_exec, lemma_rfind_char, parse_i64, parse_i64_exec, parse_u64, parse_u64_exec, rfind_char, rfind_char_exec, slice, split, split_chars, string_of, views, key_index, lemma_key_index_from, lookup, opt_view,
};
use super::json::{
    as_i64, as_str, as_u64, member, spec_as_i64, spec_as_str, spec_as_u64, spec_member, spec_text_of, text_of, JsonValue,
};

verus! {

pub const DEFAULT_PORT: u16 = 25565;

pub const LEGACY_PROTOCOL_VERSION: u8 = 74;

pub const MAX_PACKET_LENGTH: usize = 4194304;

// ---------------------------------------------------------------------------------------------
// VarInts.

/// The VarInt encoding of a 32-bit value: seven bits per byte, least significant first, the
/// high bit set on every byte but the last.
pub open spec fn spec_varint(v: u32) -> Seq<u8>
    decreases v,
{
    if v < 128 {
        seq![v as u8]
    } else {
        seq![(v % 128 + 128) as u8] + spec_varint(v / 128)
    }
}

/// One step of VarInt decoding: the low seven bits of `b` placed at `7 * index`.
pub open spec fn varint_step(acc: u32, b: u8, index: u32) -> u32 {
    acc | (((b & 0x7F) as u32) << ((7 * index) as u32))
}

/// Decoding a VarInt from `pos`, at its `index`-th byte with `acc` decoded so far: the value
/// when a byte without the high bit comes within five bytes, and where the reading stopped.
pub open spec fn spec_varint_from(buf: Seq<u8>, pos: int, index: u32, acc: u32) -> (Option<u32>, int)
    decreases 5 - index,
{
    if index >= 5 {
        (None, pos)
    } else if pos < 0 || pos >= buf.len() {
        (None, pos)
    } else {
        let b = buf[pos];
        let next = varint_step(acc, b, index);
        if b & 0x80 == 0 {
            (Some(next), pos + 1)
        } else {
            spec_varint_from(buf, pos + 1, (index + 1) as u32, next)
        }
    }
}

/// `read_varint` from `start`: the value read, as `i32`, and the cursor after the bytes read.
pub open spec fn spec_read_varint(buf: Seq<u8>, start: int) -> (Option<i32>, int) {
    let (v, end) = spec_varint_from(buf, start, 0, 0);
    (
        match v {
            Some(x) => Some(x as i32),
            None => None,
        },
        end,
    )
}

/// Appends the VarInt encoding of a value (its bits read as unsigned).
pub fn write_varint(buffer: &mut Vec<u8>, value: i32)
    ensures
        final(buffer)@ == old(buffer)@ + spec_varint(value as u32),
{
    let mut v: u32 = value as u32;
    let ghost start = buffer@;
    loop
        invariant
            start == old(buffer)@,
            buffer@ + spec_varint(v) == start + spec_varint(value as u32),
        decreases v,
    {
        assert((v & !0x7Fu32 == 0) == (v < 128)) by (bit_vector);
        if v & !0x7F == 0 {
            let ghost before = buffer@;
            buffer.push(v as u8);
            assert(buffer@ =~= before + spec_varint(v));
            return;
        }
        let byte: u8 = (v as u8 & 0x7F) | 0x80;
        assert(((v as u8 & 0x7Fu8) | 0x80u8) == (v % 128 + 128) as u8) by (bit_vector);
        assert(v >> 7u32 == v / 128) by (bit_vector);
        let ghost before = buffer@;
        buffer.push(byte);
        assert(spec_varint(v) =~= seq![byte] + spec_varint(v / 128));
        assert(buffer@ + spec_varint(v / 128) =~= before + spec_varint(v));
        v = v >> 7;
    }
}

/// Reads a VarInt at the cursor and moves the cursor past the bytes read (also when the
/// VarInt is cut short or longer than five bytes, in which case there is no value).
pub fn read_varint(buffer: &[u8], cursor: &mut usize) -> (r: Option<i32>)
    ensures
        (r, *final(cursor) as int) == spec_read_varint(buffer@, *old(cursor) as int),
{
    let mut value: u32 = 0;
    let mut index: u32 = 0;
    while index < 5
        invariant
            index <= 5,
            spec_read_varint(buffer@, *old(cursor) as int) == ({
                let (v, end) = spec_varint_from(buffer@, *cursor as int, index, value);
                (
                    match v {
                        Some(x) => Some(x as i32),
                        None => None,
                    },
                    end,
                )
            }),
        decreases 5 - index,
    {
        if *cursor >= buffer.len() {
            return None;
        }
        let byte = buffer[*cursor];
        *cursor = *cursor + 1;
        value = value | (((byte & 0x7F) as u32) << (7 * index));
        if byte & 0x80 == 0 {
            return Some(value as i32);
        }
        index = index + 1;
    }
    None
}

/// Decoding the encoding of a value gives the value back, and stops right after it, whatever
/// surrounds it.
pub proof fn lemma_varint_roundtrip(value: i32, before: Seq<u8>, after: Seq<u8>)
    ensures
        spec_read_varint(before + spec_varint(value as u32) + after, before.len() as int) == (
            Some(value),
            (before.len() + spec_varint(value as u32).len()) as int,
        ),
{
    let v = value as u32;
    let buf = before + spec_varint(v) + after;
    let p = before.len() as int;
    reveal_with_fuel(spec_varint, 6);
    reveal_with_fuel(spec_varint_from, 6);
    assert(v == value as u32 ==> (v as i32) == value) by (bit_vector);
    if v < 0x80 {
        assert(buf[p] == v as u8);
        assert(v < 0x80u32 ==> ((v as u8) & 0x80u8 == 0u8 && varint_step(0, v as u8, 0) == v))
            by (bit_vector);
    } else if v < 0x4000 {
        let b0 = (v % 128 + 128) as u8;
        let b1 = (v / 128) as u8;
        assert(spec_varint(v) =~= seq![b0, b1]);
        assert(buf[p] == b0 && buf[p + 1] == b1);
        assert((0x80u32 <= v && v < 0x4000u32 && b0 == (v % 128 + 128) as u8 && b1 == (v / 128) as u8)
            ==> (b0 & 0x80u8 != 0u8 && b1 & 0x80u8 == 0u8 && varint_step(varint_step(0, b0, 0), b1, 1)
            == v)) by (bit_vector);
    } else if v < 0x20_0000 {
        let b0 = (v % 128 + 128) as u8;
        let b1 = ((v / 128) % 128 + 128) as u8;
        let b2 = (v / 128 / 128) as u8;
        assert(spec_varint(v) =~= seq![b0, b1, b2]);
        assert(buf[p] == b0 && buf[p + 1] == b1 && buf[p + 2] == b2);
        assert((0x4000u32 <= v && v < 0x20_0000u32 && b0 == (v % 128 + 128) as u8 && b1 == ((v / 128)
            % 128 + 128) as u8 && b2 == (v / 128 / 128) as u8) ==> (b0 & 0x80u8 != 0u8 && b1 & 0x80u8
            != 0u8 && b2 & 0x80u8 == 0u8 && varint_step(
            varint_step(varint_step(0, b0, 0), b1, 1),
            b2,
            2,
        ) == v)) by (bit_vector);
    } else if v < 0x1000_0000 {
        let b0 = (v % 128 + 128) as u8;
        let b1 = ((v / 128) % 128 + 128) as u8;
        let b2 = ((v / 128 / 128) % 128 + 128) as u8;
        let b3 = (v / 128 / 128 / 128) as u8;
        assert(spec_varint(v) =~= seq![b0, b1, b2, b3]);
        assert(buf[p] == b0 && buf[p + 1] == b1 && buf[p + 2] == b2 && buf[p + 3] == b3);
        assert((0x20_0000u32 <= v && v < 0x1000_0000u32 && b0 == (v % 128 + 128) as u8 && b1 == ((v
            / 128) % 128 + 128) as u8 && b2 == ((v / 128 / 128) % 128 + 128) as u8 && b3 == (v / 128
            / 128 / 128) as u8) ==> (b0 & 0x80u8 != 0u8 && b1 & 0x80u8 != 0u8 && b2 & 0x80u8 != 0u8
            && b3 & 0x80u8 == 0u8 && varint_step(
            varint_step(varint_step(varint_step(0, b0, 0), b1, 1), b2, 2),
            b3,
            3,
        ) == v)) by (bit_vector);
    } else {
        let b0 = (v % 128 + 128) as u8;
        let b1 = ((v / 128) % 128 + 128) as u8;
        let b2 = ((v / 128 / 128) % 128 + 128) as u8;
        let b3 = ((v / 128 / 128 / 128) % 128 + 128) as u8;
        let b4 = (v / 128 / 128 / 128 / 128) as u8;
        assert(spec_varint(v) =~= seq![b0, b1, b2, b3, b4]);
        assert(buf[p] == b0 && buf[p + 1] == b1 && buf[p + 2] == b2 && buf[p + 3] == b3 && buf[p
            + 4] == b4);
        assert((0x1000_0000u32 <= v && b0 == (v % 128 + 128) as u8 && b1 == ((v / 128) % 128 + 128)
            as u8 && b2 == ((v / 128 / 128) % 128 + 128) as u8 && b3 == ((v / 128 / 128 / 128) % 128
            + 128) as u8 && b4 == (v / 128 / 128 / 128 / 128) as u8) ==> (b0 & 0x80u8 != 0u8 && b1
            & 0x80u8 != 0u8 && b2 & 0x80u8 != 0u8 && b3 & 0x80u8 != 0u8 && b4 & 0x80u8 == 0u8
            && varint_step(
            varint_step(varint_step(varint_step(varint_step(0, b0, 0), b1, 1), b2, 2), b3, 3),
            b4,
            4,
        ) == v)) by (bit_vector);
    }
}


// ---------------------------------------------------------------------------------------------
// Packets and strings.

/// Appends a packet framed by its length as a VarInt.
pub fn frame(out: &mut Vec<u8>, packet: &[u8])
    requires
        packet@.len() <= i32::MAX,
    ensures
        final(out)@ == old(out)@ + spec_varint(packet@.len() as u32) + packet@,
{
    write_varint(out, packet.len() as i32);
    let ghost mid = out@;
    let mut i: usize = 0;
    while i < packet.len()
        invariant
            i <= packet.len(),
            out@ == mid + packet@.subrange(0, i as int),
        decreases packet.len() - i,
    {
        out.push(packet[i]);
        i = i + 1;
    }
    assert(packet@.subrange(0, packet@.len() as int) =~= packet@);
}

/// Appends a string: its UTF-8 length as a VarInt, then its UTF-8 bytes.
pub fn write_string(buffer: &mut Vec<u8>, value: &str)
    requires
        value.spec_bytes().len() <= i32::MAX,
    ensures
        final(buffer)@ == old(buffer)@ + spec_varint(value.spec_bytes().len() as u32)
            + value.spec_bytes(),
{
    let bytes = value.as_bytes();
    frame(buffer, bytes);
}

/// The text `String::from_utf8_lossy` makes of bytes.
pub uninterp spec fn utf8_lossy(bytes: Seq<u8>) -> Seq<char>;

/// Text from bytes, through `String::from_utf8_lossy`: invalid sequences become U+FFFD, and
/// valid UTF-8 is read as it is.
#[verifier::external_body]
fn from_utf8_lossy(bytes: &[u8]) -> (r: String)
    ensures
        r@ == utf8_lossy(bytes@),
        vstd::utf8::valid_utf8(bytes@) ==> r@ == vstd::utf8::decode_utf8(bytes@),
{
    String::from_utf8_lossy(bytes).into_owned()
}

/// The text of bytes: their UTF-8 decoding when they are valid UTF-8, else what
/// `String::from_utf8_lossy` makes of them.
pub open spec fn spec_decoded_text(bytes: Seq<u8>) -> Seq<char> {
    if vstd::utf8::valid_utf8(bytes) {
        vstd::utf8::decode_utf8(bytes)
    } else {
        utf8_lossy(bytes)
    }
}

/// `read_string` from `start`: the text and the cursor after it, or no text and the cursor
/// after its length.
pub open spec fn spec_read_string(buf: Seq<u8>, start: int) -> (Option<Seq<char>>, int) {
    let (length, after_length) = spec_read_varint(buf, start);
    match length {
        None => (None, after_length),
        Some(l) => {
            let end = after_length + (l as usize);
            if end > usize::MAX || end > buf.len() {
                (None, after_length)
            } else {
                (Some(spec_decoded_text(buf.subrange(after_length, end))), end)
            }
        },
    }
}

/// Reads a string (a VarInt length and that many bytes) and moves the cursor past it.
pub fn read_string(buffer: &[u8], cursor: &mut usize) -> (r: Option<String>)
    ensures
        (match r {
            Some(s) => Some(s@),
            None => None,
        }, *final(cursor) as int) == spec_read_string(buffer@, *old(cursor) as int),
{
    let length = match read_varint(buffer, cursor) {
        Some(l) => l as usize,
        None => {
            return None;
        },
    };
    let end = match cursor.checked_add(length) {
        Some(e) => e,
        None => {
            return None;
        },
    };
    if end > buffer.len() {
        return None;
    }
    let mut bytes: Vec<u8> = Vec::new();
    let mut i: usize = *cursor;
    while i < end
        invariant
            *cursor <= i <= end <= buffer.len(),
            bytes@ == buffer@.subrange(*cursor as int, i as int),
        decreases end - i,
    {
        bytes.push(buffer[i]);
        i = i + 1;
    }
    let text = from_utf8_lossy(bytes.as_slice());
    *cursor = end;
    Some(text)
}

/// A VarInt takes at most five bytes.
pub proof fn lemma_varint_len(v: u32)
    ensures
        spec_varint(v).len() >= 1,
        v < 0x80 ==> spec_varint(v).len() == 1,
        v < 0x4000 ==> spec_varint(v).len() <= 2,
        v < 0x20_0000 ==> spec_varint(v).len() <= 3,
        v < 0x1000_0000 ==> spec_varint(v).len() <= 4,
        spec_varint(v).len() <= 5,
    decreases v,
{
    if v >= 128 {
        lemma_varint_len(v / 128);
    }
}

/// Reading back a written string gives the string and stops right after it, whatever
/// surrounds it.
pub proof fn law_string_roundtrip(text: Seq<char>, before: Seq<u8>, after: Seq<u8>)
    requires
        vstd::utf8::encode_utf8(text).len() <= i32::MAX,
        before.len() + 5 + vstd::utf8::encode_utf8(text).len() + after.len() <= usize::MAX,
    ensures
        ({
            let bytes = vstd::utf8::encode_utf8(text);
            let head = spec_varint(bytes.len() as u32);
            spec_read_string(before + head + bytes + after, before.len() as int) == (
                Some(text),
                (before.len() + head.len() + bytes.len()) as int,
            )
        }),
{
    let bytes = vstd::utf8::encode_utf8(text);
    let n = bytes.len() as i32;
    assert(n as u32 == bytes.len() as u32);
    let head = spec_varint(n as u32);
    let buf = before + head + bytes + after;
    assert(buf =~= before + head + (bytes + after));
    lemma_varint_roundtrip(n, before, bytes + after);
    lemma_varint_len(n as u32);
    let start = (before.len() + head.len()) as int;
    assert(buf.subrange(start, start + bytes.len()) =~= bytes);
    vstd::utf8::encode_utf8_valid_utf8(text);
    vstd::utf8::encode_utf8_decode_utf8(text);
}

// ---------------------------------------------------------------------------------------------
// UTF-16.

/// The UTF-16 code units of a character: one below U+10000, else a surrogate pair.
pub open spec fn utf16_units(c: char) -> Seq<u16> {
    let v = c as u32;
    if v < 0x10000 {
        seq![v as u16]
    } else {
        seq![(0xD800 + (v - 0x10000) / 1024) as u16, (0xDC00 + (v - 0x10000) % 1024) as u16]
    }
}

/// The big-endian bytes of a code unit.
pub open spec fn be_bytes(u: u16) -> Seq<u8> {
    seq![(u / 256) as u8, (u % 256) as u8]
}

/// Text as UTF-16, big-endian.
pub open spec fn spec_utf16be(s: Seq<char>) -> Seq<u8>
    decreases s.len(),
{
    if s.len() == 0 {
        Seq::empty()
    } else {
        let rest = spec_utf16be(s.drop_last());
        let units = utf16_units(s.last());
        if units.len() == 1 {
            rest + be_bytes(units[0])
        } else {
            rest + be_bytes(units[0]) + be_bytes(units[1])
        }
    }
}

/// Encodes text as big-endian UTF-16.
pub fn encode_utf16be(text: &str) -> (r: Vec<u8>)
    ensures
        r@ == spec_utf16be(text@),
{
    let chars = chars_of(text);
    let mut out: Vec<u8> = Vec::new();
    let mut i: usize = 0;
    while i < chars.len()
        invariant
            i <= chars.len(),
            out@ == spec_utf16be(chars@.subrange(0, i as int)),
        decreases chars.len() - i,
    {
        let v = chars[i] as u32;
        assert(chars@.subrange(0, i + 1).drop_last() =~= chars@.subrange(0, i as int));
        if v < 0x10000 {
            let u = v as u16;
            out.push((u / 256) as u8);
            out.push((u % 256) as u8);
        } else {
            let hi = (0xD800 + (v - 0x10000) / 1024) as u16;
            let lo = (0xDC00 + (v - 0x10000) % 1024) as u16;
            out.push((hi / 256) as u8);
            out.push((hi % 256) as u8);
            out.push((lo / 256) as u8);
            out.push((lo % 256) as u8);
        }
        i = i + 1;
    }
    assert(chars@.subrange(0, chars.len() as int) =~= chars@);
    out
}

/// The code units of big-endian bytes, a trailing odd byte left out.
pub open spec fn units_of(bytes: Seq<u8>) -> Seq<u16> {
    Seq::new(bytes.len() / 2, |i: int| (bytes[2 * i] as u16 * 256 + bytes[2 * i + 1] as u16) as u16)
}

/// The code point of a character.
pub open spec fn code_point(c: char) -> u32 {
    c as u32
}

/// Whether a code unit is a surrogate.
pub open spec fn is_surrogate(u: u16) -> bool {
    0xD800 <= u && u <= 0xDFFF
}

/// UTF-16 read leniently, from unit `i` on, as code points: a surrogate pair gives its
/// character, a lone surrogate gives U+FFFD.
pub open spec fn decode_units_from(u: Seq<u16>, i: int) -> Seq<u32>
    decreases u.len() - i,
{
    if i < 0 || i >= u.len() {
        Seq::empty()
    } else if !is_surrogate(u[i]) {
        seq![u[i] as u32] + decode_units_from(u, i + 1)
    } else if u[i] <= 0xDBFF && i + 1 < u.len() && 0xDC00 <= u[i + 1] && u[i + 1] <= 0xDFFF {
        seq![(0x10000 + (u[i] - 0xD800) * 1024 + (u[i + 1] - 0xDC00)) as u32]
            + decode_units_from(u, i + 2)
    } else {
        seq![0xFFFDu32] + decode_units_from(u, i + 1)
    }
}

/// The character with a code point, through `char::from_u32`, which gives one exactly for
/// the code points below U+110000 that are not surrogates.
#[verifier::external_body]
fn char_from_u32(v: u32) -> (r: Option<char>)
    ensures
        r matches Some(c) ==> c as u32 == v,
        r is Some <==> (v < 0xD800 || (0xE000 <= v && v < 0x110000)),
{
    char::from_u32(v)
}

/// The code points of text.
pub open spec fn code_points(s: Seq<char>) -> Seq<u32> {
    s.map_values(|c: char| code_point(c))
}

/// Decodes big-endian UTF-16, leniently.
pub fn decode_utf16be(bytes: &[u8]) -> (r: String)
    ensures
        code_points(r@) == decode_units_from(units_of(bytes@), 0),
{
    let mut units: Vec<u16> = Vec::new();
    let mut k: usize = 0;
    while k + 1 < bytes.len()
        invariant
            k % 2 == 0,
            k <= bytes.len(),
            units@.len() == k / 2,
            forall|j: int| 0 <= j < units@.len() ==> #[trigger] units@[j] == units_of(bytes@)[j],
        decreases bytes.len() - k,
    {
        let u: u16 = (bytes[k] as u16) * 256 + bytes[k + 1] as u16;
        units.push(u);
        k = k + 2;
    }
    assert(units@ =~= units_of(bytes@));
    let mut out: Vec<char> = Vec::new();
    let mut i: usize = 0;
    while i < units.len()
        invariant
            i <= units.len(),
            code_points(out@) + decode_units_from(units@, i as int) == decode_units_from(units@, 0),
        decreases units.len() - i,
    {
        let u = units[i];
        if u < 0xD800 || u > 0xDFFF {
            let c = match char_from_u32(u as u32) {
                Some(c) => c,
                None => '\u{FFFD}',
            };
            assert(code_point(c) == u as u32);
            let ghost before = out@;
            out.push(c);
            assert(code_points(out@) =~= code_points(before).push(code_point(c)));
            assert(code_points(out@) + decode_units_from(units@, i + 1) =~= code_points(before) + decode_units_from(units@, i as int));
            i = i + 1;
        } else if u <= 0xDBFF && i + 1 < units.len() && units[i + 1] >= 0xDC00 && units[i + 1] <= 0xDFFF {
            let v: u32 = 0x10000 + (u as u32 - 0xD800) * 1024 + (units[i + 1] as u32 - 0xDC00);
            let c = match char_from_u32(v) {
                Some(c) => c,
                None => '\u{FFFD}',
            };
            assert(code_point(c) == v);
            let ghost before = out@;
            out.push(c);
            assert(code_points(out@) =~= code_points(before).push(code_point(c)));
            assert(code_points(out@) + decode_units_from(units@, i + 2) =~= code_points(before) + decode_units_from(units@, i as int));
            i = i + 2;
        } else {
            let ghost before = out@;
            out.push('\u{FFFD}');
            assert(code_points(out@) =~= code_points(before).push(0xFFFDu32));
            assert(code_points(out@) + decode_units_from(units@, i + 1) =~= code_points(before) + decode_units_from(units@, i as int));
            i = i + 1;
        }
    }
    assert(code_points(out@) =~= decode_units_from(units@, 0));
    string_of(&out)
}

/// The UTF-16 code units of text.
pub open spec fn spec_units(s: Seq<char>) -> Seq<u16>
    decreases s.len(),
{
    if s.len() == 0 {
        Seq::empty()
    } else {
        spec_units(s.drop_last()) + utf16_units(s.last())
    }
}

proof fn lemma_units_of_push(x: Seq<u8>, u: u16)
    requires
        x.len() % 2 == 0,
    ensures
        units_of(x + be_bytes(u)) == units_of(x).push(u),
{
    let y = x + be_bytes(u);
    let n = x.len() / 2;
    assert(y.len() / 2 == n + 1);
    assert forall|i: int| 0 <= i < n + 1 implies #[trigger] units_of(y)[i] == units_of(x).push(u)[i] by {
        if i < n {
            assert(y[2 * i] == x[2 * i]);
            assert(y[2 * i + 1] == x[2 * i + 1]);
        } else {
            assert(y[2 * i] == (u / 256) as u8);
            assert(y[2 * i + 1] == (u % 256) as u8);
            assert(((u / 256) as u8) as u16 * 256 + ((u % 256) as u8) as u16 == u);
        }
    }
    assert(units_of(y) =~= units_of(x).push(u));
}

/// The big-endian bytes of text are the bytes of its code units.
proof fn lemma_units_of_utf16be(s: Seq<char>)
    ensures
        spec_utf16be(s).len() == 2 * spec_units(s).len(),
        units_of(spec_utf16be(s)) == spec_units(s),
    decreases s.len(),
{
    if s.len() == 0 {
        assert(units_of(Seq::<u8>::empty()) =~= Seq::<u16>::empty());
    } else {
        lemma_units_of_utf16be(s.drop_last());
        let rest = spec_utf16be(s.drop_last());
        let units = utf16_units(s.last());
        lemma_units_of_push(rest, units[0]);
        if units.len() == 1 {
            assert(spec_units(s.drop_last()).push(units[0]) =~= spec_units(s.drop_last()) + units);
        } else {
            lemma_units_of_push(rest + be_bytes(units[0]), units[1]);
            assert(spec_units(s.drop_last()).push(units[0]).push(units[1]) =~= spec_units(
                s.drop_last(),
            ) + units);
        }
    }
}

proof fn lemma_decode_shift(a: Seq<u16>, b: Seq<u16>, i: int)
    requires
        0 <= i,
    ensures
        decode_units_from(a + b, a.len() + i) == decode_units_from(b, i),
    decreases b.len() - i,
{
    if i < b.len() {
        assert((a + b)[a.len() + i] == b[i]);
        if i + 1 < b.len() {
            assert((a + b)[a.len() + i + 1] == b[i + 1]);
        }
        lemma_decode_shift(a, b, i + 1);
        if i + 2 <= b.len() {
            lemma_decode_shift(a, b, i + 2);
        }
    }
}

proof fn lemma_units_front(s: Seq<char>)
    requires
        s.len() > 0,
    ensures
        spec_units(s) == utf16_units(s[0]) + spec_units(s.drop_first()),
    decreases s.len(),
{
    if s.len() == 1 {
        assert(s.drop_last() =~= Seq::<char>::empty());
        assert(s.drop_first() =~= Seq::<char>::empty());
        assert(spec_units(s.drop_first()) =~= Seq::<u16>::empty());
        assert(spec_units(s) =~= utf16_units(s[0]));
    } else {
        lemma_units_front(s.drop_last());
        assert(s.drop_last().drop_first() =~= s.drop_first().drop_last());
        assert(s.drop_first().last() == s.last());
        assert(s.drop_last()[0] == s[0]);
    }
}

proof fn lemma_decode_char(c: char, rest: Seq<u16>)
    ensures
        decode_units_from(utf16_units(c) + rest, 0) == seq![code_point(c)] + decode_units_from(
            rest,
            0,
        ),
{
    let v = c as u32;
    let units = utf16_units(c);
    let all = units + rest;
    vstd::utf8::char_is_scalar(c);
    if v < 0x10000 {
        assert(all[0] == v as u16);
        assert(!is_surrogate(v as u16));
        lemma_decode_shift(units, rest, 0);
    } else {
        let hi = (0xD800 + (v - 0x10000) / 1024) as u16;
        let lo = (0xDC00 + (v - 0x10000) % 1024) as u16;
        assert(all[0] == hi && all[1] == lo);
        assert(0xD800 <= hi <= 0xDBFF);
        assert(0xDC00 <= lo <= 0xDFFF);
        assert((0x10000 + (hi - 0xD800) * 1024 + (lo - 0xDC00)) as u32 == v) by (nonlinear_arith)
            requires
                0x10000 <= v < 0x110000,
                hi == (0xD800 + (v - 0x10000) / 1024) as u16,
                lo == (0xDC00 + (v - 0x10000) % 1024) as u16,
        ;
        lemma_decode_shift(units, rest, 0);
    }
}

proof fn lemma_decode_units(s: Seq<char>)
    ensures
        decode_units_from(spec_units(s), 0) == code_points(s),
    decreases s.len(),
{
    if s.len() == 0 {
        assert(code_points(s) =~= Seq::<u32>::empty());
    } else {
        lemma_units_front(s);
        lemma_decode_units(s.drop_first());
        lemma_decode_char(s[0], spec_units(s.drop_first()));
        assert(code_points(s) =~= seq![code_point(s[0])] + code_points(s.drop_first()));
    }
}

/// Decoding the big-endian UTF-16 of text gives the text back.
pub proof fn law_utf16_roundtrip(text: Seq<char>)
    ensures
        decode_units_from(units_of(spec_utf16be(text)), 0) == code_points(text),
{
    lemma_units_of_utf16be(text);
    lemma_decode_units(text);
}

/// The two big-endian bytes of `n` truncated to 16 bits.
pub open spec fn be16(n: nat) -> Seq<u8> {
    let u = n % 65536;
    seq![(u / 256) as u8, (u % 256) as u8]
}

/// The four big-endian bytes of a port as a 32-bit integer.
pub open spec fn be32_port(port: u16) -> Seq<u8> {
    seq![0u8, 0u8, (port / 256) as u8, (port % 256) as u8]
}

/// The ping that Minecraft 1.6 servers answer: `FE 01 FA`, the `MC|PingHost` channel, the
/// protocol version, the host and the port, each length and text as UTF-16.
pub open spec fn spec_legacy_16_probe(host: Seq<char>, port: u16) -> Seq<u8> {
    let channel = spec_utf16be("MC|PingHost"@);
    let host_bytes = spec_utf16be(host);
    seq![0xFEu8, 0x01u8, 0xFAu8] + be16(channel.len() / 2) + channel + be16(7 + host_bytes.len())
        + seq![LEGACY_PROTOCOL_VERSION] + be16(host_bytes.len() / 2) + host_bytes + be32_port(port)
}

fn push_be16(out: &mut Vec<u8>, n: usize)
    ensures
        final(out)@ == old(out)@ + be16(n as nat),
{
    let u = n % 65536;
    out.push((u / 256) as u8);
    out.push((u % 256) as u8);
}

fn push_bytes(out: &mut Vec<u8>, bytes: &Vec<u8>)
    ensures
        final(out)@ == old(out)@ + bytes@,
{
    let ghost start = out@;
    let mut i: usize = 0;
    while i < bytes.len()
        invariant
            i <= bytes.len(),
            out@ == start + bytes@.subrange(0, i as int),
        decreases bytes.len() - i,
    {
        out.push(bytes[i]);
        i = i + 1;
    }
    assert(bytes@.subrange(0, bytes@.len() as int) =~= bytes@);
}

/// The Minecraft 1.6 ping for a host and port.
#[verifier::spinoff_prover]
#[verifier::rlimit(40)]
pub fn legacy_16_probe(host: &str, port: u16) -> (r: Vec<u8>)
    ensures
        r@ == spec_legacy_16_probe(host@, port),
{
    let channel = encode_utf16be("MC|PingHost");
    let host_bytes = encode_utf16be(host);
    let mut payload: Vec<u8> = Vec::new();
    payload.push(0xFE);
    payload.push(0x01);
    payload.push(0xFA);
    assert(payload@ =~= seq![0xFEu8, 0x01u8, 0xFAu8]);
    push_be16(&mut payload, channel.len() / 2);
    push_bytes(&mut payload, &channel);
    let ghost part1 = payload@;
    let with_header: usize = if host_bytes.len() <= usize::MAX - 7 {
        7 + host_bytes.len()
    } else {
        (host_bytes.len() - 65536 + 7)
    };
    assert(with_header as int % 65536 == (7 + host_bytes@.len()) % 65536);
    push_be16(&mut payload, with_header);
    assert(be16(with_header as nat) == be16((7 + host_bytes@.len()) as nat));
    payload.push(LEGACY_PROTOCOL_VERSION);
    push_be16(&mut payload, host_bytes.len() / 2);
    push_bytes(&mut payload, &host_bytes);
    let ghost part2 = payload@;
    payload.push(0);
    payload.push(0);
    payload.push((port / 256) as u8);
    payload.push((port % 256) as u8);
    assert(payload@ =~= part2 + be32_port(port));
    assert(part2 =~= part1 + be16((7 + host_bytes@.len()) as nat) + seq![LEGACY_PROTOCOL_VERSION]
        + be16(host_bytes@.len() / 2) + host_bytes@);
    payload
}

// ---------------------------------------------------------------------------------------------
// Server answers.

#[derive(Debug, Clone, PartialEq, Eq)]
pub struct PlayerSample {
    pub name: String,
    pub id: String,
}

/// A player of a status answer, as `serde` reads one: an object with a string `name` and an
/// optional string `id` (empty by default), or an array of the name and optionally the id.
pub open spec fn spec_player(v: JsonValue) -> Option<(Seq<char>, Seq<char>)> {
    match v {
        JsonValue::Object(fields) => match lookup(fields@, "name"@) {
            Some(JsonValue::String(name)) => match lookup(fields@, "id"@) {
                None => Some((name@, Seq::empty())),
                Some(JsonValue::String(id)) => Some((name@, id@)),
                _ => None,
            },
            _ => None,
        },
        JsonValue::Array(items) => if items@.len() == 1 {
            match items@[0] {
                JsonValue::String(name) => Some((name@, Seq::empty())),
                _ => None,
            }
        } else if items@.len() == 2 {
            match (items@[0], items@[1]) {
                (JsonValue::String(name), JsonValue::String(id)) => Some((name@, id@)),
                _ => None,
            }
        } else {
            None
        },
        _ => None,
    }
}

/// The player sample of a status answer: every item of the `sample` array when all of them
/// read as players, else none.
pub open spec fn spec_players(sample: Option<JsonValue>) -> Seq<(Seq<char>, Seq<char>)> {
    match sample {
        Some(JsonValue::Array(items)) => if forall|i: int|
            0 <= i < items@.len() ==> (#[trigger] spec_player(items@[i])) is Some {
            items@.map_values(|item: JsonValue| spec_player(item)->0)
        } else {
            Seq::empty()
        },
        _ => Seq::empty(),
    }
}

/// The players of a status as name and id pairs.
pub open spec fn player_views(players: Seq<PlayerSample>) -> Seq<(Seq<char>, Seq<char>)> {
    players.map_values(|p: PlayerSample| (p.name@, p.id@))
}

fn player_of(v: &JsonValue) -> (r: Option<PlayerSample>)
    ensures
        match r {
            Some(p) => spec_player(*v) == Some((p.name@, p.id@)),
            None => spec_player(*v) is None,
        },
{
    match v {
        JsonValue::Object(fields) => {
            proof {
                lemma_key_index_from(fields@, "name"@, 0);
                lemma_key_index_from(fields@, "id"@, 0);
            }
            let name = match key_index(fields, "name") {
                Some(k) => match &fields[k].1 {
                    JsonValue::String(n) => n.clone(),
                    _ => {
                        return None;
                    },
                },
                None => {
                    return None;
                },
            };
            let id = match key_index(fields, "id") {
                Some(k) => match &fields[k].1 {
                    JsonValue::String(i) => i.clone(),
                    _ => {
                        return None;
                    },
                },
                None => String::new(),
            };
            Some(PlayerSample { name, id })
        },
        JsonValue::Array(items) => {
            if items.len() == 1 {
                match &items[0] {
                    JsonValue::String(n) => Some(PlayerSample { name: n.clone(), id: String::new() }),
                    _ => None,
                }
            } else if items.len() == 2 {
                match (&items[0], &items[1]) {
                    (JsonValue::String(n), JsonValue::String(i)) => Some(
                        PlayerSample { name: n.clone(), id: i.clone() },
                    ),
                    _ => None,
                }
            } else {
                None
            }
        },
        _ => None,
    }
}

fn players_of(sample: Option<&JsonValue>) -> (r: Vec<PlayerSample>)
    ensures
        player_views(r@) == spec_players(match sample {
            Some(s) => Some(*s),
            None => None,
        }),
{
    let items = match sample {
        Some(JsonValue::Array(items)) => items,
        _ => {
            return Vec::new();
        },
    };
    let mut out: Vec<PlayerSample> = Vec::new();
    let mut i: usize = 0;
    while i < items.len()
        invariant
            i <= items.len(),
            out@.len() == i,
            match sample {
                Some(s) => *s == JsonValue::Array(*items),
                None => false,
            },
            forall|k: int| 0 <= k < i ==> (#[trigger] spec_player(items@[k])) == Some(
                (out@[k].name@, out@[k].id@),
            ),
        decreases items.len() - i,
    {
        match player_of(&items[i]) {
            Some(p) => out.push(p),
            None => {
                assert(spec_player(items@[i as int]) is None);
                return Vec::new();
            },
        }
        i = i + 1;
    }
    assert(player_views(out@) =~= items@.map_values(|item: JsonValue| spec_player(item)->0));
    out
}

/// The status a modern (1.7+) answer gives: its version name and protocol, players online
/// and maximum (zero when missing), the plain text of its description, its favicon and its
/// player sample.
pub fn parse_modern(value: &JsonValue, ms: u64) -> (r: ServerStatus)
    ensures
        !r.error && r.ms == ms && !r.legacy,
        r.version@ == (match spec_member(*value, "version"@) {
            Some(v) => match spec_member(v, "name"@) {
                Some(n) => match spec_as_str(n) {
                    Some(s) => s,
                    None => Seq::empty(),
                },
                None => Seq::empty(),
            },
            None => Seq::empty(),
        }),
        r.protocol == (match spec_member(*value, "version"@) {
            Some(v) => match spec_member(v, "protocol"@) {
                Some(p) => spec_as_i64(p),
                None => None,
            },
            None => None,
        }),
        r.players_connect == (match spec_member(*value, "players"@) {
            Some(p) => match spec_member(p, "online"@) {
                Some(o) => match spec_as_u64(o) {
                    Some(n) => n,
                    None => 0,
                },
                None => 0,
            },
            None => 0,
        }),
        r.players_max == (match spec_member(*value, "players"@) {
            Some(p) => match spec_member(p, "max"@) {
                Some(m) => match spec_as_u64(m) {
                    Some(n) => n,
                    None => 0,
                },
                None => 0,
            },
            None => 0,
        }),
        opt_view(r.description) == (match spec_member(*value, "description"@) {
            Some(d) => Some(spec_text_of(d)),
            None => None,
        }),
        opt_view(r.favicon) == (match spec_member(*value, "favicon"@) {
            Some(f) => spec_as_str(f),
            None => None,
        }),
        player_views(r.players@) == spec_players(match spec_member(*value, "players"@) {
            Some(p) => spec_member(p, "sample"@),
            None => None,
        }),
{
    let version = member(value, "version");
    let players = member(value, "players");
    let name = match version {
        Some(v) => match member(v, "name") {
            Some(n) => match as_str(n) {
                Some(s) => s.to_owned(),
                None => String::new(),
            },
            None => String::new(),
        },
        None => String::new(),
    };
    let protocol = match version {
        Some(v) => match member(v, "protocol") {
            Some(p) => as_i64(p),
            None => None,
        },
        None => None,
    };
    let online = match players {
        Some(p) => match member(p, "online") {
            Some(o) => match as_u64(o) {
                Some(n) => n,
                None => 0,
            },
            None => 0,
        },
        None => 0,
    };
    let max = match players {
        Some(p) => match member(p, "max") {
            Some(m) => match as_u64(m) {
                Some(n) => n,
                None => 0,
            },
            None => 0,
        },
        None => 0,
    };
    let description = match member(value, "description") {
        Some(d) => Some(text_of(d)),
        None => None,
    };
    let favicon = match member(value, "favicon") {
        Some(f) => match as_str(f) {
            Some(s) => Some(s.to_owned()),
            None => None,
        },
        None => None,
    };
    let sample = match players {
        Some(p) => member(p, "sample"),
        None => None,
    };
    ServerStatus {
        error: false,
        ms,
        version: name,
        players_connect: online,
        players_max: max,
        protocol,
        description,
        favicon,
        players: players_of(sample),
        legacy: false,
    }
}

/// What a server says of itself.
#[derive(Debug, Clone, PartialEq, Eq)]
pub struct ServerStatus {
    pub error: bool,
    pub ms: u64,
    pub version: String,
    pub players_connect: u64,
    pub players_max: u64,
    pub protocol: Option<i64>,
    pub description: Option<String>,
    pub favicon: Option<String>,
    pub players: Vec<PlayerSample>,
    pub legacy: bool,
}

/// The fields a legacy answer gives: version, players online and maximum, protocol,
/// description.
pub struct LegacyAnswer {
    pub version: Seq<char>,
    pub players_connect: u64,
    pub players_max: u64,
    pub protocol: Option<i64>,
    pub description: Seq<char>,
}

/// What a legacy answer says. The 1.6 form is `§1\0protocol\0version\0motd\0online\0max`; the
/// older form is `motd§online§max`, split at its last two `§`.
pub open spec fn spec_parse_legacy(text: Seq<char>) -> Option<LegacyAnswer> {
    if text.len() >= 3 && text[0] == '§' && text[1] == '1' && text[2] == '\0' {
        let parts = split(text.skip(3), '\0');
        if parts.len() < 5 {
            None
        } else {
            match (parse_u64(parts[3]), parse_u64(parts[4])) {
                (Some(online), Some(max)) => Some(
                    LegacyAnswer {
                        version: parts[1],
                        players_connect: online,
                        players_max: max,
                        protocol: parse_i64(parts[0]),
                        description: parts[2],
                    },
                ),
                _ => None,
            }
        }
    } else {
        match rfind_char(text, '§') {
            None => None,
            Some(last) => match rfind_char(text.subrange(0, last), '§') {
                None => None,
                Some(middle) => match (
                    parse_u64(text.subrange(middle + 1, last)),
                    parse_u64(text.subrange(last + 1, text.len() as int)),
                ) {
                    (Some(online), Some(max)) => Some(
                        LegacyAnswer {
                            version: Seq::empty(),
                            players_connect: online,
                            players_max: max,
                            protocol: None,
                            description: text.subrange(0, middle),
                        },
                    ),
                    _ => None,
                },
            },
        }
    }
}

/// Whether a status holds a legacy answer, read `ms` milliseconds after the ping.
pub open spec fn is_legacy_status(s: ServerStatus, a: LegacyAnswer, ms: u64) -> bool {
    &&& !s.error
    &&& s.ms == ms
    &&& s.version@ == a.version
    &&& s.players_connect == a.players_connect
    &&& s.players_max == a.players_max
    &&& s.protocol == a.protocol
    &&& opt_text(s.description) == Some(a.description)
    &&& s.favicon is None
    &&& s.players@.len() == 0
    &&& s.legacy
}

pub open spec fn opt_text(o: Option<String>) -> Option<Seq<char>> {
    match o {
        Some(s) => Some(s@),
        None => None,
    }
}

/// Reads a legacy server answer.
pub fn parse_legacy(text: &str, ms: u64) -> (r: Option<ServerStatus>)
    ensures
        match spec_parse_legacy(text@) {
            Some(a) => r matches Some(s) && is_legacy_status(s, a, ms),
            None => r is None,
        },
{
    let t = chars_of(text);
    if t.len() >= 3 && t[0] == '§' && t[1] == '1' && t[2] == '\0' {
        let rest = slice(&t, 3, t.len());
        assert(rest@ =~= t@.skip(3));
        let parts = split_chars(&rest, '\0');
        if parts.len() < 5 {
            return None;
        }
        assert(views(parts@)[0] == parts@[0]@);
        assert(views(parts@)[1] == parts@[1]@);
        assert(views(parts@)[2] == parts@[2]@);
        assert(views(parts@)[3] == parts@[3]@);
        assert(views(parts@)[4] == parts@[4]@);
        let online = match parse_u64_exec(&parts[3]) {
            Some(v) => v,
            None => {
                return None;
            },
        };
        let max = match parse_u64_exec(&parts[4]) {
            Some(v) => v,
            None => {
                return None;
            },
        };
        return Some(
            ServerStatus {
                error: false,
                ms,
                version: string_of(&parts[1]),
                players_connect: online,
                players_max: max,
                protocol: parse_i64_exec(&parts[0]),
                description: Some(string_of(&parts[2])),
                favicon: None,
                players: Vec::new(),
                legacy: true,
            },
        );
    }
    let last = match rfind_char_exec(&t, '§') {
        Some(i) => i,
        None => {
            return None;
        },
    };
    proof {
        lemma_rfind_char(t@, '§');
    }
    let head = slice(&t, 0, last);
    let middle = match rfind_char_exec(&head, '§') {
        Some(i) => i,
        None => {
            return None;
        },
    };
    proof {
        lemma_rfind_char(head@, '§');
    }
    let online = match parse_u64_exec(&slice(&t, middle + 1, last)) {
        Some(v) => v,
        None => {
            return None;
        },
    };
    let max = match parse_u64_exec(&slice(&t, last + 1, t.len())) {
        Some(v) => v,
        None => {
            return None;
        },
    };
    Some(
        ServerStatus {
            error: false,
            ms,
            version: String::new(),
            players_connect: online,
            players_max: max,
            protocol: None,
            description: Some(string_of(&slice(&t, 0, middle))),
            favicon: None,
            players: Vec::new(),
            legacy: true,
        },
    )
}

// ---------------------------------------------------------------------------------------------
// The exchanges of a ping.

/// The handshake of a modern ping: packet id 0, protocol -1, the host as a string, the port as
/// two big-endian bytes and the next state, 1 (status).
pub open spec fn spec_handshake(host_bytes: Seq<u8>, port: u16) -> Seq<u8> {
    spec_varint(0) + spec_varint((-1i32) as u32) + spec_varint(host_bytes.len() as u32) + host_bytes
        + be16(port as nat) + spec_varint(1)
}

/// What a modern ping sends: the handshake, then the status request (packet id 0), each framed
/// by its length.
pub open spec fn spec_status_request(host_bytes: Seq<u8>, port: u16) -> Seq<u8> {
    let handshake = spec_handshake(host_bytes, port);
    spec_varint(handshake.len() as u32) + handshake + spec_varint(1) + spec_varint(0)
}

/// The bytes a modern ping of `host:port` sends.
pub fn status_request(host: &str, port: u16) -> (r: Vec<u8>)
    requires
        host.spec_bytes().len() <= i32::MAX - 16,
    ensures
        r@ == spec_status_request(host.spec_bytes(), port),
{
    proof {
        lemma_varint_len(0);
        lemma_varint_len((-1i32) as u32);
        lemma_varint_len(host.spec_bytes().len() as u32);
        lemma_varint_len(1);
    }
    let mut handshake: Vec<u8> = Vec::new();
    write_varint(&mut handshake, 0);
    write_varint(&mut handshake, -1);
    write_string(&mut handshake, host);
    push_be16(&mut handshake, port as usize);
    write_varint(&mut handshake, 1);
    assert(handshake@ =~= spec_handshake(host.spec_bytes(), port));
    let mut request: Vec<u8> = Vec::new();
    write_varint(&mut request, 0);
    let mut out: Vec<u8> = Vec::new();
    frame(&mut out, handshake.as_slice());
    frame(&mut out, request.as_slice());
    assert(request@.len() == 1);
    assert(out@ =~= spec_status_request(host.spec_bytes(), port));
    out
}

/// The length a packet's prefix gives: the seven low bits of each byte, least significant
/// first.
pub open spec fn spec_prefix_length(bytes: Seq<u8>) -> nat
    decreases bytes.len(),
{
    if bytes.len() == 0 {
        0
    } else {
        (bytes[0] % 128) as nat + 128 * spec_prefix_length(bytes.drop_first())
    }
}

/// The largest value of `k` prefix bytes.
pub open spec fn prefix_max(k: nat) -> nat
    decreases k,
{
    if k == 0 {
        0
    } else {
        127 + 128 * prefix_max((k - 1) as nat)
    }
}

proof fn lemma_prefix_bound(bytes: Seq<u8>)
    ensures
        spec_prefix_length(bytes) <= prefix_max(bytes.len()),
    decreases bytes.len(),
{
    if bytes.len() > 0 {
        lemma_prefix_bound(bytes.drop_first());
    }
}

/// The length of the packet that a length prefix (the bytes read for it, at most five)
/// announces, when it is neither zero nor over `MAX_PACKET_LENGTH`.
pub fn packet_length(prefix: &[u8]) -> (r: Option<usize>)
    requires
        prefix@.len() <= 5,
    ensures
        match r {
            Some(n) => n == spec_prefix_length(prefix@) && 0 < n <= MAX_PACKET_LENGTH,
            None => spec_prefix_length(prefix@) == 0 || spec_prefix_length(prefix@) > MAX_PACKET_LENGTH,
        },
{
    let n = prefix.len();
    let mut length: u64 = 0;
    let mut i: usize = n;
    proof {
        assert(prefix@.subrange(n as int, n as int) =~= Seq::<u8>::empty());
        assert(prefix_max(5) == 34359738367) by {
            reveal_with_fuel(prefix_max, 6);
        }
    }
    while i > 0
        invariant
            n == prefix@.len(),
            n <= 5,
            i <= n,
            length == spec_prefix_length(prefix@.subrange(i as int, n as int)),
            prefix_max(5) == 34359738367,
        decreases i,
    {
        let ghost rest = prefix@.subrange(i as int, n as int);
        i = i - 1;
        let ghost cur = prefix@.subrange(i as int, n as int);
        proof {
            assert(cur.drop_first() =~= rest);
            lemma_prefix_bound(rest);
            assert(prefix_max(rest.len()) <= prefix_max(5)) by {
                reveal_with_fuel(prefix_max, 6);
            }
        }
        length = length * 128 + (prefix[i] % 128) as u64;
    }
    assert(prefix@.subrange(0, n as int) =~= prefix@);
    if length == 0 || length > MAX_PACKET_LENGTH as u64 {
        None
    } else {
        Some(length as usize)
    }
}

/// Why the answer to a modern ping could not be read.
#[derive(Debug, Clone, Copy, PartialEq, Eq, Structural)]
pub enum AnswerError {
    /// The packet id is cut short.
    TruncatedPacket,
    /// The packet is not a status answer.
    UnexpectedId(i32),
    /// The status text is cut short.
    TruncatedJson,
}

/// The status text of an answer packet: its id must be 0, and a whole string must follow.
pub fn status_text(packet: &[u8]) -> (r: Result<String, AnswerError>)
    ensures
        match spec_read_varint(packet@, 0) {
            (None, _) => r == Err::<String, AnswerError>(AnswerError::TruncatedPacket),
            (Some(id), after) => if id != 0 {
                r == Err::<String, AnswerError>(AnswerError::UnexpectedId(id))
            } else {
                match spec_read_string(packet@, after) {
                    (None, _) => r == Err::<String, AnswerError>(AnswerError::TruncatedJson),
                    (Some(text), _) => (r matches Ok(t) && t@ == text),
                }
            },
        },
{
    let mut cursor: usize = 0;
    let id = match read_varint(packet, &mut cursor) {
        Some(id) => id,
        None => {
            return Err(AnswerError::TruncatedPacket);
        },
    };
    if id != 0 {
        return Err(AnswerError::UnexpectedId(id));
    }
    match read_string(packet, &mut cursor) {
        Some(text) => Ok(text),
        None => Err(AnswerError::TruncatedJson),
    }
}

/// The older pings, newest first: 1.6, 1.4 and Beta 1.8.
#[derive(Debug, Clone, Copy, PartialEq, Eq, Structural)]
pub enum Probe {
    V16,
    V14,
    Beta,
}

/// The first byte of the kick packet that carries a legacy answer.
pub const LEGACY_KICK_PACKET: u8 = 0xFF;

/// What a legacy ping of `host:port` sends: the 1.6 ping, `FE 01` for 1.4, `FE` for Beta 1.8.
pub fn legacy_probe(probe: Probe, host: &str, port: u16) -> (r: Vec<u8>)
    ensures
        r@ == (match probe {
            Probe::V16 => spec_legacy_16_probe(host@, port),
            Probe::V14 => seq![0xFEu8, 0x01u8],
            Probe::Beta => seq![0xFEu8],
        }),
{
    match probe {
        Probe::V16 => legacy_16_probe(host, port),
        Probe::V14 => {
            let mut v: Vec<u8> = Vec::new();
            v.push(0xFE);
            v.push(0x01);
            assert(v@ =~= seq![0xFEu8, 0x01u8]);
            v
        },
        Probe::Beta => {
            let mut v: Vec<u8> = Vec::new();
            v.push(0xFE);
            assert(v@ =~= seq![0xFEu8]);
            v
        },
    }
}

// ---------------------------------------------------------------------------------------------
// The pinged server.

/// A server to ping: its host, port and the time allowed for each step.
#[derive(Debug)]
pub struct Status {
    host: String,
    port: u16,
    timeout: Duration,
}

/// The `Duration` that `Duration::from_millis` makes of a number of milliseconds.
pub uninterp spec fn duration_from_millis(millis: u64) -> Duration;

/// The default time allowed for each step of a ping, in milliseconds.
pub const DEFAULT_TIMEOUT_MILLIS: u64 = 3000;

/// A duration of whole milliseconds, through `Duration::from_millis`, which never panics.
#[verifier::external_body]
fn millis(ms: u64) -> (r: Duration)
    ensures
        r == duration_from_millis(ms),
{
    Duration::from_millis(ms)
}

impl Status {
    pub closed spec fn host_text(&self) -> Seq<char> {
        self.host@
    }

    pub closed spec fn port_number(&self) -> u16 {
        self.port
    }

    pub closed spec fn time_allowed(&self) -> Duration {
        self.timeout
    }

    /// A server at `host:port`, with three seconds allowed.
    pub fn new(host: &str, port: u16) -> (r: Self)
        ensures
            r.host_text() == host@,
            r.port_number() == port,
            r.time_allowed() == duration_from_millis(DEFAULT_TIMEOUT_MILLIS),
    {
        Self { host: host.to_owned(), port, timeout: millis(DEFAULT_TIMEOUT_MILLIS) }
    }

    /// The same server with another time allowed.
    pub fn with_timeout(self, timeout: Duration) -> (r: Self)
        ensures
            r.host_text() == self.host_text(),
            r.port_number() == self.port_number(),
            r.time_allowed() == timeout,
    {
        Self { timeout, ..self }
    }

    /// The time allowed for each step.
    pub fn timeout(&self) -> (r: Duration)
        ensures
            r == self.time_allowed(),
    {
        self.timeout
    }

    /// The host.
    pub fn host(&self) -> (r: &str)
        ensures
            r@ == self.host_text(),
    {
        self.host.as_str()
    }

    /// The port.
    pub fn port(&self) -> (r: u16)
        ensures
            r == self.port_number(),
    {
        self.port
    }

    /// `host:port`.
    pub fn address(&self) -> (r: String)
        ensures
            r@ == self.host_text() + ":"@ + decimal(self.port_number() as nat),
    {
        let mut v = chars_of(self.host.as_str());
        append(&mut v, ":");
        let digits = decimal_exec(self.port as u64);
        crate::foundation::text::push_all(&mut v, &digits);
        string_of(&v)
    }
}

} // verus!

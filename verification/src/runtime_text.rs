//! The encoding in which the runtime hands out the characters of a string.
//!
//! A Java string is a sequence of 16-bit code units. The runtime hands each
//! unit out in one to three bytes: one byte for the units `1` to `0x7F`, two
//! for `0` and for `0x80` to `0x7FF`, three for the rest. A character beyond
//! `0xFFFF` is two units, a high and a low surrogate, and so six bytes.

use vstd::prelude::*;

verus! {

/// The bytes that stand for one 16-bit code unit.
pub open spec fn unit_bytes(unit: int) -> Seq<u8>
    recommends
        0 <= unit <= 0xFFFF,
{
    if 1 <= unit <= 0x7F {
        seq![unit as u8]
    } else if unit <= 0x7FF {
        seq![(0xC0 + unit / 64) as u8, (0x80 + unit % 64) as u8]
    } else {
        seq![
            (0xE0 + unit / 4096) as u8,
            (0x80 + (unit / 64) % 64) as u8,
            (0x80 + unit % 64) as u8,
        ]
    }
}

/// The bytes that stand for one character: those of its code unit, or those
/// of its two surrogates where it lies beyond `0xFFFF`.
pub open spec fn char_bytes(c: char) -> Seq<u8> {
    let scalar = c as int;
    if scalar <= 0xFFFF {
        unit_bytes(scalar)
    } else {
        unit_bytes(0xD800 + (scalar - 0x10000) / 1024) + unit_bytes(
            0xDC00 + (scalar - 0x10000) % 1024,
        )
    }
}

/// The bytes that the runtime hands out for a text.
pub open spec fn encoded(text: Seq<char>) -> Seq<u8>
    decreases text.len(),
{
    if text.len() == 0 {
        Seq::empty()
    } else {
        char_bytes(text[0]) + encoded(text.drop_first())
    }
}

/// The text that `bytes` stand for: the one text that the runtime hands out
/// as these bytes, and none where there is no such text.
pub open spec fn decoded(bytes: Seq<u8>) -> Option<Seq<char>> {
    if exists|text: Seq<char>| encoded(text) == bytes {
        Some(choose|text: Seq<char>| encoded(text) == bytes)
    } else {
        None
    }
}

/// The code unit that `bytes` begin with and the number of its bytes, if
/// they begin with one.
spec fn first_unit(bytes: Seq<u8>) -> Option<(int, int)> {
    if bytes.len() >= 1 && 0x01 <= bytes[0] <= 0x7F {
        Some((bytes[0] as int, 1))
    } else if bytes.len() >= 2 && 0xC0 <= bytes[0] <= 0xDF && 0x80 <= bytes[1] <= 0xBF {
        let unit = (bytes[0] - 0xC0) * 64 + (bytes[1] - 0x80);
        if unit == 0 || unit >= 0x80 {
            Some((unit, 2))
        } else {
            None
        }
    } else if bytes.len() >= 3 && 0xE0 <= bytes[0] <= 0xEF && 0x80 <= bytes[1] <= 0xBF && 0x80
        <= bytes[2] <= 0xBF {
        let unit = (bytes[0] - 0xE0) * 4096 + (bytes[1] - 0x80) * 64 + (bytes[2] - 0x80);
        if unit >= 0x800 {
            Some((unit, 3))
        } else {
            None
        }
    } else {
        None
    }
}

/// The character that `bytes` begin with and the number of its bytes, if
/// they begin with one.
spec fn first_char(bytes: Seq<u8>) -> Option<(char, int)> {
    match first_unit(bytes) {
        Some((unit, length)) => if 0xD800 <= unit <= 0xDBFF {
            match first_unit(bytes.subrange(3, bytes.len() as int)) {
                Some((low, _)) => if 0xDC00 <= low <= 0xDFFF {
                    Some(
                        ((0x10000 + (unit - 0xD800) * 1024 + (low - 0xDC00)) as char, 6),
                    )
                } else {
                    None
                },
                None => None,
            }
        } else if 0xDC00 <= unit <= 0xDFFF {
            None
        } else {
            Some((unit as char, length))
        },
        None => None,
    }
}

/// The text that `bytes` stand for, read character by character from the
/// front.
spec fn parsed(bytes: Seq<u8>) -> Option<Seq<char>>
    decreases bytes.len(),
{
    if bytes.len() == 0 {
        Some(Seq::empty())
    } else {
        match first_char(bytes) {
            Some((c, length)) => if 0 < length <= bytes.len() {
                match parsed(bytes.subrange(length, bytes.len() as int)) {
                    Some(rest) => Some(seq![c] + rest),
                    None => None,
                }
            } else {
                None
            },
            None => None,
        }
    }
}

/// The bytes of a code unit begin with that unit, whatever follows them.
proof fn lemma_first_unit_of_unit_bytes(unit: int, rest: Seq<u8>)
    requires
        0 <= unit <= 0xFFFF,
    ensures
        first_unit(unit_bytes(unit) + rest) == Some((unit, unit_bytes(unit).len() as int)),
        1 <= unit_bytes(unit).len() <= 3,
        unit >= 0x800 ==> unit_bytes(unit).len() == 3,
{
    let bytes = unit_bytes(unit) + rest;
    if 1 <= unit <= 0x7F {
        assert(bytes[0] == unit);
    } else if unit <= 0x7FF {
        assert(bytes[0] == 0xC0 + unit / 64);
        assert(bytes[1] == 0x80 + unit % 64);
    } else {
        assert(bytes[0] == 0xE0 + unit / 4096);
        assert(bytes[1] == 0x80 + (unit / 64) % 64);
        assert(bytes[2] == 0x80 + unit % 64);
    }
}

/// Bytes that begin with a code unit begin with the bytes of that unit.
proof fn lemma_unit_bytes_of_first_unit(bytes: Seq<u8>)
    requires
        first_unit(bytes) is Some,
    ensures
        ({
            let (unit, length) = first_unit(bytes)->0;
            &&& 0 <= unit <= 0xFFFF
            &&& 1 <= length <= 3
            &&& length <= bytes.len()
            &&& length == unit_bytes(unit).len()
            &&& bytes.subrange(0, length) == unit_bytes(unit)
            &&& (unit >= 0x800 ==> length == 3)
        }),
{
    let (unit, length) = first_unit(bytes)->0;
    assert(bytes.subrange(0, length) =~= unit_bytes(unit));
}

/// The bytes of a character begin with that character, whatever follows.
proof fn lemma_first_char_of_char_bytes(c: char, rest: Seq<u8>)
    ensures
        first_char(char_bytes(c) + rest) == Some((c, char_bytes(c).len() as int)),
        1 <= char_bytes(c).len() <= 6,
{
    let scalar = c as int;
    if scalar <= 0xFFFF {
        lemma_first_unit_of_unit_bytes(scalar, rest);
        assert(scalar as char == c);
    } else {
        let high = 0xD800 + (scalar - 0x10000) / 1024;
        let low = 0xDC00 + (scalar - 0x10000) % 1024;
        let tail = unit_bytes(low) + rest;
        let bytes = char_bytes(c) + rest;
        assert(bytes =~= unit_bytes(high) + tail);
        lemma_first_unit_of_unit_bytes(high, tail);
        lemma_first_unit_of_unit_bytes(low, rest);
        assert(bytes.subrange(3, bytes.len() as int) =~= tail);
        assert(0x10000 + (high - 0xD800) * 1024 + (low - 0xDC00) == scalar);
        assert(scalar as char == c);
    }
}

/// Bytes that begin with a character begin with the bytes of that character.
proof fn lemma_char_bytes_of_first_char(bytes: Seq<u8>)
    requires
        first_char(bytes) is Some,
    ensures
        ({
            let (c, length) = first_char(bytes)->0;
            &&& 1 <= length <= 6
            &&& length <= bytes.len()
            &&& bytes.subrange(0, length) == char_bytes(c)
        }),
{
    let (c, length) = first_char(bytes)->0;
    lemma_unit_bytes_of_first_unit(bytes);
    let (unit, _) = first_unit(bytes)->0;
    if 0xD800 <= unit <= 0xDBFF {
        let tail = bytes.subrange(3, bytes.len() as int);
        lemma_unit_bytes_of_first_unit(tail);
        let (low, _) = first_unit(tail)->0;
        let scalar = 0x10000 + (unit - 0xD800) * 1024 + (low - 0xDC00);
        assert(c as int == scalar);
        assert((scalar - 0x10000) / 1024 == unit - 0xD800);
        assert((scalar - 0x10000) % 1024 == low - 0xDC00);
        assert(tail.subrange(0, 3) =~= bytes.subrange(3, 6));
        assert(bytes.subrange(0, 6) =~= bytes.subrange(0, 3) + bytes.subrange(3, 6));
    } else {
        assert(c as int == unit);
    }
}

/// Reading the bytes of a text gives the text back.
proof fn lemma_parsed_encoded(text: Seq<char>)
    ensures
        parsed(encoded(text)) == Some(text),
    decreases text.len(),
{
    if text.len() == 0 {
    } else {
        let rest = encoded(text.drop_first());
        let bytes = encoded(text);
        lemma_first_char_of_char_bytes(text[0], rest);
        let length = char_bytes(text[0]).len() as int;
        assert(bytes.subrange(length, bytes.len() as int) =~= rest);
        lemma_parsed_encoded(text.drop_first());
        assert(seq![text[0]] + text.drop_first() =~= text);
    }
}

/// What is read from bytes encodes to those bytes.
proof fn lemma_encoded_parsed(bytes: Seq<u8>)
    requires
        parsed(bytes) is Some,
    ensures
        encoded(parsed(bytes)->0) == bytes,
    decreases bytes.len(),
{
    if bytes.len() == 0 {
        assert(encoded(Seq::<char>::empty()) =~= bytes);
    } else {
        let (c, length) = first_char(bytes)->0;
        let tail = bytes.subrange(length, bytes.len() as int);
        lemma_char_bytes_of_first_char(bytes);
        lemma_encoded_parsed(tail);
        let rest = parsed(tail)->0;
        let text = seq![c] + rest;
        assert(text.drop_first() =~= rest);
        assert(text[0] == c);
        assert(bytes =~= bytes.subrange(0, length) + tail);
    }
}

/// The bytes stand for the text that is read from them, and for no text
/// where none can be read.
proof fn lemma_decoded_is_parsed(bytes: Seq<u8>)
    ensures
        decoded(bytes) == parsed(bytes),
{
    if parsed(bytes) is Some {
        lemma_encoded_parsed(bytes);
        let text = choose|text: Seq<char>| encoded(text) == bytes;
        lemma_parsed_encoded(text);
    } else {
        if exists|text: Seq<char>| encoded(text) == bytes {
            let text = choose|text: Seq<char>| encoded(text) == bytes;
            lemma_parsed_encoded(text);
        }
    }
}

/// No two texts share their bytes: the bytes of a text stand for that text
/// and for no other.
pub proof fn lemma_decoded_encoded(text: Seq<char>)
    ensures
        decoded(encoded(text)) == Some(text),
{
    lemma_decoded_is_parsed(encoded(text));
    lemma_parsed_encoded(text);
}

/// Bytes stand for a text only where the text encodes to them.
pub proof fn lemma_encoded_decoded(bytes: Seq<u8>)
    requires
        decoded(bytes) is Some,
    ensures
        encoded(decoded(bytes)->0) == bytes,
{
}

/// A text that may be missing, with `prefix` put before it.
spec fn after(prefix: Seq<char>, rest: Option<Seq<char>>) -> Option<Seq<char>> {
    match rest {
        Some(rest) => Some(prefix + rest),
        None => None,
    }
}

/// Calls `char::from_u32`: the character with the scalar value `scalar`,
/// which exists unless `scalar` is a surrogate or lies beyond `0x10FFFF`.
#[verifier::external_body]
fn char_of_scalar(scalar: u32) -> (c: Option<char>)
    ensures
        c is Some <==> (scalar <= 0xD7FF || 0xE000 <= scalar <= 0x10FFFF),
        c matches Some(found) ==> found == scalar as char,
{
    char::from_u32(scalar)
}

/// Calls `String::push`, which appends `c` to the end of `text`.
#[verifier::external_body]
fn push_char(text: &mut String, c: char)
    ensures
        final(text)@ == old(text)@.push(c),
{
    text.push(c)
}

/// Reads the code unit that begins at `at`.
fn unit_at(bytes: &Vec<u8>, at: usize) -> (unit: Option<(u32, usize)>)
    requires
        at <= bytes@.len(),
    ensures
        unit is Some <==> first_unit(bytes@.subrange(at as int, bytes@.len() as int)) is Some,
        unit matches Some((value, length)) ==> first_unit(
            bytes@.subrange(at as int, bytes@.len() as int),
        ) == Some((value as int, length as int)),
{
    let len: usize = bytes.len();
    if at >= len {
        return None;
    }
    let ghost tail = bytes@.subrange(at as int, len as int);
    assert(tail[0] == bytes@[at as int]);
    let first: u8 = bytes[at];
    if 0x01 <= first && first <= 0x7F {
        return Some((first as u32, 1));
    }
    if 0xC0 <= first && first <= 0xDF && len - at >= 2 {
        assert(tail[1] == bytes@[at + 1]);
        let second: u8 = bytes[at + 1];
        if 0x80 <= second && second <= 0xBF {
            let value: u32 = (first - 0xC0) as u32 * 64 + (second - 0x80) as u32;
            if value == 0 || value >= 0x80 {
                return Some((value, 2));
            }
        }
        return None;
    }
    if 0xE0 <= first && first <= 0xEF && len - at >= 3 {
        assert(tail[1] == bytes@[at + 1]);
        assert(tail[2] == bytes@[at + 2]);
        let second: u8 = bytes[at + 1];
        let third: u8 = bytes[at + 2];
        if 0x80 <= second && second <= 0xBF && 0x80 <= third && third <= 0xBF {
            let value: u32 = (first - 0xE0) as u32 * 4096 + (second - 0x80) as u32 * 64 + (third
                - 0x80) as u32;
            if value >= 0x800 {
                return Some((value, 3));
            }
        }
        return None;
    }
    None
}

/// Reads the character that begins at `at`, and tells how many bytes it
/// takes.
fn char_at(bytes: &Vec<u8>, at: usize) -> (found: Option<(char, usize)>)
    requires
        at <= bytes@.len(),
    ensures
        found is Some <==> first_char(bytes@.subrange(at as int, bytes@.len() as int)) is Some,
        found matches Some((c, taken)) ==> first_char(
            bytes@.subrange(at as int, bytes@.len() as int),
        ) == Some((c, taken as int)) && 0 < taken && at + taken <= bytes@.len(),
{
    let size: usize = bytes.len();
    let ghost len = size as int;
    let ghost tail = bytes@.subrange(at as int, len);
    let (value, length) = match unit_at(bytes, at) {
        Some(unit) => unit,
        None => {
            return None;
        },
    };
    proof {
        lemma_unit_bytes_of_first_unit(tail);
    }
    if 0xD800 <= value && value <= 0xDBFF {
        let ghost second = tail.subrange(3, tail.len() as int);
        assert(tail.len() == len - at);
        assert(length == 3);
        assert(second =~= bytes@.subrange(at + 3, len));
        let low: u32 = match unit_at(bytes, at + 3) {
            Some((low, _)) => low,
            None => {
                return None;
            },
        };
        if !(0xDC00 <= low && low <= 0xDFFF) {
            return None;
        }
        proof {
            lemma_unit_bytes_of_first_unit(second);
        }
        let scalar: u32 = 0x10000 + (value - 0xD800) * 1024 + (low - 0xDC00);
        match char_of_scalar(scalar) {
            Some(c) => {
                assert(scalar == 0x10000 + (value - 0xD800) * 1024 + (low - 0xDC00));
                Some((c, 6))
            },
            None => None,
        }
    } else if 0xDC00 <= value && value <= 0xDFFF {
        None
    } else {
        match char_of_scalar(value) {
            Some(c) => {
                Some((c, length))
            },
            None => None,
        }
    }
}

/// Reading on by one character: what is read from `at` is the character
/// there, followed by what is read behind it.
proof fn lemma_parsed_step(bytes: Seq<u8>, at: int, out: Seq<char>, c: char, taken: int)
    requires
        0 <= at < bytes.len(),
        0 < taken,
        at + taken <= bytes.len(),
        first_char(bytes.subrange(at, bytes.len() as int)) == Some((c, taken)),
    ensures
        after(out, parsed(bytes.subrange(at, bytes.len() as int))) == after(
            out.push(c),
            parsed(bytes.subrange(at + taken, bytes.len() as int)),
        ),
{
    let len = bytes.len() as int;
    let tail = bytes.subrange(at, len);
    assert(tail.subrange(taken, tail.len() as int) =~= bytes.subrange(at + taken, len));
    let rest = parsed(bytes.subrange(at + taken, len));
    if rest is Some {
        assert(out + (seq![c] + rest->0) =~= out.push(c) + rest->0);
    }
}

/// Reads the text that the runtime handed out as `bytes`.
///
/// Returns the text where the bytes are those of a text, and `None` where
/// they are not: where a byte begins no code unit, a unit is cut short or
/// written in more bytes than it takes, or a surrogate stands without its
/// partner.
pub fn decode(bytes: &Vec<u8>) -> (text: Option<String>)
    ensures
        text matches Some(text) ==> decoded(bytes@) == Some(text@),
        text is None ==> decoded(bytes@) is None,
        text matches Some(text) ==> encoded(text@) == bytes@,
{
    let len: usize = bytes.len();
    let mut out = String::new();
    let mut at: usize = 0;
    proof {
        lemma_decoded_is_parsed(bytes@);
        assert(bytes@.subrange(0, len as int) =~= bytes@);
        if parsed(bytes@) is Some {
            assert(Seq::<char>::empty() + parsed(bytes@)->0 =~= parsed(bytes@)->0);
        }
    }
    while at < len
        invariant
            at <= len,
            len == bytes@.len(),
            decoded(bytes@) == parsed(bytes@),
            parsed(bytes@) == after(out@, parsed(bytes@.subrange(at as int, len as int))),
        decreases len - at,
    {
        let (c, taken) = match char_at(bytes, at) {
            Some(found) => found,
            None => {
                return None;
            },
        };
        proof {
            lemma_parsed_step(bytes@, at as int, out@, c, taken as int);
        }
        push_char(&mut out, c);
        at = at + taken;
    }
    proof {
        assert(bytes@.subrange(at as int, len as int) =~= Seq::<u8>::empty());
        assert(out@ + Seq::<char>::empty() =~= out@);
        lemma_encoded_parsed(bytes@);
    }
    Some(out)
}

} // verus!

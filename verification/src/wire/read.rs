//! Reading the JSON of a field back: a string, a byte array, a list of
//! strings. Each reader is the inverse of its writer, whatever follows the
//! field.

use crate::enums::response::names;
use crate::wire::text::{
    decimal, escape_byte, escape_bytes, hex_digit, join, json_bytes, json_string, json_strings,
};
use vstd::prelude::*;
use vstd::utf8::{decode_utf8, encode_utf8, valid_utf8};

verus! {

/// The value of a lower-case hexadecimal digit.
pub open spec fn hex_value(d: u8) -> Option<u8> {
    if 0x30 <= d <= 0x39 {
        Some((d - 0x30) as u8)
    } else if 0x61 <= d <= 0x66 {
        Some((d - 0x57) as u8)
    } else {
        None
    }
}

/// The byte that stands at the front of the inside of a string, and how many
/// bytes write it.
pub open spec fn unit(input: Seq<u8>) -> Option<(u8, nat)> {
    if input.len() == 0 {
        None
    } else if input[0] == 0x5c {
        if input.len() < 2 {
            None
        } else if input[1] == 0x22 {
            Some((0x22u8, 2nat))
        } else if input[1] == 0x5c {
            Some((0x5cu8, 2nat))
        } else if input[1] == 0x62 {
            Some((0x08u8, 2nat))
        } else if input[1] == 0x74 {
            Some((0x09u8, 2nat))
        } else if input[1] == 0x6e {
            Some((0x0au8, 2nat))
        } else if input[1] == 0x66 {
            Some((0x0cu8, 2nat))
        } else if input[1] == 0x72 {
            Some((0x0du8, 2nat))
        } else if input[1] == 0x75 && input.len() >= 6 && input[2] == 0x30 && input[3] == 0x30 && hex_value(
            input[4],
        ) is Some && hex_value(input[5]) is Some {
            Some(((16 * hex_value(input[4])->0 + hex_value(input[5])->0) as u8, 6nat))
        } else {
            None
        }
    } else if input[0] == 0x22 || input[0] < 0x20 {
        None
    } else {
        Some((input[0], 1nat))
    }
}

/// The bytes that the inside of a string stands for, up to its closing
/// quote, and how many bytes were read, the quote included.
pub open spec fn body(input: Seq<u8>) -> Option<(Seq<u8>, nat)>
    decreases input.len(),
{
    if input.len() == 0 {
        None
    } else if input[0] == 0x22 {
        Some((Seq::empty(), 1nat))
    } else {
        match unit(input) {
            None => None,
            Some((b, width)) => if width == 0 || width > input.len() {
                None
            } else {
                match body(input.skip(width as int)) {
                    None => None,
                    Some((rest, n)) => Some((seq![b] + rest, width + n)),
                }
            },
        }
    }
}

/// The string at the front of `input`, and how many bytes write it.
pub open spec fn parse_string(input: Seq<u8>) -> Option<(Seq<char>, nat)> {
    if input.len() == 0 || input[0] != 0x22 {
        None
    } else {
        match body(input.skip(1)) {
            None => None,
            Some((bytes, n)) => if valid_utf8(bytes) {
                Some((decode_utf8(bytes), n + 1))
            } else {
                None
            },
        }
    }
}

/// An escaped byte is read back as the byte.
pub proof fn lemma_unit_escape(b: u8, rest: Seq<u8>)
    ensures
        unit(escape_byte(b) + rest) == Some((b, escape_byte(b).len())),
        (escape_byte(b) + rest)[0] != 0x22,
        escape_byte(b).len() >= 1,
{
    let input = escape_byte(b) + rest;
    if b < 0x20 && b != 0x08 && b != 0x09 && b != 0x0a && b != 0x0c && b != 0x0d {
        let high = (b / 16) as u8;
        let low = (b % 16) as u8;
        assert(input[0] == 0x5c && input[1] == 0x75 && input[2] == 0x30 && input[3] == 0x30);
        assert(input[4] == hex_digit(high) && input[5] == hex_digit(low));
        assert(hex_value(hex_digit(high)) == Some(high));
        assert(hex_value(hex_digit(low)) == Some(low));
        assert(16 * high + low == b);
    } else if b == 0x22 || b == 0x5c || b == 0x08 || b == 0x09 || b == 0x0a || b == 0x0c || b == 0x0d {
        assert(input[0] == 0x5c);
        assert(input[1] == escape_byte(b)[1]);
    } else {
        assert(input[0] == b);
    }
}

/// The escape of a sequence of bytes, with a quote behind it, is read back as
/// the sequence.
pub proof fn lemma_body_escape(s: Seq<u8>, rest: Seq<u8>)
    ensures
        body(escape_bytes(s) + (seq![0x22u8] + rest)) == Some((s, escape_bytes(s).len() + 1)),
    decreases s.len(),
{
    let input = escape_bytes(s) + (seq![0x22u8] + rest);
    if s.len() == 0 {
        assert(input[0] == 0x22);
        assert(s =~= Seq::<u8>::empty());
    } else {
        let tail = escape_bytes(s.drop_first()) + (seq![0x22u8] + rest);
        assert(input =~= escape_byte(s[0]) + tail);
        lemma_unit_escape(s[0], tail);
        lemma_body_escape(s.drop_first(), rest);
        let width = escape_byte(s[0]).len();
        assert(input.skip(width as int) =~= tail);
        assert(seq![s[0]] + s.drop_first() =~= s);
    }
}

/// The JSON of a string is read back as the string, whatever follows it.
pub proof fn lemma_parse_json_string(s: Seq<char>, rest: Seq<u8>)
    ensures
        parse_string(json_string(s) + rest) == Some((s, json_string(s).len())),
{
    let input = json_string(s) + rest;
    let bytes = encode_utf8(s);
    assert(input[0] == 0x22);
    assert(input.skip(1) =~= escape_bytes(bytes) + (seq![0x22u8] + rest));
    lemma_body_escape(bytes, rest);
    vstd::utf8::encode_utf8_valid_utf8(s);
    vstd::utf8::encode_utf8_decode_utf8(s);
}

/// `String::from_utf8`: the string whose UTF-8 encoding the bytes are, if
/// they are one.
#[verifier::external_body]
fn string_from_utf8(bytes: Vec<u8>) -> (s: Option<String>)
    ensures
        s is Some <==> valid_utf8(bytes@),
        s matches Some(text) ==> text@ == decode_utf8(bytes@),
{
    String::from_utf8(bytes).ok()
}

fn hex_value_of(d: u8) -> (v: Option<u8>)
    ensures
        v == hex_value(d),
{
    if 0x30 <= d && d <= 0x39 {
        Some(d - 0x30)
    } else if 0x61 <= d && d <= 0x66 {
        Some(d - 0x57)
    } else {
        None
    }
}

/// Reads one byte of the inside of a string at `pos`.
fn read_unit(input: &[u8], pos: usize) -> (r: Option<(u8, usize)>)
    requires
        pos <= input@.len(),
    ensures
        match r {
            Some((b, width)) => unit(input@.skip(pos as int)) == Some((b, width as nat)) && 1 <= width
                && pos + width <= input@.len(),
            None => unit(input@.skip(pos as int)) is None,
        },
{
    let ghost rest = input@.skip(pos as int);
    let len = input.len();
    if pos >= len {
        return None;
    }
    let first = input[pos];
    assert(rest[0] == first);
    if first == 0x5c {
        if len - pos < 2 {
            return None;
        }
        let second = input[pos + 1];
        assert(rest[1] == second);
        if second == 0x22 {
            Some((0x22, 2))
        } else if second == 0x5c {
            Some((0x5c, 2))
        } else if second == 0x62 {
            Some((0x08, 2))
        } else if second == 0x74 {
            Some((0x09, 2))
        } else if second == 0x6e {
            Some((0x0a, 2))
        } else if second == 0x66 {
            Some((0x0c, 2))
        } else if second == 0x72 {
            Some((0x0d, 2))
        } else if second == 0x75 && len - pos >= 6 {
            assert(rest[2] == input@[pos + 2] && rest[3] == input@[pos + 3] && rest[4] == input@[pos + 4]
                && rest[5] == input@[pos + 5]);
            if input[pos + 2] != 0x30 || input[pos + 3] != 0x30 {
                return None;
            }
            match (hex_value_of(input[pos + 4]), hex_value_of(input[pos + 5])) {
                (Some(high), Some(low)) => Some((16 * high + low, 6)),
                _ => None,
            }
        } else {
            None
        }
    } else if first == 0x22 || first < 0x20 {
        None
    } else {
        Some((first, 1))
    }
}

/// What `body` gives when `done` was read already and `n` bytes lie behind.
pub open spec fn body_after<T>(done: Seq<T>, n: nat, rest: Option<(Seq<T>, nat)>) -> Option<(Seq<T>, nat)> {
    match rest {
        None => None,
        Some((more, m)) => Some((done + more, n + m)),
    }
}

/// The string that the inside of a string stands for.
pub open spec fn string_of_body(inside: Option<(Seq<u8>, nat)>) -> Option<(Seq<char>, nat)> {
    match inside {
        None => None,
        Some((bytes, n)) => if valid_utf8(bytes) {
            Some((decode_utf8(bytes), n + 1))
        } else {
            None
        },
    }
}

/// Reads the string that starts at `pos`.
pub fn read_string(input: &[u8], pos: usize) -> (r: Option<(String, usize)>)
    requires
        pos <= input@.len(),
    ensures
        match r {
            Some((s, end)) => parse_string(input@.skip(pos as int)) == Some((s@, (end - pos) as nat)) && pos < end
                <= input@.len(),
            None => parse_string(input@.skip(pos as int)) is None,
        },
{
    let len = input.len();
    if pos >= len || input[pos] != 0x22 {
        return None;
    }
    let ghost inside = input@.skip(pos as int).skip(1);
    assert(inside =~= input@.skip(pos + 1));
    let mut bytes: Vec<u8> = Vec::new();
    let mut i: usize = pos + 1;
    proof {
        assert(input@.skip(pos as int)[0] == 0x22);
        assert(parse_string(input@.skip(pos as int)) == string_of_body(body(inside)));
        assert(inside.skip(0) =~= inside);
        if body(inside) is Some {
            let whole = body(inside)->0;
            assert(Seq::<u8>::empty() + whole.0 =~= whole.0);
        }
    }
    loop
        invariant
            pos < i <= len,
            len == input@.len(),
            inside == input@.skip(pos + 1),
            parse_string(input@.skip(pos as int)) == string_of_body(body(inside)),
            body(inside) == body_after(bytes@, (i - pos - 1) as nat, body(inside.skip(i - pos - 1))),
        decreases len - i,
    {
        let ghost rest = inside.skip(i - pos - 1);
        assert(rest =~= input@.skip(i as int));
        if i >= len {
            return None;
        }
        assert(rest[0] == input@[i as int]);
        if input[i] == 0x22 {
            assert(body(inside) == Some((bytes@ + Seq::<u8>::empty(), (i - pos) as nat)));
            assert(bytes@ + Seq::<u8>::empty() =~= bytes@);
            return match string_from_utf8(bytes) {
                Some(s) => Some((s, i + 1)),
                None => None,
            };
        }
        match read_unit(input, i) {
            None => {
                return None;
            },
            Some((b, width)) => {
                proof {
                    assert(rest.skip(width as int) =~= inside.skip(i + width - pos - 1));
                    let next = body(rest.skip(width as int));
                    if next is Some {
                        let more = next->0;
                        assert((bytes@.push(b)) + more.0 =~= bytes@ + (seq![b] + more.0));
                    }
                }
                bytes.push(b);
                i = i + width;
            },
        }
    }
}

/// Whether a byte is a decimal digit.
pub open spec fn is_digit(d: u8) -> bool {
    0x30 <= d <= 0x39
}

/// The number below 256 at the front of `input`, read from at most three
/// digits, and how many digits write it.
pub open spec fn number(input: Seq<u8>) -> Option<(u8, nat)> {
    if input.len() == 0 || !is_digit(input[0]) {
        None
    } else {
        let one = input[0] - 0x30;
        if input.len() == 1 || !is_digit(input[1]) {
            Some((one as u8, 1nat))
        } else {
            let two = 10 * one + (input[1] - 0x30);
            if input.len() == 2 || !is_digit(input[2]) {
                Some((two as u8, 2nat))
            } else {
                let three = 10 * two + (input[2] - 0x30);
                if three <= 255 {
                    Some((three as u8, 3nat))
                } else {
                    None
                }
            }
        }
    }
}

/// The numbers of an array that is not empty, up to its closing bracket, and
/// how many bytes were read, the bracket included.
pub open spec fn numbers(input: Seq<u8>) -> Option<(Seq<u8>, nat)>
    decreases input.len(),
{
    match number(input) {
        None => None,
        Some((b, width)) => if width == 0 || input.len() <= width {
            None
        } else if input[width as int] == 0x5d {
            Some((seq![b], width + 1))
        } else if input[width as int] == 0x2c {
            match numbers(input.skip(width as int + 1)) {
                None => None,
                Some((rest, n)) => Some((seq![b] + rest, width + 1 + n)),
            }
        } else {
            None
        },
    }
}

/// The byte array at the front of `input`, and how many bytes write it.
pub open spec fn parse_bytes(input: Seq<u8>) -> Option<(Seq<u8>, nat)> {
    if input.len() < 2 || input[0] != 0x5b {
        None
    } else if input[1] == 0x5d {
        Some((Seq::empty(), 2nat))
    } else {
        match numbers(input.skip(1)) {
            None => None,
            Some((data, n)) => Some((data, n + 1)),
        }
    }
}

/// The decimal forms of the bytes.
pub open spec fn decimals(data: Seq<u8>) -> Seq<Seq<u8>> {
    Seq::new(data.len(), |i: int| decimal(data[i]))
}

/// The decimal form of a byte is read back as the byte, if no digit follows.
pub proof fn lemma_number_decimal(b: u8, rest: Seq<u8>)
    requires
        rest.len() == 0 || !is_digit(rest[0]),
    ensures
        number(decimal(b) + rest) == Some((b, decimal(b).len())),
        1 <= decimal(b).len() <= 3,
{
    let input = decimal(b) + rest;
    if b < 10 {
        assert(input[0] == 0x30 + b);
        if rest.len() > 0 {
            assert(input[1] == rest[0]);
        }
    } else if b < 100 {
        assert(input[0] == 0x30 + b / 10 && input[1] == 0x30 + b % 10);
        if rest.len() > 0 {
            assert(input[2] == rest[0]);
        }
    } else {
        assert(input[0] == 0x30 + b / 100 && input[1] == 0x30 + (b / 10) % 10 && input[2] == 0x30 + b % 10);
        assert(10 * (10 * (b / 100) + (b / 10) % 10) + b % 10 == b);
    }
}

/// The numbers of an array that is not empty are read back as its bytes.
pub proof fn lemma_numbers_join(data: Seq<u8>, rest: Seq<u8>)
    requires
        data.len() > 0,
    ensures
        numbers(join(decimals(data)) + (seq![0x5du8] + rest)) == Some((data, join(decimals(data)).len() + 1)),
    decreases data.len(),
{
    let items = decimals(data);
    let input = join(items) + (seq![0x5du8] + rest);
    let width = decimal(data[0]).len();
    if data.len() == 1 {
        let after = seq![0x5du8] + rest;
        assert(input =~= decimal(data[0]) + after);
        lemma_number_decimal(data[0], after);
        assert(input[width as int] == after[0]);
        assert(seq![data[0]] =~= data);
    } else {
        let tail = data.drop_first();
        assert(items.drop_first() =~= decimals(tail));
        let next = join(decimals(tail)) + (seq![0x5du8] + rest);
        let after = seq![0x2cu8] + next;
        assert(input =~= decimal(data[0]) + after);
        lemma_number_decimal(data[0], after);
        assert(input[width as int] == after[0]);
        assert(input.skip(width as int + 1) =~= next);
        lemma_numbers_join(tail, rest);
        assert(seq![data[0]] + tail =~= data);
    }
}

/// The JSON of a byte array is read back as the array, whatever follows it.
pub proof fn lemma_parse_json_bytes(data: Seq<u8>, rest: Seq<u8>)
    ensures
        parse_bytes(json_bytes(data) + rest) == Some((data, json_bytes(data).len())),
{
    let input = json_bytes(data) + rest;
    assert(Seq::new(data.len(), |i: int| decimal(data[i])) =~= decimals(data));
    assert(input[0] == 0x5b);
    if data.len() == 0 {
        assert(join(decimals(data)) =~= Seq::<u8>::empty());
        assert(input[1] == 0x5d);
        assert(data =~= Seq::<u8>::empty());
    } else {
        lemma_numbers_join(data, rest);
        assert(input.skip(1) =~= join(decimals(data)) + (seq![0x5du8] + rest));
        lemma_number_decimal(data[0], Seq::empty());
        assert(input[1] == decimal(data[0])[0]) by {
            if data.len() == 1 {
                assert(join(decimals(data)) == decimal(data[0]));
            } else {
                assert(join(decimals(data)) == decimals(data)[0] + (seq![0x2cu8] + join(
                    decimals(data).drop_first(),
                )));
            }
        }
    }
}

fn is_digit_byte(d: u8) -> (digit: bool)
    ensures
        digit == is_digit(d),
{
    0x30 <= d && d <= 0x39
}

/// Reads the number that starts at `pos`.
fn read_number(input: &[u8], pos: usize) -> (r: Option<(u8, usize)>)
    requires
        pos <= input@.len(),
    ensures
        match r {
            Some((b, width)) => number(input@.skip(pos as int)) == Some((b, width as nat)) && 1 <= width <= 3
                && pos + width <= input@.len(),
            None => number(input@.skip(pos as int)) is None,
        },
{
    let ghost rest = input@.skip(pos as int);
    let len = input.len();
    if pos >= len {
        return None;
    }
    assert(rest[0] == input@[pos as int]);
    if !is_digit_byte(input[pos]) {
        return None;
    }
    let one: u16 = (input[pos] - 0x30) as u16;
    if len - pos == 1 {
        return Some((one as u8, 1));
    }
    assert(rest[1] == input@[pos + 1]);
    if !is_digit_byte(input[pos + 1]) {
        return Some((one as u8, 1));
    }
    let two: u16 = 10 * one + (input[pos + 1] - 0x30) as u16;
    if len - pos == 2 {
        return Some((two as u8, 2));
    }
    assert(rest[2] == input@[pos + 2]);
    if !is_digit_byte(input[pos + 2]) {
        return Some((two as u8, 2));
    }
    let three: u16 = 10 * two + (input[pos + 2] - 0x30) as u16;
    if three <= 255 {
        Some((three as u8, 3))
    } else {
        None
    }
}

/// What an array gives once its opening bracket is counted in.
pub open spec fn bracketed<T>(inside: Option<(Seq<T>, nat)>) -> Option<(Seq<T>, nat)> {
    match inside {
        None => None,
        Some((items, n)) => Some((items, n + 1)),
    }
}

/// Reads the byte array that starts at `pos`.
pub fn read_bytes(input: &[u8], pos: usize) -> (r: Option<(Vec<u8>, usize)>)
    requires
        pos <= input@.len(),
    ensures
        match r {
            Some((data, end)) => parse_bytes(input@.skip(pos as int)) == Some((data@, (end - pos) as nat)) && pos
                < end <= input@.len(),
            None => parse_bytes(input@.skip(pos as int)) is None,
        },
{
    let len = input.len();
    let ghost whole = input@.skip(pos as int);
    if len - pos < 2 {
        return None;
    }
    assert(whole[0] == input@[pos as int] && whole[1] == input@[pos + 1]);
    if input[pos] != 0x5b {
        return None;
    }
    if input[pos + 1] == 0x5d {
        return Some((Vec::new(), pos + 2));
    }
    let ghost inside = whole.skip(1);
    assert(inside =~= input@.skip(pos + 1));
    let mut data: Vec<u8> = Vec::new();
    let mut i: usize = pos + 1;
    proof {
        assert(parse_bytes(whole) == bracketed(numbers(inside)));
        assert(inside.skip(0) =~= inside);
        if numbers(inside) is Some {
            let all = numbers(inside)->0;
            assert(Seq::<u8>::empty() + all.0 =~= all.0);
        }
    }
    loop
        invariant
            pos < i <= len,
            len == input@.len(),
            inside == input@.skip(pos + 1),
            parse_bytes(input@.skip(pos as int)) == bracketed(numbers(inside)),
            numbers(inside) == body_after(data@, (i - pos - 1) as nat, numbers(inside.skip(i - pos - 1))),
        decreases len - i,
    {
        let ghost rest = inside.skip(i - pos - 1);
        assert(rest =~= input@.skip(i as int));
        match read_number(input, i) {
            None => {
                return None;
            },
            Some((b, width)) => {
                if i + width >= len {
                    return None;
                }
                assert(rest[width as int] == input@[i + width]);
                let next = input[i + width];
                if next == 0x5d {
                    data.push(b);
                    return Some((data, i + width + 1));
                } else if next == 0x2c {
                    proof {
                        assert(rest.skip(width as int + 1) =~= inside.skip(i + width + 1 - pos - 1));
                        let more = numbers(rest.skip(width as int + 1));
                        if more is Some {
                            let found = more->0;
                            assert((data@.push(b)) + found.0 =~= data@ + (seq![b] + found.0));
                        }
                    }
                    data.push(b);
                    i = i + width + 1;
                } else {
                    return None;
                }
            },
        }
    }
}

/// The strings of a list that is not empty, up to its closing bracket, and
/// how many bytes were read, the bracket included.
#[verifier::opaque]
pub open spec fn strings(input: Seq<u8>) -> Option<(Seq<Seq<char>>, nat)>
    decreases input.len(),
{
    match parse_string(input) {
        None => None,
        Some((s, width)) => if width == 0 || input.len() <= width {
            None
        } else if input[width as int] == 0x5d {
            Some((seq![s], width + 1))
        } else if input[width as int] == 0x2c {
            match strings(input.skip(width as int + 1)) {
                None => None,
                Some((rest, n)) => Some((seq![s] + rest, width + 1 + n)),
            }
        } else {
            None
        },
    }
}

/// The list of strings at the front of `input`, and how many bytes write it.
pub open spec fn parse_strings(input: Seq<u8>) -> Option<(Seq<Seq<char>>, nat)> {
    if input.len() < 2 || input[0] != 0x5b {
        None
    } else if input[1] == 0x5d {
        Some((Seq::empty(), 2nat))
    } else {
        bracketed(strings(input.skip(1)))
    }
}

/// The JSON forms of the strings.
pub open spec fn quoted(list: Seq<Seq<char>>) -> Seq<Seq<u8>> {
    Seq::new(list.len(), |i: int| json_string(list[i]))
}

/// One step of `strings`: what the first string and the byte behind it lead
/// to.
pub open spec fn strings_step(input: Seq<u8>, first: Option<(Seq<char>, nat)>) -> Option<(Seq<Seq<char>>, nat)> {
    match first {
        None => None,
        Some((s, width)) => if width == 0 || input.len() <= width {
            None
        } else if input[width as int] == 0x5d {
            Some((seq![s], width + 1))
        } else if input[width as int] == 0x2c {
            body_after(seq![s], width + 1, strings(input.skip(width as int + 1)))
        } else {
            None
        },
    }
}

proof fn lemma_strings_unfold(input: Seq<u8>)
    ensures
        strings(input) == strings_step(input, parse_string(input)),
{
    reveal(strings);
}

/// The strings of a list that is not empty are read back.
pub proof fn lemma_strings_join(list: Seq<Seq<char>>, rest: Seq<u8>)
    requires
        list.len() > 0,
    ensures
        strings(join(quoted(list)) + (seq![0x5du8] + rest)) == Some((list, join(quoted(list)).len() + 1)),
    decreases list.len(),
{
    let items = quoted(list);
    let input = join(items) + (seq![0x5du8] + rest);
    let width = json_string(list[0]).len();
    lemma_strings_unfold(input);
    if list.len() == 1 {
        let after = seq![0x5du8] + rest;
        assert(input =~= json_string(list[0]) + after);
        lemma_parse_json_string(list[0], after);
        assert(input[width as int] == after[0]);
        assert(seq![list[0]] =~= list);
    } else {
        let tail = list.drop_first();
        assert(items.drop_first() =~= quoted(tail));
        let next = join(quoted(tail)) + (seq![0x5du8] + rest);
        let after = seq![0x2cu8] + next;
        assert(input =~= json_string(list[0]) + after);
        lemma_parse_json_string(list[0], after);
        assert(input[width as int] == after[0]);
        assert(input.skip(width as int + 1) =~= next);
        lemma_strings_join(tail, rest);
        assert(seq![list[0]] + tail =~= list);
    }
}

/// The JSON of a list of strings is read back as the list, whatever follows
/// it.
pub proof fn lemma_parse_json_strings(list: Seq<Seq<char>>, rest: Seq<u8>)
    ensures
        parse_strings(json_strings(list) + rest) == Some((list, json_strings(list).len())),
{
    let input = json_strings(list) + rest;
    assert(Seq::new(list.len(), |i: int| json_string(list[i])) =~= quoted(list));
    assert(input[0] == 0x5b);
    if list.len() == 0 {
        assert(join(quoted(list)) =~= Seq::<u8>::empty());
        assert(input[1] == 0x5d);
        assert(list =~= Seq::<Seq<char>>::empty());
    } else {
        lemma_strings_join(list, rest);
        assert(input.skip(1) =~= join(quoted(list)) + (seq![0x5du8] + rest));
        assert(input[1] == 0x22) by {
            assert(json_string(list[0])[0] == 0x22);
            if list.len() == 1 {
                assert(join(quoted(list)) == json_string(list[0]));
            } else {
                assert(join(quoted(list)) == quoted(list)[0] + (seq![0x2cu8] + join(quoted(list).drop_first())));
            }
        }
    }
}

/// Reads the list of strings that starts at `pos`.
pub fn read_strings(input: &[u8], pos: usize) -> (r: Option<(Vec<String>, usize)>)
    requires
        pos <= input@.len(),
    ensures
        match r {
            Some((list, end)) => parse_strings(input@.skip(pos as int)) == Some(
                (names(list@), (end - pos) as nat),
            ) && pos < end <= input@.len(),
            None => parse_strings(input@.skip(pos as int)) is None,
        },
{
    let len = input.len();
    let ghost whole = input@.skip(pos as int);
    if len - pos < 2 {
        return None;
    }
    assert(whole[0] == input@[pos as int] && whole[1] == input@[pos + 1]);
    if input[pos] != 0x5b {
        return None;
    }
    if input[pos + 1] == 0x5d {
        let list: Vec<String> = Vec::new();
        assert(names(list@) =~= Seq::<Seq<char>>::empty());
        return Some((list, pos + 2));
    }
    let ghost inside = whole.skip(1);
    assert(inside =~= input@.skip(pos + 1));
    let mut list: Vec<String> = Vec::new();
    let mut i: usize = pos + 1;
    proof {
        assert(inside.skip(0) =~= inside);
        if strings(inside) is Some {
            let all = strings(inside)->0;
            assert(names(list@) + all.0 =~= all.0);
        }
    }
    loop
        invariant
            pos < i <= len,
            len == input@.len(),
            inside == input@.skip(pos + 1),
            parse_strings(input@.skip(pos as int)) == bracketed(strings(inside)),
            strings(inside) == body_after(names(list@), (i - pos - 1) as nat, strings(inside.skip(i - pos - 1))),
        decreases len - i,
    {
        let ghost rest = inside.skip(i - pos - 1);
        assert(rest =~= input@.skip(i as int));
        proof {
            lemma_strings_unfold(rest);
        }
        match read_string(input, i) {
            None => {
                return None;
            },
            Some((s, end)) => {
                if end >= len {
                    return None;
                }
                let ghost width = end - i;
                assert(rest[width] == input@[end as int]);
                let next = input[end];
                if next == 0x5d {
                    proof {
                        assert(names(list@.push(s)) =~= names(list@) + seq![s@]);
                    }
                    list.push(s);
                    return Some((list, end + 1));
                } else if next == 0x2c {
                    proof {
                        assert(rest.skip(width + 1) =~= inside.skip(end + 1 - pos - 1));
                        let more = strings(rest.skip(width + 1));
                        assert(names(list@.push(s)) =~= names(list@) + seq![s@]);
                        if more is Some {
                            let found = more->0;
                            assert(names(list@.push(s)) + found.0 =~= names(list@) + (seq![s@] + found.0));
                        }
                    }
                    list.push(s);
                    i = end + 1;
                } else {
                    return None;
                }
            },
        }
    }
}

} // verus!

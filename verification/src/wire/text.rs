//! The JSON of the three kinds of field: a string, a byte array, a list of
//! strings.

use crate::enums::response::names;
use vstd::prelude::*;
use vstd::utf8::encode_utf8;

verus! {

/// The lower-case hexadecimal digit of a value below 16.
pub open spec fn hex_digit(n: u8) -> u8 {
    if n < 10 {
        (0x30 + n) as u8
    } else {
        (0x57 + n) as u8
    }
}

/// How one byte of a string is written between the quotes: the quote and the
/// backslash behind a backslash, the control characters by their short
/// escapes where JSON has one and as `\u00XX` otherwise, every other byte as
/// it is.
pub open spec fn escape_byte(b: u8) -> Seq<u8> {
    if b == 0x22 {
        seq![0x5cu8, 0x22u8]
    } else if b == 0x5c {
        seq![0x5cu8, 0x5cu8]
    } else if b == 0x08 {
        seq![0x5cu8, 0x62u8]
    } else if b == 0x09 {
        seq![0x5cu8, 0x74u8]
    } else if b == 0x0a {
        seq![0x5cu8, 0x6eu8]
    } else if b == 0x0c {
        seq![0x5cu8, 0x66u8]
    } else if b == 0x0d {
        seq![0x5cu8, 0x72u8]
    } else if b < 0x20 {
        seq![0x5cu8, 0x75u8, 0x30u8, 0x30u8, hex_digit(b / 16), hex_digit(b % 16)]
    } else {
        seq![b]
    }
}

/// The escapes of the bytes of `s`, one after the other.
pub open spec fn escape_bytes(s: Seq<u8>) -> Seq<u8>
    decreases s.len(),
{
    if s.len() == 0 {
        Seq::empty()
    } else {
        escape_byte(s[0]) + escape_bytes(s.drop_first())
    }
}

/// A string as JSON: its UTF-8 bytes, escaped, between two quotes.
pub open spec fn json_string(s: Seq<char>) -> Seq<u8> {
    seq![0x22u8] + (escape_bytes(encode_utf8(s)) + seq![0x22u8])
}

/// A byte as a JSON number: its decimal digits, without leading zeros.
pub open spec fn decimal(b: u8) -> Seq<u8> {
    if b < 10 {
        seq![(0x30 + b) as u8]
    } else if b < 100 {
        seq![(0x30 + b / 10) as u8, (0x30 + b % 10) as u8]
    } else {
        seq![(0x30 + b / 100) as u8, (0x30 + (b / 10) % 10) as u8, (0x30 + b % 10) as u8]
    }
}

/// The items with a comma between each two.
pub open spec fn join(items: Seq<Seq<u8>>) -> Seq<u8>
    decreases items.len(),
{
    if items.len() == 0 {
        Seq::empty()
    } else if items.len() == 1 {
        items[0]
    } else {
        items[0] + (seq![0x2cu8] + join(items.drop_first()))
    }
}

/// A byte array as JSON: the numbers between square brackets.
pub open spec fn json_bytes(data: Seq<u8>) -> Seq<u8> {
    seq![0x5bu8] + (join(Seq::new(data.len(), |i: int| decimal(data[i]))) + seq![0x5du8])
}

/// A list of strings as JSON: the strings between square brackets.
pub open spec fn json_strings(list: Seq<Seq<char>>) -> Seq<u8> {
    seq![0x5bu8] + (join(Seq::new(list.len(), |i: int| json_string(list[i]))) + seq![0x5du8])
}

/// Escaping goes through a concatenation.
pub proof fn lemma_escape_bytes_concat(a: Seq<u8>, b: Seq<u8>)
    ensures
        escape_bytes(a + b) == escape_bytes(a) + escape_bytes(b),
    decreases a.len(),
{
    if a.len() == 0 {
        assert(a + b =~= b);
        assert(escape_bytes(a) + escape_bytes(b) =~= escape_bytes(b));
    } else {
        lemma_escape_bytes_concat(a.drop_first(), b);
        assert((a + b).drop_first() =~= a.drop_first() + b);
        assert(escape_bytes(a + b) =~= escape_bytes(a) + escape_bytes(b));
    }
}

/// The escape of a single byte.
pub proof fn lemma_escape_bytes_single(b: u8)
    ensures
        escape_bytes(seq![b]) == escape_byte(b),
{
    let one = seq![b];
    assert(one.drop_first() =~= Seq::<u8>::empty());
    assert(escape_bytes(one.drop_first()) =~= Seq::<u8>::empty());
    assert(escape_bytes(one) =~= escape_byte(one[0]) + escape_bytes(one.drop_first()));
    assert(escape_bytes(one) =~= escape_byte(b));
}

/// Joining one more item adds a comma and the item, or the item alone where
/// it is the first.
pub proof fn lemma_join_push(items: Seq<Seq<u8>>, item: Seq<u8>)
    ensures
        join(items.push(item)) == if items.len() == 0 {
            item
        } else {
            join(items) + (seq![0x2cu8] + item)
        },
    decreases items.len(),
{
    if items.len() == 0 {
        assert(items.push(item)[0] == item);
    } else if items.len() == 1 {
        assert(items.push(item).drop_first() =~= seq![item]);
        assert(join(seq![item]) == item);
        assert(join(items.push(item)) =~= join(items) + (seq![0x2cu8] + item));
    } else {
        lemma_join_push(items.drop_first(), item);
        assert(items.push(item).drop_first() =~= items.drop_first().push(item));
        assert(join(items.push(item)) =~= join(items) + (seq![0x2cu8] + item));
    }
}

/// Appends the bytes of a piece of fixed text.
pub fn push_literal(out: &mut Vec<u8>, literal: &str)
    ensures
        final(out)@ == old(out)@ + encode_utf8(literal@),
{
    out.extend_from_slice(literal.as_bytes());
}

fn hex_digit_of(n: u8) -> (d: u8)
    requires
        n < 16,
    ensures
        d == hex_digit(n),
{
    if n < 10 {
        0x30 + n
    } else {
        0x57 + n
    }
}

fn push_escaped_byte(out: &mut Vec<u8>, b: u8)
    ensures
        final(out)@ == old(out)@ + escape_byte(b),
{
    if b == 0x22 {
        out.push(0x5c);
        out.push(0x22);
    } else if b == 0x5c {
        out.push(0x5c);
        out.push(0x5c);
    } else if b == 0x08 {
        out.push(0x5c);
        out.push(0x62);
    } else if b == 0x09 {
        out.push(0x5c);
        out.push(0x74);
    } else if b == 0x0a {
        out.push(0x5c);
        out.push(0x6e);
    } else if b == 0x0c {
        out.push(0x5c);
        out.push(0x66);
    } else if b == 0x0d {
        out.push(0x5c);
        out.push(0x72);
    } else if b < 0x20 {
        out.push(0x5c);
        out.push(0x75);
        out.push(0x30);
        out.push(0x30);
        out.push(hex_digit_of(b / 16));
        out.push(hex_digit_of(b % 16));
    } else {
        out.push(b);
    }
    assert(out@ =~= old(out)@ + escape_byte(b));
}

/// Appends a string as JSON.
pub fn push_string(out: &mut Vec<u8>, s: &str)
    ensures
        final(out)@ == old(out)@ + json_string(s@),
{
    let bytes = s.as_bytes();
    out.push(0x22);
    let mut i: usize = 0;
    while i < bytes.len()
        invariant
            i <= bytes.len(),
            out@ == old(out)@ + (seq![0x22u8] + escape_bytes(bytes@.take(i as int))),
        decreases bytes.len() - i,
    {
        push_escaped_byte(out, bytes[i]);
        proof {
            lemma_escape_bytes_concat(bytes@.take(i as int), seq![bytes@[i as int]]);
            assert(bytes@.take(i as int + 1) =~= bytes@.take(i as int) + seq![bytes@[i as int]]);
            lemma_escape_bytes_single(bytes@[i as int]);
            assert(out@ =~= old(out)@ + (seq![0x22u8] + escape_bytes(bytes@.take(i as int + 1))));
        }
        i += 1;
    }
    out.push(0x22);
    proof {
        assert(bytes@.take(i as int) =~= bytes@);
        assert(out@ =~= old(out)@ + json_string(s@));
    }
}

fn push_decimal(out: &mut Vec<u8>, b: u8)
    ensures
        final(out)@ == old(out)@ + decimal(b),
{
    if b < 10 {
        out.push(0x30 + b);
    } else if b < 100 {
        out.push(0x30 + b / 10);
        out.push(0x30 + b % 10);
    } else {
        out.push(0x30 + b / 100);
        out.push(0x30 + (b / 10) % 10);
        out.push(0x30 + b % 10);
    }
    assert(out@ =~= old(out)@ + decimal(b));
}

/// Appends a byte array as JSON.
pub fn push_bytes(out: &mut Vec<u8>, data: &[u8])
    ensures
        final(out)@ == old(out)@ + json_bytes(data@),
{
    let ghost items = Seq::new(data@.len(), |i: int| decimal(data@[i]));
    out.push(0x5b);
    let mut i: usize = 0;
    while i < data.len()
        invariant
            i <= data.len(),
            items == Seq::new(data@.len(), |i: int| decimal(data@[i])),
            out@ == old(out)@ + (seq![0x5bu8] + join(items.take(i as int))),
        decreases data.len() - i,
    {
        if i > 0 {
            out.push(0x2c);
        }
        push_decimal(out, data[i]);
        proof {
            lemma_join_push(items.take(i as int), items[i as int]);
            assert(items.take(i as int + 1) =~= items.take(i as int).push(items[i as int]));
            assert(out@ =~= old(out)@ + (seq![0x5bu8] + join(items.take(i as int + 1))));
        }
        i += 1;
    }
    out.push(0x5d);
    proof {
        assert(items.take(i as int) =~= items);
        assert(out@ =~= old(out)@ + json_bytes(data@));
    }
}

/// Appends a list of strings as JSON.
pub fn push_strings(out: &mut Vec<u8>, list: &Vec<String>)
    ensures
        final(out)@ == old(out)@ + json_strings(names(list@)),
{
    let ghost items = Seq::new(list@.len(), |i: int| json_string(names(list@)[i]));
    out.push(0x5b);
    let mut i: usize = 0;
    while i < list.len()
        invariant
            i <= list.len(),
            items == Seq::new(list@.len(), |i: int| json_string(names(list@)[i])),
            out@ == old(out)@ + (seq![0x5bu8] + join(items.take(i as int))),
        decreases list.len() - i,
    {
        if i > 0 {
            out.push(0x2c);
        }
        push_string(out, list[i].as_str());
        proof {
            lemma_join_push(items.take(i as int), items[i as int]);
            assert(items.take(i as int + 1) =~= items.take(i as int).push(items[i as int]));
            assert(out@ =~= old(out)@ + (seq![0x5bu8] + join(items.take(i as int + 1))));
        }
        i += 1;
    }
    out.push(0x5d);
    proof {
        assert(items.take(i as int) =~= items);
        assert(names(list@).len() == list@.len());
        assert(out@ =~= old(out)@ + json_strings(names(list@)));
    }
}

} // verus!

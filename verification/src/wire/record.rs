//! A record on the wire: a piece of fixed text, then fields, each followed by
//! a piece of fixed text. Every variant with fields and the envelope are
//! written as one.

use crate::enums::response::names;
use crate::wire::encode::lit;
use crate::wire::read::{
    lemma_parse_json_bytes, lemma_parse_json_string, lemma_parse_json_strings, parse_bytes, parse_string,
    parse_strings, read_bytes, read_string, read_strings,
};
use crate::wire::text::{json_bytes, json_string, json_strings, push_bytes, push_literal, push_string, push_strings};
use vstd::prelude::*;

verus! {

/// The three kinds of field.
#[derive(Debug, Clone, Copy, PartialEq, Eq, Structural)]
pub enum Kind {
    /// A string.
    Text,
    /// An array of bytes.
    Bytes,
    /// A list of strings.
    List,
}

/// The value of a field.
#[derive(Debug, Clone, PartialEq, Eq)]
pub enum Item {
    Text(String),
    Bytes(Vec<u8>),
    List(Vec<String>),
}

/// The value of a field as a mathematical value.
pub enum Field {
    Text(Seq<char>),
    Bytes(Seq<u8>),
    List(Seq<Seq<char>>),
}

impl View for Item {
    type V = Field;

    open spec fn view(&self) -> Field {
        match self {
            Item::Text(s) => Field::Text(s@),
            Item::Bytes(b) => Field::Bytes(b@),
            Item::List(l) => Field::List(names(l@)),
        }
    }
}

/// The values that a vector of items holds.
pub open spec fn fields_of(items: Seq<Item>) -> Seq<Field> {
    Seq::new(items.len(), |i: int| items[i]@)
}

/// The kind of a value.
pub open spec fn kind_of(field: Field) -> Kind {
    match field {
        Field::Text(_) => Kind::Text,
        Field::Bytes(_) => Kind::Bytes,
        Field::List(_) => Kind::List,
    }
}

/// The JSON of a value.
pub open spec fn field_json(field: Field) -> Seq<u8> {
    match field {
        Field::Text(s) => json_string(s),
        Field::Bytes(b) => json_bytes(b),
        Field::List(l) => json_strings(l),
    }
}

/// The value of the given kind at the front of `input`, and how many bytes
/// write it.
pub open spec fn parse_field(kind: Kind, input: Seq<u8>) -> Option<(Field, nat)> {
    match kind {
        Kind::Text => match parse_string(input) {
            None => None,
            Some((s, n)) => Some((Field::Text(s), n)),
        },
        Kind::Bytes => match parse_bytes(input) {
            None => None,
            Some((b, n)) => Some((Field::Bytes(b), n)),
        },
        Kind::List => match parse_strings(input) {
            None => None,
            Some((l, n)) => Some((Field::List(l), n)),
        },
    }
}

/// There is one value for each slot, of the slot's kind.
pub open spec fn fits(slots: Seq<(Kind, &str)>, fields: Seq<Field>) -> bool {
    &&& fields.len() == slots.len()
    &&& forall|i: int| 0 <= i < slots.len() ==> kind_of(#[trigger] fields[i]) == slots[i].0
}

/// The fields, each with the text of its slot behind it.
pub open spec fn tail_json(slots: Seq<(Kind, &str)>, fields: Seq<Field>) -> Seq<u8>
    decreases slots.len(),
{
    if slots.len() == 0 {
        Seq::empty()
    } else {
        field_json(fields[0]) + (lit(slots[0].1) + tail_json(slots.drop_first(), fields.drop_first()))
    }
}

/// The JSON of a record.
pub open spec fn record_json(head: &str, slots: Seq<(Kind, &str)>, fields: Seq<Field>) -> Seq<u8> {
    lit(head) + tail_json(slots, fields)
}

/// Whether `input` begins with `text`.
pub open spec fn starts(input: Seq<u8>, text: Seq<u8>) -> bool {
    text.len() <= input.len() && input.subrange(0, text.len() as int) == text
}

/// The fields that `input` holds for the slots, if it is made of them and
/// nothing else.
#[verifier::opaque]
pub open spec fn parse_tail(slots: Seq<(Kind, &str)>, input: Seq<u8>) -> Option<Seq<Field>>
    decreases slots.len(),
{
    if slots.len() == 0 {
        if input.len() == 0 {
            Some(Seq::empty())
        } else {
            None
        }
    } else {
        match parse_field(slots[0].0, input) {
            None => None,
            Some((field, n)) => if n > input.len() || !starts(input.skip(n as int), lit(slots[0].1)) {
                None
            } else {
                match parse_tail(slots.drop_first(), input.skip(n as int).skip(lit(slots[0].1).len() as int)) {
                    None => None,
                    Some(rest) => Some(seq![field] + rest),
                }
            },
        }
    }
}

/// The JSON of a value is read back as the value, whatever follows it.
pub proof fn lemma_parse_field(field: Field, rest: Seq<u8>)
    ensures
        parse_field(kind_of(field), field_json(field) + rest) == Some((field, field_json(field).len())),
{
    match field {
        Field::Text(s) => lemma_parse_json_string(s, rest),
        Field::Bytes(b) => lemma_parse_json_bytes(b, rest),
        Field::List(l) => lemma_parse_json_strings(l, rest),
    }
}

/// The fields of a record are read back from its JSON.
pub proof fn lemma_parse_tail(slots: Seq<(Kind, &str)>, fields: Seq<Field>)
    requires
        fits(slots, fields),
    ensures
        parse_tail(slots, tail_json(slots, fields)) == Some(fields),
    decreases slots.len(),
{
    reveal(parse_tail);
    let input = tail_json(slots, fields);
    if slots.len() == 0 {
        assert(fields =~= Seq::<Field>::empty());
    } else {
        let text = lit(slots[0].1);
        let after = tail_json(slots.drop_first(), fields.drop_first());
        let rest = text + after;
        let n = field_json(fields[0]).len();
        lemma_parse_field(fields[0], rest);
        assert(input.skip(n as int) =~= rest);
        assert(rest.subrange(0, text.len() as int) =~= text);
        assert(rest.skip(text.len() as int) =~= after);
        assert(fits(slots.drop_first(), fields.drop_first())) by {
            assert forall|i: int| 0 <= i < slots.drop_first().len() implies kind_of(
                #[trigger] fields.drop_first()[i],
            ) == slots.drop_first()[i].0 by {
                assert(fields.drop_first()[i] == fields[i + 1]);
            }
        }
        lemma_parse_tail(slots.drop_first(), fields.drop_first());
        assert(seq![fields[0]] + fields.drop_first() =~= fields);
    }
}

/// Whether two byte strings are the same.
pub fn same_bytes(a: &[u8], b: &[u8]) -> (same: bool)
    ensures
        same == (a@ == b@),
{
    if a.len() != b.len() {
        return false;
    }
    let mut i: usize = 0;
    while i < a.len()
        invariant
            i <= a.len(),
            a@.len() == b@.len(),
            a@.take(i as int) == b@.take(i as int),
        decreases a.len() - i,
    {
        if a[i] != b[i] {
            return false;
        }
        proof {
            assert(a@.take(i as int + 1) =~= a@.take(i as int).push(a@[i as int]));
            assert(b@.take(i as int + 1) =~= b@.take(i as int).push(b@[i as int]));
        }
        i += 1;
    }
    proof {
        assert(a@.take(i as int) =~= a@);
        assert(b@.take(i as int) =~= b@);
    }
    true
}

/// Where the text ends that stands in `input` at `pos`, if it stands there.
pub fn literal_at(input: &[u8], pos: usize, text: &str) -> (end: Option<usize>)
    requires
        pos <= input@.len(),
    ensures
        end is Some <==> starts(input@.skip(pos as int), lit(text)),
        end matches Some(e) ==> e == pos + lit(text).len() && e <= input@.len(),
{
    let bytes = text.as_bytes();
    if input.len() - pos < bytes.len() {
        return None;
    }
    let ghost rest = input@.skip(pos as int);
    let part = vstd::slice::slice_subrange(input, pos, pos + bytes.len());
    assert(part@ =~= rest.subrange(0, bytes@.len() as int));
    if same_bytes(part, bytes) {
        Some(pos + bytes.len())
    } else {
        None
    }
}

/// Writes a record.
pub fn write_record(head: &str, slots: &[(Kind, &str)], items: &Vec<Item>) -> (out: Vec<u8>)
    requires
        fits(slots@, fields_of(items@)),
    ensures
        out@ == record_json(head, slots@, fields_of(items@)),
{
    let ghost fields = fields_of(items@);
    let mut out: Vec<u8> = Vec::new();
    push_literal(&mut out, head);
    let mut i: usize = 0;
    proof {
        assert(slots@.skip(0) =~= slots@);
        assert(fields.skip(0) =~= fields);
        assert(out@ =~= lit(head));
    }
    while i < slots.len()
        invariant
            i <= slots.len(),
            fields == fields_of(items@),
            fits(slots@, fields),
            out@ + tail_json(slots@.skip(i as int), fields.skip(i as int)) == record_json(head, slots@, fields),
        decreases slots.len() - i,
    {
        let ghost before = out@;
        let ghost left = slots@.skip(i as int);
        let ghost values = fields.skip(i as int);
        proof {
            assert(left.drop_first() =~= slots@.skip(i as int + 1));
            assert(values.drop_first() =~= fields.skip(i as int + 1));
            assert(left[0] == slots@[i as int]);
            assert(values[0] == items@[i as int]@);
            assert(kind_of(fields[i as int]) == slots@[i as int].0);
        }
        match &items[i] {
            Item::Text(s) => push_string(&mut out, s.as_str()),
            Item::Bytes(b) => push_bytes(&mut out, b.as_slice()),
            Item::List(l) => push_strings(&mut out, l),
        }
        push_literal(&mut out, slots[i].1);
        proof {
            assert(out@ + tail_json(left.drop_first(), values.drop_first()) =~= before + tail_json(left, values));
        }
        i += 1;
    }
    proof {
        assert(slots@.skip(i as int) =~= Seq::<(Kind, &str)>::empty());
        assert(out@ + Seq::<u8>::empty() =~= out@);
    }
    out
}

/// What `parse_tail` gives when `done` was read already.
pub open spec fn tail_after(done: Seq<Field>, rest: Option<Seq<Field>>) -> Option<Seq<Field>> {
    match rest {
        None => None,
        Some(more) => Some(done + more),
    }
}

/// Reads the field of the given kind that starts at `pos`.
fn read_field(input: &[u8], pos: usize, kind: Kind) -> (r: Option<(Item, usize)>)
    requires
        pos <= input@.len(),
    ensures
        match r {
            Some((item, end)) => parse_field(kind, input@.skip(pos as int)) == Some((item@, (end - pos) as nat))
                && pos < end <= input@.len(),
            None => parse_field(kind, input@.skip(pos as int)) is None,
        },
{
    match kind {
        Kind::Text => match read_string(input, pos) {
            Some((s, end)) => Some((Item::Text(s), end)),
            None => None,
        },
        Kind::Bytes => match read_bytes(input, pos) {
            Some((b, end)) => Some((Item::Bytes(b), end)),
            None => None,
        },
        Kind::List => match read_strings(input, pos) {
            Some((l, end)) => Some((Item::List(l), end)),
            None => None,
        },
    }
}

/// Reads the fields that follow the head of a record, from `start` to the end
/// of the input.
fn read_tail(input: &[u8], start: usize, slots: &[(Kind, &str)]) -> (r: Option<Vec<Item>>)
    requires
        start <= input@.len(),
    ensures
        match r {
            Some(items) => parse_tail(slots@, input@.skip(start as int)) == Some(fields_of(items@)),
            None => parse_tail(slots@, input@.skip(start as int)) is None,
        },
{
    let mut items: Vec<Item> = Vec::new();
    let mut pos: usize = start;
    let mut i: usize = 0;
    proof {
        assert(slots@.skip(0) =~= slots@);
        let all = parse_tail(slots@, input@.skip(start as int));
        if all is Some {
            assert(fields_of(items@) + all->0 =~= all->0);
        }
    }
    while i < slots.len()
        invariant
            i <= slots.len(),
            start <= pos <= input@.len(),
            parse_tail(slots@, input@.skip(start as int)) == tail_after(
                fields_of(items@),
                parse_tail(slots@.skip(i as int), input@.skip(pos as int)),
            ),
        decreases slots.len() - i,
    {
        let ghost left = slots@.skip(i as int);
        let ghost rest = input@.skip(pos as int);
        proof {
            reveal(parse_tail);
            assert(left[0] == slots@[i as int]);
            assert(left.drop_first() =~= slots@.skip(i as int + 1));
        }
        match read_field(input, pos, slots[i].0) {
            None => {
                return None;
            },
            Some((item, end)) => {
                assert(rest.skip(end - pos) =~= input@.skip(end as int));
                let next = match literal_at(input, end, slots[i].1) {
                    Some(next) => next,
                    None => {
                        return None;
                    },
                };
                proof {
                    assert(input@.skip(end as int).skip(lit(slots@[i as int].1).len() as int) =~= input@.skip(
                        next as int,
                    ));
                    assert(fields_of(items@.push(item)) =~= fields_of(items@) + seq![item@]);
                    let more = parse_tail(left.drop_first(), input@.skip(next as int));
                    if more is Some {
                        assert(fields_of(items@.push(item)) + more->0 =~= fields_of(items@) + (seq![item@]
                            + more->0));
                    }
                }
                items.push(item);
                pos = next;
                i += 1;
            },
        }
    }
    proof {
        reveal(parse_tail);
        assert(slots@.skip(i as int) =~= Seq::<(Kind, &str)>::empty());
        assert(fields_of(items@) + Seq::<Field>::empty() =~= fields_of(items@));
    }
    if pos == input.len() {
        Some(items)
    } else {
        None
    }
}

/// What is read for the slots has one value for each, of the slot's kind.
pub proof fn lemma_parse_tail_fits(slots: Seq<(Kind, &str)>, input: Seq<u8>)
    requires
        parse_tail(slots, input) is Some,
    ensures
        fits(slots, parse_tail(slots, input)->0),
    decreases slots.len(),
{
    reveal(parse_tail);
    if slots.len() > 0 {
        let first = parse_field(slots[0].0, input)->0;
        let next = input.skip(first.1 as int).skip(lit(slots[0].1).len() as int);
        lemma_parse_tail_fits(slots.drop_first(), next);
        let rest = parse_tail(slots.drop_first(), next)->0;
        let fields = seq![first.0] + rest;
        assert forall|i: int| 0 <= i < slots.len() implies kind_of(#[trigger] fields[i]) == slots[i].0 by {
            if i > 0 {
                assert(fields[i] == rest[i - 1]);
                assert(slots[i] == slots.drop_first()[i - 1]);
            }
        }
    }
}

/// A record whose JSON is `input` is the one that is read from `input`.
pub proof fn lemma_record_read_back(head: &str, slots: Seq<(Kind, &str)>, fields: Seq<Field>, input: Seq<u8>)
    requires
        fits(slots, fields),
        record_json(head, slots, fields) == input,
    ensures
        starts(input, lit(head)),
        parse_tail(slots, input.skip(lit(head).len() as int)) == Some(fields),
{
    lemma_parse_tail(slots, fields);
    assert(input.subrange(0, lit(head).len() as int) =~= lit(head));
    assert(input.skip(lit(head).len() as int) =~= tail_json(slots, fields));
}

/// Reads a record: the values of its fields if `input` is the JSON of a
/// record with this head and these slots, and `None` if it is the JSON of no
/// such record.
pub fn read_record(input: &[u8], head: &str, slots: &[(Kind, &str)]) -> (r: Option<Vec<Item>>)
    ensures
        match r {
            Some(items) => fits(slots@, fields_of(items@)) && record_json(head, slots@, fields_of(items@))
                == input@,
            None => forall|fields: Seq<Field>|
                fits(slots@, fields) ==> #[trigger] record_json(head, slots@, fields) != input@,
        },
{
    proof {
        assert(input@.skip(0) =~= input@);
    }
    let start = match literal_at(input, 0, head) {
        Some(start) => start,
        None => {
            proof {
                assert forall|fields: Seq<Field>| fits(slots@, fields) implies #[trigger] record_json(
                    head,
                    slots@,
                    fields,
                ) != input@ by {
                    if record_json(head, slots@, fields) == input@ {
                        lemma_record_read_back(head, slots@, fields, input@);
                    }
                }
            }
            return None;
        },
    };
    let items = match read_tail(input, start, slots) {
        Some(items) => items,
        None => {
            proof {
                assert forall|fields: Seq<Field>| fits(slots@, fields) implies #[trigger] record_json(
                    head,
                    slots@,
                    fields,
                ) != input@ by {
                    if record_json(head, slots@, fields) == input@ {
                        lemma_record_read_back(head, slots@, fields, input@);
                    }
                }
            }
            return None;
        },
    };
    proof {
        lemma_parse_tail_fits(slots@, input@.skip(start as int));
    }
    let again = write_record(head, slots, &items);
    if same_bytes(again.as_slice(), input) {
        Some(items)
    } else {
        proof {
            assert forall|fields: Seq<Field>| fits(slots@, fields) implies #[trigger] record_json(
                head,
                slots@,
                fields,
            ) != input@ by {
                if record_json(head, slots@, fields) == input@ {
                    lemma_record_read_back(head, slots@, fields, input@);
                }
            }
        }
        None
    }
}

} // verus!

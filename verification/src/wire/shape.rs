//! The three shapes of record that are in use: one field, two fields, three
//! fields.

use crate::wire::encode::{lit, one_field, two_fields};
use crate::wire::record::{
    field_json, fields_of, fits, kind_of, read_record, record_json, tail_json, Field, Item, Kind,
};
use vstd::pervasive::unreached;
use vstd::prelude::*;

verus! {

/// A record with one field, written out.
pub proof fn lemma_record_one(head: &str, field: Field)
    ensures
        fits(seq![(kind_of(field), "}}")], seq![field]),
        record_json(head, seq![(kind_of(field), "}}")], seq![field]) == one_field(head, field_json(field)),
{
    let slots = seq![(kind_of(field), "}}")];
    let fields = seq![field];
    assert(slots.drop_first() =~= Seq::<(Kind, &str)>::empty());
    assert(tail_json(slots.drop_first(), fields.drop_first()) =~= Seq::<u8>::empty());
    assert(tail_json(slots, fields) =~= field_json(field) + lit("}}"));
}

/// A record with two fields, written out.
pub proof fn lemma_record_two(head: &str, first: Field, middle: &str, second: Field, tail: &str)
    ensures
        fits(seq![(kind_of(first), middle), (kind_of(second), tail)], seq![first, second]),
        record_json(head, seq![(kind_of(first), middle), (kind_of(second), tail)], seq![first, second])
            == two_fields(head, field_json(first), middle, field_json(second), tail),
{
    let slots = seq![(kind_of(first), middle), (kind_of(second), tail)];
    let fields = seq![first, second];
    assert(slots.drop_first() =~= seq![(kind_of(second), tail)]);
    assert(fields.drop_first() =~= seq![second]);
    assert(slots.drop_first().drop_first() =~= Seq::<(Kind, &str)>::empty());
    assert(tail_json(slots.drop_first().drop_first(), fields.drop_first().drop_first()) =~= Seq::<u8>::empty());
    assert(tail_json(slots.drop_first(), fields.drop_first()) =~= field_json(second) + lit(tail));
    assert(tail_json(slots, fields) =~= field_json(first) + (lit(middle) + (field_json(second) + lit(tail))));
}

/// A record with three fields, written out.
pub proof fn lemma_record_three(
    head: &str,
    first: Field,
    middle: &str,
    second: Field,
    then: &str,
    third: Field,
)
    ensures
        fits(
            seq![(kind_of(first), middle), (kind_of(second), then), (kind_of(third), "}}")],
            seq![first, second, third],
        ),
        record_json(
            head,
            seq![(kind_of(first), middle), (kind_of(second), then), (kind_of(third), "}}")],
            seq![first, second, third],
        ) == two_fields(head, field_json(first), middle, field_json(second), then) + (field_json(third) + lit(
            "}}",
        )),
{
    let slots = seq![(kind_of(first), middle), (kind_of(second), then), (kind_of(third), "}}")];
    let fields = seq![first, second, third];
    let slots2 = seq![(kind_of(second), then), (kind_of(third), "}}")];
    let fields2 = seq![second, third];
    let slots3 = seq![(kind_of(third), "}}")];
    let fields3 = seq![third];
    lemma_tail_step(slots3, fields3);
    assert(slots3.drop_first() =~= Seq::<(Kind, &str)>::empty());
    let last = field_json(third) + lit("}}");
    assert(tail_json(slots3, fields3) =~= last);
    lemma_tail_step(slots2, fields2);
    assert(slots2.drop_first() =~= slots3);
    assert(fields2.drop_first() =~= fields3);
    lemma_tail_step(slots, fields);
    assert(slots.drop_first() =~= slots2);
    assert(fields.drop_first() =~= fields2);
    let inner = field_json(second) + (lit(then) + last);
    assert(tail_json(slots2, fields2) == inner);
    assert(tail_json(slots, fields) == field_json(first) + (lit(middle) + inner));
    lemma_regroup(lit(head), field_json(first), lit(middle), field_json(second), lit(then), last);
}

/// The first field and its text, then the rest.
proof fn lemma_tail_step(slots: Seq<(Kind, &str)>, fields: Seq<Field>)
    requires
        slots.len() > 0,
    ensures
        tail_json(slots, fields) == field_json(fields[0]) + (lit(slots[0].1) + tail_json(
            slots.drop_first(),
            fields.drop_first(),
        )),
{
}

/// Six pieces in a row, grouped in two ways.
proof fn lemma_regroup(a: Seq<u8>, b: Seq<u8>, c: Seq<u8>, d: Seq<u8>, e: Seq<u8>, f: Seq<u8>)
    ensures
        a + (b + (c + (d + (e + f)))) == (a + (b + (c + (d + e)))) + f,
{
    assert(a + (b + (c + (d + (e + f)))) =~= (a + (b + (c + (d + e)))) + f);
}

/// Reads a record with one field of the given kind.
pub fn read_one(input: &[u8], head: &str, kind: Kind) -> (r: Option<Item>)
    ensures
        match r {
            Some(item) => kind_of(item@) == kind && one_field(head, field_json(item@)) == input@,
            None => forall|field: Field|
                kind_of(field) == kind ==> one_field(head, #[trigger] field_json(field)) != input@,
        },
{
    let mut slots: Vec<(Kind, &str)> = Vec::new();
    slots.push((kind, "}}"));
    assert(slots@ =~= seq![(kind, "}}")]);
    match read_record(input, head, slots.as_slice()) {
        None => {
            proof {
                assert forall|field: Field| kind_of(field) == kind implies one_field(
                    head,
                    #[trigger] field_json(field),
                ) != input@ by {
                    lemma_record_one(head, field);
                }
            }
            None
        },
        Some(mut items) => {
            let ghost all = fields_of(items@);
            assert(all =~= seq![all[0]]);
            proof {
                lemma_record_one(head, all[0]);
            }
            match items.pop() {
                Some(item) => Some(item),
                None => unreached(),
            }
        },
    }
}

/// Reads a record with two fields of the given kinds.
pub fn read_two(input: &[u8], head: &str, first: Kind, middle: &str, second: Kind, tail: &str) -> (r: Option<
    (Item, Item),
>)
    ensures
        match r {
            Some((a, b)) => kind_of(a@) == first && kind_of(b@) == second && two_fields(
                head,
                field_json(a@),
                middle,
                field_json(b@),
                tail,
            ) == input@,
            None => forall|a: Field, b: Field|
                kind_of(a) == first && kind_of(b) == second ==> two_fields(
                    head,
                    #[trigger] field_json(a),
                    middle,
                    #[trigger] field_json(b),
                    tail,
                ) != input@,
        },
{
    let mut slots: Vec<(Kind, &str)> = Vec::new();
    slots.push((first, middle));
    slots.push((second, tail));
    assert(slots@ =~= seq![(first, middle), (second, tail)]);
    match read_record(input, head, slots.as_slice()) {
        None => {
            proof {
                assert forall|a: Field, b: Field| kind_of(a) == first && kind_of(b) == second implies two_fields(
                    head,
                    #[trigger] field_json(a),
                    middle,
                    #[trigger] field_json(b),
                    tail,
                ) != input@ by {
                    lemma_record_two(head, a, middle, b, tail);
                }
            }
            None
        },
        Some(mut items) => {
            let ghost all = fields_of(items@);
            assert(all =~= seq![all[0], all[1]]);
            proof {
                lemma_record_two(head, all[0], middle, all[1], tail);
            }
            let b = match items.pop() {
                Some(item) => item,
                None => unreached(),
            };
            let a = match items.pop() {
                Some(item) => item,
                None => unreached(),
            };
            Some((a, b))
        },
    }
}

/// Reads a record with three fields of the given kinds.
pub fn read_three(
    input: &[u8],
    head: &str,
    first: Kind,
    middle: &str,
    second: Kind,
    then: &str,
    third: Kind,
) -> (r: Option<(Item, Item, Item)>)
    ensures
        match r {
            Some((a, b, c)) => kind_of(a@) == first && kind_of(b@) == second && kind_of(c@) == third
                && two_fields(head, field_json(a@), middle, field_json(b@), then) + (field_json(c@) + lit("}}"))
                == input@,
            None => forall|a: Field, b: Field, c: Field|
                kind_of(a) == first && kind_of(b) == second && kind_of(c) == third ==> two_fields(
                    head,
                    #[trigger] field_json(a),
                    middle,
                    #[trigger] field_json(b),
                    then,
                ) + (#[trigger] field_json(c) + lit("}}")) != input@,
        },
{
    let mut slots: Vec<(Kind, &str)> = Vec::new();
    slots.push((first, middle));
    slots.push((second, then));
    slots.push((third, "}}"));
    assert(slots@ =~= seq![(first, middle), (second, then), (third, "}}")]);
    match read_record(input, head, slots.as_slice()) {
        None => {
            proof {
                assert forall|a: Field, b: Field, c: Field|
                    kind_of(a) == first && kind_of(b) == second && kind_of(c) == third implies two_fields(
                    head,
                    #[trigger] field_json(a),
                    middle,
                    #[trigger] field_json(b),
                    then,
                ) + (#[trigger] field_json(c) + lit("}}")) != input@ by {
                    lemma_record_three(head, a, middle, b, then, c);
                }
            }
            None
        },
        Some(mut items) => {
            let ghost all = fields_of(items@);
            assert(all =~= seq![all[0], all[1], all[2]]);
            proof {
                lemma_record_three(head, all[0], middle, all[1], then, all[2]);
            }
            let c = match items.pop() {
                Some(item) => item,
                None => unreached(),
            };
            let b = match items.pop() {
                Some(item) => item,
                None => unreached(),
            };
            let a = match items.pop() {
                Some(item) => item,
                None => unreached(),
            };
            Some((a, b, c))
        },
    }
}

impl Item {
    /// The string of a text field.
    pub fn into_text(self) -> (s: String)
        requires
            kind_of(self@) == Kind::Text,
        ensures
            self@ == Field::Text(s@),
    {
        match self {
            Item::Text(s) => s,
            _ => unreached(),
        }
    }

    /// The bytes of a byte field.
    pub fn into_bytes(self) -> (b: Vec<u8>)
        requires
            kind_of(self@) == Kind::Bytes,
        ensures
            self@ == Field::Bytes(b@),
    {
        match self {
            Item::Bytes(b) => b,
            _ => unreached(),
        }
    }

    /// The strings of a list field.
    pub fn into_list(self) -> (l: Vec<String>)
        requires
            kind_of(self@) == Kind::List,
        ensures
            self@ == Field::List(crate::enums::response::names(l@)),
    {
        match self {
            Item::List(l) => l,
            _ => unreached(),
        }
    }
}

} // verus!

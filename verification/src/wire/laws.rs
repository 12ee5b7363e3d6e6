//! What holds of the wire encoding as a whole: each writer is one-to-one, and
//! no payload is the JSON of two kinds at once.

use crate::crypto::envelope::EnvelopeView;
use crate::enums::command::CommandView;
use crate::enums::response::ResponseView;
use crate::wire::encode::{command_json, envelope_json, lit, one_field, response_json, two_fields};
use crate::wire::record::{
    field_json, fits, kind_of, lemma_record_read_back, record_json, Field, Kind,
};
use crate::wire::shape::{lemma_record_one, lemma_record_three, lemma_record_two};
use crate::wire::text::{json_bytes, json_string, json_strings};
use vstd::prelude::*;
use vstd::utf8::{encode_scalar, encode_utf8};

verus! {

/// The UTF-8 of a text that begins with `n` ASCII characters begins with
/// those characters as bytes.
pub proof fn lemma_ascii_prefix(chars: Seq<char>, n: int)
    requires
        0 <= n <= chars.len(),
        forall|i: int| 0 <= i < n ==> '\0' <= #[trigger] chars[i] <= '\u{7f}',
    ensures
        encode_utf8(chars).len() >= n,
        forall|i: int| 0 <= i < n ==> #[trigger] encode_utf8(chars)[i] == chars[i] as u8,
    decreases n,
{
    if n > 0 {
        let one = seq![chars[0]];
        assert(vstd::utf8::is_ascii_chars(one));
        vstd::utf8::is_ascii_chars_encode_utf8(one);
        assert(one.drop_first() =~= Seq::<char>::empty());
        assert(encode_utf8(one) =~= encode_scalar(chars[0] as u32));
        let rest = chars.drop_first();
        assert forall|i: int| 0 <= i < n - 1 implies '\0' <= #[trigger] rest[i] <= '\u{7f}' by {
            assert(rest[i] == chars[i + 1]);
        }
        lemma_ascii_prefix(rest, n - 1);
        let whole = encode_utf8(chars);
        assert(whole =~= encode_utf8(one) + encode_utf8(rest));
        assert forall|i: int| 0 <= i < n implies #[trigger] whole[i] == chars[i] as u8 by {
            if i > 0 {
                assert(whole[i] == encode_utf8(rest)[i - 1]);
                assert(rest[i - 1] == chars[i]);
            } else {
                assert(whole[0] == encode_utf8(one)[0]);
                assert(one[0] == chars[0]);
            }
        }
    }
}

/// The first `n` bytes of a payload, read as one number in base 256.
pub open spec fn prefix_number(payload: Seq<u8>, n: nat) -> int
    decreases n,
{
    if n == 0 {
        0
    } else {
        256 * prefix_number(payload, (n - 1) as nat) + payload[n - 1]
    }
}

/// The number that the first five bytes of the JSON of a command make. It
/// tells the variant.
pub open spec fn command_mark(command: CommandView) -> int {
    match command {
        CommandView::Echo { .. } => 0x7b22456368,
        CommandView::Execute { .. } => 0x7b22457865,
        CommandView::GetFile { .. } => 0x7b22476574,
        CommandView::PutFile { .. } => 0x7b22507574,
        CommandView::ListFiles => 0x224c697374,
        CommandView::Whoami => 0x2257686f61,
        CommandView::Info => 0x22496e666f,
        CommandView::Pwd => 0x2250776422,
        CommandView::Users => 0x2255736572,
        CommandView::Netstat => 0x224e657473,
        CommandView::Network => 0x224e657477,
        CommandView::Handshake => 0x2248616e64,
    }
}

/// The number that the first seven bytes of the JSON of a response make. It
/// tells the variant.
pub open spec fn response_mark(response: ResponseView) -> int {
    match response {
        ResponseView::Message { .. } => 0x7b224d65737361,
        ResponseView::FileList { .. } => 0x7b2246696c654c,
        ResponseView::UserList { .. } => 0x7b22557365724c,
        ResponseView::FileData { .. } => 0x7b2246696c6544,
        ResponseView::CommandOutput { .. } => 0x7b22436f6d6d61,
        ResponseView::Handshake { .. } => 0x7b2248616e6473,
    }
}

/// The number that the first five bytes of the JSON of an envelope make.
pub open spec fn envelope_mark() -> int {
    0x7b22656e63
}

/// The number of a prefix, from the number of the prefix that is one byte
/// shorter.
proof fn lemma_prefix_number(payload: Seq<u8>)
    ensures
        prefix_number(payload, 1) == payload[0],
        prefix_number(payload, 2) == 256 * prefix_number(payload, 1) + payload[1],
        prefix_number(payload, 3) == 256 * prefix_number(payload, 2) + payload[2],
        prefix_number(payload, 4) == 256 * prefix_number(payload, 3) + payload[3],
        prefix_number(payload, 5) == 256 * prefix_number(payload, 4) + payload[4],
        prefix_number(payload, 6) == 256 * prefix_number(payload, 5) + payload[5],
        prefix_number(payload, 7) == 256 * prefix_number(payload, 6) + payload[6],
{
    reveal_with_fuel(prefix_number, 8);
}

/// A payload that begins with a text whose first `n` characters are ASCII
/// begins with those characters as bytes.
proof fn lemma_begins(text: &str, rest: Seq<u8>, n: int)
    requires
        0 <= n <= text@.len(),
        forall|i: int| 0 <= i < n ==> '\0' <= #[trigger] text@[i] <= '\u{7f}',
    ensures
        (lit(text) + rest).len() >= n,
        forall|i: int| 0 <= i < n ==> #[trigger] (lit(text) + rest)[i] == text@[i] as u8,
{
    lemma_ascii_prefix(text@, n);
    assert forall|i: int| 0 <= i < n implies #[trigger] (lit(text) + rest)[i] == text@[i] as u8 by {
        assert((lit(text) + rest)[i] == lit(text)[i]);
    }
}

/// The JSON of a command begins with the mark of its variant.
pub proof fn lemma_command_mark(command: CommandView)
    ensures
        command_json(command).len() >= 5,
        prefix_number(command_json(command), 5) == command_mark(command),
{
    let payload = command_json(command);
    lemma_prefix_number(payload);
    match command {
        CommandView::Echo { message } => {
            reveal_strlit("{\"Echo\":{\"message\":");
            lemma_begins("{\"Echo\":{\"message\":", json_string(message) + lit("}}"), 5);
        },
        CommandView::Execute { command } => {
            reveal_strlit("{\"Execute\":{\"command\":");
            lemma_begins("{\"Execute\":{\"command\":", json_string(command) + lit("}}"), 5);
        },
        CommandView::GetFile { remote_path, local_path } => {
            reveal_strlit("{\"GetFile\":{\"remote_path\":");
            lemma_begins("{\"GetFile\":{\"remote_path\":", json_string(remote_path) + (lit(",\"local_path\":") + (json_string(local_path) + lit("}}"))), 5);
        },
        CommandView::PutFile { remote_path, up_path, data } => {
            reveal_strlit("{\"PutFile\":{\"remote_path\":");
            let inner = json_string(remote_path) + (lit(",\"up_path\":") + (json_string(up_path) + lit(
                ",\"data\":",
            )));
            let last = json_bytes(data) + lit("}}");
            lemma_begins("{\"PutFile\":{\"remote_path\":", inner + last, 5);
            assert(payload =~= lit("{\"PutFile\":{\"remote_path\":") + (inner + last));
        },
        CommandView::ListFiles => {
            reveal_strlit("\"ListFiles\"");
            lemma_begins("\"ListFiles\"", Seq::empty(), 5);
        },
        CommandView::Whoami => {
            reveal_strlit("\"Whoami\"");
            lemma_begins("\"Whoami\"", Seq::empty(), 5);
        },
        CommandView::Info => {
            reveal_strlit("\"Info\"");
            lemma_begins("\"Info\"", Seq::empty(), 5);
        },
        CommandView::Pwd => {
            reveal_strlit("\"Pwd\"");
            lemma_begins("\"Pwd\"", Seq::empty(), 5);
        },
        CommandView::Users => {
            reveal_strlit("\"Users\"");
            lemma_begins("\"Users\"", Seq::empty(), 5);
        },
        CommandView::Netstat => {
            reveal_strlit("\"Netstat\"");
            lemma_begins("\"Netstat\"", Seq::empty(), 5);
        },
        CommandView::Network => {
            reveal_strlit("\"Network\"");
            lemma_begins("\"Network\"", Seq::empty(), 5);
        },
        CommandView::Handshake => {
            reveal_strlit("\"Handshake\"");
            lemma_begins("\"Handshake\"", Seq::empty(), 5);
        },
    }
    match command {
        CommandView::Echo { .. } | CommandView::Execute { .. } | CommandView::GetFile { .. }
        | CommandView::PutFile { .. } => {},
        _ => {
            assert(payload + Seq::<u8>::empty() =~= payload);
        },
    }
}

/// The JSON of a response begins with the mark of its variant.
pub proof fn lemma_response_mark(response: ResponseView)
    ensures
        response_json(response).len() >= 7,
        prefix_number(response_json(response), 7) == response_mark(response),
{
    let payload = response_json(response);
    lemma_prefix_number(payload);
    match response {
        ResponseView::Message { content } => {
            reveal_strlit("{\"Message\":{\"content\":");
            lemma_begins("{\"Message\":{\"content\":", json_string(content) + lit("}}"), 7);
        },
        ResponseView::FileList { files } => {
            reveal_strlit("{\"FileList\":{\"files\":");
            lemma_begins("{\"FileList\":{\"files\":", json_strings(files) + lit("}}"), 7);
        },
        ResponseView::UserList { users } => {
            reveal_strlit("{\"UserList\":{\"users\":");
            lemma_begins("{\"UserList\":{\"users\":", json_strings(users) + lit("}}"), 7);
        },
        ResponseView::FileData { file_path, data } => {
            reveal_strlit("{\"FileData\":{\"file_path\":");
            lemma_begins("{\"FileData\":{\"file_path\":", json_string(file_path) + (lit(",\"data\":") + (json_bytes(data) + lit("}}"))), 7);
        },
        ResponseView::CommandOutput { output } => {
            reveal_strlit("{\"CommandOutput\":{\"output\":");
            lemma_begins("{\"CommandOutput\":{\"output\":", json_string(output) + lit("}}"), 7);
        },
        ResponseView::Handshake { public_key_pem } => {
            reveal_strlit("{\"Handshake\":{\"public_key_pem\":");
            lemma_begins("{\"Handshake\":{\"public_key_pem\":", json_bytes(public_key_pem) + lit("}}"), 7);
        },
    }
}

/// The JSON of an envelope begins with the mark of envelopes.
pub proof fn lemma_envelope_mark(envelope: EnvelopeView)
    ensures
        envelope_json(envelope).len() >= 5,
        prefix_number(envelope_json(envelope), 5) == envelope_mark(),
{
    let payload = envelope_json(envelope);
    lemma_prefix_number(payload);
    reveal_strlit("{\"encrypted_session_key\":");
    lemma_begins(
        "{\"encrypted_session_key\":",
        json_bytes(envelope.encrypted_session_key) + (lit(",\"encrypted_command\":") + (json_bytes(
            envelope.encrypted_command,
        ) + lit("}"))),
        5,
    );
}

/// Two records with the same head and slots and the same JSON have the same
/// fields.
pub proof fn lemma_record_injective(head: &str, slots: Seq<(Kind, &str)>, a: Seq<Field>, b: Seq<Field>)
    requires
        fits(slots, a),
        fits(slots, b),
        record_json(head, slots, a) == record_json(head, slots, b),
    ensures
        a == b,
{
    let input = record_json(head, slots, a);
    lemma_record_read_back(head, slots, a, input);
    lemma_record_read_back(head, slots, b, input);
}

proof fn lemma_one_injective(head: &str, a: Field, b: Field)
    requires
        kind_of(a) == kind_of(b),
        one_field(head, field_json(a)) == one_field(head, field_json(b)),
    ensures
        a == b,
{
    lemma_record_one(head, a);
    lemma_record_one(head, b);
    lemma_record_injective(head, seq![(kind_of(a), "}}")], seq![a], seq![b]);
    assert(seq![a][0] == seq![b][0]);
}

proof fn lemma_two_injective(head: &str, a: Field, middle: &str, b: Field, tail: &str, c: Field, d: Field)
    requires
        kind_of(a) == kind_of(c),
        kind_of(b) == kind_of(d),
        two_fields(head, field_json(a), middle, field_json(b), tail) == two_fields(
            head,
            field_json(c),
            middle,
            field_json(d),
            tail,
        ),
    ensures
        a == c,
        b == d,
{
    lemma_record_two(head, a, middle, b, tail);
    lemma_record_two(head, c, middle, d, tail);
    lemma_record_injective(head, seq![(kind_of(a), middle), (kind_of(b), tail)], seq![a, b], seq![c, d]);
    assert(seq![a, b][0] == seq![c, d][0]);
    assert(seq![a, b][1] == seq![c, d][1]);
}

proof fn lemma_three_injective(
    head: &str,
    a: Field,
    middle: &str,
    b: Field,
    then: &str,
    c: Field,
    d: Field,
    e: Field,
    f: Field,
)
    requires
        kind_of(a) == kind_of(d),
        kind_of(b) == kind_of(e),
        kind_of(c) == kind_of(f),
        two_fields(head, field_json(a), middle, field_json(b), then) + (field_json(c) + lit("}}")) == two_fields(
            head,
            field_json(d),
            middle,
            field_json(e),
            then,
        ) + (field_json(f) + lit("}}")),
    ensures
        a == d,
        b == e,
        c == f,
{
    lemma_record_three(head, a, middle, b, then, c);
    lemma_record_three(head, d, middle, e, then, f);
    lemma_record_injective(
        head,
        seq![(kind_of(a), middle), (kind_of(b), then), (kind_of(c), "}}")],
        seq![a, b, c],
        seq![d, e, f],
    );
    assert(seq![a, b, c][0] == seq![d, e, f][0]);
    assert(seq![a, b, c][1] == seq![d, e, f][1]);
    assert(seq![a, b, c][2] == seq![d, e, f][2]);
}

/// Two envelopes with the same JSON are the same envelope.
pub proof fn lemma_envelope_json_injective(a: EnvelopeView, b: EnvelopeView)
    requires
        envelope_json(a) == envelope_json(b),
    ensures
        a == b,
{
    lemma_two_injective(
        "{\"encrypted_session_key\":",
        Field::Bytes(a.encrypted_session_key),
        ",\"encrypted_command\":",
        Field::Bytes(a.encrypted_command),
        "}",
        Field::Bytes(b.encrypted_session_key),
        Field::Bytes(b.encrypted_command),
    );
}

/// Two commands with the same JSON are the same command.
pub proof fn lemma_command_json_injective(a: CommandView, b: CommandView)
    requires
        command_json(a) == command_json(b),
    ensures
        a == b,
{
    lemma_command_mark(a);
    lemma_command_mark(b);
    assert(command_mark(a) == command_mark(b));
    match (a, b) {
        (CommandView::Echo { message: x }, CommandView::Echo { message: y }) => {
            lemma_one_injective("{\"Echo\":{\"message\":", Field::Text(x), Field::Text(y));
        },
        (CommandView::Execute { command: x }, CommandView::Execute { command: y }) => {
            lemma_one_injective("{\"Execute\":{\"command\":", Field::Text(x), Field::Text(y));
        },
        (
            CommandView::GetFile { remote_path: x, local_path: y },
            CommandView::GetFile { remote_path: u, local_path: v },
        ) => {
            lemma_two_injective(
                "{\"GetFile\":{\"remote_path\":",
                Field::Text(x),
                ",\"local_path\":",
                Field::Text(y),
                "}}",
                Field::Text(u),
                Field::Text(v),
            );
        },
        (
            CommandView::PutFile { remote_path: x, up_path: y, data: z },
            CommandView::PutFile { remote_path: u, up_path: v, data: w },
        ) => {
            lemma_three_injective(
                "{\"PutFile\":{\"remote_path\":",
                Field::Text(x),
                ",\"up_path\":",
                Field::Text(y),
                ",\"data\":",
                Field::Bytes(z),
                Field::Text(u),
                Field::Text(v),
                Field::Bytes(w),
            );
        },
        _ => {},
    }
}

/// Two responses with the same JSON are the same response.
pub proof fn lemma_response_json_injective(a: ResponseView, b: ResponseView)
    requires
        response_json(a) == response_json(b),
    ensures
        a == b,
{
    lemma_response_mark(a);
    lemma_response_mark(b);
    assert(response_mark(a) == response_mark(b));
    match (a, b) {
        (ResponseView::Message { content: x }, ResponseView::Message { content: y }) => {
            lemma_one_injective("{\"Message\":{\"content\":", Field::Text(x), Field::Text(y));
        },
        (ResponseView::FileList { files: x }, ResponseView::FileList { files: y }) => {
            lemma_one_injective("{\"FileList\":{\"files\":", Field::List(x), Field::List(y));
        },
        (ResponseView::UserList { users: x }, ResponseView::UserList { users: y }) => {
            lemma_one_injective("{\"UserList\":{\"users\":", Field::List(x), Field::List(y));
        },
        (ResponseView::FileData { file_path: x, data: y }, ResponseView::FileData { file_path: u, data: v }) => {
            lemma_two_injective(
                "{\"FileData\":{\"file_path\":",
                Field::Text(x),
                ",\"data\":",
                Field::Bytes(y),
                "}}",
                Field::Text(u),
                Field::Bytes(v),
            );
        },
        (ResponseView::CommandOutput { output: x }, ResponseView::CommandOutput { output: y }) => {
            lemma_one_injective("{\"CommandOutput\":{\"output\":", Field::Text(x), Field::Text(y));
        },
        (ResponseView::Handshake { public_key_pem: x }, ResponseView::Handshake { public_key_pem: y }) => {
            lemma_one_injective("{\"Handshake\":{\"public_key_pem\":", Field::Bytes(x), Field::Bytes(y));
        },
        _ => {},
    }
}

/// No payload is the JSON of two kinds: an envelope, a command and a response
/// never share their JSON.
pub proof fn lemma_kinds_apart(envelope: EnvelopeView, command: CommandView, response: ResponseView)
    ensures
        envelope_json(envelope) != command_json(command),
        envelope_json(envelope) != response_json(response),
        command_json(command) != response_json(response),
{
    lemma_envelope_mark(envelope);
    lemma_command_mark(command);
    lemma_response_mark(response);
    let r = response_json(response);
    lemma_prefix_number(r);
    let five = prefix_number(r, 5);
    assert(response_mark(response) == 65536 * five + 256 * r[5] + r[6]);
    assert(five != envelope_mark() && five != command_mark(command)) by {
        lemma_response_five(response_mark(response), five, r[5], r[6]);
    }
}

/// The first five bytes of a response make none of the numbers that begin an
/// envelope or a command.
proof fn lemma_response_five(seven: int, five: int, sixth: u8, seventh: u8)
    requires
        seven == 65536 * five + 256 * sixth + seventh,
        seven == 0x7b224d65737361 || seven == 0x7b2246696c654c || seven == 0x7b22557365724c || seven == 0x7b2246696c6544 || seven == 0x7b22436f6d6d61 || seven == 0x7b2248616e6473,
    ensures
        five == 0x7b224d6573 || five == 0x7b2246696c || five == 0x7b22557365 || five == 0x7b22436f6d || five == 0x7b2248616e,
{
}

} // verus!

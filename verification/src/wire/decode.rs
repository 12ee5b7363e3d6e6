//! Envelopes, commands and responses read back from JSON. A reader accepts
//! exactly what the writer of its type can have written: the one compact
//! form, byte for byte. JSON that differs from it in white space, in the order
//! of keys or in the choice of escapes is refused.

use crate::crypto::envelope::{Envelope, EnvelopeView};
use crate::enums::command::{Command, CommandView};
use crate::enums::response::{Response, ResponseView};
use crate::wire::encode::{command_json, envelope_json, lit, response_json};
use crate::wire::record::{field_json, same_bytes, Field, Kind};
use crate::wire::shape::{read_one, read_three, read_two};
use vstd::prelude::*;

verus! {

fn is_text(input: &[u8], text: &str) -> (same: bool)
    ensures
        same == (input@ == lit(text)),
{
    same_bytes(input, text.as_bytes())
}

impl Command {
    /// Reads a command without fields from its name in quotes.
    fn unit_from_json(input: &[u8]) -> (r: Option<Command>)
        ensures
            match r {
                Some(c) => command_json(c@) == input@,
                None => input@ != lit("\"ListFiles\"") && input@ != lit("\"Whoami\"") && input@ != lit("\"Info\"")
                    && input@ != lit("\"Pwd\"") && input@ != lit("\"Users\"") && input@ != lit("\"Netstat\"")
                    && input@ != lit("\"Network\"") && input@ != lit("\"Handshake\""),
            },
    {
        if is_text(input, "\"ListFiles\"") {
            Some(Command::ListFiles)
        } else if is_text(input, "\"Whoami\"") {
            Some(Command::Whoami)
        } else if is_text(input, "\"Info\"") {
            Some(Command::Info)
        } else if is_text(input, "\"Pwd\"") {
            Some(Command::Pwd)
        } else if is_text(input, "\"Users\"") {
            Some(Command::Users)
        } else if is_text(input, "\"Netstat\"") {
            Some(Command::Netstat)
        } else if is_text(input, "\"Network\"") {
            Some(Command::Network)
        } else if is_text(input, "\"Handshake\"") {
            Some(Command::Handshake)
        } else {
            None
        }
    }

    /// Reads a command from its JSON: the command whose JSON `input` is, and
    /// `None` if it is the JSON of no command. Only the form that `to_json`
    /// writes is the JSON of a command.
    pub fn from_json(input: &[u8]) -> (r: Option<Command>)
        ensures
            match r {
                Some(c) => command_json(c@) == input@,
                None => forall|c: CommandView| #[trigger] command_json(c) != input@,
            },
    {
        if let Some(c) = Self::unit_from_json(input) {
            return Some(c);
        }
        if let Some(item) = read_one(input, "{\"Echo\":{\"message\":", Kind::Text) {
            return Some(Command::Echo { message: item.into_text() });
        }
        if let Some(item) = read_one(input, "{\"Execute\":{\"command\":", Kind::Text) {
            return Some(Command::Execute { command: item.into_text() });
        }
        if let Some((a, b)) = read_two(
            input,
            "{\"GetFile\":{\"remote_path\":",
            Kind::Text,
            ",\"local_path\":",
            Kind::Text,
            "}}",
        ) {
            return Some(Command::GetFile { remote_path: a.into_text(), local_path: b.into_text() });
        }
        if let Some((a, b, c)) = read_three(
            input,
            "{\"PutFile\":{\"remote_path\":",
            Kind::Text,
            ",\"up_path\":",
            Kind::Text,
            ",\"data\":",
            Kind::Bytes,
        ) {
            return Some(
                Command::PutFile { remote_path: a.into_text(), up_path: b.into_text(), data: c.into_bytes() },
            );
        }
        proof {
            assert forall|c: CommandView| #[trigger] command_json(c) != input@ by {
                match c {
                    CommandView::Echo { message } => {
                        assert(field_json(Field::Text(message)) == crate::wire::text::json_string(message));
                    },
                    CommandView::Execute { command } => {
                        assert(field_json(Field::Text(command)) == crate::wire::text::json_string(command));
                    },
                    CommandView::GetFile { remote_path, local_path } => {
                        assert(field_json(Field::Text(remote_path)) == crate::wire::text::json_string(
                            remote_path,
                        ));
                        assert(field_json(Field::Text(local_path)) == crate::wire::text::json_string(local_path));
                    },
                    CommandView::PutFile { remote_path, up_path, data } => {
                        assert(field_json(Field::Text(remote_path)) == crate::wire::text::json_string(
                            remote_path,
                        ));
                        assert(field_json(Field::Text(up_path)) == crate::wire::text::json_string(up_path));
                        assert(field_json(Field::Bytes(data)) == crate::wire::text::json_bytes(data));
                    },
                    _ => {},
                }
            }
        }
        None
    }
}

impl Response {
    /// Reads a response from its JSON: the response whose JSON `input` is,
    /// and `None` if it is the JSON of no response. Only the form that
    /// `to_json` writes is the JSON of a response.
    pub fn from_json(input: &[u8]) -> (r: Option<Response>)
        ensures
            match r {
                Some(response) => response_json(response@) == input@,
                None => forall|response: ResponseView| #[trigger] response_json(response) != input@,
            },
    {
        if let Some(item) = read_one(input, "{\"Message\":{\"content\":", Kind::Text) {
            return Some(Response::Message { content: item.into_text() });
        }
        if let Some(item) = read_one(input, "{\"FileList\":{\"files\":", Kind::List) {
            return Some(Response::FileList { files: item.into_list() });
        }
        if let Some(item) = read_one(input, "{\"UserList\":{\"users\":", Kind::List) {
            return Some(Response::UserList { users: item.into_list() });
        }
        if let Some((a, b)) = read_two(
            input,
            "{\"FileData\":{\"file_path\":",
            Kind::Text,
            ",\"data\":",
            Kind::Bytes,
            "}}",
        ) {
            return Some(Response::FileData { file_path: a.into_text(), data: b.into_bytes() });
        }
        if let Some(item) = read_one(input, "{\"CommandOutput\":{\"output\":", Kind::Text) {
            return Some(Response::CommandOutput { output: item.into_text() });
        }
        if let Some(item) = read_one(input, "{\"Handshake\":{\"public_key_pem\":", Kind::Bytes) {
            return Some(Response::Handshake { public_key_pem: item.into_bytes() });
        }
        proof {
            assert forall|response: ResponseView| #[trigger] response_json(response) != input@ by {
                match response {
                    ResponseView::Message { content } => {
                        assert(field_json(Field::Text(content)) == crate::wire::text::json_string(content));
                    },
                    ResponseView::FileList { files } => {
                        assert(field_json(Field::List(files)) == crate::wire::text::json_strings(files));
                    },
                    ResponseView::UserList { users } => {
                        assert(field_json(Field::List(users)) == crate::wire::text::json_strings(users));
                    },
                    ResponseView::FileData { file_path, data } => {
                        assert(field_json(Field::Text(file_path)) == crate::wire::text::json_string(file_path));
                        assert(field_json(Field::Bytes(data)) == crate::wire::text::json_bytes(data));
                    },
                    ResponseView::CommandOutput { output } => {
                        assert(field_json(Field::Text(output)) == crate::wire::text::json_string(output));
                    },
                    ResponseView::Handshake { public_key_pem } => {
                        assert(field_json(Field::Bytes(public_key_pem)) == crate::wire::text::json_bytes(
                            public_key_pem,
                        ));
                    },
                }
            }
        }
        None
    }
}

impl Envelope {
    /// Reads an envelope from its JSON: the envelope whose JSON `input` is,
    /// and `None` if it is the JSON of no envelope. Only the form that
    /// `to_bytes` writes is the JSON of an envelope.
    pub fn from_bytes(input: &[u8]) -> (r: Option<Envelope>)
        ensures
            match r {
                Some(envelope) => envelope_json(envelope@) == input@,
                None => forall|envelope: EnvelopeView| #[trigger] envelope_json(envelope) != input@,
            },
    {
        match read_two(
            input,
            "{\"encrypted_session_key\":",
            Kind::Bytes,
            ",\"encrypted_command\":",
            Kind::Bytes,
            "}",
        ) {
            Some((a, b)) => Some(Envelope::new(a.into_bytes(), b.into_bytes())),
            None => {
                proof {
                    assert forall|envelope: EnvelopeView| #[trigger] envelope_json(envelope) != input@ by {
                        assert(field_json(Field::Bytes(envelope.encrypted_session_key))
                            == crate::wire::text::json_bytes(envelope.encrypted_session_key));
                        assert(field_json(Field::Bytes(envelope.encrypted_command))
                            == crate::wire::text::json_bytes(envelope.encrypted_command));
                    }
                }
                None
            },
        }
    }
}

} // verus!

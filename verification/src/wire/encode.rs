//! Envelopes, commands and responses as JSON.

use crate::crypto::envelope::{Envelope, EnvelopeView};
use crate::enums::command::{Command, CommandView};
use crate::enums::response::{Response, ResponseView};
use crate::wire::text::{json_bytes, json_string, json_strings, push_bytes, push_literal, push_string, push_strings};
use vstd::prelude::*;
use vstd::utf8::encode_utf8;

verus! {

/// The bytes of a piece of fixed text.
pub open spec fn lit(text: &str) -> Seq<u8> {
    encode_utf8(text@)
}

/// An object with one field, under a variant's name.
pub open spec fn one_field(head: &str, value: Seq<u8>) -> Seq<u8> {
    lit(head) + (value + lit("}}"))
}

/// An object with two fields, under a variant's name or alone.
pub open spec fn two_fields(head: &str, first: Seq<u8>, middle: &str, second: Seq<u8>, tail: &str) -> Seq<u8> {
    lit(head) + (first + (lit(middle) + (second + lit(tail))))
}

/// The JSON of a command.
pub open spec fn command_json(command: CommandView) -> Seq<u8> {
    match command {
        CommandView::Echo { message } => one_field("{\"Echo\":{\"message\":", json_string(message)),
        CommandView::ListFiles => lit("\"ListFiles\""),
        CommandView::Whoami => lit("\"Whoami\""),
        CommandView::Info => lit("\"Info\""),
        CommandView::Pwd => lit("\"Pwd\""),
        CommandView::Users => lit("\"Users\""),
        CommandView::Netstat => lit("\"Netstat\""),
        CommandView::Network => lit("\"Network\""),
        CommandView::Handshake => lit("\"Handshake\""),
        CommandView::GetFile { remote_path, local_path } => two_fields(
            "{\"GetFile\":{\"remote_path\":",
            json_string(remote_path),
            ",\"local_path\":",
            json_string(local_path),
            "}}",
        ),
        CommandView::PutFile { remote_path, up_path, data } => two_fields(
            "{\"PutFile\":{\"remote_path\":",
            json_string(remote_path),
            ",\"up_path\":",
            json_string(up_path),
            ",\"data\":",
        ) + (json_bytes(data) + lit("}}")),
        CommandView::Execute { command } => one_field("{\"Execute\":{\"command\":", json_string(command)),
    }
}

/// The JSON of a response.
pub open spec fn response_json(response: ResponseView) -> Seq<u8> {
    match response {
        ResponseView::Message { content } => one_field("{\"Message\":{\"content\":", json_string(content)),
        ResponseView::FileList { files } => one_field("{\"FileList\":{\"files\":", json_strings(files)),
        ResponseView::UserList { users } => one_field("{\"UserList\":{\"users\":", json_strings(users)),
        ResponseView::FileData { file_path, data } => two_fields(
            "{\"FileData\":{\"file_path\":",
            json_string(file_path),
            ",\"data\":",
            json_bytes(data),
            "}}",
        ),
        ResponseView::CommandOutput { output } => one_field(
            "{\"CommandOutput\":{\"output\":",
            json_string(output),
        ),
        ResponseView::Handshake { public_key_pem } => one_field(
            "{\"Handshake\":{\"public_key_pem\":",
            json_bytes(public_key_pem),
        ),
    }
}

/// The JSON of an envelope.
pub open spec fn envelope_json(envelope: EnvelopeView) -> Seq<u8> {
    two_fields(
        "{\"encrypted_session_key\":",
        json_bytes(envelope.encrypted_session_key),
        ",\"encrypted_command\":",
        json_bytes(envelope.encrypted_command),
        "}",
    )
}

fn unit_to_json(name: &str) -> (out: Vec<u8>)
    ensures
        out@ == lit(name),
{
    let mut out: Vec<u8> = Vec::new();
    push_literal(&mut out, name);
    assert(out@ =~= lit(name));
    out
}

fn text_to_json(head: &str, value: &str) -> (out: Vec<u8>)
    ensures
        out@ == one_field(head, json_string(value@)),
{
    let mut out: Vec<u8> = Vec::new();
    push_literal(&mut out, head);
    push_string(&mut out, value);
    push_literal(&mut out, "}}");
    assert(out@ =~= one_field(head, json_string(value@)));
    out
}

impl Command {
    /// Writes the command as JSON.
    pub fn to_json(&self) -> (out: Vec<u8>)
        ensures
            out@ == command_json(self@),
    {
        match self {
            Command::Echo { message } => text_to_json("{\"Echo\":{\"message\":", message.as_str()),
            Command::ListFiles => unit_to_json("\"ListFiles\""),
            Command::Whoami => unit_to_json("\"Whoami\""),
            Command::Info => unit_to_json("\"Info\""),
            Command::Pwd => unit_to_json("\"Pwd\""),
            Command::Users => unit_to_json("\"Users\""),
            Command::Netstat => unit_to_json("\"Netstat\""),
            Command::Network => unit_to_json("\"Network\""),
            Command::Handshake => unit_to_json("\"Handshake\""),
            Command::GetFile { remote_path, local_path } => {
                let mut out: Vec<u8> = Vec::new();
                push_literal(&mut out, "{\"GetFile\":{\"remote_path\":");
                push_string(&mut out, remote_path.as_str());
                push_literal(&mut out, ",\"local_path\":");
                push_string(&mut out, local_path.as_str());
                push_literal(&mut out, "}}");
                assert(out@ =~= command_json(self@));
                out
            },
            Command::PutFile { remote_path, up_path, data } => {
                let mut out: Vec<u8> = Vec::new();
                push_literal(&mut out, "{\"PutFile\":{\"remote_path\":");
                push_string(&mut out, remote_path.as_str());
                push_literal(&mut out, ",\"up_path\":");
                push_string(&mut out, up_path.as_str());
                push_literal(&mut out, ",\"data\":");
                push_bytes(&mut out, data.as_slice());
                push_literal(&mut out, "}}");
                assert(out@ =~= command_json(self@));
                out
            },
            Command::Execute { command } => text_to_json("{\"Execute\":{\"command\":", command.as_str()),
        }
    }
}

impl Response {
    /// Writes the response as JSON.
    pub fn to_json(&self) -> (out: Vec<u8>)
        ensures
            out@ == response_json(self@),
    {
        match self {
            Response::Message { content } => text_to_json("{\"Message\":{\"content\":", content.as_str()),
            Response::FileList { files } => {
                let mut out: Vec<u8> = Vec::new();
                push_literal(&mut out, "{\"FileList\":{\"files\":");
                push_strings(&mut out, files);
                push_literal(&mut out, "}}");
                assert(out@ =~= response_json(self@));
                out
            },
            Response::UserList { users } => {
                let mut out: Vec<u8> = Vec::new();
                push_literal(&mut out, "{\"UserList\":{\"users\":");
                push_strings(&mut out, users);
                push_literal(&mut out, "}}");
                assert(out@ =~= response_json(self@));
                out
            },
            Response::FileData { file_path, data } => {
                let mut out: Vec<u8> = Vec::new();
                push_literal(&mut out, "{\"FileData\":{\"file_path\":");
                push_string(&mut out, file_path.as_str());
                push_literal(&mut out, ",\"data\":");
                push_bytes(&mut out, data.as_slice());
                push_literal(&mut out, "}}");
                assert(out@ =~= response_json(self@));
                out
            },
            Response::CommandOutput { output } => text_to_json(
                "{\"CommandOutput\":{\"output\":",
                output.as_str(),
            ),
            Response::Handshake { public_key_pem } => {
                let mut out: Vec<u8> = Vec::new();
                push_literal(&mut out, "{\"Handshake\":{\"public_key_pem\":");
                push_bytes(&mut out, public_key_pem.as_slice());
                push_literal(&mut out, "}}");
                assert(out@ =~= response_json(self@));
                out
            },
        }
    }
}

impl Envelope {
    /// Writes the envelope as JSON.
    pub fn to_bytes(&self) -> (out: Vec<u8>)
        ensures
            out@ == envelope_json(self@),
    {
        let mut out: Vec<u8> = Vec::new();
        push_literal(&mut out, "{\"encrypted_session_key\":");
        push_bytes(&mut out, self.encrypted_session_key.as_slice());
        push_literal(&mut out, ",\"encrypted_command\":");
        push_bytes(&mut out, self.encrypted_command.as_slice());
        push_literal(&mut out, "}");
        assert(out@ =~= envelope_json(self@));
        out
    }
}

} // verus!

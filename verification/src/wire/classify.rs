//! Telling the three kinds of payload apart: an envelope first, then a
//! command, then a response. A payload is of a kind if it is, byte for byte,
//! what the writer of that kind writes for some value.

use crate::crypto::envelope::{Envelope, EnvelopeView};
use crate::enums::command::{Command, CommandView};
use crate::enums::response::{Response, ResponseView};
use crate::wire::encode::{command_json, envelope_json, response_json};
use crate::wire::laws::{
    lemma_command_json_injective, lemma_envelope_json_injective, lemma_kinds_apart, lemma_response_json_injective,
};
use vstd::prelude::*;

verus! {

/// What a decoded frame holds.
#[derive(Debug, Clone, PartialEq, Eq)]
pub enum Incoming {
    /// A sealed command.
    Envelope(Envelope),
    /// A bare command.
    Command(Command),
    /// A response.
    Response(Response),
    /// None of the three.
    Unknown,
}

/// The payload is the JSON of some envelope.
pub open spec fn is_envelope(payload: Seq<u8>) -> bool {
    exists|envelope: EnvelopeView| #[trigger] envelope_json(envelope) == payload
}

/// The payload is the JSON of some command.
pub open spec fn is_command(payload: Seq<u8>) -> bool {
    exists|command: CommandView| #[trigger] command_json(command) == payload
}

/// The payload is the JSON of some response.
pub open spec fn is_response(payload: Seq<u8>) -> bool {
    exists|response: ResponseView| #[trigger] response_json(response) == payload
}

/// `found` is what `payload` holds: the first of envelope, command and
/// response whose JSON it is.
pub open spec fn classified(payload: Seq<u8>, found: Incoming) -> bool {
    match found {
        Incoming::Envelope(envelope) => envelope_json(envelope@) == payload,
        Incoming::Command(command) => !is_envelope(payload) && command_json(command@) == payload,
        Incoming::Response(response) => !is_envelope(payload) && !is_command(payload) && response_json(response@)
            == payload,
        Incoming::Unknown => !is_envelope(payload) && !is_command(payload) && !is_response(payload),
    }
}

/// Tells what a payload holds.
pub fn classify(payload: &[u8]) -> (found: Incoming)
    ensures
        classified(payload@, found),
{
    if let Some(envelope) = Envelope::from_bytes(payload) {
        return Incoming::Envelope(envelope);
    }
    if let Some(command) = Command::from_json(payload) {
        return Incoming::Command(command);
    }
    if let Some(response) = Response::from_json(payload) {
        return Incoming::Response(response);
    }
    Incoming::Unknown
}

/// A payload that was written from an envelope is classified as that
/// envelope.
pub proof fn lemma_classifies_envelope(envelope: EnvelopeView, found: Incoming)
    requires
        classified(envelope_json(envelope), found),
    ensures
        found matches Incoming::Envelope(e) && e@ == envelope,
{
    let payload = envelope_json(envelope);
    assert(is_envelope(payload));
    match found {
        Incoming::Envelope(e) => {
            lemma_envelope_json_injective(e@, envelope);
        },
        _ => {},
    }
}

/// A payload that was written from a command is classified as that command.
pub proof fn lemma_classifies_command(command: CommandView, found: Incoming)
    requires
        classified(command_json(command), found),
    ensures
        found matches Incoming::Command(c) && c@ == command,
{
    let payload = command_json(command);
    assert(is_command(payload));
    match found {
        Incoming::Envelope(e) => {
            lemma_kinds_apart(e@, command, ResponseView::Message { content: Seq::empty() });
        },
        Incoming::Command(c) => {
            lemma_command_json_injective(c@, command);
        },
        _ => {},
    }
}

/// A payload that was written from a response is classified as that
/// response.
pub proof fn lemma_classifies_response(response: ResponseView, found: Incoming)
    requires
        classified(response_json(response), found),
    ensures
        found matches Incoming::Response(r) && r@ == response,
{
    let payload = response_json(response);
    assert(is_response(payload));
    match found {
        Incoming::Envelope(e) => {
            lemma_kinds_apart(e@, CommandView::Handshake, response);
        },
        Incoming::Command(c) => {
            lemma_kinds_apart(EnvelopeView { encrypted_session_key: Seq::empty(), encrypted_command: Seq::empty() }, c@, response);
        },
        Incoming::Response(r) => {
            lemma_response_json_injective(r@, response);
        },
        Incoming::Unknown => {},
    }
}

} // verus!

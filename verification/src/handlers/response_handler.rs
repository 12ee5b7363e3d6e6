//! What a peer does with an answer of the counterparty.

use crate::crypto::aes::{generate_session_key, KEY_LEN};
use crate::crypto::keys::{rsa_pem_accepted, PublicKey};
use crate::enums::response::{names, Response, ResponseView};
use crate::shared_state::{SharedState, SharedStateView};
use vstd::prelude::*;
use vstd::string::StringExecFns;

verus! {

/// What is to be done with a response.
#[derive(Debug, Clone, PartialEq, Eq)]
pub enum ResponseAction {
    /// Show the text to the user.
    Print(String),
    /// Show the entries to the user, one per line.
    PrintLines(Vec<String>),
    /// Store the data under the path.
    WriteFile { file_path: String, data: Vec<u8> },
    /// The peer's public key was read; it and a fresh session key are now
    /// those of the connection.
    KeysInstalled,
    /// The peer's public key could not be read; nothing changed.
    KeyRejected,
}

/// The state after a handshake response with an acceptable key: the peer's
/// key and the session key are replaced, the private key stays.
pub open spec fn after_handshake(state: SharedStateView, public_key_pem: Seq<u8>, session_key: Seq<u8>) -> SharedStateView {
    SharedStateView {
        peer_public_key: Some(public_key_pem),
        session_key: Some(session_key),
        local_private_key: state.local_private_key,
    }
}

/// The two strings, one after the other.
pub fn concat(first: &str, second: &str) -> (both: String)
    ensures
        both@ == first@ + second@,
{
    let start = String::from_str(first);
    let both = start.concat(second);
    both
}

/// Takes the public key of a handshake response together with the session
/// key made for it: both are installed if the key reads as a PKCS#1 public
/// key, and nothing changes otherwise.
pub fn accept_handshake(shared_state: &mut SharedState, public_key_pem: Vec<u8>, session_key: Vec<u8>) -> (installed:
    bool)
    ensures
        installed == rsa_pem_accepted(public_key_pem@),
        installed ==> final(shared_state)@ == after_handshake(old(shared_state)@, public_key_pem@, session_key@),
        !installed ==> final(shared_state)@ == old(shared_state)@,
{
    match PublicKey::from_pkcs1_pem(public_key_pem) {
        Some(decoded_key) => {
            shared_state.peer_public_key = Some(decoded_key);
            shared_state.session_key = Some(session_key);
            true
        },
        None => false,
    }
}

/// What `process_response` does with a response: the action it hands back
/// and the state it leaves.
pub open spec fn responded(
    before: SharedStateView,
    response: ResponseView,
    action: ResponseAction,
    after: SharedStateView,
) -> bool {
    match response {
        ResponseView::Message { content } => {
            &&& action matches ResponseAction::Print(text)
            &&& text@ == "Received message: "@ + content
            &&& after == before
        },
        ResponseView::CommandOutput { output } => {
            &&& action matches ResponseAction::Print(text)
            &&& text@ == "Command output:\n"@ + output
            &&& after == before
        },
        ResponseView::FileList { files } => {
            &&& action matches ResponseAction::PrintLines(lines)
            &&& names(lines@) == files
            &&& after == before
        },
        ResponseView::UserList { users } => {
            &&& action matches ResponseAction::PrintLines(lines)
            &&& names(lines@) == users
            &&& after == before
        },
        ResponseView::FileData { file_path, data } => {
            &&& action matches ResponseAction::WriteFile { file_path: p, data: d }
            &&& p@ == file_path
            &&& d@ == data
            &&& after == before
        },
        ResponseView::Handshake { public_key_pem } => if rsa_pem_accepted(public_key_pem) {
            &&& action == ResponseAction::KeysInstalled
            &&& after.session_key matches Some(k)
            &&& k.len() == KEY_LEN
            &&& after == after_handshake(before, public_key_pem, k)
        } else {
            &&& action == ResponseAction::KeyRejected
            &&& after == before
        },
    }
}

/// Acts on a response. A message and a command's output are shown, a list
/// is shown line by line, file data is to be written, and a handshake
/// installs the peer's public key with a fresh session key.
pub fn process_response(response: Response, shared_state: &mut SharedState) -> (action: ResponseAction)
    ensures
        responded(old(shared_state)@, response@, action, final(shared_state)@),
{
    match response {
        Response::Message { content } => ResponseAction::Print(concat("Received message: ", content.as_str())),
        Response::CommandOutput { output } => ResponseAction::Print(concat("Command output:\n", output.as_str())),
        Response::FileList { files } => ResponseAction::PrintLines(files),
        Response::UserList { users } => ResponseAction::PrintLines(users),
        Response::FileData { file_path, data } => ResponseAction::WriteFile { file_path, data },
        Response::Handshake { public_key_pem } => {
            let session_key = generate_session_key();
            if accept_handshake(shared_state, public_key_pem, session_key) {
                ResponseAction::KeysInstalled
            } else {
                ResponseAction::KeyRejected
            }
        },
    }
}

} // verus!

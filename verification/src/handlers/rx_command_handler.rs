//! The receiver: decodes what arrives, acts on commands within what this peer
//! allows, and builds the frames of its answers.

use crate::crypto::aes::{
    decrypt, encrypt, open_blob, CryptoError, KEY_LEN, MAX_PLAINTEXT_LEN, NONCE_LEN, TAG_LEN,
};
use crate::crypto::envelope::{lemma_open_sealed, opened, seals, Envelope, EnvelopeError};
use crate::crypto::keys::{is_key_pair, rsa_modulus_len, PrivateKey, PublicKey, RSA_MODULUS_LEN};
use crate::enums::command::{Command, CommandView};
use crate::enums::response::{names, Response, ResponseView};
use crate::handlers::response_handler::{concat, process_response, responded, ResponseAction};
use crate::shared_state::{SharedState, SharedStateView};
use crate::transport::communication::{frame_decode, prepare_rx, prepare_tx, FrameError};
use crate::transport::compression::gzip_stream;
use crate::wire::classify::{classified, classify, is_command, Incoming};
use crate::wire::encode::{command_json, response_json};
use crate::wire::laws::lemma_command_json_injective;
use vstd::prelude::*;
use vstd::slice::slice_to_vec;

verus! {

/// Work that only the executor of this peer can do.
#[derive(Debug, Clone, PartialEq, Eq)]
pub enum Task {
    /// Name the working directory.
    Pwd,
    /// Name the current user.
    Whoami,
    /// List the users of the system.
    Users,
    /// List the files of the working directory.
    ListFiles,
    /// Read the file `file_path`; the sender will store it as `local_path`.
    ReadFile { file_path: String, local_path: String },
    /// Write `data` to `up_path`; the sender read it from `file_path`.
    WriteFile { file_path: String, up_path: String, data: Vec<u8> },
    /// Run the command line in a shell.
    RunShell { command: String },
}

/// What the executor hands back for a task that went well.
#[derive(Debug, Clone, PartialEq, Eq)]
pub enum TaskOutput {
    /// A text: a path, a name, the standard output of a command.
    Text(String),
    /// A list of names.
    Names(Vec<String>),
    /// The content of a file.
    Data(Vec<u8>),
    /// Nothing but success.
    Done,
}

/// What the receiver decides on a command.
#[derive(Debug, Clone, PartialEq, Eq)]
pub enum Dispatch {
    /// The response is to be sent.
    Reply(Response),
    /// The text is to be shown to the local user and the response sent.
    ShowAndReply { text: String, response: Response },
    /// The executor is to do the task; `complete` turns what it hands back
    /// into the response.
    Run(Task),
    /// A key pair could not be made for a handshake; nothing is sent.
    KeyGenerationFailed,
}

/// Why an arrival was dropped.
#[derive(Debug, Clone, Copy, PartialEq, Eq)]
pub enum Dropped {
    /// The frame does not decrypt or decompress.
    Undecodable(FrameError),
    /// The payload is no envelope, no command and no response.
    UnknownFormat,
    /// A bare command other than a handshake arrived in envelope mode.
    UnexpectedCommand,
    /// An envelope arrived before this peer made a private key.
    NoPrivateKey,
    /// The envelope does not open.
    Envelope(EnvelopeError),
    /// What the envelope holds is no command.
    BadCommand,
    /// A text frame.
    TextFrame,
    /// A frame that is neither binary nor text.
    NonBinaryFrame,
}

/// What the receiver makes of a payload.
#[derive(Debug, Clone, PartialEq, Eq)]
pub enum RxOutcome {
    /// A command was taken: what is to be done about it.
    Command(Dispatch),
    /// A response was taken: what is to be done with it.
    Response(ResponseAction),
    /// The arrival was dropped; the connection stays.
    Dropped(Dropped),
}

/// One arrival from the channel.
#[derive(Debug, Clone, PartialEq, Eq)]
pub enum Received {
    /// A binary frame.
    Binary(Vec<u8>),
    /// A text frame.
    Text(String),
    /// A frame of another kind.
    Other,
    /// An error of the channel.
    Failed,
}

/// Whether the receiver goes on.
#[derive(Debug, Clone, PartialEq, Eq)]
pub enum RxStep {
    /// The arrival was dealt with; the receiver takes the next one.
    Continue(RxOutcome),
    /// The channel failed; the receiver ends.
    Stop,
}

/// The receiving side of a connection.
pub struct RxCommandHandler {
    passphrase: String,
    no_exec: bool,
    no_transfer: bool,
    no_envelope: bool,
}

/// The message that answers a command while `no_exec` is set.
pub open spec fn execution_denied() -> ResponseView {
    ResponseView::Message { content: "Peer has disabled executing commands."@ }
}

/// The message that answers a command while `no_transfer` is set.
pub open spec fn transfer_denied() -> ResponseView {
    ResponseView::Message { content: "Transfer is disallowed (--no-transfer flag)."@ }
}

/// The payload that an arriving frame holds for a receiver with the given
/// mode, passphrase and session key. In envelope mode a frame that opens
/// under the session key is taken as wrapped once more; any other goes
/// through the frame pipeline as it is.
pub open spec fn incoming_payload(
    no_envelope: bool,
    passphrase: Seq<char>,
    session_key: Option<Seq<u8>>,
    data: Seq<u8>,
) -> Result<Seq<u8>, FrameError> {
    if !no_envelope && session_key is Some && open_blob(session_key->0, data) is Some {
        frame_decode(open_blob(session_key->0, data)->0, passphrase)
    } else {
        frame_decode(data, passphrase)
    }
}

/// The response that answers a task, given what the executor handed back: its
/// output in the shape the task calls for, or the message of its failure.
pub open spec fn completed(task: Task, outcome: Result<TaskOutput, String>) -> ResponseView {
    match (task, outcome) {
        (Task::Pwd, Ok(TaskOutput::Text(text))) => ResponseView::Message { content: text@ },
        (Task::Whoami, Ok(TaskOutput::Text(text))) => ResponseView::Message { content: text@ },
        (Task::Users, Ok(TaskOutput::Names(list))) => ResponseView::UserList { users: names(list@) },
        (Task::ListFiles, Ok(TaskOutput::Names(list))) => ResponseView::FileList { files: names(list@) },
        (Task::ReadFile { file_path, local_path }, Ok(TaskOutput::Data(data))) => ResponseView::FileData {
            file_path: local_path@,
            data: data@,
        },
        (Task::WriteFile { file_path, up_path, data }, Ok(TaskOutput::Done)) => ResponseView::Message {
            content: "File "@ + file_path@ + " uploaded successfully."@,
        },
        (Task::RunShell { command }, Ok(TaskOutput::Text(text))) => ResponseView::CommandOutput { output: text@ },
        (_, Ok(_)) => ResponseView::Message { content: "Unexpected result of the executor."@ },
        (Task::ReadFile { file_path, local_path }, Err(e)) => ResponseView::Message {
            content: "Failed to read file: "@ + e@,
        },
        (Task::WriteFile { file_path, up_path, data }, Err(e)) => ResponseView::Message {
            content: "Failed to write file: "@ + e@,
        },
        (Task::RunShell { command }, Err(e)) => ResponseView::Message {
            content: "Failed to execute command: "@ + e@ + "\n"@,
        },
        (Task::ListFiles, Err(e)) => ResponseView::Message { content: "Failed to read directory: "@ + e@ },
        (_, Err(e)) => ResponseView::Message { content: e@ },
    }
}

fn message(content: String) -> (response: Response)
    ensures
        response@ == (ResponseView::Message { content: content@ }),
{
    Response::Message { content }
}

fn unexpected() -> (response: Response)
    ensures
        response@ == (ResponseView::Message { content: "Unexpected result of the executor."@ }),
{
    Response::Message { content: "Unexpected result of the executor.".to_owned() }
}

/// Turns what the executor handed back for a task into the response.
pub fn complete(task: Task, outcome: Result<TaskOutput, String>) -> (response: Response)
    ensures
        response@ == completed(task, outcome),
{
    match outcome {
        Err(e) => match task {
            Task::ReadFile { file_path, local_path } => message(concat("Failed to read file: ", e.as_str())),
            Task::WriteFile { file_path, up_path, data } => message(concat("Failed to write file: ", e.as_str())),
            Task::RunShell { command } => {
                let start = concat("Failed to execute command: ", e.as_str());
                message(concat(start.as_str(), "\n"))
            },
            Task::ListFiles => message(concat("Failed to read directory: ", e.as_str())),
            _ => message(e),
        },
        Ok(output) => match (task, output) {
            (Task::Pwd, TaskOutput::Text(text)) => message(text),
            (Task::Whoami, TaskOutput::Text(text)) => message(text),
            (Task::Users, TaskOutput::Names(users)) => Response::UserList { users },
            (Task::ListFiles, TaskOutput::Names(files)) => Response::FileList { files },
            (Task::ReadFile { file_path, local_path }, TaskOutput::Data(data)) => Response::FileData {
                file_path: local_path,
                data,
            },
            (Task::WriteFile { file_path, up_path, data }, TaskOutput::Done) => {
                let start = concat("File ", file_path.as_str());
                message(concat(start.as_str(), " uploaded successfully."))
            },
            (Task::RunShell { command }, TaskOutput::Text(text)) => Response::CommandOutput { output: text },
            _ => unexpected(),
        },
    }
}

impl RxCommandHandler {
    /// A receiver with the given passphrase and switches.
    pub fn new(passphrase: String, no_exec: bool, no_transfer: bool, no_envelope: bool) -> (handler: Self)
        ensures
            handler.passphrase() == passphrase@,
            handler.no_exec() == no_exec,
            handler.no_transfer() == no_transfer,
            handler.no_envelope() == no_envelope,
    {
        Self { passphrase, no_exec, no_transfer, no_envelope }
    }

    /// The shared passphrase.
    pub closed spec fn passphrase(&self) -> Seq<char> {
        self.passphrase@
    }

    /// Whether this peer refuses to run commands.
    pub closed spec fn no_exec(&self) -> bool {
        self.no_exec
    }

    /// Whether this peer refuses to read and write files.
    pub closed spec fn no_transfer(&self) -> bool {
        self.no_transfer
    }

    /// Whether frames travel under the passphrase alone.
    pub closed spec fn no_envelope(&self) -> bool {
        self.no_envelope
    }

    fn execution_disabled_message(&self) -> (response: Response)
        ensures
            response@ == execution_denied(),
    {
        Response::Message { content: "Peer has disabled executing commands.".to_owned() }
    }

    fn transfer_disabled_message(&self) -> (response: Response)
        ensures
            response@ == transfer_denied(),
    {
        Response::Message { content: "Transfer is disallowed (--no-transfer flag).".to_owned() }
    }

    fn not_implemented(&self) -> (response: Response)
        ensures
            response@ == (ResponseView::Message { content: "NOT IMPLEMENTED"@ }),
    {
        Response::Message { content: "NOT IMPLEMENTED".to_owned() }
    }

    /// What an allowed command leads to when the state is left alone: every
    /// command but a handshake.
    pub open spec fn allowed(command: CommandView, dispatch: Dispatch) -> bool {
        match command {
            CommandView::Echo { message } => {
                &&& dispatch matches Dispatch::ShowAndReply { text, response }
                &&& text@ == message
                &&& response@ == (ResponseView::Message { content: "[+] "@ + message })
            },
            CommandView::Info | CommandView::Netstat | CommandView::Network => {
                &&& dispatch matches Dispatch::Reply(response)
                &&& response@ == (ResponseView::Message { content: "NOT IMPLEMENTED"@ })
            },
            CommandView::Pwd => dispatch == Dispatch::Run(Task::Pwd),
            CommandView::Whoami => dispatch == Dispatch::Run(Task::Whoami),
            CommandView::Users => dispatch == Dispatch::Run(Task::Users),
            CommandView::ListFiles => dispatch == Dispatch::Run(Task::ListFiles),
            CommandView::GetFile { remote_path, local_path } => {
                &&& dispatch matches Dispatch::Run(Task::ReadFile { file_path: a, local_path: b })
                &&& a@ == remote_path
                &&& b@ == local_path
            },
            CommandView::PutFile { remote_path, up_path, data } => {
                &&& dispatch matches Dispatch::Run(Task::WriteFile { file_path: a, up_path: b, data: d })
                &&& a@ == remote_path
                &&& b@ == up_path
                &&& d@ == data
            },
            CommandView::Execute { command } => {
                &&& dispatch matches Dispatch::Run(Task::RunShell { command: c })
                &&& c@ == command
            },
            CommandView::Handshake => false,
        }
    }

    /// What `handle_command` decides on a command, and the state it leaves.
    pub open spec fn handled(
        &self,
        before: SharedStateView,
        command: CommandView,
        dispatch: Dispatch,
        after: SharedStateView,
    ) -> bool {
        if command is Handshake {
            match dispatch {
                Dispatch::Reply(Response::Handshake { public_key_pem }) => {
                    &&& after.local_private_key matches Some(private_key)
                    &&& is_key_pair(private_key, public_key_pem@)
                    &&& rsa_modulus_len(public_key_pem@) == Some(RSA_MODULUS_LEN as nat)
                    &&& after.peer_public_key == before.peer_public_key
                    &&& after.session_key == before.session_key
                },
                Dispatch::KeyGenerationFailed => after == before,
                _ => false,
            }
        } else if self.no_exec() && command.needs_exec() {
            &&& dispatch matches Dispatch::Reply(r)
            &&& r@ == execution_denied()
            &&& after == before
        } else if self.no_transfer() && command.needs_transfer() {
            &&& dispatch matches Dispatch::Reply(r)
            &&& r@ == transfer_denied()
            &&& after == before
        } else {
            Self::allowed(command, dispatch) && after == before
        }
    }

    /// Decides on a command. With `no_exec` set, every command that runs
    /// something or tells about the system is answered by the one refusal;
    /// with `no_transfer` set, so is every command that touches files. An echo
    /// and a handshake are always taken. A handshake makes a fresh key pair,
    /// keeps the private key and answers with the public key.
    pub fn handle_command(&self, shared_state: &mut SharedState, command: Command) -> (dispatch: Dispatch)
        ensures
            self.handled(old(shared_state)@, command@, dispatch, final(shared_state)@),
    {
        match command {
            Command::Echo { message } => {
                let response = Response::Message { content: concat("[+] ", message.as_str()) };
                Dispatch::ShowAndReply { text: message, response }
            },
            Command::Handshake => self.handle_handshake(shared_state),
            Command::Info | Command::Netstat | Command::Network => {
                if self.no_exec {
                    Dispatch::Reply(self.execution_disabled_message())
                } else {
                    Dispatch::Reply(self.not_implemented())
                }
            },
            Command::Whoami => {
                if self.no_exec {
                    Dispatch::Reply(self.execution_disabled_message())
                } else {
                    Dispatch::Run(Task::Whoami)
                }
            },
            Command::Pwd => {
                if self.no_exec {
                    Dispatch::Reply(self.execution_disabled_message())
                } else {
                    Dispatch::Run(Task::Pwd)
                }
            },
            Command::Users => {
                if self.no_exec {
                    Dispatch::Reply(self.execution_disabled_message())
                } else {
                    Dispatch::Run(Task::Users)
                }
            },
            Command::Execute { command } => {
                if self.no_exec {
                    Dispatch::Reply(self.execution_disabled_message())
                } else {
                    Dispatch::Run(Task::RunShell { command })
                }
            },
            Command::ListFiles => {
                if self.no_transfer {
                    Dispatch::Reply(self.transfer_disabled_message())
                } else {
                    Dispatch::Run(Task::ListFiles)
                }
            },
            Command::GetFile { remote_path, local_path } => {
                if self.no_transfer {
                    Dispatch::Reply(self.transfer_disabled_message())
                } else {
                    Dispatch::Run(Task::ReadFile { file_path: remote_path, local_path })
                }
            },
            Command::PutFile { remote_path, up_path, data } => {
                if self.no_transfer {
                    Dispatch::Reply(self.transfer_disabled_message())
                } else {
                    Dispatch::Run(Task::WriteFile { file_path: remote_path, up_path, data })
                }
            },
        }
    }

    /// Answers a handshake with the key pair that was made for it: the private
    /// key becomes that of this peer, in place of an earlier one, and the
    /// public key is sent as PKCS#1 PEM. Where no pair could be made, nothing
    /// changes and nothing is sent.
    pub fn answer_handshake(&self, shared_state: &mut SharedState, pair: Option<(PrivateKey, PublicKey)>) -> (dispatch:
        Dispatch)
        ensures
            match pair {
                None => dispatch == Dispatch::KeyGenerationFailed && final(shared_state)@ == old(shared_state)@,
                Some(p) => {
                    &&& dispatch matches Dispatch::Reply(Response::Handshake { public_key_pem })
                    &&& public_key_pem@ == p.1@
                    &&& final(shared_state)@ == (SharedStateView {
                        local_private_key: Some(p.0@),
                        ..old(shared_state)@
                    })
                },
            },
    {
        match pair {
            None => Dispatch::KeyGenerationFailed,
            Some((private_key, public_key)) => {
                let public_key_pem = public_key.to_pkcs1_pem();
                shared_state.local_private_key = Some(private_key);
                Dispatch::Reply(Response::Handshake { public_key_pem })
            },
        }
    }

    /// Makes a fresh RSA-2048 key pair and answers the handshake with it.
    fn handle_handshake(&self, shared_state: &mut SharedState) -> (dispatch: Dispatch)
        ensures
            match dispatch {
                Dispatch::Reply(Response::Handshake { public_key_pem }) => {
                    &&& final(shared_state)@.local_private_key matches Some(private_key)
                    &&& is_key_pair(private_key, public_key_pem@)
                    &&& rsa_modulus_len(public_key_pem@) == Some(RSA_MODULUS_LEN as nat)
                    &&& final(shared_state)@.peer_public_key == old(shared_state)@.peer_public_key
                    &&& final(shared_state)@.session_key == old(shared_state)@.session_key
                },
                Dispatch::KeyGenerationFailed => final(shared_state)@ == old(shared_state)@,
                _ => false,
            },
    {
        let pair = Envelope::generate_rsa_key_pair();
        self.answer_handshake(shared_state, pair)
    }

    /// Reads an arriving frame. In no-envelope mode it goes through the frame
    /// pipeline. In envelope mode a frame that decrypts under the session key
    /// is unwrapped first; one that does not, and every frame while there is
    /// no session key, goes through the pipeline as it is, which is how a
    /// handshake arrives.
    pub fn decrypt_incoming_message(&self, shared_state: &SharedState, data: &[u8]) -> (payload: Result<
        Vec<u8>,
        FrameError,
    >)
        ensures
            match payload {
                Ok(p) => incoming_payload(self.no_envelope(), self.passphrase(), shared_state@.session_key, data@)
                    == Ok::<Seq<u8>, FrameError>(p@),
                Err(e) => incoming_payload(self.no_envelope(), self.passphrase(), shared_state@.session_key, data@)
                    == Err::<Seq<u8>, FrameError>(e),
            },
    {
        if !self.no_envelope {
            if let Some(session_key) = &shared_state.session_key {
                if let Ok(decrypted) = decrypt(data, session_key.as_slice()) {
                    return prepare_rx(decrypted, self.passphrase.as_str());
                }
            }
        }
        prepare_rx(slice_to_vec(data), self.passphrase.as_str())
    }

    /// Why no frame can be built for a serialized response, if so: it is too
    /// long for the pipeline or for the layer under the session key, or the
    /// session key is no key.
    pub open spec fn response_refused(&self, state: SharedStateView, serialized_response: Seq<u8>) -> Option<
        FrameError,
    > {
        let inner = gzip_stream(serialized_response).len();
        if inner > MAX_PLAINTEXT_LEN {
            Some(FrameError::PayloadTooLong)
        } else if self.no_envelope() || state.session_key is None {
            None
        } else if state.session_key->0.len() != KEY_LEN {
            Some(FrameError::InvalidSessionKey)
        } else if NONCE_LEN + inner + TAG_LEN > MAX_PLAINTEXT_LEN {
            Some(FrameError::PayloadTooLong)
        } else {
            None
        }
    }

    /// Builds the frame of a serialized response: through the frame pipeline,
    /// then, in envelope mode with a session key, once more under that key. A
    /// receiver in the same mode with the same passphrase and session key
    /// reads the response back out of it.
    pub fn encrypt_response(&self, shared_state: &SharedState, serialized_response: Vec<u8>) -> (frame: Result<
        Vec<u8>,
        FrameError,
    >)
        ensures
            match frame {
                Ok(f) => self.response_refused(shared_state@, serialized_response@) is None && incoming_payload(
                    self.no_envelope(),
                    self.passphrase(),
                    shared_state@.session_key,
                    f@,
                ) == Ok::<Seq<u8>, FrameError>(serialized_response@),
                Err(e) => self.response_refused(shared_state@, serialized_response@) == Some(e),
            },
    {
        let communication_data = match prepare_tx(serialized_response, self.passphrase.as_str()) {
            Ok(frame) => frame,
            Err(e) => {
                return Err(e);
            },
        };
        if self.no_envelope {
            return Ok(communication_data);
        }
        match &shared_state.session_key {
            None => Ok(communication_data),
            Some(session_key) => match encrypt(communication_data.as_slice(), session_key.as_slice()) {
                Ok(frame) => Ok(frame),
                Err(CryptoError::InvalidKeyLength) => Err(FrameError::InvalidSessionKey),
                Err(_) => Err(FrameError::PayloadTooLong),
            },
        }
    }

    /// Builds the frame that carries a response to the counterparty.
    pub fn send_response(&self, shared_state: &SharedState, response: &Response) -> (frame: Result<
        Vec<u8>,
        FrameError,
    >)
        ensures
            match frame {
                Ok(f) => self.response_refused(shared_state@, response_json(response@)) is None
                    && incoming_payload(self.no_envelope(), self.passphrase(), shared_state@.session_key, f@)
                    == Ok::<Seq<u8>, FrameError>(response_json(response@)),
                Err(e) => self.response_refused(shared_state@, response_json(response@)) == Some(e),
            },
    {
        let serialized_response = response.to_json();
        self.encrypt_response(shared_state, serialized_response)
    }

    /// What `process_incoming` makes of a classified payload, and the state
    /// it leaves.
    pub open spec fn processed(
        &self,
        before: SharedStateView,
        found: Incoming,
        outcome: RxOutcome,
        after: SharedStateView,
    ) -> bool {
        match found {
            Incoming::Envelope(envelope) => match before.local_private_key {
                None => outcome == RxOutcome::Dropped(Dropped::NoPrivateKey) && after == before,
                Some(private_key) => match opened(private_key, envelope@) {
                    Err(e) => outcome == RxOutcome::Dropped(Dropped::Envelope(e)) && after == before,
                    Ok((session_key, bytes)) => {
                        let keyed = SharedStateView { session_key: Some(session_key), ..before };
                        if is_command(bytes) {
                            outcome is Command && exists|command: CommandView|
                                #![trigger command_json(command)]
                                command_json(command) == bytes && self.handled(
                                    keyed,
                                    command,
                                    outcome->Command_0,
                                    after,
                                )
                        } else {
                            outcome == RxOutcome::Dropped(Dropped::BadCommand) && after == keyed
                        }
                    },
                },
            },
            Incoming::Command(command) => if self.no_envelope() || command@ is Handshake {
                outcome matches RxOutcome::Command(dispatch) && self.handled(before, command@, dispatch, after)
            } else {
                outcome == RxOutcome::Dropped(Dropped::UnexpectedCommand) && after == before
            },
            Incoming::Response(response) => outcome matches RxOutcome::Response(action) && responded(
                before,
                response@,
                action,
                after,
            ),
            Incoming::Unknown => outcome == RxOutcome::Dropped(Dropped::UnknownFormat) && after == before,
        }
    }

    /// Acts on a classified payload. An envelope is opened with the private
    /// key of this peer, its session key becomes the session key of the
    /// connection, and the command inside is decided on. A bare command is
    /// decided on in no-envelope mode; in envelope mode only a handshake is,
    /// and any other is dropped. A response goes to the response handler.
    pub fn process_incoming(&self, shared_state: &mut SharedState, found: Incoming) -> (outcome: RxOutcome)
        ensures
            self.processed(old(shared_state)@, found, outcome, final(shared_state)@),
    {
        match found {
            Incoming::Envelope(envelope) => {
                let opened = match &shared_state.local_private_key {
                    None => {
                        return RxOutcome::Dropped(Dropped::NoPrivateKey);
                    },
                    Some(private_key) => Envelope::decrypt_envelope(private_key, envelope),
                };
                match opened {
                    Err(e) => RxOutcome::Dropped(Dropped::Envelope(e)),
                    Ok((session_key, decrypted_command)) => {
                        shared_state.session_key = Some(session_key);
                        match Command::from_json(decrypted_command.as_slice()) {
                            None => RxOutcome::Dropped(Dropped::BadCommand),
                            Some(command) => RxOutcome::Command(self.handle_command(shared_state, command)),
                        }
                    },
                }
            },
            Incoming::Command(command) => {
                if self.no_envelope || matches!(command, Command::Handshake) {
                    RxOutcome::Command(self.handle_command(shared_state, command))
                } else {
                    RxOutcome::Dropped(Dropped::UnexpectedCommand)
                }
            },
            Incoming::Response(response) => RxOutcome::Response(process_response(response, shared_state)),
            Incoming::Unknown => RxOutcome::Dropped(Dropped::UnknownFormat),
        }
    }

    /// Classifies a decoded payload and acts on it.
    pub fn process_decrypted_data(&self, shared_state: &mut SharedState, decrypted_data: Vec<u8>) -> (outcome:
        RxOutcome)
        ensures
            exists|found: Incoming| #[trigger]
                classified(decrypted_data@, found) && self.processed(
                    old(shared_state)@,
                    found,
                    outcome,
                    final(shared_state)@,
                ),
    {
        let found = classify(decrypted_data.as_slice());
        let ghost witness = found;
        let ghost before = shared_state@;
        let outcome = self.process_incoming(shared_state, found);
        assert(classified(decrypted_data@, witness) && self.processed(before, witness, outcome, shared_state@));
        outcome
    }

    /// What `handle_rx` makes of one arrival, and the state it leaves.
    pub open spec fn received(
        &self,
        before: SharedStateView,
        message: Received,
        step: RxStep,
        after: SharedStateView,
    ) -> bool {
        match message {
            Received::Binary(data) => match incoming_payload(
                self.no_envelope(),
                self.passphrase(),
                before.session_key,
                data@,
            ) {
                Err(e) => step == RxStep::Continue(RxOutcome::Dropped(Dropped::Undecodable(e))) && after == before,
                Ok(payload) => step is Continue && exists|found: Incoming| #[trigger]
                    classified(payload, found) && self.processed(before, found, step->Continue_0, after),
            },
            Received::Text(_) => step == RxStep::Continue(RxOutcome::Dropped(Dropped::TextFrame)) && after
                == before,
            Received::Other => step == RxStep::Continue(RxOutcome::Dropped(Dropped::NonBinaryFrame)) && after
                == before,
            Received::Failed => step == RxStep::Stop && after == before,
        }
    }

    /// Takes one arrival from the channel. A binary frame is decoded and acted
    /// on; a frame that does not decode is dropped and the receiver goes on.
    /// Text and other frames are dropped. Only an error of the channel ends
    /// the receiver.
    pub fn handle_rx(&self, shared_state: &mut SharedState, message: Received) -> (step: RxStep)
        ensures
            self.received(old(shared_state)@, message, step, final(shared_state)@),
            message is Binary ==> step is Continue,
    {
        match message {
            Received::Binary(data) => match self.decrypt_incoming_message(shared_state, data.as_slice()) {
                Err(e) => RxStep::Continue(RxOutcome::Dropped(Dropped::Undecodable(e))),
                Ok(decrypted_communications) => {
                    let ghost payload = decrypted_communications@;
                    let ghost before = shared_state@;
                    let outcome = self.process_decrypted_data(shared_state, decrypted_communications);
                    proof {
                        let found = choose|found: Incoming| #[trigger]
                            classified(payload, found) && self.processed(before, found, outcome, shared_state@);
                        let decoded = incoming_payload(
                            self.no_envelope(),
                            self.passphrase(),
                            before.session_key,
                            data@,
                        );
                        assert(classified(decoded->Ok_0, found));
                        assert(exists|found: Incoming| #[trigger]
                            classified(decoded->Ok_0, found) && self.processed(
                                before,
                                found,
                                outcome,
                                shared_state@,
                            ));
                    }
                    RxStep::Continue(outcome)
                },
            },
            Received::Text(_) => RxStep::Continue(RxOutcome::Dropped(Dropped::TextFrame)),
            Received::Other => RxStep::Continue(RxOutcome::Dropped(Dropped::NonBinaryFrame)),
            Received::Failed => RxStep::Stop,
        }
    }
}

/// After a handshake, the first envelope makes both peers hold the same
/// session key. The receiver holds the private key of a pair; the sender
/// sealed a command under its session key to the public key of that pair. The
/// receiver then decides on that very command, and the session key it is left
/// with is the sender's.
pub proof fn lemma_session_keys_agree(
    receiver: RxCommandHandler,
    before: SharedStateView,
    envelope: Envelope,
    public_key: Seq<u8>,
    command: CommandView,
    session_key: Seq<u8>,
    outcome: RxOutcome,
    after: SharedStateView,
)
    requires
        before.local_private_key is Some,
        is_key_pair(before.local_private_key->0, public_key),
        seals(envelope@, public_key, command_json(command), session_key),
        receiver.processed(before, Incoming::Envelope(envelope), outcome, after),
    ensures
        after.session_key == Some(session_key),
        outcome is Command,
        receiver.handled(
            SharedStateView { session_key: Some(session_key), ..before },
            command,
            outcome->Command_0,
            after,
        ),
{
    lemma_open_sealed(before.local_private_key->0, public_key, envelope@, command_json(command), session_key);
    let bytes = command_json(command);
    assert(is_command(bytes));
    let keyed = SharedStateView { session_key: Some(session_key), ..before };
    let read = choose|read: CommandView|
        #![trigger command_json(read)]
        command_json(read) == bytes && receiver.handled(keyed, read, outcome->Command_0, after);
    lemma_command_json_injective(read, command);
}

} // verus!

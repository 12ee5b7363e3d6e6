//! The sender: reads a line of the user as a command, sees that the session
//! is ready for it, and builds the frame that carries it.

use crate::crypto::aes::{KEY_LEN, MAX_PLAINTEXT_LEN};
use crate::crypto::envelope::{seals, Envelope, EnvelopeError, EnvelopeView};
use crate::crypto::keys::takes;
use crate::enums::command::{Command, CommandView};
use crate::handlers::line::{
    join_from, join_words, split_words, string_of, to_uppercase, uppercase, word_views, words,
};
use crate::shared_state::{SharedState, SharedStateView};
use crate::transport::communication::{frame_decode, prepare_tx, FrameError};
use crate::transport::compression::gzip_stream;
use crate::wire::encode::{command_json, envelope_json};
use vstd::prelude::*;

verus! {

/// What a line of the user asks for.
#[derive(Debug, Clone, PartialEq, Eq)]
pub enum ParsedLine {
    /// The line holds no word.
    Empty,
    /// The user asks for the list of commands.
    Help,
    /// A command that is complete as it stands.
    Send(Command),
    /// An upload: the file `file_path` is to be read and sent as `file_up_path`.
    Upload { file_path: String, file_up_path: String },
    /// A download or an upload without its two paths.
    MissingArguments,
    /// The first word names no command.
    Unknown,
}

/// A parsed line as a mathematical value.
pub enum ParsedLineView {
    Empty,
    Help,
    Send(CommandView),
    Upload { file_path: Seq<char>, file_up_path: Seq<char> },
    MissingArguments,
    Unknown,
}

impl View for ParsedLine {
    type V = ParsedLineView;

    open spec fn view(&self) -> ParsedLineView {
        match self {
            ParsedLine::Empty => ParsedLineView::Empty,
            ParsedLine::Help => ParsedLineView::Help,
            ParsedLine::Send(c) => ParsedLineView::Send(c@),
            ParsedLine::Upload { file_path, file_up_path } => ParsedLineView::Upload {
                file_path: file_path@,
                file_up_path: file_up_path@,
            },
            ParsedLine::MissingArguments => ParsedLineView::MissingArguments,
            ParsedLine::Unknown => ParsedLineView::Unknown,
        }
    }
}

/// The words that ask for the list of commands.
pub open spec fn is_help(verb: Seq<char>) -> bool {
    verb == "H"@ || verb == "HELP"@
}

/// The words that send a message.
pub open spec fn is_echo(verb: Seq<char>) -> bool {
    verb == "TEXT"@ || verb == "ECHO"@ || verb == "PRINT"@ || verb == "MSG"@ || verb == "T"@
}

/// The words that list the files of the receiver.
pub open spec fn is_list(verb: Seq<char>) -> bool {
    verb == "L"@ || verb == "LIST"@ || verb == "LS"@ || verb == "DIR"@
}

/// The words that ask for the receiver's user.
pub open spec fn is_whoami(verb: Seq<char>) -> bool {
    verb == "ID"@ || verb == "WHOAMI"@ || verb == "WHO"@ || verb == "W"@
}

/// The words that ask for the receiver's working directory.
pub open spec fn is_pwd(verb: Seq<char>) -> bool {
    verb == "PWD"@ || verb == "WHERE"@
}

/// The word that lists the receiver's users.
pub open spec fn is_users(verb: Seq<char>) -> bool {
    verb == "USERS"@
}

/// The word that lists the receiver's network connections.
pub open spec fn is_netstat(verb: Seq<char>) -> bool {
    verb == "NETSTAT"@
}

/// The words that ask for the receiver's network adapters.
pub open spec fn is_network(verb: Seq<char>) -> bool {
    verb == "N"@ || verb == "NETWORK"@ || verb == "IFCONFIG"@ || verb == "IPCONFIG"@
}

/// The words that ask for the receiver's system.
pub open spec fn is_info(verb: Seq<char>) -> bool {
    verb == "SYSTEM"@ || verb == "INFO"@ || verb == "SYSTEMINFO"@ || verb == "UNAME"@
}

/// The words that download a file.
pub open spec fn is_get(verb: Seq<char>) -> bool {
    verb == "D"@ || verb == "GET"@ || verb == "DOWNLOAD"@
}

/// The words that upload a file.
pub open spec fn is_put(verb: Seq<char>) -> bool {
    verb == "U"@ || verb == "PUT"@ || verb == "UPLOAD"@
}

/// The words that run a shell command.
pub open spec fn is_execute(verb: Seq<char>) -> bool {
    verb == "E"@ || verb == "X"@ || verb == "SHELL"@ || verb == "EXEC"@ || verb == "RUN"@ || verb == "CMD"@
}

/// The words after the first, joined by single spaces.
pub open spec fn arguments(list: Seq<Seq<char>>) -> Seq<char> {
    if list.len() == 0 {
        Seq::empty()
    } else {
        join_words(list.skip(1))
    }
}

/// What the words of a line ask for when `verb` is the first of them in upper
/// case. The verb names the command; the words after the first, joined by
/// single spaces, are its argument. A download and an upload take the second
/// word as their first path and the rest as their second.
pub open spec fn reading(verb: Seq<char>, list: Seq<Seq<char>>) -> ParsedLineView {
    if is_help(verb) {
        ParsedLineView::Help
    } else if is_echo(verb) {
        ParsedLineView::Send(CommandView::Echo { message: arguments(list) })
    } else if is_list(verb) {
        ParsedLineView::Send(CommandView::ListFiles)
    } else if is_whoami(verb) {
        ParsedLineView::Send(CommandView::Whoami)
    } else if is_pwd(verb) {
        ParsedLineView::Send(CommandView::Pwd)
    } else if is_users(verb) {
        ParsedLineView::Send(CommandView::Users)
    } else if is_netstat(verb) {
        ParsedLineView::Send(CommandView::Netstat)
    } else if is_network(verb) {
        ParsedLineView::Send(CommandView::Network)
    } else if is_info(verb) {
        ParsedLineView::Send(CommandView::Info)
    } else if is_get(verb) {
        if list.len() >= 3 {
            ParsedLineView::Send(
                CommandView::GetFile { remote_path: list[1], local_path: join_words(list.skip(2)) },
            )
        } else {
            ParsedLineView::MissingArguments
        }
    } else if is_put(verb) {
        if list.len() >= 3 {
            ParsedLineView::Upload { file_path: list[1], file_up_path: join_words(list.skip(2)) }
        } else {
            ParsedLineView::MissingArguments
        }
    } else if is_execute(verb) {
        ParsedLineView::Send(CommandView::Execute { command: arguments(list) })
    } else {
        ParsedLineView::Unknown
    }
}

/// What a line asks for: nothing if it holds no word, and else what its
/// words ask for under the upper-case form of the first.
pub open spec fn parsed_line(line: Seq<char>) -> ParsedLineView {
    let list = words(line);
    if list.len() == 0 {
        ParsedLineView::Empty
    } else {
        reading(uppercase(list[0]), list)
    }
}

/// Whether the verb is the name.
fn named(verb: &String, name: &str) -> (same: bool)
    ensures
        same == (verb@ == name@),
{
    let other = name.to_owned();
    *verb == other
}

/// The words after the first, joined by single spaces.
fn arguments_of(list: &Vec<Vec<char>>) -> (rest: String)
    ensures
        rest@ == arguments(word_views(list@)),
{
    if list.len() == 0 {
        String::new()
    } else {
        join_from(list, 1)
    }
}

/// Reads the words of a line as a command, given the first word in upper
/// case.
pub fn read_command(verb: &str, list: &Vec<Vec<char>>) -> (parsed: ParsedLine)
    ensures
        parsed@ == reading(verb@, word_views(list@)),
{
    let ghost all = word_views(list@);
    let verb = verb.to_owned();
    if named(&verb, "H") || named(&verb, "HELP") {
        ParsedLine::Help
    } else if named(&verb, "TEXT") || named(&verb, "ECHO") || named(&verb, "PRINT") || named(&verb, "MSG")
        || named(&verb, "T") {
        ParsedLine::Send(Command::Echo { message: arguments_of(list) })
    } else if named(&verb, "L") || named(&verb, "LIST") || named(&verb, "LS") || named(&verb, "DIR") {
        ParsedLine::Send(Command::ListFiles)
    } else if named(&verb, "ID") || named(&verb, "WHOAMI") || named(&verb, "WHO") || named(&verb, "W") {
        ParsedLine::Send(Command::Whoami)
    } else if named(&verb, "PWD") || named(&verb, "WHERE") {
        ParsedLine::Send(Command::Pwd)
    } else if named(&verb, "USERS") {
        ParsedLine::Send(Command::Users)
    } else if named(&verb, "NETSTAT") {
        ParsedLine::Send(Command::Netstat)
    } else if named(&verb, "N") || named(&verb, "NETWORK") || named(&verb, "IFCONFIG") || named(
        &verb,
        "IPCONFIG",
    ) {
        ParsedLine::Send(Command::Network)
    } else if named(&verb, "SYSTEM") || named(&verb, "INFO") || named(&verb, "SYSTEMINFO") || named(
        &verb,
        "UNAME",
    ) {
        ParsedLine::Send(Command::Info)
    } else if named(&verb, "D") || named(&verb, "GET") || named(&verb, "DOWNLOAD") {
        if list.len() >= 3 {
            let remote_path = string_of(list[1].as_slice());
            assert(remote_path@ == all[1]);
            ParsedLine::Send(Command::GetFile { remote_path, local_path: join_from(list, 2) })
        } else {
            ParsedLine::MissingArguments
        }
    } else if named(&verb, "U") || named(&verb, "PUT") || named(&verb, "UPLOAD") {
        if list.len() >= 3 {
            let file_path = string_of(list[1].as_slice());
            assert(file_path@ == all[1]);
            ParsedLine::Upload { file_path, file_up_path: join_from(list, 2) }
        } else {
            ParsedLine::MissingArguments
        }
    } else if named(&verb, "E") || named(&verb, "X") || named(&verb, "SHELL") || named(&verb, "EXEC") || named(
        &verb,
        "RUN",
    ) || named(&verb, "CMD") {
        ParsedLine::Send(Command::Execute { command: arguments_of(list) })
    } else {
        ParsedLine::Unknown
    }
}

/// Reads a line as a command: cuts it into words, puts the first into upper
/// case, and reads the words under it.
pub fn parse_command(command: &str) -> (parsed: ParsedLine)
    ensures
        parsed@ == parsed_line(command@),
{
    let list = split_words(command);
    if list.len() == 0 {
        return ParsedLine::Empty;
    }
    let first = string_of(list[0].as_slice());
    let verb = to_uppercase(first.as_str());
    assert(verb@ == uppercase(word_views(list@)[0]));
    read_command(verb.as_str(), &list)
}

/// Why a command was not put on the wire.
#[derive(Debug, Clone, Copy, PartialEq, Eq)]
pub enum TxError {
    /// Envelope mode, and the peer's public key or the session key is not
    /// there yet.
    NotReady,
    /// The frame could not be built.
    Frame(FrameError),
    /// The envelope could not be sealed.
    Envelope(EnvelopeError),
}

/// What the sender decides on a line of the user.
#[derive(Debug, Clone, PartialEq, Eq)]
pub enum TxOutcome {
    /// The line was empty: nothing happens.
    Ignored,
    /// The session is not ready. The frame holds a handshake command and is to
    /// be sent; the user's command is dropped, to be tried again once the
    /// handshake is through.
    Handshake(Vec<u8>),
    /// The list of commands is to be shown; nothing is sent.
    Help,
    /// The line names no command; nothing is sent.
    Unknown,
    /// The command lacks its two paths; nothing is sent.
    MissingArguments,
    /// The file is to be read, an unreadable one counting as empty, and handed
    /// to `send_upload` with these two paths.
    ReadFile { file_path: String, file_up_path: String },
    /// The frame holds the command and is to be sent.
    Send(Vec<u8>),
    /// Nothing could be sent.
    Failed(TxError),
}

/// The sending side of a connection.
pub struct TxCommandHandler {
    passphrase: String,
    connection_active: bool,
    no_envelope: bool,
}

/// The frame holds the JSON of `command` under the passphrase alone.
pub open spec fn carries_plain(frame: Seq<u8>, passphrase: Seq<char>, command: CommandView) -> bool {
    frame_decode(frame, passphrase) == Ok::<Seq<u8>, FrameError>(command_json(command))
}

/// The frame holds, under the passphrase, the JSON of an envelope that seals
/// the JSON of `command` under `session_key` for the holder of `public_key`.
pub open spec fn carries_sealed(
    frame: Seq<u8>,
    passphrase: Seq<char>,
    public_key: Seq<u8>,
    session_key: Seq<u8>,
    command: CommandView,
) -> bool {
    exists|envelope: EnvelopeView|
        #![trigger envelope_json(envelope)]
        seals(envelope, public_key, command_json(command), session_key) && frame_decode(frame, passphrase)
            == Ok::<Seq<u8>, FrameError>(envelope_json(envelope))
}

impl TxCommandHandler {
    /// A sender for a live connection.
    pub fn new(passphrase: String, no_envelope: bool) -> (handler: Self)
        ensures
            handler.passphrase() == passphrase@,
            handler.no_envelope() == no_envelope,
            handler.active(),
    {
        Self { passphrase, connection_active: true, no_envelope }
    }

    /// The shared passphrase.
    pub closed spec fn passphrase(&self) -> Seq<char> {
        self.passphrase@
    }

    /// Whether commands travel under the passphrase alone.
    pub closed spec fn no_envelope(&self) -> bool {
        self.no_envelope
    }

    /// Whether the connection is live.
    pub closed spec fn active(&self) -> bool {
        self.connection_active
    }

    /// Whether the connection is live.
    pub fn is_connection_active(&self) -> (active: bool)
        ensures
            active == self.active(),
    {
        self.connection_active
    }

    /// Whether `command` travels without an envelope: always in no-envelope
    /// mode, and a handshake in either mode.
    pub open spec fn travels_plain(&self, command: CommandView) -> bool {
        self.no_envelope() || command is Handshake
    }

    /// Whether the JSON of `command` is short enough, once compressed, for the
    /// frame pipeline.
    pub open spec fn fits_frame(command: CommandView) -> bool {
        gzip_stream(command_json(command)).len() <= MAX_PLAINTEXT_LEN
    }

    /// What `send_command` returns for `command` in `state`. A command that
    /// travels plain gets its frame exactly when it fits one. A command that
    /// travels sealed needs both keys, a session key that fits the peer's
    /// modulus and is a key of the right length, and a command that is not
    /// too long; its frame is refused only where the envelope that was sealed
    /// for it is too long for a frame.
    pub open spec fn emitted(&self, state: SharedStateView, command: CommandView, sent: Result<Vec<u8>, TxError>) -> bool {
        match sent {
            Ok(frame) => if self.travels_plain(command) {
                Self::fits_frame(command) && carries_plain(frame@, self.passphrase(), command)
            } else {
                state.ready() && carries_sealed(
                    frame@,
                    self.passphrase(),
                    state.peer_public_key->0,
                    state.session_key->0,
                    command,
                )
            },
            Err(TxError::NotReady) => !self.travels_plain(command) && !state.ready(),
            Err(TxError::Frame(e)) => e == FrameError::PayloadTooLong && if self.travels_plain(command) {
                !Self::fits_frame(command)
            } else {
                state.ready() && exists|envelope: EnvelopeView|
                    #![trigger envelope_json(envelope)]
                    seals(envelope, state.peer_public_key->0, command_json(command), state.session_key->0)
                        && gzip_stream(envelope_json(envelope)).len() > MAX_PLAINTEXT_LEN
            },
            Err(TxError::Envelope(e)) => !self.travels_plain(command) && state.ready() && match e {
                EnvelopeError::KeyWrapFailure => !takes(state.peer_public_key->0, state.session_key->0.len()),
                EnvelopeError::InvalidSessionKey => takes(state.peer_public_key->0, state.session_key->0.len())
                    && state.session_key->0.len() != KEY_LEN,
                EnvelopeError::CommandTooLong => takes(state.peer_public_key->0, state.session_key->0.len())
                    && state.session_key->0.len() == KEY_LEN && command_json(command).len()
                    > MAX_PLAINTEXT_LEN,
                _ => false,
            },
        }
    }

    /// Builds the frame of a handshake command. It travels under the
    /// passphrase alone, in either mode.
    pub fn send_handshake(&self) -> (sent: Result<Vec<u8>, TxError>)
        ensures
            match sent {
                Ok(frame) => Self::fits_frame(CommandView::Handshake) && carries_plain(
                    frame@,
                    self.passphrase(),
                    CommandView::Handshake,
                ),
                Err(e) => !Self::fits_frame(CommandView::Handshake) && e == TxError::Frame(
                    FrameError::PayloadTooLong,
                ),
            },
    {
        let node_command = Command::Handshake;
        let serialized_command = node_command.to_json();
        match prepare_tx(serialized_command, self.passphrase.as_str()) {
            Ok(frame) => Ok(frame),
            Err(_) => Err(TxError::Frame(FrameError::PayloadTooLong)),
        }
    }

    /// Builds the frame of a command. In no-envelope mode, and for a
    /// handshake, the frame holds the command's JSON; otherwise it holds the
    /// JSON of an envelope sealed with the keys of `state`, and without those
    /// keys nothing is built.
    pub fn send_command(&self, state: &SharedState, node_command: &Command) -> (sent: Result<Vec<u8>, TxError>)
        ensures
            self.emitted(state@, node_command@, sent),
    {
        let plain = self.no_envelope || matches!(node_command, Command::Handshake);
        if plain {
            let serialized_command = node_command.to_json();
            return match prepare_tx(serialized_command, self.passphrase.as_str()) {
                Ok(frame) => Ok(frame),
                Err(_) => Err(TxError::Frame(FrameError::PayloadTooLong)),
            };
        }
        match (&state.peer_public_key, &state.session_key) {
            (Some(public_key), Some(session_key)) => {
                let serialized_command = node_command.to_json();
                match Envelope::create_encrypted_envelope(
                    public_key,
                    serialized_command.as_slice(),
                    session_key.as_slice(),
                ) {
                    Err(e) => Err(TxError::Envelope(e)),
                    Ok(envelope) => {
                        let serialized_envelope = envelope.to_bytes();
                        match prepare_tx(serialized_envelope, self.passphrase.as_str()) {
                            Ok(frame) => Ok(frame),
                            Err(_) => Err(TxError::Frame(FrameError::PayloadTooLong)),
                        }
                    },
                }
            },
            _ => Err(TxError::NotReady),
        }
    }

    /// Whether a command has to wait for a handshake: in envelope mode, while
    /// the peer's public key or the session key is missing.
    pub open spec fn awaits_handshake(&self, state: SharedStateView) -> bool {
        !self.no_envelope() && !state.ready()
    }

    /// What `handle_command` decides where a command has to wait: the frame of
    /// a handshake, which is owed exactly when it fits a frame.
    pub open spec fn initiated(&self, outcome: TxOutcome) -> bool {
        match outcome {
            TxOutcome::Handshake(frame) => Self::fits_frame(CommandView::Handshake) && carries_plain(
                frame@,
                self.passphrase(),
                CommandView::Handshake,
            ),
            TxOutcome::Failed(e) => !Self::fits_frame(CommandView::Handshake) && e == TxError::Frame(
                FrameError::PayloadTooLong,
            ),
            _ => false,
        }
    }

    /// What `handle_command` decides on a line that reads as `parsed`. What
    /// encodes no command is answered the same in every state: an empty line
    /// is ignored, a call for help is answered with the help, an unknown verb
    /// and missing paths are reported, and nothing is sent. A command and an
    /// upload wait for a handshake where one is due; otherwise the command's
    /// frame is built and the upload's file is asked for.
    pub open spec fn decided(&self, state: SharedStateView, parsed: ParsedLineView, outcome: TxOutcome) -> bool {
        match parsed {
            ParsedLineView::Empty => outcome == TxOutcome::Ignored,
            ParsedLineView::Help => outcome == TxOutcome::Help,
            ParsedLineView::Unknown => outcome == TxOutcome::Unknown,
            ParsedLineView::MissingArguments => outcome == TxOutcome::MissingArguments,
            ParsedLineView::Upload { file_path, file_up_path } => if self.awaits_handshake(state) {
                self.initiated(outcome)
            } else {
                &&& outcome matches TxOutcome::ReadFile { file_path: a, file_up_path: b }
                &&& a@ == file_path
                &&& b@ == file_up_path
            },
            ParsedLineView::Send(command) => if self.awaits_handshake(state) {
                self.initiated(outcome)
            } else {
                match outcome {
                    TxOutcome::Send(frame) => self.emitted(state, command, Ok(frame)),
                    TxOutcome::Failed(e) => self.emitted(state, command, Err(e)),
                    _ => false,
                }
            },
        }
    }

    /// Decides on a line of the user. The line is read first. An empty line
    /// is ignored; help, an unknown verb and missing paths are answered as
    /// such and send nothing, whatever the state. A command or an upload, in
    /// envelope mode while the peer's public key or the session key is
    /// missing, is dropped, and the only frame that leaves holds a handshake
    /// command. Otherwise the command's frame is built, or the upload's file
    /// is asked for.
    pub fn handle_command(&self, state: &SharedState, command: &str) -> (outcome: TxOutcome)
        ensures
            self.decided(state@, parsed_line(command@), outcome),
    {
        let waits = !self.no_envelope && !state.is_ready();
        match parse_command(command) {
            ParsedLine::Empty => TxOutcome::Ignored,
            ParsedLine::Help => TxOutcome::Help,
            ParsedLine::Unknown => TxOutcome::Unknown,
            ParsedLine::MissingArguments => TxOutcome::MissingArguments,
            ParsedLine::Upload { file_path, file_up_path } => {
                if waits {
                    self.initiate_handshake()
                } else {
                    TxOutcome::ReadFile { file_path, file_up_path }
                }
            },
            ParsedLine::Send(node_command) => {
                if waits {
                    self.initiate_handshake()
                } else {
                    match self.send_command(state, &node_command) {
                        Ok(frame) => TxOutcome::Send(frame),
                        Err(e) => TxOutcome::Failed(e),
                    }
                }
            },
        }
    }

    /// Builds the frame of the handshake that a waiting command starts.
    fn initiate_handshake(&self) -> (outcome: TxOutcome)
        ensures
            self.initiated(outcome),
    {
        match self.send_handshake() {
            Ok(frame) => TxOutcome::Handshake(frame),
            Err(e) => TxOutcome::Failed(e),
        }
    }

    /// Builds the frame of an upload from the content of the file that
    /// `handle_command` asked for.
    pub fn send_upload(&self, state: &SharedState, file_path: String, file_up_path: String, data: Vec<u8>) -> (sent:
        Result<Vec<u8>, TxError>)
        ensures
            self.emitted(
                state@,
                CommandView::PutFile { remote_path: file_path@, up_path: file_up_path@, data: data@ },
                sent,
            ),
    {
        let node_command = Command::PutFile { remote_path: file_path, up_path: file_up_path, data };
        self.send_command(state, &node_command)
    }
}

} // verus!

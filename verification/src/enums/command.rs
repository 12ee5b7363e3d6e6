//! What one peer asks of the other.

use vstd::prelude::*;

verus! {

/// A request to the counterparty.
#[derive(Debug, Clone, PartialEq, Eq)]
pub enum Command {
    /// Show a message and send it back.
    Echo { message: String },
    /// List the files of the working directory.
    ListFiles,
    /// Name the current user.
    Whoami,
    /// Describe the system.
    Info,
    /// Name the working directory.
    Pwd,
    /// List the users of the system.
    Users,
    /// List the network connections.
    Netstat,
    /// Describe the network adapters.
    Network,
    /// Start the key agreement: the receiver answers with a fresh public key.
    Handshake,
    /// Read `remote_path` on the receiver and store it as `local_path` on the
    /// sender.
    GetFile { remote_path: String, local_path: String },
    /// Store `data`, the content of the sender's file `remote_path`, as
    /// `up_path` on the receiver.
    PutFile { remote_path: String, up_path: String, data: Vec<u8> },
    /// Run a shell command line.
    Execute { command: String },
}

/// A command as a mathematical value.
pub enum CommandView {
    Echo { message: Seq<char> },
    ListFiles,
    Whoami,
    Info,
    Pwd,
    Users,
    Netstat,
    Network,
    Handshake,
    GetFile { remote_path: Seq<char>, local_path: Seq<char> },
    PutFile { remote_path: Seq<char>, up_path: Seq<char>, data: Seq<u8> },
    Execute { command: Seq<char> },
}

impl View for Command {
    type V = CommandView;

    open spec fn view(&self) -> CommandView {
        match self {
            Command::Echo { message } => CommandView::Echo { message: message@ },
            Command::ListFiles => CommandView::ListFiles,
            Command::Whoami => CommandView::Whoami,
            Command::Info => CommandView::Info,
            Command::Pwd => CommandView::Pwd,
            Command::Users => CommandView::Users,
            Command::Netstat => CommandView::Netstat,
            Command::Network => CommandView::Network,
            Command::Handshake => CommandView::Handshake,
            Command::GetFile { remote_path, local_path } => CommandView::GetFile {
                remote_path: remote_path@,
                local_path: local_path@,
            },
            Command::PutFile { remote_path, up_path, data } => CommandView::PutFile {
                remote_path: remote_path@,
                up_path: up_path@,
                data: data@,
            },
            Command::Execute { command } => CommandView::Execute { command: command@ },
        }
    }
}

impl CommandView {
    /// Commands that run something on the receiver or tell about its system.
    pub open spec fn needs_exec(self) -> bool {
        self is Info || self is Whoami || self is Pwd || self is Users || self is Netstat
            || self is Network || self is Execute
    }

    /// Commands that read or write the receiver's files.
    pub open spec fn needs_transfer(self) -> bool {
        self is ListFiles || self is GetFile || self is PutFile
    }
}

} // verus!

//! What a peer answers.

use vstd::prelude::*;

verus! {

/// An answer to a command.
#[derive(Debug, Clone, PartialEq, Eq)]
pub enum Response {
    /// A line of text for the user.
    Message { content: String },
    /// The names of the files of a directory.
    FileList { files: Vec<String> },
    /// The names of the users of a system.
    UserList { users: Vec<String> },
    /// The content of a file, to be stored as `file_path`.
    FileData { file_path: String, data: Vec<u8> },
    /// What a shell command wrote to its standard output.
    CommandOutput { output: String },
    /// The public key of the answering peer, as PKCS#1 PEM.
    Handshake { public_key_pem: Vec<u8> },
}

/// A response as a mathematical value.
pub enum ResponseView {
    Message { content: Seq<char> },
    FileList { files: Seq<Seq<char>> },
    UserList { users: Seq<Seq<char>> },
    FileData { file_path: Seq<char>, data: Seq<u8> },
    CommandOutput { output: Seq<char> },
    Handshake { public_key_pem: Seq<u8> },
}

/// The names held by a vector of strings.
pub open spec fn names(list: Seq<String>) -> Seq<Seq<char>> {
    Seq::new(list.len(), |i: int| list[i]@)
}

impl View for Response {
    type V = ResponseView;

    open spec fn view(&self) -> ResponseView {
        match self {
            Response::Message { content } => ResponseView::Message { content: content@ },
            Response::FileList { files } => ResponseView::FileList { files: names(files@) },
            Response::UserList { users } => ResponseView::UserList { users: names(users@) },
            Response::FileData { file_path, data } => ResponseView::FileData {
                file_path: file_path@,
                data: data@,
            },
            Response::CommandOutput { output } => ResponseView::CommandOutput { output: output@ },
            Response::Handshake { public_key_pem } => ResponseView::Handshake {
                public_key_pem: public_key_pem@,
            },
        }
    }
}

} // verus!

use vstd::prelude::*;
use crate::quote::{debug_quoted, debug_string};

verus! {

/// What can go wrong. Each error carries the text that explains it: the
/// address that could not be reached, the words of the parser, and so on.
#[derive(Clone, Debug, PartialEq, Eq)]
pub enum Error {
    /// The backend refused the credentials or the token.
    AuthorizationError(String),
    /// No package is being transferred under that name.
    UnknownTransfer(String),
    /// A chunk lies beyond the end of its package.
    ChunkOutOfBounds(String),
    /// The HTTP request to this address failed.
    ClientError(String),
    /// A chunk was not valid base64.
    DecodeError(String),
    /// A transfer was finished before all of its chunks had arrived.
    IncompleteTransfer(String),
    /// The scratch directory or a package file could not be used.
    IoError(String),
    /// The software manager could not be reached over the bus.
    IpcError(String),
    /// A payload was not the JSON that was expected.
    JsonDecoderError(String),
    /// A value could not be written as JSON.
    JsonEncoderError(String),
    /// A payload was malformed.
    ParseError(String),
}

impl Error {
    /// The text the error carries.
    pub open spec fn payload(self) -> Seq<char> {
        match self {
            Error::AuthorizationError(s) => s@,
            Error::UnknownTransfer(s) => s@,
            Error::ChunkOutOfBounds(s) => s@,
            Error::ClientError(s) => s@,
            Error::DecodeError(s) => s@,
            Error::IncompleteTransfer(s) => s@,
            Error::IoError(s) => s@,
            Error::IpcError(s) => s@,
            Error::JsonDecoderError(s) => s@,
            Error::JsonEncoderError(s) => s@,
            Error::ParseError(s) => s@,
        }
    }

    /// What a message about the error begins with.
    pub open spec fn prefix(self) -> Seq<char> {
        match self {
            Error::AuthorizationError(_) => "Http client authorization error: "@,
            Error::UnknownTransfer(_) => "No transfer for package: "@,
            Error::ChunkOutOfBounds(_) => "Chunk out of bounds: "@,
            Error::ClientError(_) => "Http client error: "@,
            Error::DecodeError(_) => "Failed to decode base64: "@,
            Error::IncompleteTransfer(_) => "Incomplete transfer: "@,
            Error::IoError(_) => "IO error: "@,
            Error::IpcError(_) => "IPC error: "@,
            Error::JsonDecoderError(_) => "Failed to decode JSON: "@,
            Error::JsonEncoderError(_) => "Failed to encode JSON: "@,
            Error::ParseError(_) => ""@,
        }
    }

    /// The name of the variant.
    pub open spec fn variant(self) -> Seq<char> {
        match self {
            Error::AuthorizationError(_) => "AuthorizationError"@,
            Error::UnknownTransfer(_) => "UnknownTransfer"@,
            Error::ChunkOutOfBounds(_) => "ChunkOutOfBounds"@,
            Error::ClientError(_) => "ClientError"@,
            Error::DecodeError(_) => "DecodeError"@,
            Error::IncompleteTransfer(_) => "IncompleteTransfer"@,
            Error::IoError(_) => "IoError"@,
            Error::IpcError(_) => "IpcError"@,
            Error::JsonDecoderError(_) => "JsonDecoderError"@,
            Error::JsonEncoderError(_) => "JsonEncoderError"@,
            Error::ParseError(_) => "ParseError"@,
        }
    }

    /// The message for a reader: the prefix of the variant, then its text.
    pub open spec fn message(self) -> Seq<char> {
        self.prefix() + self.payload()
    }

    /// The error as a developer reads it: the variant's name and, in round
    /// brackets, its text in double quotes.
    pub open spec fn diagnostic(self) -> Seq<char> {
        self.variant() + "("@ + debug_quoted(self.payload()) + ")"@
    }

    fn text(&self) -> (text: &String)
        ensures
            text@ == self.payload(),
    {
        match self {
            Error::AuthorizationError(s) => s,
            Error::UnknownTransfer(s) => s,
            Error::ChunkOutOfBounds(s) => s,
            Error::ClientError(s) => s,
            Error::DecodeError(s) => s,
            Error::IncompleteTransfer(s) => s,
            Error::IoError(s) => s,
            Error::IpcError(s) => s,
            Error::JsonDecoderError(s) => s,
            Error::JsonEncoderError(s) => s,
            Error::ParseError(s) => s,
        }
    }

    fn prefix_text(&self) -> (text: &'static str)
        ensures
            text@ == self.prefix(),
    {
        match self {
            Error::AuthorizationError(_) => "Http client authorization error: ",
            Error::UnknownTransfer(_) => "No transfer for package: ",
            Error::ChunkOutOfBounds(_) => "Chunk out of bounds: ",
            Error::ClientError(_) => "Http client error: ",
            Error::DecodeError(_) => "Failed to decode base64: ",
            Error::IncompleteTransfer(_) => "Incomplete transfer: ",
            Error::IoError(_) => "IO error: ",
            Error::IpcError(_) => "IPC error: ",
            Error::JsonDecoderError(_) => "Failed to decode JSON: ",
            Error::JsonEncoderError(_) => "Failed to encode JSON: ",
            Error::ParseError(_) => "",
        }
    }

    fn variant_text(&self) -> (text: &'static str)
        ensures
            text@ == self.variant(),
    {
        match self {
            Error::AuthorizationError(_) => "AuthorizationError",
            Error::UnknownTransfer(_) => "UnknownTransfer",
            Error::ChunkOutOfBounds(_) => "ChunkOutOfBounds",
            Error::ClientError(_) => "ClientError",
            Error::DecodeError(_) => "DecodeError",
            Error::IncompleteTransfer(_) => "IncompleteTransfer",
            Error::IoError(_) => "IoError",
            Error::IpcError(_) => "IpcError",
            Error::JsonDecoderError(_) => "JsonDecoderError",
            Error::JsonEncoderError(_) => "JsonEncoderError",
            Error::ParseError(_) => "ParseError",
        }
    }

    /// The message for a reader.
    pub fn to_string(&self) -> (text: String)
        ensures
            text@ == self.message(),
    {
        let mut text = String::from_str(self.prefix_text());
        text.append(self.text().as_str());
        text
    }

    /// The error as a developer reads it.
    pub fn debug(&self) -> (text: String)
        ensures
            text@ == self.diagnostic(),
    {
        let mut text = String::from_str(self.variant_text());
        text.append("(");
        let quoted = debug_string(self.text().as_str());
        text.append(quoted.as_str());
        text.append(")");
        text
    }

    /// Whether the backend refused the client, so that it has to authenticate anew.
    pub fn is_authorization(&self) -> (refused: bool)
        ensures
            refused == (*self is AuthorizationError),
    {
        match self {
            Error::AuthorizationError(_) => true,
            _ => false,
        }
    }
}

} // verus!

//! The errors that a call can end in.
use vstd::prelude::*;

verus! {

/// Why a call failed.
#[derive(Debug, Clone)]
pub enum ClientError {
    /// The client itself could not carry out the call.
    InternalError { msg: String },
    /// The function on the server threw an application error.
    ConvexError { data: String },
    /// The function on the server failed.
    ServerError { msg: String },
    /// A synchronous entry point was called from asynchronous code.
    InvalidContext { msg: String },
}

/// What a [`ClientError`] says: its variant and the characters of its text.
pub enum ErrorView {
    InternalError { msg: Seq<char> },
    ConvexError { data: Seq<char> },
    ServerError { msg: Seq<char> },
    InvalidContext { msg: Seq<char> },
}

impl View for ClientError {
    type V = ErrorView;

    open spec fn view(&self) -> ErrorView {
        match self {
            ClientError::InternalError { msg } => ErrorView::InternalError { msg: msg@ },
            ClientError::ConvexError { data } => ErrorView::ConvexError { data: data@ },
            ClientError::ServerError { msg } => ErrorView::ServerError { msg: msg@ },
            ClientError::InvalidContext { msg } => ErrorView::InvalidContext { msg: msg@ },
        }
    }
}

impl ErrorView {
    /// The line shown for this error: the variant's name, a colon and its text.
    pub open spec fn line(self) -> Seq<char> {
        match self {
            ErrorView::InternalError { msg } => "InternalError: "@ + msg,
            ErrorView::ConvexError { data } => "ConvexError: "@ + data,
            ErrorView::ServerError { msg } => "ServerError: "@ + msg,
            ErrorView::InvalidContext { msg } => "InvalidContext: "@ + msg,
        }
    }
}

/// A result with its error taken by its view.
pub open spec fn viewed<T>(result: Result<T, ClientError>) -> Result<T, ErrorView> {
    match result {
        Ok(value) => Ok(value),
        Err(error) => Err(error@),
    }
}

/// `head` followed by `tail`, as one string.
pub(crate) fn joined(head: &str, tail: &str) -> (text: String)
    ensures
        text@ == head@ + tail@,
{
    let mut text = head.to_owned();
    text.append(tail);
    text
}

impl ClientError {
    /// The line that names this error to a person.
    pub fn message(&self) -> (text: String)
        ensures
            text@ == self@.line(),
            match self {
                ClientError::InternalError { msg } => text@ == "InternalError: "@ + msg@,
                ClientError::ConvexError { data } => text@ == "ConvexError: "@ + data@,
                ClientError::ServerError { msg } => text@ == "ServerError: "@ + msg@,
                ClientError::InvalidContext { msg } => text@ == "InvalidContext: "@ + msg@,
            },
    {
        match self {
            ClientError::InternalError { msg } => joined("InternalError: ", msg.as_str()),
            ClientError::ConvexError { data } => joined("ConvexError: ", data.as_str()),
            ClientError::ServerError { msg } => joined("ServerError: ", msg.as_str()),
            ClientError::InvalidContext { msg } => joined("InvalidContext: ", msg.as_str()),
        }
    }

    /// An internal error whose text is `head` followed by `detail`.
    pub fn internal(head: &str, detail: &str) -> (error: ClientError)
        ensures
            error@ == (ErrorView::InternalError { msg: head@ + detail@ }),
            error matches ClientError::InternalError { msg } && msg@ == head@ + detail@,
    {
        ClientError::InternalError { msg: joined(head, detail) }
    }
}

impl From<anyhow::Error> for ClientError {
    fn from(value: anyhow::Error) -> (error: ClientError)
        ensures
            error matches ClientError::InternalError { msg }
                && vstd::string::to_string_from_display_ensures::<anyhow::Error>(&value, msg),
    {
        ClientError::InternalError { msg: value.to_string() }
    }
}

impl vstd::std_specs::convert::FromSpecImpl<anyhow::Error> for ClientError {
    open spec fn obeys_from_spec() -> bool {
        false
    }

    open spec fn from_spec(value: anyhow::Error) -> ClientError {
        arbitrary()
    }
}

} // verus!

//! The closed set of failures that the request pipeline reports.
use vstd::prelude::*;

verus! {

/// One failure of the pipeline, by origin.
#[derive(Debug, Clone, PartialEq, Eq)]
pub enum Error {
    /// The text given for an account key is not well-formed base64.
    CredentialMalformed(String),
    /// The signing key was refused (an invalid key length).
    Signing(String),
    /// The endpoint, or the URL composed from it, does not parse.
    UrlParse(String),
    /// The transport could not complete the round trip.
    Transport(String),
    /// The response's status is not one that the operation accepts.
    UnexpectedStatus { status: u16, body: String },
    /// A required header is absent from the response.
    HeaderMissing(String),
    /// A header is present but its value does not parse as its declared type.
    FieldParse { header: String, value: String },
    /// The response body is not what the operation expects.
    BodyParse(String),
}

/// What an [`Error`] says, with its texts as character sequences.
pub enum ErrorView {
    CredentialMalformed(Seq<char>),
    Signing(Seq<char>),
    UrlParse(Seq<char>),
    Transport(Seq<char>),
    UnexpectedStatus { status: u16, body: Seq<char> },
    HeaderMissing(Seq<char>),
    FieldParse { header: Seq<char>, value: Seq<char> },
    BodyParse(Seq<char>),
}

impl View for Error {
    type V = ErrorView;

    open spec fn view(&self) -> ErrorView {
        match self {
            Error::CredentialMalformed(m) => ErrorView::CredentialMalformed(m@),
            Error::Signing(m) => ErrorView::Signing(m@),
            Error::UrlParse(m) => ErrorView::UrlParse(m@),
            Error::Transport(m) => ErrorView::Transport(m@),
            Error::UnexpectedStatus { status, body } => ErrorView::UnexpectedStatus {
                status: *status,
                body: body@,
            },
            Error::HeaderMissing(h) => ErrorView::HeaderMissing(h@),
            Error::FieldParse { header, value } => ErrorView::FieldParse {
                header: header@,
                value: value@,
            },
            Error::BodyParse(m) => ErrorView::BodyParse(m@),
        }
    }
}

} // verus!

//! The messages that a client and the server exchange.

use crate::ci::ProjectInfo;
use crate::error::Error as CoreError;
use crate::info::TechniqueInfo;
use vstd::prelude::*;
use vstd::std_specs::convert::FromSpecImpl;
use vstd::string::*;

verus! {

/// A request to the server. `End` closes the session.
#[derive(Debug)]
pub enum Msg {
    Register(ProjectInfo, TechniqueInfo),
    SaveResults(ProjectInfo, TechniqueInfo),
    PublishPrivate(ProjectInfo, String),
    InitMissingScenesWP(ProjectInfo, String),
    UpdateResults(ProjectInfo, String),
    PublishPublic(ProjectInfo, String),
    CanRun(ProjectInfo),
    DeleteWorkspace(ProjectInfo, String),
    End,
}

/// Why the server turned a request down.
#[derive(Debug, PartialEq, Eq)]
pub enum Error {
    /// The request could not be read.
    InvalidMessage,
    /// A rule of the registry stands against the request; the text says which.
    Logic(String),
    /// Something failed inside the server.
    Internal,
}

/// Mathematical content of an `Error`.
pub ghost enum ErrorView {
    InvalidMessage,
    Logic(Seq<char>),
    Internal,
}

impl View for Error {
    type V = ErrorView;

    open spec fn view(&self) -> ErrorView {
        match self {
            Error::InvalidMessage => ErrorView::InvalidMessage,
            Error::Logic(text) => ErrorView::Logic(text@),
            Error::Internal => ErrorView::Internal,
        }
    }
}

/// What the server answers to a request: a text, or why it turned the request down.
pub type MsgResult = Result<String, Error>;

/// The content of an answer.
pub open spec fn answer_view(r: MsgResult) -> Result<Seq<char>, ErrorView> {
    match r {
        Ok(text) => Ok(text@),
        Err(e) => Err(e@),
    }
}

impl ErrorView {
    /// The error of the server that stands for an error of the registry: an error on a
    /// rule of the registry is passed on with its text, any other is internal.
    pub open spec fn of(err: CoreError) -> ErrorView {
        if err.spec_is_domain() {
            ErrorView::Logic(err.spec_message())
        } else {
            ErrorView::Internal
        }
    }

    /// The text shown to a user for this error.
    pub open spec fn message(self) -> Seq<char> {
        match self {
            ErrorView::InvalidMessage => "invalid message"@,
            ErrorView::Logic(text) => "logic error: "@ + text,
            ErrorView::Internal => "internal error"@,
        }
    }
}

impl Error {
    /// The error of the server that stands for an error of the registry.
    pub fn of(err: CoreError) -> (e: Error)
        ensures
            e@ == ErrorView::of(err),
    {
        if err.is_domain() {
            Error::Logic(String::from_str(err.message()))
        } else {
            Error::Internal
        }
    }

    /// The text shown to a user for this error.
    pub fn message(&self) -> (text: String)
        ensures
            text@ == self@.message(),
    {
        match self {
            Error::InvalidMessage => String::from_str("invalid message"),
            Error::Logic(msg) => {
                let mut text = String::from_str("logic error: ");
                text.append(msg.as_str());
                text
            },
            Error::Internal => String::from_str("internal error"),
        }
    }
}

impl From<CoreError> for Error {
    fn from(err: CoreError) -> (e: Error)
        ensures
            e@ == ErrorView::of(err),
    {
        Error::of(err)
    }
}

/// What `from` gives is stated over the content of the error, at `from` itself: an
/// error that carries a text is fixed by that text, not by the string that holds it.
impl FromSpecImpl<CoreError> for Error {
    open spec fn obeys_from_spec() -> bool {
        false
    }

    open spec fn from_spec(err: CoreError) -> Error {
        Error::Internal
    }
}

} // verus!

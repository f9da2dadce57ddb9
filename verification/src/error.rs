//! The errors that the layer returns.

use vstd::prelude::*;
use vstd::string::StringExecFns;

verus! {

#[derive(Debug)]
pub enum Error {
    /// The context does not fit the requirements.
    InvalidContext(String),
    ResourceNotFound,
    FailedToCompileShader(String),
    FailedToLinkShader(String),
    ConversionFailed(&'static str),
    ExternalError(String),
}

/// What an [`Error`] says: its kind, and the text it carries.
pub enum Failure {
    InvalidContext(Seq<char>),
    ResourceNotFound,
    FailedToCompileShader(Seq<char>),
    FailedToLinkShader(Seq<char>),
    ConversionFailed(Seq<char>),
    ExternalError(Seq<char>),
}

impl View for Error {
    type V = Failure;

    open spec fn view(&self) -> Failure {
        match self {
            Error::InvalidContext(cause) => Failure::InvalidContext(cause@),
            Error::ResourceNotFound => Failure::ResourceNotFound,
            Error::FailedToCompileShader(cause) => Failure::FailedToCompileShader(cause@),
            Error::FailedToLinkShader(cause) => Failure::FailedToLinkShader(cause@),
            Error::ConversionFailed(cause) => Failure::ConversionFailed(cause@),
            Error::ExternalError(cause) => Failure::ExternalError(cause@),
        }
    }
}

impl Failure {
    /// The words that come before the cause in the message of the error.
    pub open spec fn lead(self) -> Seq<char> {
        match self {
            Failure::InvalidContext(_) => "invalid context, caused by "@,
            Failure::ResourceNotFound => "resource not found"@,
            Failure::FailedToCompileShader(_) => "failed to compile shader stage, caused by "@,
            Failure::FailedToLinkShader(_) => "failed to link shader, caused by "@,
            Failure::ConversionFailed(_) => "conversion failed, caused by "@,
            Failure::ExternalError(_) => "external error, caused by "@,
        }
    }

    /// The text that the error carries; nothing for one that carries none.
    pub open spec fn cause(self) -> Seq<char> {
        match self {
            Failure::InvalidContext(cause) => cause,
            Failure::ResourceNotFound => Seq::empty(),
            Failure::FailedToCompileShader(cause) => cause,
            Failure::FailedToLinkShader(cause) => cause,
            Failure::ConversionFailed(cause) => cause,
            Failure::ExternalError(cause) => cause,
        }
    }

    pub open spec fn message(self) -> Seq<char> {
        self.lead() + self.cause()
    }
}

impl Error {
    /// The message of the error, as it is shown to a reader.
    pub fn message(&self) -> (text: String)
        ensures
            text@ == self@.message(),
    {
        match self {
            Error::InvalidContext(cause) => String::from_str("invalid context, caused by ").concat(
                cause.as_str(),
            ),
            Error::ResourceNotFound => {
                let text = String::from_str("resource not found");
                assert(text@ =~= self@.message());
                text
            },
            Error::FailedToLinkShader(cause) => String::from_str(
                "failed to link shader, caused by ",
            ).concat(cause.as_str()),
            Error::FailedToCompileShader(cause) => String::from_str(
                "failed to compile shader stage, caused by ",
            ).concat(cause.as_str()),
            Error::ConversionFailed(cause) => String::from_str(
                "conversion failed, caused by ",
            ).concat(cause),
            Error::ExternalError(cause) => String::from_str("external error, caused by ").concat(
                cause.as_str(),
            ),
        }
    }
}

} // verus!

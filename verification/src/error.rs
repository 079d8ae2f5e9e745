//! The failures of the pipeline.

use serde_json::Error as JsonError;
use vstd::prelude::*;
use vstd::string::*;

verus! {

/// `std::io::Error`, carried as it is.
#[verifier::external_type_specification]
#[verifier::external_body]
pub struct ExIoError(std::io::Error);

/// `std::string::FromUtf8Error`, carried as it is.
#[verifier::external_type_specification]
#[verifier::external_body]
pub struct ExFromUtf8Error(std::string::FromUtf8Error);

/// `serde_json::Error`, carried as it is.
#[verifier::external_type_specification]
#[verifier::external_body]
pub struct ExJsonError(JsonError);

/// Why a step of the pipeline failed.
#[derive(Debug)]
pub enum Error {
    /// A file could not be read or written, or a process could not be started.
    Io(std::io::Error),
    /// Captured output of a process is not UTF-8.
    Utf8(std::string::FromUtf8Error),
    /// The input record could not be serialized.
    Serde(JsonError),
    /// A process exited with a non-zero status; the text is the diagnosis.
    Script(String),
}

impl From<std::io::Error> for Error {
    fn from(e: std::io::Error) -> (res: Error) {
        Error::Io(e)
    }
}

impl vstd::std_specs::convert::FromSpecImpl<std::io::Error> for Error {
    open spec fn obeys_from_spec() -> bool {
        true
    }

    open spec fn from_spec(e: std::io::Error) -> Error {
        Error::Io(e)
    }
}

impl From<std::string::FromUtf8Error> for Error {
    fn from(e: std::string::FromUtf8Error) -> (res: Error) {
        Error::Utf8(e)
    }
}

impl vstd::std_specs::convert::FromSpecImpl<std::string::FromUtf8Error> for Error {
    open spec fn obeys_from_spec() -> bool {
        true
    }

    open spec fn from_spec(e: std::string::FromUtf8Error) -> Error {
        Error::Utf8(e)
    }
}

impl From<JsonError> for Error {
    fn from(e: JsonError) -> (res: Error) {
        Error::Serde(e)
    }
}

impl vstd::std_specs::convert::FromSpecImpl<JsonError> for Error {
    open spec fn obeys_from_spec() -> bool {
        true
    }

    open spec fn from_spec(e: JsonError) -> Error {
        Error::Serde(e)
    }
}

fn prefixed(prefix: &str, detail: &str) -> (text: String)
    ensures
        text@ == prefix@ + detail@,
{
    String::from_str(prefix).concat(detail)
}

impl Error {
    /// The message of this failure: the kind, a colon and the detail. For a
    /// script failure the detail is the diagnosis; for the other kinds it is
    /// the text that the error shows itself as.
    pub fn message(&self) -> (text: String)
        ensures
            match self {
                Error::Io(e) => exists|d: String| #[trigger]
                    to_string_from_display_ensures::<std::io::Error>(e, d) && text@ == "io: "@
                        + d@,
                Error::Utf8(e) => exists|d: String| #[trigger]
                    to_string_from_display_ensures::<std::string::FromUtf8Error>(e, d) && text@
                        == "utf8: "@ + d@,
                Error::Serde(e) => exists|d: String| #[trigger]
                    to_string_from_display_ensures::<JsonError>(e, d) && text@ == "serde: "@ + d@,
                Error::Script(detail) => text@ == "script failed: "@ + detail@,
            },
    {
        match self {
            Error::Io(e) => {
                let detail = e.to_string();
                prefixed("io: ", detail.as_str())
            },
            Error::Utf8(e) => {
                let detail = e.to_string();
                prefixed("utf8: ", detail.as_str())
            },
            Error::Serde(e) => {
                let detail = e.to_string();
                prefixed("serde: ", detail.as_str())
            },
            Error::Script(detail) => prefixed("script failed: ", detail.as_str()),
        }
    }
}

} // verus!

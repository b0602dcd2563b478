//! The error type that every failure of the library is reported in.
use vstd::prelude::*;

verus! {

/// Opaque: anyhow::Error, an opaque error with its chain of causes.
#[verifier::external_type_specification]
#[verifier::external_body]
pub struct ExAnyhowError(anyhow::Error);

/// Opaque: std::io::Error, an I/O failure.
#[verifier::external_type_specification]
#[verifier::external_body]
pub struct ExIoError(std::io::Error);

/// Opaque: toml::de::Error, a TOML parse failure.
#[verifier::external_type_specification]
#[verifier::external_body]
pub struct ExTomlError(toml::de::Error);

/// Opaque: fst::Error, a failure to read or build an FST index.
#[verifier::external_type_specification]
#[verifier::external_body]
pub struct ExFstError(fst::Error);

/// Opaque: std::string::FromUtf8Error, bytes that are not UTF-8.
#[verifier::external_type_specification]
#[verifier::external_body]
pub struct ExFromUtf8Error(std::string::FromUtf8Error);

/// Opaque: fst::automaton::LevenshteinError, a fuzzy automaton that grew too large.
#[verifier::external_type_specification]
#[verifier::external_body]
pub struct ExLevenshteinError(fst::automaton::LevenshteinError);

/// Opaque: reqwest::Error, an HTTP failure.
#[verifier::external_type_specification]
#[verifier::external_body]
pub struct ExReqwestError(reqwest::Error);

/// Opaque: json5::Error, a JSON5 parse failure.
#[verifier::external_type_specification]
#[verifier::external_body]
pub struct ExJson5Error(json5::Error);

/// Opaque: rusqlite::Error, an SQLite failure.
#[verifier::external_type_specification]
#[verifier::external_body]
pub struct ExSqliteError(rusqlite::Error);

/// One error type for the whole library: a message of its own, or the
/// error of the subsystem that failed.
#[derive(Debug)]
pub enum WikitError {
    Plain(String),
    Anyhow(anyhow::Error),
    IOError(std::io::Error),
    TOMLError(toml::de::Error),
    FSTError(fst::Error),
    UTF8Error(std::string::FromUtf8Error),
    FSTLevenshteinError(fst::automaton::LevenshteinError),
    ReqwestError(reqwest::Error),
    JSON5Error(json5::Error),
    SQLiteError(rusqlite::Error),
}

/// Results whose error is a `WikitError`.
pub type WikitResult<T> = std::result::Result<T, WikitError>;

impl WikitError {
    /// A plain error carrying the message `msg`.
    pub fn new(msg: &str) -> (r: WikitError)
        ensures
            r matches WikitError::Plain(m) && m@ == msg@,
    {
        WikitError::Plain(String::from_str(msg))
    }
}

impl From<anyhow::Error> for WikitError {
    fn from(e: anyhow::Error) -> (r: WikitError) {
        WikitError::Anyhow(e)
    }
}

impl vstd::std_specs::convert::FromSpecImpl<anyhow::Error> for WikitError {
    open spec fn obeys_from_spec() -> bool {
        true
    }

    open spec fn from_spec(e: anyhow::Error) -> WikitError {
        WikitError::Anyhow(e)
    }
}

impl From<std::io::Error> for WikitError {
    fn from(e: std::io::Error) -> (r: WikitError) {
        WikitError::IOError(e)
    }
}

impl vstd::std_specs::convert::FromSpecImpl<std::io::Error> for WikitError {
    open spec fn obeys_from_spec() -> bool {
        true
    }

    open spec fn from_spec(e: std::io::Error) -> WikitError {
        WikitError::IOError(e)
    }
}

impl From<toml::de::Error> for WikitError {
    fn from(e: toml::de::Error) -> (r: WikitError) {
        WikitError::TOMLError(e)
    }
}

impl vstd::std_specs::convert::FromSpecImpl<toml::de::Error> for WikitError {
    open spec fn obeys_from_spec() -> bool {
        true
    }

    open spec fn from_spec(e: toml::de::Error) -> WikitError {
        WikitError::TOMLError(e)
    }
}

impl From<fst::Error> for WikitError {
    fn from(e: fst::Error) -> (r: WikitError) {
        WikitError::FSTError(e)
    }
}

impl vstd::std_specs::convert::FromSpecImpl<fst::Error> for WikitError {
    open spec fn obeys_from_spec() -> bool {
        true
    }

    open spec fn from_spec(e: fst::Error) -> WikitError {
        WikitError::FSTError(e)
    }
}

impl From<std::string::FromUtf8Error> for WikitError {
    fn from(e: std::string::FromUtf8Error) -> (r: WikitError) {
        WikitError::UTF8Error(e)
    }
}

impl vstd::std_specs::convert::FromSpecImpl<std::string::FromUtf8Error> for WikitError {
    open spec fn obeys_from_spec() -> bool {
        true
    }

    open spec fn from_spec(e: std::string::FromUtf8Error) -> WikitError {
        WikitError::UTF8Error(e)
    }
}

impl From<fst::automaton::LevenshteinError> for WikitError {
    fn from(e: fst::automaton::LevenshteinError) -> (r: WikitError) {
        WikitError::FSTLevenshteinError(e)
    }
}

impl vstd::std_specs::convert::FromSpecImpl<fst::automaton::LevenshteinError> for WikitError {
    open spec fn obeys_from_spec() -> bool {
        true
    }

    open spec fn from_spec(e: fst::automaton::LevenshteinError) -> WikitError {
        WikitError::FSTLevenshteinError(e)
    }
}

impl From<reqwest::Error> for WikitError {
    fn from(e: reqwest::Error) -> (r: WikitError) {
        WikitError::ReqwestError(e)
    }
}

impl vstd::std_specs::convert::FromSpecImpl<reqwest::Error> for WikitError {
    open spec fn obeys_from_spec() -> bool {
        true
    }

    open spec fn from_spec(e: reqwest::Error) -> WikitError {
        WikitError::ReqwestError(e)
    }
}

impl From<json5::Error> for WikitError {
    fn from(e: json5::Error) -> (r: WikitError) {
        WikitError::JSON5Error(e)
    }
}

impl vstd::std_specs::convert::FromSpecImpl<json5::Error> for WikitError {
    open spec fn obeys_from_spec() -> bool {
        true
    }

    open spec fn from_spec(e: json5::Error) -> WikitError {
        WikitError::JSON5Error(e)
    }
}

impl From<rusqlite::Error> for WikitError {
    fn from(e: rusqlite::Error) -> (r: WikitError) {
        WikitError::SQLiteError(e)
    }
}

impl vstd::std_specs::convert::FromSpecImpl<rusqlite::Error> for WikitError {
    open spec fn obeys_from_spec() -> bool {
        true
    }

    open spec fn from_spec(e: rusqlite::Error) -> WikitError {
        WikitError::SQLiteError(e)
    }
}

} // verus!

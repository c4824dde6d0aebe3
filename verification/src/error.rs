//! The error taxonomy of the pipeline. Every fallible stage reports one of
//! these kinds; the caller propagates them upward without recovery.

use vstd::prelude::*;

verus! {

/// `url::ParseError`, declared so that the URL kind can carry its
/// underlying cause.
#[verifier::external_type_specification]
#[verifier::external_body]
pub struct ExUrlParseError(url::ParseError);

/// What went wrong in the pipeline.
///
/// The transport and I/O kinds are produced by the unverified shell around
/// the library, which performs the network and file work; the library's own
/// functions produce only the URL and the two missing-markup kinds.
#[derive(Debug)]
pub enum Error {
    /// A network or HTTP-layer failure.
    ReqwestError,
    /// A malformed URL, with the underlying cause.
    UrlParseError { error: url::ParseError },
    /// A local file I/O failure.
    IoError,
    /// The page did not contain the expected IP address markup.
    ExternalIpMissingError,
    /// The page did not contain the expected audio clip markup.
    AudioClipSrcMissingError,
}

impl From<url::ParseError> for Error {
    fn from(error: url::ParseError) -> (r: Error) {
        Error::UrlParseError { error }
    }
}

impl vstd::std_specs::convert::FromSpecImpl<url::ParseError> for Error {
    open spec fn obeys_from_spec() -> bool {
        true
    }

    open spec fn from_spec(error: url::ParseError) -> Error {
        Error::UrlParseError { error }
    }
}

impl Error {
    /// The fixed description of each kind.
    pub open spec fn description_spec(&self) -> Seq<char> {
        match self {
            Error::ReqwestError => "HTTP error"@,
            Error::UrlParseError { .. } => "URL parse error"@,
            Error::IoError => "I/O error"@,
            Error::ExternalIpMissingError => "external IP address could not be extracted"@,
            Error::AudioClipSrcMissingError => "audio clip could not be extracted"@,
        }
    }

    /// A short human-readable description of the error kind.
    pub fn description(&self) -> (r: String)
        ensures
            r@ == self.description_spec(),
    {
        match self {
            Error::ReqwestError => "HTTP error".to_owned(),
            Error::UrlParseError { .. } => "URL parse error".to_owned(),
            Error::IoError => "I/O error".to_owned(),
            Error::ExternalIpMissingError => {
                "external IP address could not be extracted".to_owned()
            },
            Error::AudioClipSrcMissingError => "audio clip could not be extracted".to_owned(),
        }
    }
}

} // verus!

//! The two field extractors: the visitor's external IP address, and the
//! absolute URL of the audio clip. Both take only the first element the
//! page offers; further matches are ignored by design.

use vstd::prelude::*;

use crate::error::Error;
use crate::html::Document;
use crate::html::first_match_attr;
use crate::html::first_match_text;
use crate::html::select_first_attr;
use crate::html::select_first_text;
use crate::text::join_spaced;
use crate::text::join_with_spaces;
use crate::text::trim_ends;
use crate::text::trim_spec;

verus! {

/// The CSS selector for the element that displays the IP address.
pub open spec fn ip_selector() -> Seq<char> {
    ".content .ip"@
}

/// The CSS selector for the audio element that carries the clip's source.
pub open spec fn audio_selector() -> Seq<char> {
    "#audio-container audio[src]"@
}

/// The attribute the clip's source is read from.
pub open spec fn src_attr() -> Seq<char> {
    "src"@
}

/// The result `url::Url::join` serializes when `rel` is resolved against
/// `base` by the RFC 3986 rules; `None` when `base` does not parse as an
/// absolute URL or the resolution fails. It depends on the two strings
/// alone.
pub uninterp spec fn resolved_url(base: Seq<char>, rel: Seq<char>) -> Option<Seq<char>>;

/// Relies on url (`Url::parse`, `Url::join`, `Url::as_str`): parses `base`
/// as an absolute URL, resolves `rel` against it per RFC 3986, and hands
/// back the serialization of the result.
#[verifier::external_body]
fn join_url(base: &str, rel: &str) -> (r: Result<String, url::ParseError>)
    ensures
        match r {
            Ok(u) => resolved_url(base@, rel@) == Some(u@),
            Err(_) => resolved_url(base@, rel@) is None,
        },
{
    match url::Url::parse(base) {
        Ok(b) => match b.join(rel) {
            Ok(u) => Ok(u.as_str().to_owned()),
            Err(e) => Err(e),
        },
        Err(e) => Err(e),
    }
}

/// Extracts the visitor's external IP address from the document: the text
/// of the first element matching `.content .ip`, its parts joined with
/// single spaces and the ends trimmed. Fails with `ExternalIpMissingError`
/// exactly when no element matches.
pub fn get_ip_address(document: &Document) -> (r: Result<String, Error>)
    ensures
        ({
            let parts = first_match_text(document@, ip_selector());
            match r {
                Ok(s) => parts is Some && s@ == trim_spec(join_spaced(parts.unwrap())),
                Err(e) => parts is None && e is ExternalIpMissingError,
            }
        }),
{
    match select_first_text(document.text(), ".content .ip") {
        Some(parts) => {
            let joined = join_with_spaces(&parts);
            Ok(trim_ends(joined.as_str()))
        },
        None => Err(Error::ExternalIpMissingError),
    }
}

/// Extracts the absolute URL of the audio clip: the `src` attribute of the
/// first element matching `#audio-container audio[src]`, resolved against
/// `base`. Fails with `AudioClipSrcMissingError` exactly when no such
/// element exists, and with `UrlParseError` exactly when the resolution
/// fails.
pub fn get_audio_clip_url(document: &Document, base: &str) -> (r: Result<String, Error>)
    ensures
        ({
            let src = first_match_attr(document@, audio_selector(), src_attr());
            match r {
                Ok(u) => src is Some && resolved_url(base@, src.unwrap()) == Some(u@),
                Err(e) => match e {
                    Error::AudioClipSrcMissingError => src is None,
                    Error::UrlParseError { .. } => src is Some && resolved_url(
                        base@,
                        src.unwrap(),
                    ) is None,
                    _ => false,
                },
            }
        }),
{
    let src = match select_first_attr(document.text(), "#audio-container audio[src]", "src") {
        Some(s) => s,
        None => {
            return Err(Error::AudioClipSrcMissingError);
        },
    };
    match join_url(base, src.as_str()) {
        Ok(u) => Ok(u),
        Err(e) => Err(Error::from(e)),
    }
}

} // verus!

//! Scrapes the visitor's external IP address and an audio clip URL from the
//! front page of a fixed website, and accounts for the bytes of the clip as
//! it is downloaded.
//!
//! The library holds the logic of that pipeline: extracting fields from a
//! fetched page, resolving the clip's address against the base URL, and
//! tracking the downloaded chunks. Network and file I/O, and playback, live
//! outside it.

use vstd::prelude::*;

pub mod download;
pub mod error;
pub mod extract;
pub mod html;
pub mod pipeline;
pub mod text;

verus! {

/// The base URL of the site the pipeline scrapes.
pub open spec fn base_url_spec() -> Seq<char> {
    "https://www.moanmyip.com"@
}

/// The base URL of the site, as configuration for the caller to pass down
/// explicitly to the functions that need it.
pub fn base_url() -> (r: &'static str)
    ensures
        r@ == base_url_spec(),
{
    "https://www.moanmyip.com"
}

} // verus!

use vstd::prelude::*;

verus! {

use crate::errors::RenderError;
use vstd::string::StringExecFns;

/// Where a resource request must be served from, by its URL scheme.
#[derive(Debug, Clone, Copy, PartialEq, Eq, Structural)]
pub enum FetchRoute {
    /// A `data:` URL: the bytes are in the URL itself and are decoded here.
    Data,
    /// A `file:` URL: the shell reads the local file.
    File,
    /// Anything else: the shell performs a network request.
    Remote,
}

/// Routing decision for a scheme.
pub open spec fn route_spec(scheme: Seq<char>) -> FetchRoute {
    if scheme == "data"@ {
        FetchRoute::Data
    } else if scheme == "file"@ {
        FetchRoute::File
    } else {
        FetchRoute::Remote
    }
}

/// Decide how a resource request is served, from its URL scheme.
pub fn classify_scheme(scheme: &String) -> (r: FetchRoute)
    ensures
        r == route_spec(scheme@),
{
    if *scheme == String::from_str("data") {
        FetchRoute::Data
    } else if *scheme == String::from_str("file") {
        FetchRoute::File
    } else {
        FetchRoute::Remote
    }
}

/// What decoding a `data:` URL yields: the body bytes, or nothing when the
/// URL is not a well-formed data URL.  A function of the URL string alone.
pub uninterp spec fn data_url_decode(url: Seq<char>) -> Option<Seq<u8>>;

/// Relies on data_url::DataUrl::process and DataUrl::decode_to_vec, the
/// two halves of data-URL processing (the intermediate value borrows the
/// input, so the whole decode stands behind one call boundary): both are
/// functions of the URL string alone.  On failure the error's description
/// is returned.
#[verifier::external_body]
fn decode_data_url(url: &str) -> (r: Result<Vec<u8>, String>)
    ensures
        (r is Ok) == (data_url_decode(url@) is Some),
        r matches Ok(v) ==> data_url_decode(url@) == Some(v@),
{
    match data_url::DataUrl::process(url) {
        Err(e) => Err(format!("{e}")),
        Ok(d) => match d.decode_to_vec() {
            Err(e) => Err(format!("{e}")),
            Ok((body, _fragment)) => Ok(body),
        },
    }
}

/// The `data:` branch of resource fetching, the one the core can serve by
/// itself: decode the URL's own body bytes.  An undecodable URL is a
/// `Configuration` error carrying the decoder's description.
pub fn fetch_data_url(url: &str) -> (r: Result<Vec<u8>, RenderError>)
    ensures
        (r is Ok) == (data_url_decode(url@) is Some),
        r matches Ok(v) ==> data_url_decode(url@) == Some(v@),
        r matches Err(e) ==> e is Configuration && data_url_decode(url@) is None,
{
    match decode_data_url(url) {
        Ok(v) => Ok(v),
        Err(detail) => Err(RenderError::Configuration { detail }),
    }
}

} // verus!

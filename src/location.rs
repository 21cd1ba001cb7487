use vstd::prelude::*;
use crate::error::{Error, ErrorView};

verus! {

#[verifier::external_type_specification]
#[verifier::external_body]
pub struct ExUri(http::Uri);

#[verifier::external_type_specification]
#[verifier::external_body]
pub struct ExInvalidUri(http::uri::InvalidUri);

/// Whether `http::Uri`'s parser accepts the text.
pub uninterp spec fn uri_accepts(s: Seq<char>) -> bool;

/// Relies on `<http::Uri as FromStr>::from_str`: it accepts or refuses the
/// text by its characters alone.
#[verifier::external_body]
fn parse_uri(s: &str) -> (r: Result<http::Uri, http::uri::InvalidUri>)
    ensures
        r is Ok <==> uri_accepts(s@),
{
    s.parse::<http::Uri>()
}

/// Parses a search response's location into the URL to fetch. A location
/// that is not a URL gives `InvalidUrl` carrying the location text.
pub fn parse_location(location: &str) -> (r: Result<http::Uri, Error>)
    ensures
        r is Ok <==> uri_accepts(location@),
        r is Err ==> r->Err_0@ == ErrorView::InvalidUrl(location@),
{
    match parse_uri(location) {
        Ok(u) => Ok(u),
        Err(_) => Err(Error::InvalidUrl(location.to_string())),
    }
}

} // verus!

//! URI handling through the `http` crate: the request's upstream URI and
//! every public asset URI must parse, and the upstream URI's path keys the
//! mirror directory.
use vstd::prelude::*;

verus! {

/// What parsing a string as a URI yields: `None` when the string is not a
/// valid URI, otherwise its path component. Parsing is a function of the
/// string alone; it is carried out by the `http` crate and only named here.
pub uninterp spec fn uri_path_of(s: Seq<char>) -> Option<Seq<char>>;

/// Relies on `http::Uri`'s `FromStr` parse and on `Uri::path`, which returns
/// the path component of a parsed URI (empty for URIs without one).
#[verifier::external_body]
pub(crate) fn parse_uri_path(s: &str) -> (r: Option<String>)
    ensures
        r is Some <==> uri_path_of(s@) is Some,
        r is Some ==> r->0@ == uri_path_of(s@)->0,
{
    match s.parse::<http::Uri>() {
        Ok(uri) => Some(uri.path().to_string()),
        Err(_) => None,
    }
}

} // verus!

//! What the `http` crate does for a request: it reads a URI and puts the
//! request together. Both are named here, not described.

use vstd::prelude::*;

verus! {

/// A URI of the `http` crate.
#[verifier::external_type_specification]
#[verifier::external_body]
pub struct ExUri(http::Uri);

/// The `http` crate's error for a text that is no URI.
#[verifier::external_type_specification]
#[verifier::external_body]
pub struct ExInvalidUri(http::uri::InvalidUri);

/// A request of the `http` crate.
#[verifier::external_type_specification]
#[verifier::external_body]
#[verifier::reject_recursive_types(T)]
pub struct ExRequest<T>(http::Request<T>);

/// What the `http` crate reads a text as: a URI, or its error where the text
/// is none.
pub uninterp spec fn parsed_uri(text: Seq<char>) -> Result<http::Uri, http::uri::InvalidUri>;

/// What the `http` crate builds from a method, a URI, one header and a body:
/// a request, or its error where it refuses one of them.
pub uninterp spec fn built_request(
    method: Seq<char>,
    uri: http::Uri,
    header: Seq<char>,
    value: Seq<char>,
    body: Seq<u8>,
) -> Result<http::Request<Vec<u8>>, http::Error>;

/// Reads a text as a URI, with `http::Uri::try_from`.
///
/// Trusted: the outcome depends on the text alone.
#[verifier::external_body]
pub(crate) fn uri_from_string(text: String) -> (parsed: Result<http::Uri, http::uri::InvalidUri>)
    ensures
        parsed == parsed_uri(text@),
{
    http::Uri::try_from(text)
}

/// Builds a request with `http::Request::builder`, handing its `method`, `uri`,
/// `header` and `body` what it is given.
///
/// Trusted: the outcome depends on what is handed over alone.
#[verifier::external_body]
pub(crate) fn build_request(
    method: &str,
    uri: http::Uri,
    header: &str,
    value: &str,
    body: Vec<u8>,
) -> (built: Result<http::Request<Vec<u8>>, http::Error>)
    ensures
        built == built_request(method@, uri, header@, value@, body@),
{
    http::Request::builder().method(method).uri(uri).header(header, value).body(body)
}

} // verus!

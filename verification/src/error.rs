//! What can go wrong while a request is built or a reply is read.

use vstd::prelude::*;

verus! {

/// The `http` crate's error for a request that it could not put together.
#[verifier::external_type_specification]
#[verifier::external_body]
pub struct ExHttpError(http::Error);

/// The `serde_json` crate's error for a text that is no JSON document.
#[verifier::external_type_specification]
#[verifier::external_body]
pub struct ExJsonError(serde_json::Error);

/// Why a request could not be built.
#[derive(Debug)]
pub enum RequestError {
    /// The endpoint and the query string together are no URI.
    InvalidUri,
    /// The `http` crate refused the method, the header or the body.
    Http(http::Error),
}

/// Why a body could not be decoded into the reply it should hold.
#[derive(Debug)]
pub enum DeserializeError {
    /// The body is no JSON document.
    Json(serde_json::Error),
    /// The document is not a JSON object.
    NotAnObject,
    /// The key is missing from its object and must be there.
    MissingField(String),
    /// The value under the key has another JSON type than the reply gives it.
    InvalidType(String),
    /// A flag holds this text, which is neither `true` nor `false`.
    UnknownVariant(String),
}

/// A [`DeserializeError`] with its texts as sequences of characters.
pub enum DeserializeErrorView {
    Json(serde_json::Error),
    NotAnObject,
    MissingField(Seq<char>),
    InvalidType(Seq<char>),
    UnknownVariant(Seq<char>),
}

impl View for DeserializeError {
    type V = DeserializeErrorView;

    open spec fn view(&self) -> DeserializeErrorView {
        match self {
            DeserializeError::Json(cause) => DeserializeErrorView::Json(*cause),
            DeserializeError::NotAnObject => DeserializeErrorView::NotAnObject,
            DeserializeError::MissingField(key) => DeserializeErrorView::MissingField(key@),
            DeserializeError::InvalidType(key) => DeserializeErrorView::InvalidType(key@),
            DeserializeError::UnknownVariant(text) => DeserializeErrorView::UnknownVariant(text@),
        }
    }
}

/// Why a reply gave no result.
#[derive(Debug)]
pub enum ResponseError {
    /// The status of the reply is outside 200 to 299.
    HttpStatus(u16),
    /// The body does not have the form of a reply.
    Deserialize(DeserializeError),
    /// The reply lacks the field that holds the result.
    MissingField(String),
    /// The field that holds the result cannot be read.
    InvalidField(String),
    /// The service does not know the API key (code 100).
    InvalidApiKey(String),
    /// The API key is not active (code 101).
    InactiveApiKey(String),
    /// The request named no API key (code 102).
    MissingApiKey(String),
    /// The service is not available (code 103).
    ServiceUnavailable(String),
    /// The service reported an error under another code: the code, then its
    /// message.
    UnknownErr(String, String),
    /// The reply's status word is not `ok`.
    NonOkStat(String),
    /// The reply answers another method: the one it names, then the one that
    /// was expected.
    MisMatchedMethod(String, String),
}

/// A [`ResponseError`] with its texts as sequences of characters.
pub enum ResponseErrorView {
    HttpStatus(u16),
    Deserialize(DeserializeErrorView),
    MissingField(Seq<char>),
    InvalidField(Seq<char>),
    InvalidApiKey(Seq<char>),
    InactiveApiKey(Seq<char>),
    MissingApiKey(Seq<char>),
    ServiceUnavailable(Seq<char>),
    UnknownErr(Seq<char>, Seq<char>),
    NonOkStat(Seq<char>),
    MisMatchedMethod(Seq<char>, Seq<char>),
}

impl View for ResponseError {
    type V = ResponseErrorView;

    open spec fn view(&self) -> ResponseErrorView {
        match self {
            ResponseError::HttpStatus(status) => ResponseErrorView::HttpStatus(*status),
            ResponseError::Deserialize(cause) => ResponseErrorView::Deserialize(cause@),
            ResponseError::MissingField(name) => ResponseErrorView::MissingField(name@),
            ResponseError::InvalidField(name) => ResponseErrorView::InvalidField(name@),
            ResponseError::InvalidApiKey(msg) => ResponseErrorView::InvalidApiKey(msg@),
            ResponseError::InactiveApiKey(msg) => ResponseErrorView::InactiveApiKey(msg@),
            ResponseError::MissingApiKey(msg) => ResponseErrorView::MissingApiKey(msg@),
            ResponseError::ServiceUnavailable(msg) => ResponseErrorView::ServiceUnavailable(msg@),
            ResponseError::UnknownErr(code, msg) => ResponseErrorView::UnknownErr(code@, msg@),
            ResponseError::NonOkStat(stat) => ResponseErrorView::NonOkStat(stat@),
            ResponseError::MisMatchedMethod(actual, expected) => {
                ResponseErrorView::MisMatchedMethod(actual@, expected@)
            },
        }
    }
}

} // verus!

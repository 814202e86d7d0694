//! The reply to a check or a replace: how it is decoded from a JSON document,
//! the checks that it must pass, and the result that it carries.

use vstd::prelude::*;
use crate::error::DeserializeError;
use crate::error::DeserializeErrorView;
use crate::error::ResponseError;
use crate::error::ResponseErrorView;
use crate::json::members;
use crate::json::members_of;
use crate::json::optional_object;
use crate::json::optional_object_of;
use crate::json::optional_text;
use crate::json::optional_text_of;
use crate::json::required_object;
use crate::json::required_object_of;
use crate::json::required_text;
use crate::json::required_text_of;
use crate::json::Json;
use crate::text::decimal_u32;
use crate::text::owned;
use crate::text::parse_u32;
use crate::text::text_eq;

verus! {

/// An error that the service reports in place of a result.
#[derive(Debug, PartialEq, Eq)]
pub struct ApiError {
    pub code: String,
    pub msg: String,
}

/// What a reply to a check or a replace holds under its key `rsp`.
#[derive(Debug, PartialEq, Eq)]
pub struct ApiResponse {
    /// The status word, from `@attributes`.
    pub stat: Option<String>,
    /// The error that the service reports, from `err`.
    pub err: Option<ApiError>,
    /// The name of the method that the reply answers.
    pub method: Option<String>,
    /// How many times the service found something, in decimal.
    pub found: Option<String>,
    /// The text with what was found masked.
    pub text: Option<String>,
}

/// An [`ApiError`] with its texts as sequences of characters.
pub struct ApiErrorView {
    pub code: Seq<char>,
    pub msg: Seq<char>,
}

/// An [`ApiResponse`] with its texts as sequences of characters.
pub struct ApiResponseView {
    pub stat: Option<Seq<char>>,
    pub err: Option<ApiErrorView>,
    pub method: Option<Seq<char>>,
    pub found: Option<Seq<char>>,
    pub text: Option<Seq<char>>,
}

impl View for ApiError {
    type V = ApiErrorView;

    open spec fn view(&self) -> ApiErrorView {
        ApiErrorView { code: self.code@, msg: self.msg@ }
    }
}

impl View for ApiResponse {
    type V = ApiResponseView;

    open spec fn view(&self) -> ApiResponseView {
        ApiResponseView {
            stat: self.stat.deep_view(),
            err: match self.err {
                Some(err) => Some(err@),
                None => None,
            },
            method: self.method.deep_view(),
            found: self.found.deep_view(),
            text: self.text.deep_view(),
        }
    }
}

/// The status word among the members of `rsp`: the text under `stat` in the
/// object under `@attributes`, where both are there.
pub open spec fn stat_of(rsp: Seq<(String, Json)>) -> Result<
    Option<Seq<char>>,
    DeserializeErrorView,
> {
    match optional_object_of(rsp, "@attributes"@) {
        Err(cause) => Err(cause),
        Ok(None) => Ok(None),
        Ok(Some(attributes)) => optional_text_of(attributes, "stat"@),
    }
}

/// The error among the members of `rsp`: where there is an object under
/// `err`, the texts under `code` and `msg` in its object `@attributes`, all of
/// which must then be there.
pub open spec fn err_of(rsp: Seq<(String, Json)>) -> Result<
    Option<ApiErrorView>,
    DeserializeErrorView,
> {
    match optional_object_of(rsp, "err"@) {
        Err(cause) => Err(cause),
        Ok(None) => Ok(None),
        Ok(Some(err)) => match required_object_of(err, "@attributes"@) {
            Err(cause) => Err(cause),
            Ok(attributes) => match required_text_of(attributes, "code"@) {
                Err(cause) => Err(cause),
                Ok(code) => match required_text_of(attributes, "msg"@) {
                    Err(cause) => Err(cause),
                    Ok(msg) => Ok(Some(ApiErrorView { code, msg })),
                },
            },
        },
    }
}

/// The reply that a document holds: the document is an object, under its key
/// `rsp` stands an object, and the members of that object are read in the
/// order of the fields of [`ApiResponse`]. The first that cannot be read
/// gives the error.
pub open spec fn response_of(document: Json) -> Result<ApiResponseView, DeserializeErrorView> {
    match members_of(document) {
        Err(cause) => Err(cause),
        Ok(top) => match required_object_of(top, "rsp"@) {
            Err(cause) => Err(cause),
            Ok(rsp) => match stat_of(rsp) {
                Err(cause) => Err(cause),
                Ok(stat) => match err_of(rsp) {
                    Err(cause) => Err(cause),
                    Ok(err) => match optional_text_of(rsp, "method"@) {
                        Err(cause) => Err(cause),
                        Ok(method) => match optional_text_of(rsp, "found"@) {
                            Err(cause) => Err(cause),
                            Ok(found) => match optional_text_of(rsp, "text"@) {
                                Err(cause) => Err(cause),
                                Ok(text) => Ok(ApiResponseView { stat, err, method, found, text }),
                            },
                        },
                    },
                },
            },
        },
    }
}

/// Reads the status word among the members of `rsp`.
fn read_stat(rsp: &Vec<(String, Json)>) -> (found: Result<Option<String>, DeserializeError>)
    ensures
        match found {
            Ok(stat) => stat_of(rsp@) == Ok::<_, DeserializeErrorView>(stat.deep_view()),
            Err(cause) => stat_of(rsp@) == Err::<Option<Seq<char>>, _>(cause@),
        },
{
    match optional_object(rsp, "@attributes") {
        Err(cause) => Err(cause),
        Ok(None) => Ok(None),
        Ok(Some(attributes)) => optional_text(attributes, "stat"),
    }
}

/// Reads the error among the members of `rsp`.
fn read_err(rsp: &Vec<(String, Json)>) -> (found: Result<Option<ApiError>, DeserializeError>)
    ensures
        match found {
            Ok(Some(err)) => err_of(rsp@) == Ok::<_, DeserializeErrorView>(Some(err@)),
            Ok(None) => err_of(rsp@) == Ok::<Option<ApiErrorView>, DeserializeErrorView>(None),
            Err(cause) => err_of(rsp@) == Err::<Option<ApiErrorView>, _>(cause@),
        },
{
    let err = match optional_object(rsp, "err") {
        Err(cause) => { return Err(cause); },
        Ok(None) => { return Ok(None); },
        Ok(Some(err)) => err,
    };
    let attributes = match required_object(err, "@attributes") {
        Err(cause) => { return Err(cause); },
        Ok(attributes) => attributes,
    };
    let code = match required_text(attributes, "code") {
        Err(cause) => { return Err(cause); },
        Ok(code) => code,
    };
    let msg = match required_text(attributes, "msg") {
        Err(cause) => { return Err(cause); },
        Ok(msg) => msg,
    };
    Ok(Some(ApiError { code, msg }))
}

/// Reads the reply that `document` holds.
pub fn decode_response(document: &Json) -> (decoded: Result<ApiResponse, DeserializeError>)
    ensures
        match decoded {
            Ok(response) => response_of(*document) == Ok::<_, DeserializeErrorView>(response@),
            Err(cause) => response_of(*document) == Err::<ApiResponseView, _>(cause@),
        },
{
    let top = match members(document) {
        Err(cause) => { return Err(cause); },
        Ok(top) => top,
    };
    let rsp = match required_object(top, "rsp") {
        Err(cause) => { return Err(cause); },
        Ok(rsp) => rsp,
    };
    let stat = match read_stat(rsp) {
        Err(cause) => { return Err(cause); },
        Ok(stat) => stat,
    };
    let err = match read_err(rsp) {
        Err(cause) => { return Err(cause); },
        Ok(err) => err,
    };
    let method = match optional_text(rsp, "method") {
        Err(cause) => { return Err(cause); },
        Ok(method) => method,
    };
    let found = match optional_text(rsp, "found") {
        Err(cause) => { return Err(cause); },
        Ok(found) => found,
    };
    let text = match optional_text(rsp, "text") {
        Err(cause) => { return Err(cause); },
        Ok(text) => text,
    };
    Ok(ApiResponse { stat, err, method, found, text })
}

/// The error that stands for a code of the service, with its message.
pub open spec fn service_error(err: ApiErrorView) -> ResponseErrorView {
    if err.code == "100"@ {
        ResponseErrorView::InvalidApiKey(err.msg)
    } else if err.code == "101"@ {
        ResponseErrorView::InactiveApiKey(err.msg)
    } else if err.code == "102"@ {
        ResponseErrorView::MissingApiKey(err.msg)
    } else if err.code == "103"@ {
        ResponseErrorView::ServiceUnavailable(err.msg)
    } else {
        ResponseErrorView::UnknownErr(err.code, err.msg)
    }
}

/// A reply as it passes the checks that every method shares, or the error of
/// the first check that it fails: an error that the service reports, then a
/// status word other than `ok`, then the name of another method than the one
/// `expected`. A status word or a name that the reply does not carry fails
/// nothing.
pub open spec fn checked_response(response: ApiResponseView, expected: Seq<char>) -> Result<
    ApiResponseView,
    ResponseErrorView,
> {
    if response.err is Some {
        Err(service_error(response.err->0))
    } else if response.stat is Some && response.stat->0 != "ok"@ {
        Err(ResponseErrorView::NonOkStat(response.stat->0))
    } else if response.method is Some && response.method->0 != expected {
        Err(ResponseErrorView::MisMatchedMethod(response.method->0, expected))
    } else {
        Ok(response)
    }
}

/// What a document gives as the reply to the method of the name `expected`.
pub open spec fn document_outcome(document: Json, expected: Seq<char>) -> Result<
    ApiResponseView,
    ResponseErrorView,
> {
    match response_of(document) {
        Err(cause) => Err(ResponseErrorView::Deserialize(cause)),
        Ok(response) => checked_response(response, expected),
    }
}

/// Turns an error that the service reports into the error of its code.
pub fn classify_error(err: ApiError) -> (error: ResponseError)
    ensures
        error@ == service_error(err@),
{
    let ApiError { code, msg } = err;
    if text_eq(code.as_str(), "100") {
        ResponseError::InvalidApiKey(msg)
    } else if text_eq(code.as_str(), "101") {
        ResponseError::InactiveApiKey(msg)
    } else if text_eq(code.as_str(), "102") {
        ResponseError::MissingApiKey(msg)
    } else if text_eq(code.as_str(), "103") {
        ResponseError::ServiceUnavailable(msg)
    } else {
        ResponseError::UnknownErr(code, msg)
    }
}

/// Holds a decoded reply to the checks that every method shares.
pub fn check_response(response: ApiResponse, expected: &str) -> (checked: Result<
    ApiResponse,
    ResponseError,
>)
    ensures
        match checked {
            Ok(passed) => checked_response(response@, expected@) == Ok::<_, ResponseErrorView>(
                passed@,
            ),
            Err(error) => checked_response(response@, expected@) == Err::<ApiResponseView, _>(
                error@,
            ),
        },
{
    let ApiResponse { stat, err, method: answered, found, text } = response;
    if let Some(err) = err {
        return Err(classify_error(err));
    }
    if let Some(word) = &stat {
        if !text_eq(word.as_str(), "ok") {
            return Err(ResponseError::NonOkStat(word.clone()));
        }
    }
    if let Some(name) = &answered {
        if !text_eq(name.as_str(), expected) {
            return Err(
                ResponseError::MisMatchedMethod(name.clone(), owned(expected)),
            );
        }
    }
    Ok(ApiResponse { stat, err: None, method: answered, found, text })
}

/// Reads the reply to the method of the name `expected` out of a parsed body.
pub fn read_response(document: &Json, expected: &str) -> (outcome: Result<
    ApiResponse,
    ResponseError,
>)
    ensures
        match outcome {
            Ok(response) => document_outcome(*document, expected@) == Ok::<_, ResponseErrorView>(
                response@,
            ),
            Err(error) => document_outcome(*document, expected@) == Err::<ApiResponseView, _>(
                error@,
            ),
        },
{
    match decode_response(document) {
        Err(cause) => Err(ResponseError::Deserialize(cause)),
        Ok(response) => check_response(response, expected),
    }
}

/// Whether a reply to a check says that something was found: its count,
/// which must be there and be a number, is above zero.
pub open spec fn found_flag(response: ApiResponseView) -> Result<bool, ResponseErrorView> {
    match response.found {
        None => Err(ResponseErrorView::MissingField("found"@)),
        Some(count) => match decimal_u32(count) {
            None => Err(ResponseErrorView::InvalidField("found"@)),
            Some(number) => Ok(number > 0),
        },
    }
}

/// Whether a reply to a check says that something was found.
pub fn check_found(response: &ApiResponse) -> (outcome: Result<bool, ResponseError>)
    ensures
        match outcome {
            Ok(found) => found_flag(response@) == Ok::<_, ResponseErrorView>(found),
            Err(error) => found_flag(response@) == Err::<bool, _>(error@),
        },
{
    match &response.found {
        None => Err(ResponseError::MissingField(owned("found"))),
        Some(count) => match parse_u32(count.as_str()) {
            None => Err(ResponseError::InvalidField(owned("found"))),
            Some(number) => Ok(number > 0),
        },
    }
}

/// The text that a reply to a replace carries, which must be there.
pub open spec fn replaced_text(response: ApiResponseView) -> Result<Seq<char>, ResponseErrorView> {
    match response.text {
        None => Err(ResponseErrorView::MissingField("text"@)),
        Some(text) => Ok(text),
    }
}

/// The text that a reply to a replace carries.
pub fn take_text(response: ApiResponse) -> (outcome: Result<String, ResponseError>)
    ensures
        match outcome {
            Ok(text) => replaced_text(response@) == Ok::<_, ResponseErrorView>(text@),
            Err(error) => replaced_text(response@) == Err::<Seq<char>, _>(error@),
        },
{
    match response.text {
        None => Err(ResponseError::MissingField(owned("text"))),
        Some(text) => Ok(text),
    }
}

} // verus!

use http::Request;
use http::Response;
use http::StatusCode;
use std::error::Error;
use tame_webpurify::client;
use tame_webpurify::ResponseError;

fn uri_contains(req: &Request<Vec<u8>>, needle: &str) -> bool {
    req.uri().to_string().contains(needle)
}

#[test]
fn qs_encoding() {
    assert_eq!(
        client::query_string("abcd", "hi there", client::Method::Check),
        "format=json&api_key=abcd&text=hi+there&method=webpurify.live.check&semail=1&slink=1&rsp=1&sphone=1"
    );
}

#[test]
fn check_request() {
    let region = client::Region::Europe;
    let req = client::profanity_check_request("abcd", region, "hi there");
    assert_eq!(
        req.unwrap().uri(),
        "https://api1-eu.webpurify.com/services/rest/?format=json&api_key=abcd&text=hi+there&method=webpurify.live.check&semail=1&slink=1&rsp=1&sphone=1"
    );
}

#[test]
fn check_result() -> Result<(), Box<dyn Error>> {
    let response_found = |found: u32| {
        let body = format!("{{\"rsp\":{{\"@attributes\":{{\"stat\":\"ok\",\"rsp\":\"0.0072040557861328\"}},\"method\":\"webpurify.live.check\",\"format\":\"rest\",\"found\":\"{found}\",\"api_key\":\"123\"}}}}");
        Response::builder()
            .status(StatusCode::OK)
            .body(body.as_bytes().to_vec())
    };
    let response = response_found(3)?;
    let result = client::profanity_check_result(response.status().as_u16(), response.body())
        .expect("a result");
    assert!(result);
    let response = response_found(0)?;
    let result = client::profanity_check_result(response.status().as_u16(), response.body())
        .expect("a result");
    assert!(!result);
    Ok(())
}

#[test]
fn check_result_missing_found() -> Result<(), Box<dyn Error>> {
    let body = format!("{{\"rsp\":{{\"@attributes\":{{\"stat\":\"ok\",\"rsp\":\"0.0072040557861328\"}},\"method\":\"webpurify.live.check\",\"format\":\"rest\",\"api_key\":\"123\"}}}}");
    let response = Response::builder()
        .status(StatusCode::OK)
        .body(body.as_bytes().to_vec())?;
    let result = client::profanity_check_result(response.status().as_u16(), response.body());
    assert!(result.is_err());
    Ok(())
}

#[test]
fn replace_request() {
    let region = client::Region::Europe;
    let res_req = client::profanity_replace_request("abcd", region, "hi there", "*");
    let req = res_req.unwrap();
    assert!(uri_contains(&req, "method=webpurify.live.replace"));
    assert!(uri_contains(&req, "replacesymbol=*"));
    assert!(uri_contains(&req, "text=hi+there"));
}

#[test]
fn replace_result() -> Result<(), Box<dyn Error>> {
    let body = b"{\"rsp\":{\"@attributes\":{\"stat\":\"ok\",\"rsp\":\"0.018898963928223\"},\"method\":\"webpurify.live.replace\",\"format\":\"rest\",\"found\":\"3\",\"text\":\"foo\",\"api_key\":\"123\"}}";
    let response = Response::builder()
        .status(StatusCode::OK)
        .body((*body).into_iter().collect::<Vec<_>>())?;
    let result = client::profanity_replace_result(response.status().as_u16(), response.body())
        .expect("a result");

    assert_eq!(result, "foo".to_owned());
    Ok(())
}

#[test]
fn replace_result_missing_found() -> Result<(), Box<dyn Error>> {
    let body = b"{\"rsp\":{\"@attributes\":{\"stat\":\"ok\",\"rsp\":\"0.018898963928223\"},\"method\":\"webpurify.live.replace\",\"format\":\"rest\",\"text\":\"foo\",\"api_key\":\"123\"}}";
    let response = Response::builder()
        .status(StatusCode::OK)
        .body((*body).into_iter().collect::<Vec<_>>())?;
    let result = client::profanity_replace_result(response.status().as_u16(), response.body())
        .expect("a result");

    assert_eq!(result, "foo".to_owned());
    Ok(())
}

#[test]
fn response_errors() -> Result<(), Box<dyn Error>> {
    let response = |code: u32| {
        let body = format!("{{\"rsp\":{{\"@attributes\":{{\"stat\":\"fail\"}},\"err\":{{\"@attributes\":{{\"code\":\"{code}\",\"msg\":\"Msg\"}}}},\"text\":\"text\"}}}}");
        Response::builder()
            .status(StatusCode::OK)
            .body(body.as_bytes().to_vec())
    };

    for (code, err) in [
        (100, ResponseError::InvalidApiKey("Msg".to_owned())),
        (101, ResponseError::InactiveApiKey("Msg".to_owned())),
        (102, ResponseError::MissingApiKey("Msg".to_owned())),
        (103, ResponseError::ServiceUnavailable("Msg".to_owned())),
        (
            999,
            ResponseError::UnknownErr("999".to_owned(), "Msg".to_owned()),
        ),
    ] {
        let response = response(code)?;
        let result =
            client::profanity_replace_result(response.status().as_u16(), response.body());
        let result_err = result.err().expect("Expected error");
        assert!(
            std::mem::discriminant(&result_err) == std::mem::discriminant(&err),
            "Expected error: {:?} but got: {:?}",
            err,
            result_err
        );
    }

    Ok(())
}

#[test]
fn mismatched_response_methods() -> Result<(), Box<dyn Error>> {
    // Check treated as replace result
    let body = format!("{{\"rsp\":{{\"@attributes\":{{\"stat\":\"ok\",\"rsp\":\"0.0072040557861328\"}},\"method\":\"webpurify.live.check\",\"format\":\"rest\",\"found\":\"1\",\"api_key\":\"123\"}}}}");
    let response = Response::builder()
        .status(StatusCode::OK)
        .body(body.as_bytes().to_vec())?;
    let result = client::profanity_replace_result(response.status().as_u16(), response.body());
    assert!(result.is_err());

    // Replace treated as check result
    let body = b"{\"rsp\":{\"@attributes\":{\"stat\":\"ok\",\"rsp\":\"0.018898963928223\"},\"method\":\"webpurify.live.replace\",\"format\":\"rest\",\"found\":\"3\",\"text\":\"foo\",\"api_key\":\"123\"}}";
    let response = Response::builder()
        .status(StatusCode::OK)
        .body((*body).into_iter().collect::<Vec<_>>())?;
    let result = client::profanity_check_result(response.status().as_u16(), response.body());
    assert!(result.is_err());

    Ok(())
}

use tame_webpurify::client;
use tame_webpurify::client::Method;
use tame_webpurify::json::Json;
use tame_webpurify::response;
use tame_webpurify::response::ApiError;
use tame_webpurify::response::ApiResponse;
use tame_webpurify::DeserializeError;
use tame_webpurify::ResponseError;

fn reply(found: Option<&str>, text: Option<&str>) -> ApiResponse {
    ApiResponse {
        stat: None,
        err: None,
        method: None,
        found: found.map(str::to_owned),
        text: text.map(str::to_owned),
    }
}

#[test]
fn bare_reply_gives_the_check_result() {
    assert!(matches!(
        client::profanity_check_result(200, b"{\"rsp\":{\"found\":\"3\"}}"),
        Ok(true)
    ));
    assert!(matches!(
        client::profanity_check_result(200, b"{\"rsp\":{\"found\":\"0\"}}"),
        Ok(false)
    ));
}

#[test]
fn reply_without_found_is_missing_the_field() {
    let outcome = client::profanity_check_result(200, b"{\"rsp\":{}}");
    assert!(matches!(outcome, Err(ResponseError::MissingField(name)) if name == "found"));
    let outcome = client::profanity_check_result(200, b"{\"rsp\":{\"found\":null}}");
    assert!(matches!(outcome, Err(ResponseError::MissingField(name)) if name == "found"));
}

#[test]
fn bare_reply_gives_the_replaced_text() {
    let outcome = client::profanity_replace_result(200, b"{\"rsp\":{\"text\":\"foo\"}}");
    assert_eq!(outcome.expect("a text"), "foo");
}

#[test]
fn reply_without_text_is_missing_the_field() {
    let outcome = client::profanity_replace_result(200, b"{\"rsp\":{\"found\":\"1\"}}");
    assert!(matches!(outcome, Err(ResponseError::MissingField(name)) if name == "text"));
}

#[test]
fn status_outside_200_to_299_is_the_error() {
    let good = b"{\"rsp\":{\"found\":\"3\",\"text\":\"foo\"}}";
    let bad = b"<html>not json</html>";
    for status in [0u16, 100, 199, 300, 301, 404, 500, 999, 65535] {
        assert!(matches!(
            client::profanity_check_result(status, good),
            Err(ResponseError::HttpStatus(code)) if code == status
        ));
        assert!(matches!(
            client::profanity_check_result(status, bad),
            Err(ResponseError::HttpStatus(code)) if code == status
        ));
        assert!(matches!(
            client::profanity_replace_result(status, good),
            Err(ResponseError::HttpStatus(code)) if code == status
        ));
        assert!(matches!(
            client::smart_screen_result(status, bad),
            Err(ResponseError::HttpStatus(code)) if code == status
        ));
        assert!(matches!(
            client::parse_response(status, good, Method::Check),
            Err(ResponseError::HttpStatus(code)) if code == status
        ));
    }
}

#[test]
fn every_status_from_200_to_299_is_read() {
    for status in [200u16, 201, 204, 250, 299] {
        assert!(matches!(
            client::profanity_check_result(status, b"{\"rsp\":{\"found\":\"1\"}}"),
            Ok(true)
        ));
    }
}

#[test]
fn body_that_is_no_json_is_a_deserialize_error() {
    for body in [&b""[..], b"{", b"{\"rsp\":", b"nope", b"{\"rsp\":{}} trailing"] {
        assert!(matches!(
            client::profanity_check_result(200, body),
            Err(ResponseError::Deserialize(DeserializeError::Json(_)))
        ));
        assert!(matches!(
            client::profanity_replace_result(200, body),
            Err(ResponseError::Deserialize(DeserializeError::Json(_)))
        ));
        assert!(matches!(
            client::smart_screen_result(200, body),
            Err(ResponseError::Deserialize(DeserializeError::Json(_)))
        ));
    }
}

#[test]
fn document_of_another_shape_is_a_deserialize_error() {
    assert!(matches!(
        client::profanity_check_result(200, b"[1,2]"),
        Err(ResponseError::Deserialize(DeserializeError::NotAnObject))
    ));
    assert!(matches!(
        client::profanity_check_result(200, b"\"rsp\""),
        Err(ResponseError::Deserialize(DeserializeError::NotAnObject))
    ));
    assert!(matches!(
        client::profanity_check_result(200, b"{}"),
        Err(ResponseError::Deserialize(DeserializeError::MissingField(key))) if key == "rsp"
    ));
    assert!(matches!(
        client::profanity_check_result(200, b"{\"rsp\":\"x\"}"),
        Err(ResponseError::Deserialize(DeserializeError::InvalidType(key))) if key == "rsp"
    ));
    assert!(matches!(
        client::profanity_check_result(200, b"{\"rsp\":null}"),
        Err(ResponseError::Deserialize(DeserializeError::InvalidType(key))) if key == "rsp"
    ));
    assert!(matches!(
        client::profanity_check_result(200, b"{\"rsp\":{\"found\":3}}"),
        Err(ResponseError::Deserialize(DeserializeError::InvalidType(key))) if key == "found"
    ));
    assert!(matches!(
        client::profanity_check_result(200, b"{\"rsp\":{\"@attributes\":[]}}"),
        Err(ResponseError::Deserialize(DeserializeError::InvalidType(key))) if key == "@attributes"
    ));
    assert!(matches!(
        client::profanity_check_result(200, b"{\"rsp\":{\"@attributes\":{\"stat\":1}}}"),
        Err(ResponseError::Deserialize(DeserializeError::InvalidType(key))) if key == "stat"
    ));
    assert!(matches!(
        client::profanity_check_result(200, b"{\"rsp\":{\"method\":true}}"),
        Err(ResponseError::Deserialize(DeserializeError::InvalidType(key))) if key == "method"
    ));
    assert!(matches!(
        client::profanity_replace_result(200, b"{\"rsp\":{\"text\":[\"foo\"]}}"),
        Err(ResponseError::Deserialize(DeserializeError::InvalidType(key))) if key == "text"
    ));
}

#[test]
fn error_of_the_service_needs_its_code_and_message() {
    assert!(matches!(
        client::profanity_check_result(200, b"{\"rsp\":{\"err\":{}}}"),
        Err(ResponseError::Deserialize(DeserializeError::MissingField(key))) if key == "@attributes"
    ));
    assert!(matches!(
        client::profanity_check_result(200, b"{\"rsp\":{\"err\":{\"@attributes\":{\"msg\":\"m\"}}}}"),
        Err(ResponseError::Deserialize(DeserializeError::MissingField(key))) if key == "code"
    ));
    assert!(matches!(
        client::profanity_check_result(200, b"{\"rsp\":{\"err\":{\"@attributes\":{\"code\":\"100\"}}}}"),
        Err(ResponseError::Deserialize(DeserializeError::MissingField(key))) if key == "msg"
    ));
    assert!(matches!(
        client::profanity_check_result(200, b"{\"rsp\":{\"err\":{\"@attributes\":{\"code\":100,\"msg\":\"m\"}}}}"),
        Err(ResponseError::Deserialize(DeserializeError::InvalidType(key))) if key == "code"
    ));
    assert!(matches!(
        client::profanity_check_result(200, b"{\"rsp\":{\"err\":null,\"found\":\"2\"}}"),
        Ok(true)
    ));
}

#[test]
fn codes_of_the_service_are_told_apart() {
    let body = |code: &str| {
        format!(
            "{{\"rsp\":{{\"err\":{{\"@attributes\":{{\"code\":\"{code}\",\"msg\":\"why\"}}}},\"found\":\"1\"}}}}"
        )
        .into_bytes()
    };
    assert!(matches!(
        client::profanity_check_result(200, &body("100")),
        Err(ResponseError::InvalidApiKey(msg)) if msg == "why"
    ));
    assert!(matches!(
        client::profanity_check_result(200, &body("101")),
        Err(ResponseError::InactiveApiKey(msg)) if msg == "why"
    ));
    assert!(matches!(
        client::profanity_check_result(200, &body("102")),
        Err(ResponseError::MissingApiKey(msg)) if msg == "why"
    ));
    assert!(matches!(
        client::profanity_check_result(200, &body("103")),
        Err(ResponseError::ServiceUnavailable(msg)) if msg == "why"
    ));
    assert!(matches!(
        client::profanity_check_result(200, &body("104")),
        Err(ResponseError::UnknownErr(code, msg)) if code == "104" && msg == "why"
    ));
    assert!(matches!(
        client::profanity_check_result(200, &body("1000")),
        Err(ResponseError::UnknownErr(code, msg)) if code == "1000" && msg == "why"
    ));
    assert!(matches!(
        client::profanity_check_result(200, &body("")),
        Err(ResponseError::UnknownErr(code, msg)) if code.is_empty() && msg == "why"
    ));
}

#[test]
fn error_of_the_service_comes_before_the_status_word() {
    let body = b"{\"rsp\":{\"@attributes\":{\"stat\":\"fail\"},\"method\":\"other\",\"err\":{\"@attributes\":{\"code\":\"101\",\"msg\":\"m\"}}}}";
    assert!(matches!(
        client::profanity_check_result(200, body),
        Err(ResponseError::InactiveApiKey(msg)) if msg == "m"
    ));
}

#[test]
fn status_word_other_than_ok_is_an_error() {
    let body = b"{\"rsp\":{\"@attributes\":{\"stat\":\"fail\"},\"method\":\"other\",\"found\":\"1\"}}";
    assert!(matches!(
        client::profanity_check_result(200, body),
        Err(ResponseError::NonOkStat(stat)) if stat == "fail"
    ));
    let body = b"{\"rsp\":{\"@attributes\":{\"stat\":\"OK\"},\"found\":\"1\"}}";
    assert!(matches!(
        client::profanity_check_result(200, body),
        Err(ResponseError::NonOkStat(stat)) if stat == "OK"
    ));
    let body = b"{\"rsp\":{\"@attributes\":{},\"found\":\"1\"}}";
    assert!(matches!(client::profanity_check_result(200, body), Ok(true)));
    let body = b"{\"rsp\":{\"@attributes\":null,\"found\":\"0\"}}";
    assert!(matches!(client::profanity_check_result(200, body), Ok(false)));
}

#[test]
fn reply_to_another_method_is_an_error() {
    let body = b"{\"rsp\":{\"method\":\"webpurify.live.replace\",\"found\":\"1\",\"text\":\"t\"}}";
    assert!(matches!(
        client::profanity_check_result(200, body),
        Err(ResponseError::MisMatchedMethod(actual, expected))
            if actual == "webpurify.live.replace" && expected == "webpurify.live.check"
    ));
    assert_eq!(
        client::profanity_replace_result(200, body).expect("a text"),
        "t"
    );
    let body = b"{\"rsp\":{\"method\":\"webpurify.live.check\",\"found\":\"1\",\"text\":\"t\"}}";
    assert!(matches!(
        client::profanity_replace_result(200, body),
        Err(ResponseError::MisMatchedMethod(actual, expected))
            if actual == "webpurify.live.check" && expected == "webpurify.live.replace"
    ));
    assert!(matches!(
        client::parse_response(200, body, Method::SmartScreen("*".to_owned(), true, true)),
        Err(ResponseError::MisMatchedMethod(actual, expected))
            if actual == "webpurify.live.check" && expected == "webpurify.live.smartscreen"
    ));
}

#[test]
fn parse_response_hands_the_reply_on() {
    let body = b"{\"rsp\":{\"@attributes\":{\"stat\":\"ok\"},\"method\":\"webpurify.live.check\",\"found\":\"2\",\"text\":\"t\",\"more\":[1]}}";
    assert_eq!(
        client::parse_response(200, body, Method::Check).expect("a reply"),
        ApiResponse {
            stat: Some("ok".to_owned()),
            err: None,
            method: Some("webpurify.live.check".to_owned()),
            found: Some("2".to_owned()),
            text: Some("t".to_owned()),
        }
    );
}

#[test]
fn count_is_read_as_str_parse_reads_it() {
    for count in ["1", "3", "+3", "007", "4294967295", "+0004294967295"] {
        assert_eq!(count.parse::<u32>().map(|n| n > 0), Ok(true));
        assert!(matches!(response::check_found(&reply(Some(count), None)), Ok(true)));
    }
    for count in ["0", "+0", "000"] {
        assert_eq!(count.parse::<u32>().map(|n| n > 0), Ok(false));
        assert!(matches!(response::check_found(&reply(Some(count), None)), Ok(false)));
    }
    for count in [
        "", "+", "-", "-0", "-1", " 1", "1 ", "1.0", "1e3", "0x1", "1_000", "abc", "++1", "+-1",
        "4294967296", "99999999999999999999", "\u{663}", "1\u{e9}", "\u{e9}1",
    ] {
        assert!(count.parse::<u32>().is_err());
        assert!(matches!(
            response::check_found(&reply(Some(count), None)),
            Err(ResponseError::InvalidField(name)) if name == "found"
        ));
    }
    assert!(matches!(
        response::check_found(&reply(None, Some("t"))),
        Err(ResponseError::MissingField(name)) if name == "found"
    ));
}

#[test]
fn text_is_taken_as_it_came() {
    assert_eq!(
        response::take_text(reply(None, Some(" ** \u{e9} "))).expect("a text"),
        " ** \u{e9} "
    );
    assert_eq!(response::take_text(reply(None, Some(""))).expect("a text"), "");
    assert!(matches!(
        response::take_text(reply(Some("1"), None)),
        Err(ResponseError::MissingField(name)) if name == "text"
    ));
}

#[test]
fn checks_run_in_their_order() {
    let all_wrong = ApiResponse {
        stat: Some("fail".to_owned()),
        err: Some(ApiError { code: "103".to_owned(), msg: "down".to_owned() }),
        method: Some("other".to_owned()),
        found: None,
        text: None,
    };
    assert!(matches!(
        response::check_response(all_wrong, "webpurify.live.check"),
        Err(ResponseError::ServiceUnavailable(msg)) if msg == "down"
    ));
    let two_wrong = ApiResponse {
        stat: Some("fail".to_owned()),
        err: None,
        method: Some("other".to_owned()),
        found: None,
        text: None,
    };
    assert!(matches!(
        response::check_response(two_wrong, "webpurify.live.check"),
        Err(ResponseError::NonOkStat(stat)) if stat == "fail"
    ));
    let one_wrong = ApiResponse {
        stat: Some("ok".to_owned()),
        err: None,
        method: Some("other".to_owned()),
        found: None,
        text: None,
    };
    assert!(matches!(
        response::check_response(one_wrong, "webpurify.live.check"),
        Err(ResponseError::MisMatchedMethod(actual, expected))
            if actual == "other" && expected == "webpurify.live.check"
    ));
    let fine = response::check_response(reply(Some("1"), Some("t")), "webpurify.live.check");
    assert_eq!(fine.expect("a reply"), reply(Some("1"), Some("t")));
}

#[test]
fn reply_is_decoded_from_a_tree() {
    let document = Json::Object(vec![
        ("other".to_owned(), Json::Number),
        (
            "rsp".to_owned(),
            Json::Object(vec![
                (
                    "@attributes".to_owned(),
                    Json::Object(vec![("stat".to_owned(), Json::Text("ok".to_owned()))]),
                ),
                ("found".to_owned(), Json::Text("5".to_owned())),
                ("text".to_owned(), Json::Null),
            ]),
        ),
    ]);
    assert_eq!(
        response::decode_response(&document).expect("a reply"),
        ApiResponse {
            stat: Some("ok".to_owned()),
            err: None,
            method: None,
            found: Some("5".to_owned()),
            text: None,
        }
    );
    assert!(matches!(
        response::read_response(&document, "webpurify.live.check"),
        Ok(ApiResponse { found: Some(count), .. }) if count == "5"
    ));
    assert!(matches!(
        response::read_response(&Json::Array(vec![]), "webpurify.live.check"),
        Err(ResponseError::Deserialize(DeserializeError::NotAnObject))
    ));
    assert!(matches!(
        response::classify_error(ApiError { code: "100".to_owned(), msg: "m".to_owned() }),
        ResponseError::InvalidApiKey(msg) if msg == "m"
    ));
}

#[test]
fn success_is_200_to_299() {
    for status in [200u16, 201, 299] {
        assert!(client::status_is_success(status));
        assert!(http::StatusCode::from_u16(status).expect("a status").is_success());
    }
    for status in [100u16, 199, 300, 404, 500, 999] {
        assert!(!client::status_is_success(status));
        assert!(!http::StatusCode::from_u16(status).expect("a status").is_success());
    }
    assert!(!client::status_is_success(0));
    assert!(!client::status_is_success(u16::MAX));
}

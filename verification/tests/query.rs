use tame_webpurify::client;
use tame_webpurify::client::Method;
use tame_webpurify::client::Region;
use tame_webpurify::RequestError;

fn pairs_of(query: &str) -> Vec<(String, String)> {
    url::form_urlencoded::parse(query.as_bytes())
        .into_owned()
        .collect()
}

fn pair(name: &str, value: &str) -> (String, String) {
    (name.to_owned(), value.to_owned())
}

#[test]
fn flags_are_written_as_words() {
    assert_eq!(client::bool_to_str(true), "true");
    assert_eq!(client::bool_to_str(false), "false");
}

#[test]
fn methods_have_their_names() {
    assert_eq!(Method::Check.method_str(), "webpurify.live.check");
    assert_eq!(
        Method::Replace("*".to_owned()).method_str(),
        "webpurify.live.replace"
    );
    assert_eq!(
        Method::SmartScreen("*".to_owned(), true, false).method_str(),
        "webpurify.live.smartscreen"
    );
}

#[test]
fn regions_have_their_addresses() {
    assert_eq!(
        client::api_url_by_region(Region::Us),
        "https://api1.webpurify.com/services/rest/"
    );
    assert_eq!(
        client::api_url_by_region(Region::Europe),
        "https://api1-eu.webpurify.com/services/rest/"
    );
    assert_eq!(
        client::api_url_by_region(Region::Asia),
        "https://api1-ap.webpurify.com/services/rest/"
    );
    assert_eq!(
        client::api_url_by_region(Region::Es),
        "https://es-api.webpurify.net/services/rest/"
    );
}

#[test]
fn check_query_holds_the_eight_pairs_and_no_other() {
    let query = client::query_string("k&=+", "a@b c", Method::Check);
    assert_eq!(
        pairs_of(&query),
        vec![
            pair("format", "json"),
            pair("api_key", "k&=+"),
            pair("text", "a@b c"),
            pair("method", "webpurify.live.check"),
            pair("semail", "1"),
            pair("slink", "1"),
            pair("rsp", "1"),
            pair("sphone", "1"),
        ]
    );
}

#[test]
fn reserved_characters_are_encoded() {
    assert_eq!(
        client::query_string("a&b=c", "x+y@z \u{e9}\u{1f600}", Method::Check),
        "format=json&api_key=a%26b%3Dc&text=x%2By%40z+%C3%A9%F0%9F%98%80&method=webpurify.live.check&semail=1&slink=1&rsp=1&sphone=1"
    );
}

#[test]
fn unreserved_characters_stay() {
    assert_eq!(
        client::query_string("AZaz09", "*-._", Method::Check),
        "format=json&api_key=AZaz09&text=*-._&method=webpurify.live.check&semail=1&slink=1&rsp=1&sphone=1"
    );
}

#[test]
fn control_characters_are_encoded() {
    let query = client::query_string("k", "a\n\t\u{0}\u{7f}~", Method::Check);
    assert_eq!(
        query,
        "format=json&api_key=k&text=a%0A%09%00%7F%7E&method=webpurify.live.check&semail=1&slink=1&rsp=1&sphone=1"
    );
    let request = client::profanity_check_request("k", Region::Us, "a\n\t\u{0}\u{7f}~")
        .expect("a request");
    assert_eq!(request.uri().query(), Some(query.as_str()));
}

#[test]
fn empty_key_and_text_leave_empty_values() {
    assert_eq!(
        client::query_string("", "", Method::Check),
        "format=json&api_key=&text=&method=webpurify.live.check&semail=1&slink=1&rsp=1&sphone=1"
    );
}

#[test]
fn replace_query_carries_the_symbol() {
    let query = client::query_string("abcd", "hi there", Method::Replace("#&".to_owned()));
    assert_eq!(
        query,
        "format=json&api_key=abcd&text=hi+there&method=webpurify.live.replace&semail=1&slink=1&rsp=1&sphone=1&replacesymbol=%23%26"
    );
    assert_eq!(pairs_of(&query)[8], pair("replacesymbol", "#&"));
    assert_eq!(pairs_of(&query).len(), 9);
}

#[test]
fn smart_screen_query_carries_the_symbol_and_the_flags() {
    let query = client::query_string(
        "abcd",
        "hi there",
        Method::SmartScreen("*".to_owned(), true, false),
    );
    assert_eq!(
        query,
        "format=json&api_key=abcd&text=hi+there&method=webpurify.live.smartscreen&semail=1&slink=1&rsp=1&sphone=1&replacesymbol=*&sentiment=true&topics=false"
    );
    let query = client::query_string(
        "abcd",
        "hi there",
        Method::SmartScreen("x y".to_owned(), false, true),
    );
    assert_eq!(
        pairs_of(&query)[8..],
        [
            pair("replacesymbol", "x y"),
            pair("sentiment", "false"),
            pair("topics", "true"),
        ]
    );
}

#[test]
fn query_reads_back_as_it_was_written() {
    let key = "k=1&2+3";
    let text = "caf\u{e9} & cr\u{e8}me = 100% +\u{4f60}\u{597d}";
    let symbol = "&=+%";
    let query = client::query_string(
        key,
        text,
        Method::SmartScreen(symbol.to_owned(), true, true),
    );
    assert_eq!(
        pairs_of(&query),
        vec![
            pair("format", "json"),
            pair("api_key", key),
            pair("text", text),
            pair("method", "webpurify.live.smartscreen"),
            pair("semail", "1"),
            pair("slink", "1"),
            pair("rsp", "1"),
            pair("sphone", "1"),
            pair("replacesymbol", symbol),
            pair("sentiment", "true"),
            pair("topics", "true"),
        ]
    );
}

#[test]
fn uri_is_address_question_mark_and_query() {
    let uri = client::api_uri("abcd", Region::Asia, "hi there", Method::Check);
    assert_eq!(
        uri,
        "https://api1-ap.webpurify.com/services/rest/?format=json&api_key=abcd&text=hi+there&method=webpurify.live.check&semail=1&slink=1&rsp=1&sphone=1"
    );
}

#[test]
fn request_is_a_post_with_one_header_and_no_body() {
    let request = client::profanity_replace_request("abcd", Region::Es, "hi there", "*")
        .expect("a request");
    assert_eq!(request.method(), http::Method::POST);
    assert_eq!(request.headers().len(), 1);
    assert_eq!(
        request.headers().get(http::header::CONTENT_TYPE).map(|value| value.as_bytes()),
        Some("application/json".as_bytes())
    );
    assert!(request.body().is_empty());
    assert_eq!(
        request.uri(),
        "https://es-api.webpurify.net/services/rest/?format=json&api_key=abcd&text=hi+there&method=webpurify.live.replace&semail=1&slink=1&rsp=1&sphone=1&replacesymbol=*"
    );
}

#[test]
fn request_builder_takes_any_uri() {
    let request = client::request_builder("http://example.com/a?b=c".to_owned())
        .expect("a request");
    assert_eq!(request.method(), http::Method::POST);
    assert_eq!(request.uri(), "http://example.com/a?b=c");
}

#[test]
fn text_that_is_no_uri_is_refused() {
    assert!(matches!(
        client::into_uri("not a uri".to_owned()),
        Err(RequestError::InvalidUri)
    ));
    assert!(matches!(
        client::into_uri(String::new()),
        Err(RequestError::InvalidUri)
    ));
    assert!(matches!(
        client::request_builder("http://exa mple.com/".to_owned()),
        Err(RequestError::InvalidUri)
    ));
    let uri = client::into_uri("https://example.com/x?y=z".to_owned()).expect("a uri");
    assert_eq!(uri.host(), Some("example.com"));
    assert_eq!(uri.query(), Some("y=z"));
}

#[test]
fn text_too_long_for_a_uri_is_refused() {
    let text = "a".repeat(70_000);
    assert!(matches!(
        client::profanity_check_request("abcd", Region::Us, &text),
        Err(RequestError::InvalidUri)
    ));
    assert!(matches!(
        client::profanity_replace_request("abcd", Region::Us, &text, "*"),
        Err(RequestError::InvalidUri)
    ));
    assert!(matches!(
        client::smart_screen_request("abcd", Region::Us, &text, "*", false, false),
        Err(RequestError::InvalidUri)
    ));
}

#[test]
fn query_holds_only_its_own_characters() {
    let query = client::query_string(
        "\u{0}\u{1f}\u{7f}/?#[]@!$'()",
        " \"<>\\^`{|}~,;:\u{e9}\u{1f600}",
        Method::SmartScreen("\r\n\t".to_owned(), false, false),
    );
    assert!(query.bytes().all(|byte| {
        byte.is_ascii_alphanumeric() || b"*-._+%=&".contains(&byte)
    }));
    assert_eq!(pairs_of(&query)[1], pair("api_key", "\u{0}\u{1f}\u{7f}/?#[]@!$'()"));
    assert_eq!(pairs_of(&query)[2], pair("text", " \"<>\\^`{|}~,;:\u{e9}\u{1f600}"));
    assert_eq!(pairs_of(&query)[8], pair("replacesymbol", "\r\n\t"));
}

#[test]
fn outcome_of_reading_a_uri_is_handed_on() {
    let parsed = http::Uri::try_from("https://example.com/a".to_owned());
    let uri = client::uri_or_invalid(parsed).expect("a uri");
    assert_eq!(uri, "https://example.com/a");
    let parsed = http::Uri::try_from("a b".to_owned());
    assert!(parsed.is_err());
    assert!(matches!(client::uri_or_invalid(parsed), Err(RequestError::InvalidUri)));
}

#[test]
fn outcome_of_building_a_request_is_handed_on() {
    let built = http::Request::builder().method("PUT").uri("/x").body(vec![1u8, 2]);
    let request = client::request_or_error(built).expect("a request");
    assert_eq!(request.method(), http::Method::PUT);
    assert_eq!(request.body(), &vec![1u8, 2]);
    let built = http::Request::builder().method("no method").body(Vec::new());
    assert!(built.is_err());
    assert!(matches!(client::request_or_error(built), Err(RequestError::Http(_))));
}

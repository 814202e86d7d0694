//! The check and replace methods: their requests, and what their replies say.

use vstd::prelude::*;
use vstd::string::StringExecFns;

pub use crate::smart_screen::smart_screen_request;
pub use crate::smart_screen::smart_screen_result;
pub use crate::smart_screen::ApiSmartScreenResponse;
pub use crate::smart_screen::ApiSmartScreenResponseSentiment;

use crate::error::DeserializeError;
use crate::error::DeserializeErrorView;
use crate::error::RequestError;
use crate::error::ResponseError;
use crate::error::ResponseErrorView;
use crate::form::form_encode;
use crate::form::is_plain;
use crate::form::is_query_text;
use crate::form::lemma_encode_plain;
use crate::form::lemma_parse_serialized;
use crate::form::lemma_serialize_push;
use crate::form::lemma_serialize_plain_name;
use crate::form::lemma_serialized_chars;
use crate::form::parse_query;
use crate::form::push_pair;
use crate::form::serialize_pairs;
use crate::json::json_document;
use crate::json::parse_json;
use crate::json::Json;
use crate::request::build_request;
use crate::request::built_request;
use crate::request::parsed_uri;
use crate::request::uri_from_string;
use crate::response::check_found;
use crate::response::document_outcome;
use crate::response::found_flag;
use crate::response::read_response;
use crate::response::replaced_text;
use crate::response::take_text;
use crate::response::ApiResponse;
use crate::response::ApiResponseView;
use crate::text::contains_text;
use crate::text::owned;

verus! {

/// The endpoint of the service that a request goes to.
#[derive(Clone, Copy, Debug, PartialEq, Eq)]
pub enum Region {
    Europe,
    Us,
    Asia,
    Es,
}

/// The remote method that a request invokes, with what that method takes.
#[derive(Clone, Debug, PartialEq, Eq)]
pub enum Method {
    /// `webpurify.live.check`
    Check,
    /// `webpurify.live.replace`, with the symbol that masks what was found
    Replace(String),
    /// `webpurify.live.smartscreen`, with the symbol that masks what was
    /// found, whether the sentiment is asked for, and whether the topics are
    SmartScreen(String, bool, bool),
}

/// The word that stands for a flag in a query string.
pub open spec fn flag_text(value: bool) -> Seq<char> {
    if value {
        "true"@
    } else {
        "false"@
    }
}

/// The word that stands for `value` in a query string.
pub fn bool_to_str(value: bool) -> (word: &'static str)
    ensures
        word@ == flag_text(value),
{
    match value {
        true => "true",
        false => "false",
    }
}

/// A [`Method`] with its symbol as a sequence of characters.
pub enum MethodView {
    Check,
    Replace(Seq<char>),
    SmartScreen(Seq<char>, bool, bool),
}

impl View for Method {
    type V = MethodView;

    open spec fn view(&self) -> MethodView {
        match self {
            Method::Check => MethodView::Check,
            Method::Replace(symbol) => MethodView::Replace(symbol@),
            Method::SmartScreen(symbol, sentiment, topics) => MethodView::SmartScreen(
                symbol@,
                *sentiment,
                *topics,
            ),
        }
    }
}

impl MethodView {
    /// The name by which the service knows this method.
    pub open spec fn name(self) -> Seq<char> {
        match self {
            MethodView::Check => "webpurify.live.check"@,
            MethodView::Replace(_) => "webpurify.live.replace"@,
            MethodView::SmartScreen(_, _, _) => "webpurify.live.smartscreen"@,
        }
    }
}

impl Method {
    /// The name by which the service knows this method.
    pub fn method_str(&self) -> (name: &'static str)
        ensures
            name@ == self@.name(),
    {
        match self {
            Method::Check => "webpurify.live.check",
            Method::Replace(_) => "webpurify.live.replace",
            Method::SmartScreen(_, _, _) => "webpurify.live.smartscreen",
        }
    }
}

/// The address of the service in a region.
pub open spec fn base_url(region: Region) -> Seq<char> {
    match region {
        Region::Us => "https://api1.webpurify.com/services/rest/"@,
        Region::Europe => "https://api1-eu.webpurify.com/services/rest/"@,
        Region::Asia => "https://api1-ap.webpurify.com/services/rest/"@,
        Region::Es => "https://es-api.webpurify.net/services/rest/"@,
    }
}

/// The address of the service in `region`.
pub fn api_url_by_region(region: Region) -> (url: String)
    ensures
        url@ == base_url(region),
{
    owned(
        match region {
            Region::Us => "https://api1.webpurify.com/services/rest/",
            Region::Europe => "https://api1-eu.webpurify.com/services/rest/",
            Region::Asia => "https://api1-ap.webpurify.com/services/rest/",
            Region::Es => "https://es-api.webpurify.net/services/rest/",
        },
    )
}

/// The pairs that every request carries, whatever its method: the format of
/// the reply, the key, the text, the method's name, and the four switches that
/// have the service look for e-mail addresses, links and telephone numbers
/// and report its confidence.
pub open spec fn common_pairs(api_key: Seq<char>, text: Seq<char>, method: MethodView) -> Seq<
    (Seq<char>, Seq<char>),
> {
    seq![
        ("format"@, "json"@),
        ("api_key"@, api_key),
        ("text"@, text),
        ("method"@, method.name()),
        ("semail"@, "1"@),
        ("slink"@, "1"@),
        ("rsp"@, "1"@),
        ("sphone"@, "1"@),
    ]
}

/// The pairs that a method adds to the common ones.
pub open spec fn method_pairs(method: MethodView) -> Seq<(Seq<char>, Seq<char>)> {
    match method {
        MethodView::Check => Seq::empty(),
        MethodView::Replace(symbol) => seq![("replacesymbol"@, symbol)],
        MethodView::SmartScreen(symbol, sentiment, topics) => seq![
            ("replacesymbol"@, symbol),
            ("sentiment"@, flag_text(sentiment)),
            ("topics"@, flag_text(topics)),
        ],
    }
}

/// All pairs of a request, in the order in which they are written.
pub open spec fn query_pairs(api_key: Seq<char>, text: Seq<char>, method: MethodView) -> Seq<
    (Seq<char>, Seq<char>),
> {
    common_pairs(api_key, text, method) + method_pairs(method)
}

/// The query string of a request.
pub open spec fn query_text(api_key: Seq<char>, text: Seq<char>, method: MethodView) -> Seq<
    char,
> {
    serialize_pairs(query_pairs(api_key, text, method))
}

/// The query string of a request: the pairs of [`query_pairs`], each
/// form-encoded, joined by `&`.
pub fn query_string(api_key: &str, text: &str, method: Method) -> (query: String)
    ensures
        query@ == query_text(api_key@, text@, method@),
{
    let ghost common = common_pairs(api_key@, text@, method@);
    let ghost extra = method_pairs(method@);
    let qs = String::new();
    let qs = push_pair(qs, Ghost(common.take(0)), "format", "json");
    assert(common.take(0).push(common[0]) == common.take(1));
    let qs = push_pair(qs, Ghost(common.take(1)), "api_key", api_key);
    assert(common.take(1).push(common[1]) == common.take(2));
    let qs = push_pair(qs, Ghost(common.take(2)), "text", text);
    assert(common.take(2).push(common[2]) == common.take(3));
    let qs = push_pair(qs, Ghost(common.take(3)), "method", method.method_str());
    assert(common.take(3).push(common[3]) == common.take(4));
    let qs = push_pair(qs, Ghost(common.take(4)), "semail", "1");
    assert(common.take(4).push(common[4]) == common.take(5));
    let qs = push_pair(qs, Ghost(common.take(5)), "slink", "1");
    assert(common.take(5).push(common[5]) == common.take(6));
    let qs = push_pair(qs, Ghost(common.take(6)), "rsp", "1");
    assert(common.take(6).push(common[6]) == common.take(7));
    let qs = push_pair(qs, Ghost(common.take(7)), "sphone", "1");
    assert(common.take(7).push(common[7]) == common);
    match &method {
        Method::Check => {
            assert(common + extra == common);
            qs
        },
        Method::Replace(replace_with) => {
            let qs = push_pair(qs, Ghost(common), "replacesymbol", replace_with.as_str());
            assert(common.push(extra[0]) == common + extra);
            qs
        },
        Method::SmartScreen(replace_with, sentiment, topics) => {
            let qs = push_pair(qs, Ghost(common), "replacesymbol", replace_with.as_str());
            assert(common.push(extra[0]) == common + extra.take(1));
            let sentiment_str = bool_to_str(*sentiment);
            let topics_str = bool_to_str(*topics);
            let qs = push_pair(qs, Ghost(common + extra.take(1)), "sentiment", sentiment_str);
            assert((common + extra.take(1)).push(extra[1]) == common + extra.take(2));
            let qs = push_pair(qs, Ghost(common + extra.take(2)), "topics", topics_str);
            assert((common + extra.take(2)).push(extra[2]) == common + extra);
            qs
        },
    }
}

/// What a method adds to the end of a query string.
pub open spec fn method_suffix(method: MethodView) -> Seq<char> {
    match method {
        MethodView::Check => Seq::empty(),
        MethodView::Replace(symbol) => "&replacesymbol="@ + form_encode(symbol),
        MethodView::SmartScreen(symbol, sentiment, topics) => "&replacesymbol="@ + form_encode(
            symbol,
        ) + "&sentiment="@ + flag_text(sentiment) + "&topics="@ + flag_text(topics),
    }
}

/// A query string as it reads from left to right: only the key, the text
/// and the symbol are encoded, since everything else is made of unreserved
/// characters.
pub open spec fn query_layout(api_key: Seq<char>, text: Seq<char>, method: MethodView) -> Seq<
    char,
> {
    "format=json&api_key="@ + form_encode(api_key) + "&text="@ + form_encode(text) + "&method="@
        + method.name() + "&semail=1&slink=1&rsp=1&sphone=1"@ + method_suffix(method)
}

/// The names of the pairs, the fixed values and the names of the methods hold
/// nothing but unreserved characters.
proof fn lemma_plain_words(method: MethodView)
    ensures
        is_plain("format"@),
        is_plain("json"@),
        is_plain("api_key"@),
        is_plain("text"@),
        is_plain("method"@),
        is_plain("semail"@),
        is_plain("slink"@),
        is_plain("rsp"@),
        is_plain("sphone"@),
        is_plain("1"@),
        is_plain("replacesymbol"@),
        is_plain("sentiment"@),
        is_plain("topics"@),
        is_plain(flag_text(true)),
        is_plain(flag_text(false)),
        is_plain(method.name()),
{
    reveal_strlit("format");
    reveal_strlit("json");
    reveal_strlit("api_key");
    reveal_strlit("text");
    reveal_strlit("method");
    reveal_strlit("semail");
    reveal_strlit("slink");
    reveal_strlit("rsp");
    reveal_strlit("sphone");
    reveal_strlit("1");
    reveal_strlit("replacesymbol");
    reveal_strlit("sentiment");
    reveal_strlit("topics");
    reveal_strlit("true");
    reveal_strlit("false");
    reveal_strlit("webpurify.live.check");
    reveal_strlit("webpurify.live.replace");
    reveal_strlit("webpurify.live.smartscreen");
}

/// How the leads of the pairs are spelled.
proof fn lemma_leads()
    ensures
        "&api_key="@ == seq!['&'] + "api_key"@ + seq!['='],
        "&text="@ == seq!['&'] + "text"@ + seq!['='],
        "&method="@ == seq!['&'] + "method"@ + seq!['='],
        "&semail="@ == seq!['&'] + "semail"@ + seq!['='],
        "&slink="@ == seq!['&'] + "slink"@ + seq!['='],
        "&rsp="@ == seq!['&'] + "rsp"@ + seq!['='],
        "&sphone="@ == seq!['&'] + "sphone"@ + seq!['='],
        "&replacesymbol="@ == seq!['&'] + "replacesymbol"@ + seq!['='],
        "&sentiment="@ == seq!['&'] + "sentiment"@ + seq!['='],
        "&topics="@ == seq!['&'] + "topics"@ + seq!['='],
{
    reveal_strlit("&api_key=");
    reveal_strlit("api_key");
    reveal_strlit("&text=");
    reveal_strlit("text");
    reveal_strlit("&method=");
    reveal_strlit("method");
    reveal_strlit("&semail=");
    reveal_strlit("semail");
    reveal_strlit("&slink=");
    reveal_strlit("slink");
    reveal_strlit("&rsp=");
    reveal_strlit("rsp");
    reveal_strlit("&sphone=");
    reveal_strlit("sphone");
    reveal_strlit("&replacesymbol=");
    reveal_strlit("replacesymbol");
    reveal_strlit("&sentiment=");
    reveal_strlit("sentiment");
    reveal_strlit("&topics=");
    reveal_strlit("topics");
    assert("&api_key="@ =~= seq!['&'] + "api_key"@ + seq!['=']);
    assert("&text="@ =~= seq!['&'] + "text"@ + seq!['=']);
    assert("&method="@ =~= seq!['&'] + "method"@ + seq!['=']);
    assert("&semail="@ =~= seq!['&'] + "semail"@ + seq!['=']);
    assert("&slink="@ =~= seq!['&'] + "slink"@ + seq!['=']);
    assert("&rsp="@ =~= seq!['&'] + "rsp"@ + seq!['=']);
    assert("&sphone="@ =~= seq!['&'] + "sphone"@ + seq!['=']);
    assert("&replacesymbol="@ =~= seq!['&'] + "replacesymbol"@ + seq!['=']);
    assert("&sentiment="@ =~= seq!['&'] + "sentiment"@ + seq!['=']);
    assert("&topics="@ =~= seq!['&'] + "topics"@ + seq!['=']);
}

/// How the front of a query string is spelled.
proof fn lemma_front_spelling()
    ensures
        "format=json&api_key="@ == "format"@ + seq!['='] + "json"@ + "&api_key="@,
{
    reveal_strlit("format=json&api_key=");
    reveal_strlit("format");
    reveal_strlit("json");
    reveal_strlit("&api_key=");
    assert("format=json&api_key="@ =~= "format"@ + seq!['='] + "json"@ + "&api_key="@);
}

/// How the four switches of a query string are spelled.
proof fn lemma_switches_spelling()
    ensures
        "&semail=1&slink=1&rsp=1&sphone=1"@ == "&semail="@ + "1"@ + "&slink="@ + "1"@ + "&rsp="@
            + "1"@ + "&sphone="@ + "1"@,
{
    reveal_strlit("&semail=1&slink=1&rsp=1&sphone=1");
    reveal_strlit("&semail=");
    reveal_strlit("&slink=");
    reveal_strlit("&rsp=");
    reveal_strlit("&sphone=");
    reveal_strlit("1");
    assert("&semail=1&slink=1&rsp=1&sphone=1"@ =~= "&semail="@ + "1"@ + "&slink="@ + "1"@
        + "&rsp="@ + "1"@ + "&sphone="@ + "1"@);
}

/// The query string of the first four pairs that every request carries.
proof fn lemma_front_layout(api_key: Seq<char>, text: Seq<char>, method: MethodView)
    ensures
        serialize_pairs(
            Seq::empty().push(("format"@, "json"@)).push(("api_key"@, api_key)).push(
                ("text"@, text),
            ).push(("method"@, method.name())),
        ) == "format=json&api_key="@ + form_encode(api_key) + "&text="@ + form_encode(text)
            + "&method="@ + method.name(),
{
    let none = Seq::<(Seq<char>, Seq<char>)>::empty();
    let x1 = none.push(("format"@, "json"@));
    let x2 = x1.push(("api_key"@, api_key));
    let x3 = x2.push(("text"@, text));
    let x4 = x3.push(("method"@, method.name()));
    lemma_plain_words(method);
    lemma_leads();
    lemma_front_spelling();
    let s1 = serialize_pairs(x1);
    assert(s1 == "format"@ + seq!['='] + "json"@) by {
        lemma_encode_plain("format"@);
        lemma_encode_plain("json"@);
        lemma_serialize_push(none, "format"@, "json"@);
        assert(serialize_pairs(none).len() == 0);
    }
    let s2 = serialize_pairs(x2);
    assert(s2 == "format=json&api_key="@ + form_encode(api_key)) by {
        lemma_serialize_plain_name(x1, "api_key"@, api_key, "&api_key="@);
    }
    let s3 = serialize_pairs(x3);
    assert(s3 == s2 + "&text="@ + form_encode(text)) by {
        lemma_serialize_plain_name(x2, "text"@, text, "&text="@);
    }
    assert(serialize_pairs(x4) == s3 + "&method="@ + method.name()) by {
        lemma_encode_plain(method.name());
        lemma_serialize_plain_name(x3, "method"@, method.name(), "&method="@);
    }
}

/// The query string of the pairs that every request carries.
proof fn lemma_common_layout(api_key: Seq<char>, text: Seq<char>, method: MethodView)
    ensures
        serialize_pairs(common_pairs(api_key, text, method)) == "format=json&api_key="@
            + form_encode(api_key) + "&text="@ + form_encode(text) + "&method="@ + method.name()
            + "&semail=1&slink=1&rsp=1&sphone=1"@,
{
    let x4 = Seq::empty().push(("format"@, "json"@)).push(("api_key"@, api_key)).push(
        ("text"@, text),
    ).push(("method"@, method.name()));
    let x5 = x4.push(("semail"@, "1"@));
    let x6 = x5.push(("slink"@, "1"@));
    let x7 = x6.push(("rsp"@, "1"@));
    let x8 = x7.push(("sphone"@, "1"@));
    assert(common_pairs(api_key, text, method) =~= x8);
    let front = serialize_pairs(x4);
    lemma_plain_words(method);
    lemma_leads();
    lemma_encode_plain("1"@);
    lemma_front_layout(api_key, text, method);
    let s5 = serialize_pairs(x5);
    assert(s5 == front + "&semail="@ + "1"@) by {
        lemma_serialize_plain_name(x4, "semail"@, "1"@, "&semail="@);
    }
    let s6 = serialize_pairs(x6);
    assert(s6 == s5 + "&slink="@ + "1"@) by {
        lemma_serialize_plain_name(x5, "slink"@, "1"@, "&slink="@);
    }
    let s7 = serialize_pairs(x7);
    assert(s7 == s6 + "&rsp="@ + "1"@) by {
        lemma_serialize_plain_name(x6, "rsp"@, "1"@, "&rsp="@);
    }
    let s8 = serialize_pairs(x8);
    assert(s8 == s7 + "&sphone="@ + "1"@) by {
        lemma_serialize_plain_name(x7, "sphone"@, "1"@, "&sphone="@);
    }
    assert(s8 == front + "&semail=1&slink=1&rsp=1&sphone=1"@) by {
        lemma_switches_spelling();
        assert(front + "&semail="@ + "1"@ + "&slink="@ + "1"@ + "&rsp="@ + "1"@ + "&sphone="@
            + "1"@ =~= front + ("&semail="@ + "1"@ + "&slink="@ + "1"@ + "&rsp="@ + "1"@
            + "&sphone="@ + "1"@));
    }
}

/// What the pairs of a method add to a query string that is not empty.
proof fn lemma_suffix_layout(common: Seq<(Seq<char>, Seq<char>)>, method: MethodView)
    requires
        common.len() > 0,
    ensures
        serialize_pairs(common + method_pairs(method)) == serialize_pairs(common) + method_suffix(
            method,
        ),
{
    let base = serialize_pairs(common);
    match method {
        MethodView::Check => {
            assert(common + method_pairs(method) == common);
            assert(base + method_suffix(method) == base);
        },
        MethodView::Replace(symbol) => {
            let x9 = common.push(("replacesymbol"@, symbol));
            assert(common + method_pairs(method) == x9);
            assert(serialize_pairs(x9) == base + "&replacesymbol="@ + form_encode(symbol)) by {
                lemma_plain_words(method);
                lemma_leads();
                lemma_serialize_plain_name(common, "replacesymbol"@, symbol, "&replacesymbol="@);
            }
            assert(base + "&replacesymbol="@ + form_encode(symbol) == base + ("&replacesymbol="@
                + form_encode(symbol)));
        },
        MethodView::SmartScreen(symbol, sentiment, topics) => {
            let x9 = common.push(("replacesymbol"@, symbol));
            let x10 = x9.push(("sentiment"@, flag_text(sentiment)));
            let x11 = x10.push(("topics"@, flag_text(topics)));
            assert(common + method_pairs(method) == x11);
            let s9 = serialize_pairs(x9);
            let s10 = serialize_pairs(x10);
            assert(s9 == base + "&replacesymbol="@ + form_encode(symbol)) by {
                lemma_plain_words(method);
                lemma_leads();
                lemma_serialize_plain_name(common, "replacesymbol"@, symbol, "&replacesymbol="@);
            }
            assert(s10 == s9 + "&sentiment="@ + flag_text(sentiment)) by {
                lemma_plain_words(method);
                lemma_leads();
                lemma_encode_plain(flag_text(sentiment));
                lemma_serialize_plain_name(x9, "sentiment"@, flag_text(sentiment), "&sentiment="@);
            }
            assert(serialize_pairs(x11) == s10 + "&topics="@ + flag_text(topics)) by {
                lemma_plain_words(method);
                lemma_leads();
                lemma_encode_plain(flag_text(topics));
                lemma_serialize_plain_name(x10, "topics"@, flag_text(topics), "&topics="@);
            }
            assert(base + "&replacesymbol="@ + form_encode(symbol) + "&sentiment="@ + flag_text(
                sentiment,
            ) + "&topics="@ + flag_text(topics) == base + ("&replacesymbol="@ + form_encode(
                symbol,
            ) + "&sentiment="@ + flag_text(sentiment) + "&topics="@ + flag_text(topics)));
        },
    }
}

/// The query string of a request reads as [`query_layout`] lays it out.
pub proof fn lemma_query_layout(api_key: Seq<char>, text: Seq<char>, method: MethodView)
    ensures
        query_text(api_key, text, method) == query_layout(api_key, text, method),
{
    lemma_common_layout(api_key, text, method);
    lemma_suffix_layout(common_pairs(api_key, text, method), method);
}

/// Reading the query string of a request gives back the pairs that it was
/// made of, and so the key, the text, the method and the flags, whatever
/// characters the key, the text and the symbol hold.
pub proof fn lemma_query_round_trip(api_key: Seq<char>, text: Seq<char>, method: MethodView)
    ensures
        parse_query(query_text(api_key, text, method)) == query_pairs(api_key, text, method),
{
    lemma_parse_serialized(query_pairs(api_key, text, method));
}

/// Whatever characters the key, the text and the symbol hold, control
/// characters among them, the query string of a request holds nothing but
/// unreserved characters, `+`, `%`, `=` and `&`.
pub proof fn lemma_query_characters(api_key: Seq<char>, text: Seq<char>, method: MethodView)
    ensures
        is_query_text(query_text(api_key, text, method)),
{
    lemma_serialized_chars(query_pairs(api_key, text, method));
}

/// The query string of a check carries the eight pairs that every request
/// carries and no other: read back, it gives exactly these.
pub proof fn lemma_check_query(api_key: Seq<char>, text: Seq<char>)
    ensures
        parse_query(query_text(api_key, text, MethodView::Check)) == seq![
            ("format"@, "json"@),
            ("api_key"@, api_key),
            ("text"@, text),
            ("method"@, "webpurify.live.check"@),
            ("semail"@, "1"@),
            ("slink"@, "1"@),
            ("rsp"@, "1"@),
            ("sphone"@, "1"@),
        ],
{
    let method = MethodView::Check;
    lemma_query_round_trip(api_key, text, method);
    assert(query_pairs(api_key, text, method) == common_pairs(api_key, text, method));
}

/// The symbol that a method masks with; a check has none.
pub open spec fn symbol_of(method: MethodView) -> Seq<char> {
    match method {
        MethodView::Check => Seq::empty(),
        MethodView::Replace(symbol) => symbol,
        MethodView::SmartScreen(symbol, _, _) => symbol,
    }
}

/// Whatever the symbol, the query strings of a replace and of a smart screen
/// carry it: `replacesymbol=` and the encoded symbol stand in them, and read
/// back they give the symbol under that name, behind the eight pairs that every
/// request carries.
pub proof fn lemma_replace_symbol(api_key: Seq<char>, text: Seq<char>, method: MethodView)
    requires
        method !is Check,
    ensures
        contains_text(
            query_text(api_key, text, method),
            "replacesymbol="@ + form_encode(symbol_of(method)),
        ),
        parse_query(query_text(api_key, text, method))[8] == ("replacesymbol"@, symbol_of(method)),
{
    let query = query_text(api_key, text, method);
    let part = "replacesymbol="@ + form_encode(symbol_of(method));
    let base = serialize_pairs(common_pairs(api_key, text, method));
    lemma_query_round_trip(api_key, text, method);
    lemma_suffix_layout(common_pairs(api_key, text, method), method);
    assert("&replacesymbol="@ == seq!['&'] + "replacesymbol="@) by {
        reveal_strlit("&replacesymbol=");
        reveal_strlit("replacesymbol=");
        assert("&replacesymbol="@ =~= seq!['&'] + "replacesymbol="@);
    }
    let at = base.len() as int + 1;
    assert(query.subrange(at, at + part.len()) =~= part);
}

/// What is made of a text that was read as a URI: the URI, or the one error
/// that stands for every text that is none.
pub open spec fn uri_outcome(parsed: Result<http::Uri, http::uri::InvalidUri>) -> Result<
    http::Uri,
    RequestError,
> {
    match parsed {
        Ok(uri) => Ok(uri),
        Err(_) => Err(RequestError::InvalidUri),
    }
}

/// Hands on the URI that a text was read as, or the error of a text that is
/// none.
pub fn uri_or_invalid(parsed: Result<http::Uri, http::uri::InvalidUri>) -> (outcome: Result<
    http::Uri,
    RequestError,
>)
    ensures
        outcome == uri_outcome(parsed),
{
    match parsed {
        Ok(uri) => Ok(uri),
        Err(_) => Err(RequestError::InvalidUri),
    }
}

/// The URI that a text stands for, or the error of a text that stands for
/// none.
pub open spec fn uri_of(text: Seq<char>) -> Result<http::Uri, RequestError> {
    uri_outcome(parsed_uri(text))
}

/// Reads `uri` as a URI.
pub fn into_uri(uri: String) -> (outcome: Result<http::Uri, RequestError>)
    ensures
        outcome == uri_of(uri@),
{
    uri_or_invalid(uri_from_string(uri))
}

/// What is made of a request that was built: the request, or the error that
/// holds the one of the `http` crate.
pub open spec fn request_outcome(built: Result<http::Request<Vec<u8>>, http::Error>) -> Result<
    http::Request<Vec<u8>>,
    RequestError,
> {
    match built {
        Ok(request) => Ok(request),
        Err(cause) => Err(RequestError::Http(cause)),
    }
}

/// Hands on the request that was built, or the error that no request was.
pub fn request_or_error(built: Result<http::Request<Vec<u8>>, http::Error>) -> (outcome: Result<
    http::Request<Vec<u8>>,
    RequestError,
>)
    ensures
        outcome == request_outcome(built),
{
    match built {
        Ok(request) => Ok(request),
        Err(cause) => Err(RequestError::Http(cause)),
    }
}

/// The request that goes to a URI: a `POST` with the one header
/// `content-type: application/json` and an empty body, or the error of the
/// `http` crate where it builds none.
pub open spec fn post_to(uri: http::Uri) -> Result<http::Request<Vec<u8>>, RequestError> {
    request_outcome(
        built_request("POST"@, uri, "content-type"@, "application/json"@, Seq::empty()),
    )
}

/// The request that goes to the URI that a text stands for.
pub open spec fn request_to(uri: Seq<char>) -> Result<http::Request<Vec<u8>>, RequestError> {
    match uri_of(uri) {
        Ok(uri) => post_to(uri),
        Err(error) => Err(error),
    }
}

/// Builds the request that goes to `api_uri`.
pub fn request_builder(api_uri: String) -> (outcome: Result<http::Request<Vec<u8>>, RequestError>)
    ensures
        outcome == request_to(api_uri@),
{
    let uri = match into_uri(api_uri) {
        Ok(uri) => uri,
        Err(error) => {
            return Err(error);
        },
    };
    request_or_error(build_request("POST", uri, "content-type", "application/json", Vec::new()))
}

/// The text of the URI that a request goes to: the address of the service in
/// the region, `?`, and the query string.
pub open spec fn request_uri(
    api_key: Seq<char>,
    region: Region,
    text: Seq<char>,
    method: MethodView,
) -> Seq<char> {
    base_url(region) + seq!['?'] + query_text(api_key, text, method)
}

/// Writes the URI that a request goes to.
pub fn api_uri(api_key: &str, region: Region, text: &str, method: Method) -> (uri: String)
    ensures
        uri@ == request_uri(api_key@, region, text@, method@),
{
    let qs = query_string(api_key, text, method);
    let mut uri = api_url_by_region(region);
    proof {
        reveal_strlit("?");
    }
    uri.append("?");
    uri.append(qs.as_str());
    assert("?"@ == seq!['?']);
    uri
}

/// The request that asks whether `text` holds profanity, or anything else
/// that the service looks for. Sending it is the caller's business.
pub fn profanity_check_request(api_key: &str, region: Region, text: &str) -> (outcome: Result<
    http::Request<Vec<u8>>,
    RequestError,
>)
    ensures
        outcome == request_to(request_uri(api_key@, region, text@, MethodView::Check)),
{
    request_builder(api_uri(api_key, region, text, Method::Check))
}

/// The request that asks for `text` with every find masked by `replace_text`.
/// Sending it is the caller's business.
pub fn profanity_replace_request(
    api_key: &str,
    region: Region,
    text: &str,
    replace_text: &str,
) -> (outcome: Result<http::Request<Vec<u8>>, RequestError>)
    ensures
        outcome == request_to(
            request_uri(api_key@, region, text@, MethodView::Replace(replace_text@)),
        ),
{
    request_builder(api_uri(api_key, region, text, Method::Replace(owned(replace_text))))
}

/// Whether a status says that the request succeeded: 200 to 299.
pub open spec fn is_success(status: u16) -> bool {
    200 <= status < 300
}

/// Whether `status` says that the request succeeded.
pub fn status_is_success(status: u16) -> (success: bool)
    ensures
        success == is_success(status),
{
    200 <= status && status < 300
}

/// What a status and a parsed body give as the reply to the method of the
/// name `expected`: a status outside 200 to 299 is an error whatever the body
/// holds, and so is a body that is no JSON document.
pub open spec fn response_outcome(
    status: u16,
    parsed: Result<Json, serde_json::Error>,
    expected: Seq<char>,
) -> Result<ApiResponseView, ResponseErrorView> {
    if !is_success(status) {
        Err(ResponseErrorView::HttpStatus(status))
    } else {
        match parsed {
            Err(cause) => Err(
                ResponseErrorView::Deserialize(DeserializeErrorView::Json(cause)),
            ),
            Ok(document) => document_outcome(document, expected),
        }
    }
}

/// Reads the reply to `method` out of the status and the body that came back.
pub fn parse_response(status: u16, body: &[u8], method: Method) -> (outcome: Result<
    ApiResponse,
    ResponseError,
>)
    ensures
        match outcome {
            Ok(response) => response_outcome(status, json_document(body@), method@.name()) == Ok::<
                _,
                ResponseErrorView,
            >(response@),
            Err(error) => response_outcome(status, json_document(body@), method@.name()) == Err::<
                ApiResponseView,
                _,
            >(error@),
        },
{
    if !status_is_success(status) {
        return Err(ResponseError::HttpStatus(status));
    }
    match parse_json(body) {
        Err(cause) => Err(ResponseError::Deserialize(DeserializeError::Json(cause))),
        Ok(document) => read_response(&document, method.method_str()),
    }
}

/// What a status and a parsed body give as the result of a check.
pub open spec fn check_outcome(status: u16, parsed: Result<Json, serde_json::Error>) -> Result<
    bool,
    ResponseErrorView,
> {
    match response_outcome(status, parsed, MethodView::Check.name()) {
        Err(error) => Err(error),
        Ok(response) => found_flag(response),
    }
}

/// Whether the service found profanity, or anything else it was asked to
/// look for, in the text of a check. `status` and `body` are what came back.
pub fn profanity_check_result(status: u16, body: &[u8]) -> (outcome: Result<bool, ResponseError>)
    ensures
        match outcome {
            Ok(found) => check_outcome(status, json_document(body@)) == Ok::<
                _,
                ResponseErrorView,
            >(found),
            Err(error) => check_outcome(status, json_document(body@)) == Err::<bool, _>(error@),
        },
{
    match parse_response(status, body, Method::Check) {
        Err(error) => Err(error),
        Ok(response) => check_found(&response),
    }
}

/// What a status and a parsed body give as the result of a replace.
pub open spec fn replace_outcome(status: u16, parsed: Result<Json, serde_json::Error>) -> Result<
    Seq<char>,
    ResponseErrorView,
> {
    match response_outcome(status, parsed, MethodView::Replace(Seq::empty()).name()) {
        Err(error) => Err(error),
        Ok(response) => replaced_text(response),
    }
}

/// With a status outside 200 to 299 a check and a replace give the error of
/// that status, whatever the body holds and whether or not it is JSON.
pub proof fn lemma_status_decides(status: u16, parsed: Result<Json, serde_json::Error>)
    requires
        !is_success(status),
    ensures
        check_outcome(status, parsed) == Err::<bool, _>(ResponseErrorView::HttpStatus(status)),
        replace_outcome(status, parsed) == Err::<Seq<char>, _>(
            ResponseErrorView::HttpStatus(status),
        ),
{
}

/// The text of a replace as the service sent it back, with what it found
/// masked. `status` and `body` are what came back.
pub fn profanity_replace_result(status: u16, body: &[u8]) -> (outcome: Result<
    String,
    ResponseError,
>)
    ensures
        match outcome {
            Ok(text) => replace_outcome(status, json_document(body@)) == Ok::<
                _,
                ResponseErrorView,
            >(text@),
            Err(error) => replace_outcome(status, json_document(body@)) == Err::<Seq<char>, _>(
                error@,
            ),
        },
{
    match parse_response(status, body, Method::Replace(String::new())) {
        Err(error) => Err(error),
        Ok(response) => take_text(response),
    }
}

} // verus!

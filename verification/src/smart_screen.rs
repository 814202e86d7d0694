//! The smart screen method: its request, and the classification that its
//! reply carries.

use vstd::prelude::*;
use crate::client::api_uri;
use crate::client::flag_text;
use crate::client::is_success;
use crate::client::request_builder;
use crate::client::request_to;
use crate::client::request_uri;
use crate::client::status_is_success;
use crate::client::Method;
use crate::client::MethodView;
use crate::client::Region;
use crate::error::DeserializeError;
use crate::error::DeserializeErrorView;
use crate::error::RequestError;
use crate::error::ResponseError;
use crate::error::ResponseErrorView;
use crate::json::json_document;
use crate::json::members;
use crate::json::members_of;
use crate::json::optional_array;
use crate::json::optional_array_of;
use crate::json::optional_text;
use crate::json::optional_text_of;
use crate::json::optional_texts;
use crate::json::optional_texts_of;
use crate::json::parse_json;
use crate::json::required_text;
use crate::json::required_text_of;
use crate::json::Json;
use crate::text::owned;
use crate::text::text_eq;
use crate::text::texts;

verus! {

/// The polarity of one passage of the screened text.
#[derive(Debug, PartialEq, Eq)]
pub struct ApiSmartScreenResponseSentiment {
    pub text: String,
    pub polarity: String,
}

/// What the service says of a screened text.
#[derive(Debug, PartialEq, Eq)]
pub struct ApiSmartScreenResponse {
    pub bigotry: bool,
    pub personal_attack: bool,
    pub sexual_advances: bool,
    pub criminal_activity: bool,
    pub external_contact: bool,
    pub profanity: bool,
    /// The profanities that were found.
    pub profanity_found: Option<Vec<String>>,
    /// The text with what was found masked.
    pub replace_text: Option<String>,
    /// The topics of the text, where the request asked for them.
    pub topics: Option<Vec<String>>,
    /// The polarity of the whole text, where the request asked for the
    /// sentiment.
    pub overall_sentiment: Option<String>,
    /// The polarity passage by passage, where the request asked for the
    /// sentiment.
    pub sentiment: Option<Vec<ApiSmartScreenResponseSentiment>>,
}

/// An [`ApiSmartScreenResponseSentiment`] with its texts as sequences of
/// characters.
pub struct SentimentView {
    pub text: Seq<char>,
    pub polarity: Seq<char>,
}

/// An [`ApiSmartScreenResponse`] with its texts as sequences of characters.
pub struct SmartScreenView {
    pub bigotry: bool,
    pub personal_attack: bool,
    pub sexual_advances: bool,
    pub criminal_activity: bool,
    pub external_contact: bool,
    pub profanity: bool,
    pub profanity_found: Option<Seq<Seq<char>>>,
    pub replace_text: Option<Seq<char>>,
    pub topics: Option<Seq<Seq<char>>>,
    pub overall_sentiment: Option<Seq<char>>,
    pub sentiment: Option<Seq<SentimentView>>,
}

impl View for ApiSmartScreenResponseSentiment {
    type V = SentimentView;

    open spec fn view(&self) -> SentimentView {
        SentimentView { text: self.text@, polarity: self.polarity@ }
    }
}

/// The view of each sentiment in a list.
pub open spec fn sentiments(list: Seq<ApiSmartScreenResponseSentiment>) -> Seq<SentimentView> {
    Seq::new(list.len(), |i: int| list[i]@)
}

impl View for ApiSmartScreenResponse {
    type V = SmartScreenView;

    open spec fn view(&self) -> SmartScreenView {
        SmartScreenView {
            bigotry: self.bigotry,
            personal_attack: self.personal_attack,
            sexual_advances: self.sexual_advances,
            criminal_activity: self.criminal_activity,
            external_contact: self.external_contact,
            profanity: self.profanity,
            profanity_found: match self.profanity_found {
                Some(list) => Some(texts(list@)),
                None => None,
            },
            replace_text: self.replace_text.deep_view(),
            topics: match self.topics {
                Some(list) => Some(texts(list@)),
                None => None,
            },
            overall_sentiment: self.overall_sentiment.deep_view(),
            sentiment: match self.sentiment {
                Some(list) => Some(sentiments(list@)),
                None => None,
            },
        }
    }
}

/// The request that asks for the classification of `text`, with every find
/// masked by `replace_text`, and with the sentiment and the topics where the
/// two flags ask for them. Sending it is the caller's business.
pub fn smart_screen_request(
    api_key: &str,
    region: Region,
    text: &str,
    replace_text: &str,
    sentiment: bool,
    topics: bool,
) -> (outcome: Result<http::Request<Vec<u8>>, RequestError>)
    ensures
        outcome == request_to(
            request_uri(
                api_key@,
                region,
                text@,
                MethodView::SmartScreen(replace_text@, sentiment, topics),
            ),
        ),
{
    request_builder(
        api_uri(api_key, region, text, Method::SmartScreen(owned(replace_text), sentiment, topics)),
    )
}

/// The flag that a text stands for: `true` and `false` stand for one each, and
/// no other text does.
pub open spec fn flag_of(text: Seq<char>) -> Result<bool, DeserializeErrorView> {
    if text == "true"@ {
        Ok(true)
    } else if text == "false"@ {
        Ok(false)
    } else {
        Err(DeserializeErrorView::UnknownVariant(text))
    }
}

/// Reads the flag that `text` stands for.
pub fn de_bool(text: &str) -> (outcome: Result<bool, DeserializeError>)
    ensures
        match outcome {
            Ok(flag) => flag_of(text@) == Ok::<_, DeserializeErrorView>(flag),
            Err(cause) => flag_of(text@) == Err::<bool, _>(cause@),
        },
{
    if text_eq(text, "true") {
        Ok(true)
    } else if text_eq(text, "false") {
        Ok(false)
    } else {
        Err(DeserializeError::UnknownVariant(owned(text)))
    }
}

/// The word that is written for a flag reads back as that flag, and a text
/// reads as a flag only where it is one of the two words.
pub proof fn lemma_flag_round_trip(flag: bool, text: Seq<char>)
    ensures
        flag_of(flag_text(flag)) == Ok::<_, DeserializeErrorView>(flag),
        flag_of(text) is Ok <==> text == flag_text(true) || text == flag_text(false),
        flag_of(text) is Err ==> flag_of(text) == Err::<bool, _>(
            DeserializeErrorView::UnknownVariant(text),
        ),
{
    reveal_strlit("true");
    reveal_strlit("false");
    assert("true"@.len() == 4 && "false"@.len() == 5);
}

/// The flag under a key, which must be there and hold `true` or `false` as a
/// text.
pub open spec fn required_flag_of(entries: Seq<(String, Json)>, key: Seq<char>) -> Result<
    bool,
    DeserializeErrorView,
> {
    match required_text_of(entries, key) {
        Err(cause) => Err(cause),
        Ok(text) => flag_of(text),
    }
}

/// Reads the flag under a key.
fn required_flag(entries: &Vec<(String, Json)>, key: &str) -> (found: Result<
    bool,
    DeserializeError,
>)
    ensures
        match found {
            Ok(flag) => required_flag_of(entries@, key@) == Ok::<_, DeserializeErrorView>(flag),
            Err(cause) => required_flag_of(entries@, key@) == Err::<bool, _>(cause@),
        },
{
    match required_text(entries, key) {
        Err(cause) => Err(cause),
        Ok(text) => de_bool(text.as_str()),
    }
}

/// The sentiment that one value of the array under `sentiment` holds: the
/// value is an object, and its texts under `text` and `polarity` are there.
pub open spec fn sentiment_of(item: Json) -> Result<SentimentView, DeserializeErrorView> {
    match item {
        Json::Object(entries) => match required_text_of(entries@, "text"@) {
            Err(cause) => Err(cause),
            Ok(text) => match required_text_of(entries@, "polarity"@) {
                Err(cause) => Err(cause),
                Ok(polarity) => Ok(SentimentView { text, polarity }),
            },
        },
        _ => Err(DeserializeErrorView::InvalidType("sentiment"@)),
    }
}

/// The sentiments that the values of an array hold, in order, or the error of
/// the first value that holds none.
pub open spec fn sentiments_of(items: Seq<Json>) -> Result<
    Seq<SentimentView>,
    DeserializeErrorView,
>
    decreases items.len(),
{
    if items.len() == 0 {
        Ok(Seq::empty())
    } else {
        match sentiments_of(items.drop_last()) {
            Err(cause) => Err(cause),
            Ok(front) => match sentiment_of(items.last()) {
                Err(cause) => Err(cause),
                Ok(last) => Ok(front.push(last)),
            },
        }
    }
}

/// The sentiments under the key `sentiment`, which may be missing.
pub open spec fn optional_sentiments_of(entries: Seq<(String, Json)>) -> Result<
    Option<Seq<SentimentView>>,
    DeserializeErrorView,
> {
    match optional_array_of(entries, "sentiment"@) {
        Err(cause) => Err(cause),
        Ok(None) => Ok(None),
        Ok(Some(items)) => match sentiments_of(items) {
            Err(cause) => Err(cause),
            Ok(list) => Ok(Some(list)),
        },
    }
}

/// An error among the first values of an array is the error of the array.
proof fn lemma_sentiments_error(items: Seq<Json>, front: int)
    requires
        0 <= front <= items.len(),
        sentiments_of(items.take(front)) is Err,
    ensures
        sentiments_of(items) == sentiments_of(items.take(front)),
    decreases items.len() - front,
{
    if front < items.len() {
        assert(items.take(front + 1).drop_last() == items.take(front));
        lemma_sentiments_error(items, front + 1);
    } else {
        assert(items.take(front) == items);
    }
}

/// Reads the sentiment that one value holds.
fn read_sentiment(item: &Json) -> (found: Result<ApiSmartScreenResponseSentiment, DeserializeError>)
    ensures
        match found {
            Ok(sentiment) => sentiment_of(*item) == Ok::<_, DeserializeErrorView>(sentiment@),
            Err(cause) => sentiment_of(*item) == Err::<SentimentView, _>(cause@),
        },
{
    let entries = match item {
        Json::Object(entries) => entries,
        _ => {
            return Err(DeserializeError::InvalidType(owned("sentiment")));
        },
    };
    let text = match required_text(entries, "text") {
        Err(cause) => {
            return Err(cause);
        },
        Ok(text) => text,
    };
    let polarity = match required_text(entries, "polarity") {
        Err(cause) => {
            return Err(cause);
        },
        Ok(polarity) => polarity,
    };
    Ok(ApiSmartScreenResponseSentiment { text, polarity })
}

/// Reads the sentiments under the key `sentiment`.
fn optional_sentiments(entries: &Vec<(String, Json)>) -> (found: Result<
    Option<Vec<ApiSmartScreenResponseSentiment>>,
    DeserializeError,
>)
    ensures
        match found {
            Ok(Some(list)) => optional_sentiments_of(entries@) == Ok::<_, DeserializeErrorView>(
                Some(sentiments(list@)),
            ),
            Ok(None) => optional_sentiments_of(entries@) == Ok::<
                Option<Seq<SentimentView>>,
                DeserializeErrorView,
            >(None),
            Err(cause) => optional_sentiments_of(entries@) == Err::<
                Option<Seq<SentimentView>>,
                _,
            >(cause@),
        },
{
    let items = match optional_array(entries, "sentiment") {
        Err(cause) => {
            return Err(cause);
        },
        Ok(None) => {
            return Ok(None);
        },
        Ok(Some(items)) => items,
    };
    let mut list: Vec<ApiSmartScreenResponseSentiment> = Vec::new();
    let mut i: usize = 0;
    assert(sentiments(list@) =~= Seq::empty());
    while i < items.len()
        invariant
            i <= items.len(),
            optional_array_of(entries@, "sentiment"@) == Ok::<_, DeserializeErrorView>(
                Some(items@),
            ),
            sentiments_of(items@.take(i as int)) == Ok::<_, DeserializeErrorView>(
                sentiments(list@),
            ),
        decreases items.len() - i,
    {
        let ghost read = sentiments(list@);
        assert(items@.take(i + 1).drop_last() == items@.take(i as int));
        match read_sentiment(&items[i]) {
            Err(cause) => {
                proof {
                    lemma_sentiments_error(items@, i + 1);
                }
                return Err(cause);
            },
            Ok(sentiment) => {
                list.push(sentiment);
                assert(sentiments(list@) =~= read.push(sentiment@));
            },
        }
        i += 1;
    }
    assert(items@.take(i as int) == items@);
    Ok(Some(list))
}

/// The classification that a document holds: the document is an object, and
/// its members are read in the order of the fields of
/// [`ApiSmartScreenResponse`]. The six flags must be there; what else there
/// is may be missing. The first member that cannot be read gives the error.
pub open spec fn smart_screen_of(document: Json) -> Result<SmartScreenView, DeserializeErrorView> {
    match members_of(document) {
        Err(cause) => Err(cause),
        Ok(top) => match required_flag_of(top, "bigotry"@) {
            Err(cause) => Err(cause),
            Ok(bigotry) => match required_flag_of(top, "personal_attack"@) {
                Err(cause) => Err(cause),
                Ok(personal_attack) => match required_flag_of(top, "sexual_advances"@) {
                    Err(cause) => Err(cause),
                    Ok(sexual_advances) => match required_flag_of(top, "criminal_activity"@) {
                        Err(cause) => Err(cause),
                        Ok(criminal_activity) => match required_flag_of(top, "external_contact"@) {
                            Err(cause) => Err(cause),
                            Ok(external_contact) => match required_flag_of(top, "profanity"@) {
                                Err(cause) => Err(cause),
                                Ok(profanity) => match screened_text_of(top) {
                                    Err(cause) => Err(cause),
                                    Ok(rest) => Ok(
                                        SmartScreenView {
                                            bigotry,
                                            personal_attack,
                                            sexual_advances,
                                            criminal_activity,
                                            external_contact,
                                            profanity,
                                            ..rest
                                        },
                                    ),
                                },
                            },
                        },
                    },
                },
            },
        },
    }
}

/// What a classification holds besides its six flags, which stand at `false`
/// here.
pub open spec fn screened_text_of(top: Seq<(String, Json)>) -> Result<
    SmartScreenView,
    DeserializeErrorView,
> {
    match optional_texts_of(top, "profanity_found"@) {
        Err(cause) => Err(cause),
        Ok(profanity_found) => match optional_text_of(top, "replace_text"@) {
            Err(cause) => Err(cause),
            Ok(replace_text) => match optional_texts_of(top, "topics"@) {
                Err(cause) => Err(cause),
                Ok(topics) => match optional_text_of(top, "overall_sentiment"@) {
                    Err(cause) => Err(cause),
                    Ok(overall_sentiment) => match optional_sentiments_of(top) {
                        Err(cause) => Err(cause),
                        Ok(sentiment) => Ok(
                            SmartScreenView {
                                bigotry: false,
                                personal_attack: false,
                                sexual_advances: false,
                                criminal_activity: false,
                                external_contact: false,
                                profanity: false,
                                profanity_found,
                                replace_text,
                                topics,
                                overall_sentiment,
                                sentiment,
                            },
                        ),
                    },
                },
            },
        },
    }
}

/// Reads what a classification holds besides its six flags.
fn read_screened_text(top: &Vec<(String, Json)>) -> (decoded: Result<
    ApiSmartScreenResponse,
    DeserializeError,
>)
    ensures
        match decoded {
            Ok(response) => screened_text_of(top@) == Ok::<_, DeserializeErrorView>(response@),
            Err(cause) => screened_text_of(top@) == Err::<SmartScreenView, _>(cause@),
        },
{
    let profanity_found = match optional_texts(top, "profanity_found") {
        Err(cause) => {
            return Err(cause);
        },
        Ok(list) => list,
    };
    let replace_text = match optional_text(top, "replace_text") {
        Err(cause) => {
            return Err(cause);
        },
        Ok(text) => text,
    };
    let topics = match optional_texts(top, "topics") {
        Err(cause) => {
            return Err(cause);
        },
        Ok(list) => list,
    };
    let overall_sentiment = match optional_text(top, "overall_sentiment") {
        Err(cause) => {
            return Err(cause);
        },
        Ok(text) => text,
    };
    let sentiment = match optional_sentiments(top) {
        Err(cause) => {
            return Err(cause);
        },
        Ok(list) => list,
    };
    Ok(
        ApiSmartScreenResponse {
            bigotry: false,
            personal_attack: false,
            sexual_advances: false,
            criminal_activity: false,
            external_contact: false,
            profanity: false,
            profanity_found,
            replace_text,
            topics,
            overall_sentiment,
            sentiment,
        },
    )
}

/// Reads the classification that `document` holds.
pub fn decode_smart_screen(document: &Json) -> (decoded: Result<
    ApiSmartScreenResponse,
    DeserializeError,
>)
    ensures
        match decoded {
            Ok(response) => smart_screen_of(*document) == Ok::<_, DeserializeErrorView>(response@),
            Err(cause) => smart_screen_of(*document) == Err::<SmartScreenView, _>(cause@),
        },
{
    let top = match members(document) {
        Err(cause) => {
            return Err(cause);
        },
        Ok(top) => top,
    };
    let bigotry = match required_flag(top, "bigotry") {
        Err(cause) => {
            return Err(cause);
        },
        Ok(flag) => flag,
    };
    let personal_attack = match required_flag(top, "personal_attack") {
        Err(cause) => {
            return Err(cause);
        },
        Ok(flag) => flag,
    };
    let sexual_advances = match required_flag(top, "sexual_advances") {
        Err(cause) => {
            return Err(cause);
        },
        Ok(flag) => flag,
    };
    let criminal_activity = match required_flag(top, "criminal_activity") {
        Err(cause) => {
            return Err(cause);
        },
        Ok(flag) => flag,
    };
    let external_contact = match required_flag(top, "external_contact") {
        Err(cause) => {
            return Err(cause);
        },
        Ok(flag) => flag,
    };
    let profanity = match required_flag(top, "profanity") {
        Err(cause) => {
            return Err(cause);
        },
        Ok(flag) => flag,
    };
    let rest = match read_screened_text(top) {
        Err(cause) => {
            return Err(cause);
        },
        Ok(rest) => rest,
    };
    Ok(
        ApiSmartScreenResponse {
            bigotry,
            personal_attack,
            sexual_advances,
            criminal_activity,
            external_contact,
            profanity,
            profanity_found: rest.profanity_found,
            replace_text: rest.replace_text,
            topics: rest.topics,
            overall_sentiment: rest.overall_sentiment,
            sentiment: rest.sentiment,
        },
    )
}

/// What a status and a parsed body give as the classification: a status
/// outside 200 to 299 is an error whatever the body holds, and so is a body
/// that is no JSON document.
pub open spec fn smart_screen_outcome(
    status: u16,
    parsed: Result<Json, serde_json::Error>,
) -> Result<SmartScreenView, ResponseErrorView> {
    if !is_success(status) {
        Err(ResponseErrorView::HttpStatus(status))
    } else {
        match parsed {
            Err(cause) => Err(
                ResponseErrorView::Deserialize(DeserializeErrorView::Json(cause)),
            ),
            Ok(document) => match smart_screen_of(document) {
                Err(cause) => Err(ResponseErrorView::Deserialize(cause)),
                Ok(response) => Ok(response),
            },
        }
    }
}

/// With a status outside 200 to 299 a smart screen gives the error of that
/// status, whatever the body holds and whether or not it is JSON.
pub proof fn lemma_status_decides(status: u16, parsed: Result<Json, serde_json::Error>)
    requires
        !is_success(status),
    ensures
        smart_screen_outcome(status, parsed) == Err::<SmartScreenView, _>(
            ResponseErrorView::HttpStatus(status),
        ),
{
}

/// Reads the classification out of the status and the body that came back.
pub fn parse_smart_screen_response(status: u16, body: &[u8]) -> (outcome: Result<
    ApiSmartScreenResponse,
    ResponseError,
>)
    ensures
        match outcome {
            Ok(response) => smart_screen_outcome(status, json_document(body@)) == Ok::<
                _,
                ResponseErrorView,
            >(response@),
            Err(error) => smart_screen_outcome(status, json_document(body@)) == Err::<
                SmartScreenView,
                _,
            >(error@),
        },
{
    if !status_is_success(status) {
        return Err(ResponseError::HttpStatus(status));
    }
    let document = match parse_json(body) {
        Err(cause) => {
            return Err(ResponseError::Deserialize(DeserializeError::Json(cause)));
        },
        Ok(document) => document,
    };
    match decode_smart_screen(&document) {
        Err(cause) => Err(ResponseError::Deserialize(cause)),
        Ok(response) => Ok(response),
    }
}

/// What the service says of a screened text. `status` and `body` are what
/// came back.
pub fn smart_screen_result(status: u16, body: &[u8]) -> (outcome: Result<
    ApiSmartScreenResponse,
    ResponseError,
>)
    ensures
        match outcome {
            Ok(response) => smart_screen_outcome(status, json_document(body@)) == Ok::<
                _,
                ResponseErrorView,
            >(response@),
            Err(error) => smart_screen_outcome(status, json_document(body@)) == Err::<
                SmartScreenView,
                _,
            >(error@),
        },
{
    parse_smart_screen_response(status, body)
}

} // verus!

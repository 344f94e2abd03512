//! The two providers: the request that each expects for a text, and the reply
//! that each answer holds.

use vstd::prelude::*;
use vstd::string::*;
use crate::json::{Json, json_model, json_parse, json_quote, member, member_of, parse, quote};

verus! {

/// Where the GPT-style provider takes chat completions.
pub const GPT_ENDPOINT: &'static str = "https://api.openai.com/v1/chat/completions";

/// Where the Gemini-style provider generates content; the key follows it.
pub const GEMINI_ENDPOINT: &'static str =
    "https://generativelanguage.googleapis.com/v1beta/models/gemini-pro:generateContent?key=";

/// The content type of every request.
pub const JSON_CONTENT_TYPE: &'static str = "application/json";

/// What precedes the key in the authorization header of a GPT request.
pub const BEARER_PREFIX: &'static str = "Bearer ";

/// A GPT request body up to the user's text: the persona comes first.
pub const GPT_BODY_HEAD: &'static str =
    "{\"messages\":[{\"content\":\"You are a helpful assistant.\",\"role\":\"system\"},{\"content\":";

/// A GPT request body after the user's text: it names the model.
pub const GPT_BODY_TAIL: &'static str = ",\"role\":\"user\"}],\"model\":\"gpt-3.5-turbo\"}";

/// A Gemini request body up to the user's text.
pub const GEMINI_BODY_HEAD: &'static str = "{\"contents\":[{\"parts\":[{\"text\":";

/// A Gemini request body after the user's text.
pub const GEMINI_BODY_TAIL: &'static str = "}]}]}";

/// One of the two services that answer a text.
#[derive(Clone, Copy, Debug, PartialEq, Eq, Structural)]
pub enum Provider {
    Gpt,
    Gemini,
}

/// An HTTPS POST, described and not yet sent.
#[derive(Clone, Debug, PartialEq, Eq)]
pub struct HttpRequest {
    pub url: String,
    pub content_type: String,
    /// The value of the `Authorization` header, where the request has one.
    pub authorization: Option<String>,
    pub body: String,
}

/// A request as contracts see it: each text by its characters.
pub struct RequestView {
    pub url: Seq<char>,
    pub content_type: Seq<char>,
    pub authorization: Option<Seq<char>>,
    pub body: Seq<char>,
}

impl View for HttpRequest {
    type V = RequestView;

    open spec fn view(&self) -> RequestView {
        RequestView {
            url: self.url@,
            content_type: self.content_type@,
            authorization: self.authorization.deep_view(),
            body: self.body@,
        }
    }
}

/// Why a call to a provider gave no reply.
#[derive(Clone, Debug, PartialEq, Eq)]
pub enum CallError {
    /// The request did not get through; the text says why.
    Transport(String),
    /// An answer came, and it is no success answer of the provider.
    UnexpectedShape,
}

/// A call's failure as contracts see it.
pub enum CallErrorView {
    Transport(Seq<char>),
    UnexpectedShape,
}

impl View for CallError {
    type V = CallErrorView;

    open spec fn view(&self) -> CallErrorView {
        match self {
            CallError::Transport(why) => CallErrorView::Transport(why@),
            CallError::UnexpectedShape => CallErrorView::UnexpectedShape,
        }
    }
}

/// The body of a GPT request for a text: a system message with the persona,
/// then the user's message with the text as a JSON string, and the model.
pub open spec fn gpt_body(text: Seq<char>) -> Seq<char> {
    GPT_BODY_HEAD@ + json_quote(text) + GPT_BODY_TAIL@
}

/// The body of a Gemini request for a text: one content with one part, the
/// text as a JSON string.
pub open spec fn gemini_body(text: Seq<char>) -> Seq<char> {
    GEMINI_BODY_HEAD@ + json_quote(text) + GEMINI_BODY_TAIL@
}

/// The request that a provider expects for a text and a key. GPT takes the
/// key in a bearer header; Gemini takes it, as it is, at the end of the URL.
pub open spec fn request_for(provider: Provider, text: Seq<char>, api_key: Seq<char>) -> RequestView {
    match provider {
        Provider::Gpt => RequestView {
            url: GPT_ENDPOINT@,
            content_type: JSON_CONTENT_TYPE@,
            authorization: Some(BEARER_PREFIX@ + api_key),
            body: gpt_body(text),
        },
        Provider::Gemini => RequestView {
            url: GEMINI_ENDPOINT@ + api_key,
            content_type: JSON_CONTENT_TYPE@,
            authorization: None,
            body: gemini_body(text),
        },
    }
}

/// Builds the request of the GPT adapter.
pub fn gpt_request(text: &str, api_key: &str) -> (request: HttpRequest)
    ensures
        request@ == request_for(Provider::Gpt, text@, api_key@),
{
    let quoted = quote(text);
    let body = String::from_str(GPT_BODY_HEAD).concat(quoted.as_str()).concat(GPT_BODY_TAIL);
    let authorization = String::from_str(BEARER_PREFIX).concat(api_key);
    HttpRequest {
        url: String::from_str(GPT_ENDPOINT),
        content_type: String::from_str(JSON_CONTENT_TYPE),
        authorization: Some(authorization),
        body,
    }
}

/// Builds the request of the Gemini adapter.
pub fn gemini_request(text: &str, api_key: &str) -> (request: HttpRequest)
    ensures
        request@ == request_for(Provider::Gemini, text@, api_key@),
{
    let quoted = quote(text);
    let body = String::from_str(GEMINI_BODY_HEAD).concat(quoted.as_str()).concat(GEMINI_BODY_TAIL);
    HttpRequest {
        url: String::from_str(GEMINI_ENDPOINT).concat(api_key),
        content_type: String::from_str(JSON_CONTENT_TYPE),
        authorization: None,
        body,
    }
}

/// The reply that a GPT answer holds: the text under `message.content` of the
/// first element of a non-empty `choices` array. An answer of any other shape,
/// a provider's error answer among them, holds none.
pub open spec fn gpt_reply_in(doc: Json) -> Option<Seq<char>> {
    match member_of(doc, "choices"@) {
        Json::Array(choices) => if choices.len() > 0 {
            match member_of(member_of(choices[0], "message"@), "content"@) {
                Json::Text(content) => Some(content),
                _ => None,
            }
        } else {
            None
        },
        _ => None,
    }
}

/// The reply that a Gemini answer holds: the text under `text` of the first
/// element of `content.parts`, in the first element of `candidates`; both
/// arrays must be there and hold an element.
pub open spec fn gemini_reply_in(doc: Json) -> Option<Seq<char>> {
    match member_of(doc, "candidates"@) {
        Json::Array(candidates) => if candidates.len() > 0 {
            match member_of(member_of(candidates[0], "content"@), "parts"@) {
                Json::Array(parts) => if parts.len() > 0 {
                    match member_of(parts[0], "text"@) {
                        Json::Text(text) => Some(text),
                        _ => None,
                    }
                } else {
                    None
                },
                _ => None,
            }
        } else {
            None
        },
        _ => None,
    }
}

/// The reply that a provider's answer holds.
pub open spec fn reply_in(provider: Provider, doc: Json) -> Option<Seq<char>> {
    match provider {
        Provider::Gpt => gpt_reply_in(doc),
        Provider::Gemini => gemini_reply_in(doc),
    }
}

/// The reply that the body of an answer holds: none where the body is no
/// JSON text.
pub open spec fn reply_of(provider: Provider, body: Seq<char>) -> Option<Seq<char>> {
    match json_parse(body) {
        Some(doc) => reply_in(provider, doc),
        None => None,
    }
}

/// How reading an answer ends for the reply that it holds: with the reply,
/// or as an unexpected shape.
pub open spec fn reading_of(held: Option<Seq<char>>) -> Result<Seq<char>, CallErrorView> {
    match held {
        Some(reply) => Ok(reply),
        None => Err(CallErrorView::UnexpectedShape),
    }
}

/// How a call ends, given what came back: the body of an answer (whatever
/// its status), or why the request did not get through.
pub open spec fn ending_of(provider: Provider, outcome: Result<Seq<char>, Seq<char>>) -> Result<
    Seq<char>,
    CallErrorView,
> {
    match outcome {
        Ok(body) => reading_of(reply_of(provider, body)),
        Err(why) => Err(CallErrorView::Transport(why)),
    }
}

/// What a transport hands back, seen as texts.
pub open spec fn outcome_view(outcome: Result<String, String>) -> Result<Seq<char>, Seq<char>> {
    match outcome {
        Ok(body) => Ok(body@),
        Err(why) => Err(why@),
    }
}

/// Whether a call, or the reading of its answer, ended as `expected` says.
pub open spec fn ends_as(
    outcome: Result<String, CallError>,
    expected: Result<Seq<char>, CallErrorView>,
) -> bool {
    match outcome {
        Ok(reply) => expected == Ok::<Seq<char>, CallErrorView>(reply@),
        Err(error) => expected == Err::<Seq<char>, CallErrorView>(error@),
    }
}

/// The first element of an array that has one.
fn first_item(value: &serde_json::Value) -> (first: Option<&serde_json::Value>)
    ensures
        match first {
            Some(item) => json_model(*value) matches Json::Array(items) && items.len() > 0
                && items[0] == json_model(*item),
            None => !(json_model(*value) matches Json::Array(items) && items.len() > 0),
        },
{
    match value.as_array() {
        Some(list) => if list.len() > 0 {
            Some(&list[0])
        } else {
            None
        },
        None => None,
    }
}

/// The text of a string value.
fn text_of(value: &serde_json::Value) -> (text: Result<String, CallError>)
    ensures
        match text {
            Ok(s) => json_model(*value) == Json::Text(s@),
            Err(error) => error is UnexpectedShape && !(json_model(*value) is Text),
        },
{
    match value.as_str() {
        Some(s) => Ok(String::from_str(s)),
        None => Err(CallError::UnexpectedShape),
    }
}

/// Reads the reply out of a parsed GPT answer.
pub fn gpt_reply_from(value: &serde_json::Value) -> (reply: Result<String, CallError>)
    ensures
        ends_as(reply, reading_of(gpt_reply_in(json_model(*value)))),
{
    match first_item(member(value, "choices")) {
        Some(choice) => text_of(member(member(choice, "message"), "content")),
        None => Err(CallError::UnexpectedShape),
    }
}

/// Reads the reply out of a parsed Gemini answer.
pub fn gemini_reply_from(value: &serde_json::Value) -> (reply: Result<String, CallError>)
    ensures
        ends_as(reply, reading_of(gemini_reply_in(json_model(*value)))),
{
    match first_item(member(value, "candidates")) {
        Some(candidate) => match first_item(member(member(candidate, "content"), "parts")) {
            Some(part) => text_of(member(part, "text")),
            None => Err(CallError::UnexpectedShape),
        },
        None => Err(CallError::UnexpectedShape),
    }
}

impl Provider {
    /// The request that this provider expects for a text and a key.
    pub fn request(self, text: &str, api_key: &str) -> (request: HttpRequest)
        ensures
            request@ == request_for(self, text@, api_key@),
    {
        match self {
            Provider::Gpt => gpt_request(text, api_key),
            Provider::Gemini => gemini_request(text, api_key),
        }
    }

    /// Reads the reply out of a parsed answer of this provider.
    pub fn reply_from(self, value: &serde_json::Value) -> (reply: Result<String, CallError>)
        ensures
            ends_as(reply, reading_of(reply_in(self, json_model(*value)))),
    {
        match self {
            Provider::Gpt => gpt_reply_from(value),
            Provider::Gemini => gemini_reply_from(value),
        }
    }

    /// Reads the reply out of the body of an answer. A body that is no JSON
    /// text has an unexpected shape, like one that holds no reply.
    pub fn reply(self, body: &str) -> (reply: Result<String, CallError>)
        ensures
            ends_as(reply, ending_of(self, Ok(body@))),
    {
        match parse(body) {
            Ok(value) => self.reply_from(&value),
            Err(_) => Err(CallError::UnexpectedShape),
        }
    }

    /// Ends a call: `outcome` is the body that came back, or why the request
    /// did not get through. A transport failure is reported as such, with its
    /// text; a body is read for its reply, whatever status it came with.
    pub fn conclude(self, outcome: Result<String, String>) -> (reply: Result<String, CallError>)
        ensures
            ends_as(reply, ending_of(self, outcome_view(outcome))),
    {
        match outcome {
            Ok(body) => self.reply(body.as_str()),
            Err(why) => Err(CallError::Transport(why)),
        }
    }
}

/// Whether a body lacks a member: it is no JSON, or no object, or an object
/// without a member of that name.
pub open spec fn lacks_member(body: Seq<char>, name: Seq<char>) -> bool {
    match json_parse(body) {
        Some(Json::Object(members)) => !members.contains_key(name),
        _ => true,
    }
}

/// A body that came back never ends a call as a transport failure, whatever
/// it holds.
pub proof fn lemma_body_is_no_transport_failure(provider: Provider, body: Seq<char>)
    ensures
        !(ending_of(provider, Ok(body)) matches Err(CallErrorView::Transport(_))),
{
}

/// A body that lacks `choices` ends a GPT call as an unexpected shape.
pub proof fn lemma_gpt_body_without_choices(body: Seq<char>)
    requires
        lacks_member(body, "choices"@),
    ensures
        ending_of(Provider::Gpt, Ok(body)) == Err::<Seq<char>, CallErrorView>(
            CallErrorView::UnexpectedShape,
        ),
{
}

/// A body that lacks `candidates` ends a Gemini call as an unexpected shape.
pub proof fn lemma_gemini_body_without_candidates(body: Seq<char>)
    requires
        lacks_member(body, "candidates"@),
    ensures
        ending_of(Provider::Gemini, Ok(body)) == Err::<Seq<char>, CallErrorView>(
            CallErrorView::UnexpectedShape,
        ),
{
}

} // verus!

//! The credential record and its JSON form: how the stored text is read, and
//! how a record is written out.

use vstd::prelude::*;
use vstd::string::*;
use crate::json::{Json, json_model, json_parse, json_quote, member, member_of, parse, quote};
use crate::provider::Provider;

verus! {

/// The name under which the record keeps the key of the GPT-style provider.
pub const GPT_KEY_FIELD: &'static str = "gpt_api_key";

/// The name under which the record keeps the key of the Gemini-style provider.
pub const GEMINI_KEY_FIELD: &'static str = "gemini_api_key";

/// How a key that is not configured is written.
pub const NULL_TEXT: &'static str = "null";

/// Where the record is stored, below the user's home directory.
pub const CONFIG_SUBPATH: &'static str = ".cargo/rschat-config.json";

/// The API keys of the two providers; either may be missing. No key's form
/// is checked.
#[derive(Clone, Debug, PartialEq, Eq)]
pub struct CredentialRecord {
    pub gpt_api_key: Option<String>,
    pub gemini_api_key: Option<String>,
}

/// A record as contracts see it: each key by its characters.
pub struct RecordView {
    pub gpt_api_key: Option<Seq<char>>,
    pub gemini_api_key: Option<Seq<char>>,
}

impl View for CredentialRecord {
    type V = RecordView;

    open spec fn view(&self) -> RecordView {
        RecordView {
            gpt_api_key: self.gpt_api_key.deep_view(),
            gemini_api_key: self.gemini_api_key.deep_view(),
        }
    }
}

/// Why a text is not the JSON form of a record.
#[derive(Clone, Copy, Debug, PartialEq, Eq, Structural)]
pub enum ConfigParseError {
    /// The text is no JSON.
    NotJson,
    /// The text is JSON, and not an object whose two key fields are each a
    /// string, `null` or missing.
    WrongShape,
}

/// The record with no key.
pub open spec fn empty_record() -> RecordView {
    RecordView { gpt_api_key: None, gemini_api_key: None }
}

/// The key that a record holds for a provider.
pub open spec fn key_for(provider: Provider, record: RecordView) -> Option<Seq<char>> {
    match provider {
        Provider::Gpt => record.gpt_api_key,
        Provider::Gemini => record.gemini_api_key,
    }
}

/// The key that a document keeps under a field: a string is a key, `null` or
/// no such member is no key, and anything else is ill-formed (the outer
/// `None`).
pub open spec fn key_in(doc: Json, field: Seq<char>) -> Option<Option<Seq<char>>> {
    match member_of(doc, field) {
        Json::Text(key) => Some(Some(key)),
        Json::Null => Some(None),
        _ => None,
    }
}

/// The record that a document holds: the document must be an object, and
/// each key field well-formed. Other members are passed over.
pub open spec fn record_in(doc: Json) -> Option<RecordView> {
    if doc is Object && key_in(doc, GPT_KEY_FIELD@) is Some && key_in(doc, GEMINI_KEY_FIELD@) is Some {
        Some(
            RecordView {
                gpt_api_key: key_in(doc, GPT_KEY_FIELD@)->Some_0,
                gemini_api_key: key_in(doc, GEMINI_KEY_FIELD@)->Some_0,
            },
        )
    } else {
        None
    }
}

/// The record that a text holds, or why it holds none.
pub open spec fn record_of(text: Seq<char>) -> Result<RecordView, ConfigParseError> {
    match json_parse(text) {
        Some(doc) => match record_in(doc) {
            Some(record) => Ok(record),
            None => Err(ConfigParseError::WrongShape),
        },
        None => Err(ConfigParseError::NotJson),
    }
}

/// What loading yields from the stored text: with no text stored, the empty
/// record.
pub open spec fn loaded_from(stored: Option<Seq<char>>) -> Result<RecordView, ConfigParseError> {
    match stored {
        Some(text) => record_of(text),
        None => Ok(empty_record()),
    }
}

/// How a key is written: as a JSON string, or as `null`.
pub open spec fn key_text(key: Option<Seq<char>>) -> Seq<char> {
    match key {
        Some(k) => json_quote(k),
        None => NULL_TEXT@,
    }
}

/// The JSON form of a record: an object with the two key fields, GPT's
/// first, and no white space.
pub open spec fn record_text(record: RecordView) -> Seq<char> {
    "{"@ + json_quote(GPT_KEY_FIELD@) + ":"@ + key_text(record.gpt_api_key) + ","@ + json_quote(
        GEMINI_KEY_FIELD@,
    ) + ":"@ + key_text(record.gemini_api_key) + "}"@
}

/// The path of the store below a home directory: the home, a `/` unless the
/// home is empty or ends in one, and the fixed sub-path.
pub open spec fn config_path_under(home: Seq<char>) -> Seq<char> {
    if home.len() == 0 || home.last() == '/' {
        home + CONFIG_SUBPATH@
    } else {
        home + "/"@ + CONFIG_SUBPATH@
    }
}

/// The object that holds a key, written as `key_text` writes it.
pub open spec fn key_doc(key: Option<Seq<char>>) -> Json {
    match key {
        Some(k) => Json::Text(k),
        None => Json::Null,
    }
}

/// The object that holds a record's two keys and nothing else.
pub open spec fn record_doc(record: RecordView) -> Json {
    Json::Object(
        Map::empty().insert(GPT_KEY_FIELD@, key_doc(record.gpt_api_key)).insert(
            GEMINI_KEY_FIELD@,
            key_doc(record.gemini_api_key),
        ),
    )
}

/// Whether a read ended as `expected` says.
pub open spec fn reads_as(
    outcome: Result<CredentialRecord, ConfigParseError>,
    expected: Result<RecordView, ConfigParseError>,
) -> bool {
    match outcome {
        Ok(record) => expected == Ok::<RecordView, ConfigParseError>(record@),
        Err(error) => expected == Err::<RecordView, ConfigParseError>(error),
    }
}

/// Reads the key that a value keeps under a field.
fn read_key(value: &serde_json::Value, field: &str) -> (key: Option<Option<String>>)
    ensures
        key.deep_view() == key_in(json_model(*value), field@),
{
    let found = member(value, field);
    match found.as_str() {
        Some(text) => Some(Some(String::from_str(text))),
        None => if found.is_null() {
            Some(None)
        } else {
            None
        },
    }
}

/// Writes a key out.
fn write_key(key: &Option<String>) -> (text: String)
    ensures
        text@ == key_text(key.deep_view()),
{
    match key {
        Some(k) => quote(k.as_str()),
        None => String::from_str(NULL_TEXT),
    }
}

impl CredentialRecord {
    /// The record with no key.
    pub fn empty() -> (record: CredentialRecord)
        ensures
            record@ == empty_record(),
    {
        CredentialRecord { gpt_api_key: None, gemini_api_key: None }
    }

    /// The key that the record holds for a provider.
    pub fn key_of(&self, provider: Provider) -> (key: Option<&str>)
        ensures
            key.deep_view() == key_for(provider, self@),
    {
        let held = match provider {
            Provider::Gpt => &self.gpt_api_key,
            Provider::Gemini => &self.gemini_api_key,
        };
        match held {
            Some(key) => Some(key.as_str()),
            None => None,
        }
    }

    /// Reads the record that a parsed JSON value holds.
    pub fn from_value(value: &serde_json::Value) -> (outcome: Result<
        CredentialRecord,
        ConfigParseError,
    >)
        ensures
            match outcome {
                Ok(record) => record_in(json_model(*value)) == Some(record@),
                Err(error) => error == ConfigParseError::WrongShape && record_in(
                    json_model(*value),
                ) is None,
            },
    {
        if !value.is_object() {
            return Err(ConfigParseError::WrongShape);
        }
        match read_key(value, GPT_KEY_FIELD) {
            Some(gpt_api_key) => match read_key(value, GEMINI_KEY_FIELD) {
                Some(gemini_api_key) => Ok(CredentialRecord { gpt_api_key, gemini_api_key }),
                None => Err(ConfigParseError::WrongShape),
            },
            None => Err(ConfigParseError::WrongShape),
        }
    }

    /// Reads a record from its JSON form.
    pub fn parse(text: &str) -> (outcome: Result<CredentialRecord, ConfigParseError>)
        ensures
            reads_as(outcome, record_of(text@)),
    {
        match parse(text) {
            Ok(value) => CredentialRecord::from_value(&value),
            Err(_) => Err(ConfigParseError::NotJson),
        }
    }

    /// Loads the record from what is stored: `None` says that nothing is,
    /// which is no error and yields the empty record.
    pub fn load(stored: Option<&str>) -> (outcome: Result<CredentialRecord, ConfigParseError>)
        ensures
            reads_as(outcome, loaded_from(stored.deep_view())),
            stored is None ==> outcome == Ok::<CredentialRecord, ConfigParseError>(
                CredentialRecord { gpt_api_key: None, gemini_api_key: None },
            ),
    {
        match stored {
            Some(text) => CredentialRecord::parse(text),
            None => Ok(CredentialRecord::empty()),
        }
    }

    /// Writes the record out in its JSON form, to be stored whole.
    pub fn render(&self) -> (text: String)
        ensures
            text@ == record_text(self@),
    {
        let gpt = write_key(&self.gpt_api_key);
        let gemini = write_key(&self.gemini_api_key);
        let text = String::from_str("{").concat(quote(GPT_KEY_FIELD).as_str()).concat(":").concat(
            gpt.as_str(),
        ).concat(",").concat(quote(GEMINI_KEY_FIELD).as_str()).concat(":").concat(
            gemini.as_str(),
        ).concat("}");
        text
    }
}

/// Joins the path of the store to a home directory.
pub fn config_path_in(home: &str) -> (path: String)
    ensures
        path@ == config_path_under(home@),
{
    let length = home.unicode_len();
    if length == 0 || home.get_char(length - 1) == '/' {
        String::from_str(home).concat(CONFIG_SUBPATH)
    } else {
        String::from_str(home).concat("/").concat(CONFIG_SUBPATH)
    }
}

/// The two key fields have different names.
pub proof fn lemma_key_fields_differ()
    ensures
        GPT_KEY_FIELD@ != GEMINI_KEY_FIELD@,
{
    reveal_strlit("gpt_api_key");
    reveal_strlit("gemini_api_key");
    assert(GPT_KEY_FIELD@.len() != GEMINI_KEY_FIELD@.len());
}

/// A record survives being laid out as a document and read back: the object
/// that holds its two keys, each as a string or as `null`, holds that record.
pub proof fn lemma_record_doc_reads_back(record: RecordView)
    ensures
        record_in(record_doc(record)) == Some(record),
{
    lemma_key_fields_differ();
}

} // verus!

use rschat::provider::Provider;
use rschat::record::{
    config_path_in, ConfigParseError, CredentialRecord, CONFIG_SUBPATH, GEMINI_KEY_FIELD,
    GPT_KEY_FIELD,
};

fn record(gpt: Option<&str>, gemini: Option<&str>) -> CredentialRecord {
    CredentialRecord {
        gpt_api_key: gpt.map(|k| k.to_string()),
        gemini_api_key: gemini.map(|k| k.to_string()),
    }
}

#[test]
fn empty_record_has_no_key() {
    assert_eq!(CredentialRecord::empty(), record(None, None));
}

#[test]
fn load_with_nothing_stored_is_the_empty_record() {
    assert_eq!(CredentialRecord::load(None), Ok(record(None, None)));
    assert_eq!(CredentialRecord::load(None), CredentialRecord::load(None));
}

#[test]
fn load_reads_what_is_stored() {
    assert_eq!(
        CredentialRecord::load(Some("{\"gpt_api_key\":\"a\",\"gemini_api_key\":\"b\"}")),
        Ok(record(Some("a"), Some("b")))
    );
    assert_eq!(CredentialRecord::load(Some("")), Err(ConfigParseError::NotJson));
}

#[test]
fn parse_reads_both_keys() {
    assert_eq!(
        CredentialRecord::parse("{\"gpt_api_key\": \"sk-1\", \"gemini_api_key\": \"AI-2\"}"),
        Ok(record(Some("sk-1"), Some("AI-2")))
    );
    assert_eq!(
        CredentialRecord::parse("{\"gemini_api_key\":\"AI-2\",\"gpt_api_key\":\"sk-1\"}"),
        Ok(record(Some("sk-1"), Some("AI-2")))
    );
}

#[test]
fn parse_takes_missing_and_null_for_no_key() {
    assert_eq!(CredentialRecord::parse("{}"), Ok(record(None, None)));
    assert_eq!(CredentialRecord::parse("{\"gpt_api_key\":\"a\"}"), Ok(record(Some("a"), None)));
    assert_eq!(CredentialRecord::parse("{\"gemini_api_key\":\"b\"}"), Ok(record(None, Some("b"))));
    assert_eq!(
        CredentialRecord::parse("{\"gpt_api_key\":null,\"gemini_api_key\":\"b\"}"),
        Ok(record(None, Some("b")))
    );
    assert_eq!(
        CredentialRecord::parse("{\"gpt_api_key\":null,\"gemini_api_key\":null}"),
        Ok(record(None, None))
    );
}

#[test]
fn parse_keeps_a_key_as_it_is() {
    assert_eq!(
        CredentialRecord::parse("{\"gpt_api_key\":\"\",\"gemini_api_key\":\" sp ace\\n\"}"),
        Ok(record(Some(""), Some(" sp ace\n")))
    );
}

#[test]
fn parse_passes_over_other_members() {
    assert_eq!(
        CredentialRecord::parse("{\"note\":[1,2],\"gpt_api_key\":\"a\",\"extra\":{\"x\":null}}"),
        Ok(record(Some("a"), None))
    );
}

#[test]
fn parse_refuses_what_is_no_json() {
    for text in ["", "sk-123", "{\"gpt_api_key\":", "{gpt_api_key:\"a\"}", "{} {}"] {
        assert_eq!(CredentialRecord::parse(text), Err(ConfigParseError::NotJson), "{}", text);
    }
}

#[test]
fn parse_refuses_another_shape() {
    let texts = [
        "null",
        "true",
        "7",
        "\"sk-123\"",
        "[]",
        "[\"a\",\"b\"]",
        "{\"gpt_api_key\":7}",
        "{\"gpt_api_key\":true}",
        "{\"gpt_api_key\":[\"a\"]}",
        "{\"gpt_api_key\":{\"key\":\"a\"}}",
        "{\"gpt_api_key\":\"a\",\"gemini_api_key\":0}",
        "{\"gemini_api_key\":false}",
    ];
    for text in texts {
        assert_eq!(CredentialRecord::parse(text), Err(ConfigParseError::WrongShape), "{}", text);
    }
}

#[test]
fn from_value_reads_a_value_built_by_hand() {
    let mut members = serde_json::Map::new();
    members.insert(GPT_KEY_FIELD.to_string(), serde_json::Value::String("a".to_string()));
    members.insert(GEMINI_KEY_FIELD.to_string(), serde_json::Value::Null);
    assert_eq!(
        CredentialRecord::from_value(&serde_json::Value::Object(members)),
        Ok(record(Some("a"), None))
    );
    assert_eq!(
        CredentialRecord::from_value(&serde_json::Value::Object(serde_json::Map::new())),
        Ok(record(None, None))
    );
    assert_eq!(
        CredentialRecord::from_value(&serde_json::Value::Null),
        Err(ConfigParseError::WrongShape)
    );
    assert_eq!(
        CredentialRecord::from_value(&serde_json::Value::String("a".to_string())),
        Err(ConfigParseError::WrongShape)
    );
}

#[test]
fn render_writes_both_fields_in_order() {
    assert_eq!(
        record(Some("sk-1"), Some("AI-2")).render(),
        "{\"gpt_api_key\":\"sk-1\",\"gemini_api_key\":\"AI-2\"}"
    );
    assert_eq!(
        record(Some("sk-1"), None).render(),
        "{\"gpt_api_key\":\"sk-1\",\"gemini_api_key\":null}"
    );
    assert_eq!(
        record(None, Some("AI-2")).render(),
        "{\"gpt_api_key\":null,\"gemini_api_key\":\"AI-2\"}"
    );
    assert_eq!(record(None, None).render(), "{\"gpt_api_key\":null,\"gemini_api_key\":null}");
}

#[test]
fn render_escapes_a_key() {
    assert_eq!(
        record(Some("a\"b\\c\n"), None).render(),
        "{\"gpt_api_key\":\"a\\\"b\\\\c\\n\",\"gemini_api_key\":null}"
    );
}

#[test]
fn render_then_parse_gives_the_record_back() {
    let keys = [
        None,
        Some(""),
        Some("sk-123"),
        Some("null"),
        Some("with \"quotes\" and \\ and \n\t\r"),
        Some("\u{0}\u{1f}\u{7f}"),
        Some("caf\u{e9} \u{4e2d}\u{6587} \u{1F600}"),
        Some("{\"gpt_api_key\":\"nested\"}"),
    ];
    for gpt in keys {
        for gemini in keys {
            let original = record(gpt, gemini);
            let text = original.render();
            assert_eq!(CredentialRecord::parse(&text), Ok(original.clone()), "{}", text);
            assert_eq!(CredentialRecord::load(Some(&text)), Ok(original));
        }
    }
}

#[test]
fn parse_then_render_is_the_compact_form() {
    let parsed = CredentialRecord::parse(" { \"gemini_api_key\" : \"b\" , \"x\" : 1 } ").unwrap();
    assert_eq!(parsed.render(), "{\"gpt_api_key\":null,\"gemini_api_key\":\"b\"}");
}

#[test]
fn key_of_picks_the_provider_field() {
    let both = record(Some("a"), Some("b"));
    assert_eq!(both.key_of(Provider::Gpt), Some("a"));
    assert_eq!(both.key_of(Provider::Gemini), Some("b"));
    let one = record(None, Some("b"));
    assert_eq!(one.key_of(Provider::Gpt), None);
    assert_eq!(one.key_of(Provider::Gemini), Some("b"));
    assert_eq!(record(Some(""), None).key_of(Provider::Gpt), Some(""));
}

#[test]
fn config_path_joins_home_and_sub_path() {
    assert_eq!(CONFIG_SUBPATH, ".cargo/rschat-config.json");
    assert_eq!(config_path_in("/home/ann"), "/home/ann/.cargo/rschat-config.json");
    assert_eq!(config_path_in("/home/ann/"), "/home/ann/.cargo/rschat-config.json");
    assert_eq!(config_path_in("/"), "/.cargo/rschat-config.json");
    assert_eq!(config_path_in(""), ".cargo/rschat-config.json");
    assert_eq!(config_path_in("/home/zo\u{e9}"), "/home/zo\u{e9}/.cargo/rschat-config.json");
    assert_eq!(config_path_in("tmp/dir"), "tmp/dir/.cargo/rschat-config.json");
}

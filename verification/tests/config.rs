use kick_adapter::config::{
    choose_channel, combine_settings, load_adapter_config, read_channel, save_adapter_config,
    startup_channel, AdapterEnv, KickAdapterConfig,
};
use kick_adapter::json::{parse, text, Json};

fn some(s: &str) -> Option<String> {
    Some(s.to_string())
}

fn env(channel: Option<&str>, id: Option<&str>, secret: Option<&str>, oauth: Option<&str>) -> AdapterEnv {
    AdapterEnv {
        channel_name: channel.map(|s| s.to_string()),
        client_id: id.map(|s| s.to_string()),
        client_secret: secret.map(|s| s.to_string()),
        oauth_token: oauth.map(|s| s.to_string()),
    }
}

const CONFIG: &str = "{\"module_name\":\"kick\",\"module_specific\":{\"channel_name\":\"vulbyte\"}}";

#[test]
fn the_channel_is_read_from_the_configuration() {
    assert_eq!(read_channel(Some(CONFIG)), some("vulbyte"));
    assert_eq!(read_channel(None), None);
    for t in [
        "", "[]", "{}", "{\"module_specific\":1}", "{\"module_specific\":{}}",
        "{\"module_specific\":{\"channel_name\":7}}",
    ] {
        assert_eq!(read_channel(Some(t)), None);
    }
}

#[test]
fn settings_are_loaded() {
    let loaded = load_adapter_config(Some(CONFIG), env(Some("other"), Some("id"), Some("secret"), None));
    assert_eq!(
        loaded,
        Some(KickAdapterConfig {
            channel_name: some("vulbyte"),
            client_id: some("id"),
            client_secret: some("secret"),
            oauth_token: some(""),
        })
    );
    let loaded = load_adapter_config(None, env(Some("other"), Some("id"), Some("secret"), Some("t")));
    assert_eq!(loaded.as_ref().unwrap().channel_name, some("other"));
    assert_eq!(loaded.unwrap().oauth_token, some("t"));
}

#[test]
fn settings_that_are_not_enough_are_not_loaded() {
    assert_eq!(load_adapter_config(Some(CONFIG), env(None, None, Some("s"), None)), None);
    assert_eq!(load_adapter_config(Some(CONFIG), env(None, Some("i"), Some(""), None)), None);
    assert_eq!(load_adapter_config(None, env(None, Some("i"), Some("s"), Some("t"))), None);
    assert_eq!(combine_settings(some(""), env(Some("c"), Some("i"), Some("s"), None)), None);
}

#[test]
fn the_channel_of_the_environment_comes_first_at_the_start() {
    assert_eq!(startup_channel(some(" mine "), Some(CONFIG)), " mine ");
    assert_eq!(startup_channel(some(" \t"), Some(CONFIG)), "vulbyte");
    assert_eq!(startup_channel(None, Some(CONFIG)), "vulbyte");
    assert_eq!(startup_channel(some(""), None), "");
    assert_eq!(choose_channel(None, some(" x")), " x");
}

#[test]
fn settings_are_saved() {
    let existing = "{\"version\":2,\"module_specific\":{\"old\":true,\"channel_name\":\"a\"}}";
    let saved = save_adapter_config(Some(existing), "new", "id", "secret", "token").unwrap();
    assert_eq!(
        saved.config_text,
        "{\n  \"module_specific\": {\n    \"channel_name\": \"new\"\n  },\n  \"version\": 2\n}"
    );
    let expected: Vec<(String, String)> = [
        ("KICK_CLIENT_ID", "id"),
        ("KICK_CLIENT_SECRET", "secret"),
        ("KICK_OAUTH_TOKEN", "token"),
    ]
    .iter()
    .map(|(k, v)| (k.to_string(), v.to_string()))
    .collect();
    assert_eq!(saved.env_entries, expected);
}

#[test]
fn a_missing_or_broken_file_is_written_anew() {
    let fresh = "{\n  \"module_specific\": {\n    \"channel_name\": \"c\"\n  }\n}";
    for existing in [None, Some(""), Some("{"), Some("{}"), Some("null")] {
        let saved = save_adapter_config(existing, "c", "", "", "").unwrap();
        assert_eq!(saved.config_text, fresh);
    }
}

#[test]
fn a_document_that_is_no_object_takes_no_setting() {
    for existing in ["[]", "1", "\"x\"", "true", "1.5"] {
        assert_eq!(save_adapter_config(Some(existing), "c", "i", "s", "t"), None);
    }
}

#[test]
fn a_saved_channel_is_loaded() {
    let first = save_adapter_config(Some(CONFIG), "first", "i", "s", "").unwrap();
    let second = save_adapter_config(Some(&first.config_text), "second \u{e9}", "i", "s", "").unwrap();
    let loaded = load_adapter_config(Some(&second.config_text), env(Some("x"), Some("i"), Some("s"), None));
    assert_eq!(loaded.unwrap().channel_name, some("second \u{e9}"));
    let root: Json = parse(&second.config_text).unwrap();
    assert_eq!(root.get("module_name"), Some(&text("kick")));
    let directly = save_adapter_config(Some(CONFIG), "second \u{e9}", "i", "s", "").unwrap();
    assert_eq!(directly.config_text, second.config_text);
}

#[test]
fn what_was_saved_is_loaded() {
    let existing = "{\"module_specific\":{\"rate\":0.1},\"version\":2}";
    let saved = save_adapter_config(Some(existing), "c", "id", "secret", "token").unwrap();
    let value = |name: &str| {
        saved.env_entries.iter().find(|e| e.0 == name).map(|e| e.1.as_str())
    };
    let after = env(
        Some("other"),
        value("KICK_CLIENT_ID"),
        value("KICK_CLIENT_SECRET"),
        value("KICK_OAUTH_TOKEN"),
    );
    assert_eq!(
        load_adapter_config(Some(&saved.config_text), after),
        Some(KickAdapterConfig {
            channel_name: some("c"),
            client_id: some("id"),
            client_secret: some("secret"),
            oauth_token: some("token"),
        })
    );
}

#[test]
fn a_saved_channel_is_loaded_beside_real_numbers() {
    let existing = "{\"rate\":0.1,\"limits\":[1.7976931348623157e308,-2.5]}";
    let saved = save_adapter_config(Some(existing), "c", "i", "s", "").unwrap();
    assert_eq!(read_channel(Some(&saved.config_text)), some("c"));
    let root = parse(&saved.config_text).unwrap();
    assert!(matches!(root.get("rate"), Some(Json::Real(_))));
    assert!(matches!(root.get("limits"), Some(Json::Array(_))));
}

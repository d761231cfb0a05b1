use aw_watcher_lastfm::config::{
    default_config_text, load_config, Config, ConfigSource, StartupError,
    DEFAULT_POLLING_INTERVAL, MIN_POLLING_INTERVAL,
};
use aw_watcher_lastfm::document::{Json, Number};
use aw_watcher_lastfm::window::MAX_SPAN_SECS;

fn settings(v: serde_json::Value) -> Json {
    match v {
        serde_json::Value::Null => Json::Null,
        serde_json::Value::Bool(b) => Json::Bool(b),
        serde_json::Value::Number(n) => Json::Number(match (n.as_u64(), n.as_i64()) {
            (Some(u), _) => Number::Unsigned(u),
            (None, Some(i)) => Number::Negative(i),
            (None, None) => Number::Real(n.to_string()),
        }),
        serde_json::Value::String(s) => Json::Text(s),
        serde_json::Value::Array(items) => Json::Array(items.into_iter().map(settings).collect()),
        serde_json::Value::Object(members) => {
            Json::Object(members.into_iter().map(|(k, v)| (k, settings(v))).collect())
        }
    }
}

fn yaml(text: &str) -> ConfigSource {
    match serde_yaml::from_str::<serde_json::Value>(text) {
        Ok(v) => ConfigSource::Parsed(settings(v)),
        Err(_) => ConfigSource::Malformed,
    }
}

#[test]
fn settings_with_everything_load() {
    assert_eq!(
        load_config(&yaml("username: someone\napikey: 0123abc\npolling_interval: 5")),
        Ok(Config { username: "someone".to_string(), apikey: "0123abc".to_string(), polling_interval: 5 })
    );
}

#[test]
fn settings_without_an_interval_poll_every_ten_seconds() {
    for text in [
        "username: someone\napikey: 0123abc",
        "username: someone\napikey: 0123abc\npolling_interval: fast",
        "username: someone\napikey: 0123abc\npolling_interval: -5",
        "username: someone\napikey: 0123abc\npolling_interval: 4.5",
        "username: someone\napikey: 0123abc\npolling_interval: \"5\"",
        "username: someone\napikey: 0123abc\npolling_interval: ~",
    ] {
        let config = load_config(&yaml(text)).unwrap();
        assert_eq!(config.polling_interval, 10, "{}", text);
    }
    assert_eq!(DEFAULT_POLLING_INTERVAL, 10);
}

#[test]
fn interval_must_be_three_seconds_at_least() {
    for (interval, ok) in [(0u64, false), (1, false), (2, false), (3, true), (4, true), (3600, true)] {
        let text = format!("username: someone\napikey: 0123abc\npolling_interval: {}", interval);
        let loaded = load_config(&yaml(&text));
        if ok {
            assert_eq!(loaded.unwrap().polling_interval, interval);
        } else {
            assert_eq!(loaded, Err(StartupError::InvalidInterval));
        }
    }
    assert_eq!(MIN_POLLING_INTERVAL, 3);
}

#[test]
fn interval_must_be_a_span_that_can_be_represented() {
    let text = format!("username: someone\napikey: 0123abc\npolling_interval: {}", MAX_SPAN_SECS);
    assert_eq!(load_config(&yaml(&text)).unwrap().polling_interval, MAX_SPAN_SECS as u64);
    let text = format!("username: someone\napikey: 0123abc\npolling_interval: {}", MAX_SPAN_SECS as u64 + 1);
    assert_eq!(load_config(&yaml(&text)), Err(StartupError::InvalidInterval));
    let text = format!("username: someone\napikey: 0123abc\npolling_interval: {}", u64::MAX);
    assert_eq!(load_config(&yaml(&text)), Err(StartupError::InvalidInterval));
}

#[test]
fn new_settings_file_is_refused_until_it_is_filled_in() {
    assert_eq!(load_config(&yaml(default_config_text())), Err(StartupError::UnsetUsername));
    assert_eq!(
        default_config_text(),
        "username: your_username\napikey: your-api-key\npolling_interval: 10"
    );
}

#[test]
fn placeholders_and_empty_values_are_refused() {
    assert_eq!(
        load_config(&yaml("username: your_username\napikey: 0123abc")),
        Err(StartupError::UnsetUsername)
    );
    assert_eq!(load_config(&yaml("username: \"\"\napikey: 0123abc")), Err(StartupError::UnsetUsername));
    assert_eq!(
        load_config(&yaml("username: someone\napikey: your-api-key")),
        Err(StartupError::UnsetApiKey)
    );
    assert_eq!(load_config(&yaml("username: someone\napikey: \"\"")), Err(StartupError::UnsetApiKey));
}

#[test]
fn missing_settings_are_told_apart() {
    assert_eq!(load_config(&yaml("username: someone")), Err(StartupError::MissingApiKey));
    assert_eq!(load_config(&yaml("apikey: 0123abc")), Err(StartupError::MissingUsername));
    assert_eq!(load_config(&yaml("username: someone\napikey: 17")), Err(StartupError::MissingApiKey));
    assert_eq!(load_config(&yaml("username: 17\napikey: 0123abc")), Err(StartupError::MissingUsername));
    assert_eq!(load_config(&yaml("")), Err(StartupError::MissingApiKey));
    assert_eq!(load_config(&yaml("- a\n- b")), Err(StartupError::MissingApiKey));
    assert_eq!(load_config(&ConfigSource::Missing), Err(StartupError::MissingConfig));
    assert_eq!(load_config(&ConfigSource::Malformed), Err(StartupError::MalformedConfig));
    assert_eq!(load_config(&yaml("username: [unclosed")), Err(StartupError::MalformedConfig));
}

#[test]
fn first_fault_is_the_one_reported() {
    assert_eq!(
        load_config(&yaml("username: your_username\npolling_interval: 1")),
        Err(StartupError::MissingApiKey)
    );
    assert_eq!(
        load_config(&yaml("username: your_username\napikey: your-api-key\npolling_interval: 1")),
        Err(StartupError::InvalidInterval)
    );
    assert_eq!(
        load_config(&yaml("username: your_username\napikey: your-api-key")),
        Err(StartupError::UnsetUsername)
    );
}

#[test]
fn startup_errors_say_what_is_wrong() {
    let at = "\"/home/someone/.config/activitywatch/aw-watcher-lastfm/config.yaml\"";
    assert_eq!(
        StartupError::MissingConfig.describe(at),
        format!("Please set your api key and username at {}", at)
    );
    assert_eq!(StartupError::UnsetUsername.describe(at), format!("Please set your username at {}", at));
    assert_eq!(StartupError::UnsetApiKey.describe(at), format!("Please set your api key at {}", at));
    assert_eq!(StartupError::MalformedConfig.describe(at), "Unable to parse yaml from config file");
    assert_eq!(StartupError::MissingApiKey.describe(at), "Unable to get api key from config file");
    assert_eq!(StartupError::MissingUsername.describe(at), "Unable to get username from config file");
    assert_eq!(
        StartupError::InvalidInterval.describe(at),
        "Polling interval must be at least 3 seconds"
    );
}

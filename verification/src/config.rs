//! The watcher's settings and what makes them valid.

use vstd::prelude::*;
use vstd::string::*;
use crate::document::Json;
use crate::text::same_text;
use crate::window::MAX_SPAN_SECS;

verus! {

/// The polling interval, in seconds, of settings that name none.
pub const DEFAULT_POLLING_INTERVAL: u64 = 10;

/// The shortest polling interval, in seconds, that the remote service's
/// rate limit allows.
pub const MIN_POLLING_INTERVAL: u64 = 3;

/// The user name that the settings file is first written with.
pub open spec fn placeholder_username() -> Seq<char> {
    "your_username"@
}

/// The API key that the settings file is first written with.
pub open spec fn placeholder_apikey() -> Seq<char> {
    "your-api-key"@
}

/// Valid settings.
#[derive(Debug, PartialEq, Eq)]
pub struct Config {
    pub username: String,
    pub apikey: String,
    /// Seconds between two polls.
    pub polling_interval: u64,
}

/// The mathematical value of a [`Config`].
pub struct ConfigView {
    pub username: Seq<char>,
    pub apikey: Seq<char>,
    pub polling_interval: u64,
}

impl View for Config {
    type V = ConfigView;

    open spec fn view(&self) -> ConfigView {
        ConfigView {
            username: self.username@,
            apikey: self.apikey@,
            polling_interval: self.polling_interval,
        }
    }
}

impl ConfigView {
    /// Settings are valid when the user name and the API key are set to
    /// something of the user's own, and the polling interval is at least
    /// [`MIN_POLLING_INTERVAL`] and a span that can be represented.
    pub open spec fn valid(self) -> bool {
        &&& self.username.len() > 0
        &&& self.username != placeholder_username()
        &&& self.apikey.len() > 0
        &&& self.apikey != placeholder_apikey()
        &&& MIN_POLLING_INTERVAL <= self.polling_interval <= MAX_SPAN_SECS
    }
}

/// Why the watcher cannot start.
#[derive(Clone, Copy, Debug, PartialEq, Eq, Structural)]
pub enum StartupError {
    /// There is no settings file yet.
    MissingConfig,
    /// The settings file is not a structured document.
    MalformedConfig,
    /// The settings name no API key.
    MissingApiKey,
    /// The settings name no user.
    MissingUsername,
    /// The polling interval is too short, or too long to be represented.
    InvalidInterval,
    /// The user name is empty or still the placeholder.
    UnsetUsername,
    /// The API key is empty or still the placeholder.
    UnsetApiKey,
}

impl StartupError {
    /// What keeps the watcher from starting, in words. `config_path` is the
    /// place of the settings file as it is shown to the user.
    pub open spec fn spec_describe(self, config_path: Seq<char>) -> Seq<char> {
        match self {
            StartupError::MissingConfig => "Please set your api key and username at "@
                + config_path,
            StartupError::MalformedConfig => "Unable to parse yaml from config file"@,
            StartupError::MissingApiKey => "Unable to get api key from config file"@,
            StartupError::MissingUsername => "Unable to get username from config file"@,
            StartupError::InvalidInterval => "Polling interval must be at least 3 seconds"@,
            StartupError::UnsetUsername => "Please set your username at "@ + config_path,
            StartupError::UnsetApiKey => "Please set your api key at "@ + config_path,
        }
    }

    /// What keeps the watcher from starting, in words.
    pub fn describe(&self, config_path: &str) -> (r: String)
        ensures
            r@ == self.spec_describe(config_path@),
    {
        match self {
            StartupError::MissingConfig => {
                let mut r = "Please set your api key and username at ".to_owned();
                r.append(config_path);
                r
            },
            StartupError::MalformedConfig => "Unable to parse yaml from config file".to_owned(),
            StartupError::MissingApiKey => "Unable to get api key from config file".to_owned(),
            StartupError::MissingUsername => "Unable to get username from config file".to_owned(),
            StartupError::InvalidInterval => "Polling interval must be at least 3 seconds".to_owned(),
            StartupError::UnsetUsername => {
                let mut r = "Please set your username at ".to_owned();
                r.append(config_path);
                r
            },
            StartupError::UnsetApiKey => {
                let mut r = "Please set your api key at ".to_owned();
                r.append(config_path);
                r
            },
        }
    }
}

/// What was found where the settings file should be.
#[derive(Debug, PartialEq, Eq)]
pub enum ConfigSource {
    /// No file.
    Missing,
    /// A file that does not parse.
    Malformed,
    /// A file that parses to this document.
    Parsed(Json),
}

/// The text of member `key` of the settings, where it is text.
pub open spec fn setting_text(doc: Json, key: Seq<char>) -> Option<Seq<char>> {
    match doc.spec_get(key) {
        Some(v) => v.spec_str(),
        None => None,
    }
}

/// The polling interval that the settings name: the whole number at
/// `polling_interval`, or [`DEFAULT_POLLING_INTERVAL`] where there is none.
pub open spec fn setting_interval(doc: Json) -> u64 {
    match doc.spec_get("polling_interval"@) {
        Some(v) => match v.spec_u64() {
            Some(n) => n,
            None => DEFAULT_POLLING_INTERVAL,
        },
        None => DEFAULT_POLLING_INTERVAL,
    }
}

/// The settings that a document gives, or the first reason why it gives
/// none: a missing API key, a missing user name, an interval out of range,
/// an unset user name, an unset API key, in this order.
pub open spec fn spec_settings(doc: Json) -> Result<ConfigView, StartupError> {
    match (setting_text(doc, "apikey"@), setting_text(doc, "username"@)) {
        (None, _) => Err(StartupError::MissingApiKey),
        (Some(_), None) => Err(StartupError::MissingUsername),
        (Some(apikey), Some(username)) => {
            let polling_interval = setting_interval(doc);
            if polling_interval < MIN_POLLING_INTERVAL || polling_interval > MAX_SPAN_SECS {
                Err(StartupError::InvalidInterval)
            } else if username == placeholder_username() || username.len() == 0 {
                Err(StartupError::UnsetUsername)
            } else if apikey == placeholder_apikey() || apikey.len() == 0 {
                Err(StartupError::UnsetApiKey)
            } else {
                Ok(ConfigView { username, apikey, polling_interval })
            }
        },
    }
}

/// The settings that a source gives.
pub open spec fn spec_load_config(source: ConfigSource) -> Result<ConfigView, StartupError> {
    match source {
        ConfigSource::Missing => Err(StartupError::MissingConfig),
        ConfigSource::Malformed => Err(StartupError::MalformedConfig),
        ConfigSource::Parsed(doc) => spec_settings(doc),
    }
}

/// The text that a new settings file is written with.
pub fn default_config_text() -> (r: &'static str)
    ensures
        r@ == "username: your_username\napikey: your-api-key\npolling_interval: 10"@,
{
    "username: your_username\napikey: your-api-key\npolling_interval: 10"
}

/// Reads the text of one setting.
fn read_setting<'a>(doc: &'a Json, key: &str) -> (r: Option<&'a str>)
    ensures
        match r {
            Some(s) => setting_text(*doc, key@) == Some(s@),
            None => setting_text(*doc, key@) is None,
        },
{
    match doc.get(key) {
        Some(v) => v.as_str(),
        None => None,
    }
}

/// Reads and validates the settings.
pub fn load_config(source: &ConfigSource) -> (r: Result<Config, StartupError>)
    ensures
        match r {
            Ok(config) => spec_load_config(*source) == Ok::<ConfigView, StartupError>(config@),
            Err(e) => spec_load_config(*source) == Err::<ConfigView, StartupError>(e),
        },
        r matches Ok(config) ==> config@.valid(),
{
    let doc = match source {
        ConfigSource::Missing => {
            return Err(StartupError::MissingConfig);
        },
        ConfigSource::Malformed => {
            return Err(StartupError::MalformedConfig);
        },
        ConfigSource::Parsed(doc) => doc,
    };
    let apikey = match read_setting(doc, "apikey") {
        Some(s) => s,
        None => {
            return Err(StartupError::MissingApiKey);
        },
    };
    let username = match read_setting(doc, "username") {
        Some(s) => s,
        None => {
            return Err(StartupError::MissingUsername);
        },
    };
    let named = match doc.get("polling_interval") {
        Some(v) => v.as_u64(),
        None => None,
    };
    let polling_interval = match named {
        Some(n) => n,
        None => DEFAULT_POLLING_INTERVAL,
    };
    if polling_interval < MIN_POLLING_INTERVAL || polling_interval > MAX_SPAN_SECS as u64 {
        return Err(StartupError::InvalidInterval);
    }
    if same_text(username, "your_username") || username.is_empty() {
        return Err(StartupError::UnsetUsername);
    }
    if same_text(apikey, "your-api-key") || apikey.is_empty() {
        return Err(StartupError::UnsetApiKey);
    }
    Ok(Config { username: username.to_owned(), apikey: apikey.to_owned(), polling_interval })
}

} // verus!

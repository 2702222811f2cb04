//! Configuration: the validated form the flows read, the raw form the
//! two document formats parse into, and the backend selection policy.

use vstd::prelude::*;
use crate::num::{int_text_val, int_text_valid, all_digits, digits_val, parse_i64, parse_u64};

verus! {

/// A failure to assemble a configuration.
#[derive(Debug, Clone)]
pub enum ConfigError {
    FileNotFound(String),
    MissingField(String),
    InvalidJson(String),
    Io(String),
    MissingEnvVar(String),
}

impl ConfigError {
    /// The text carried by the failure.
    pub open spec fn text(self) -> Seq<char> {
        match self {
            ConfigError::FileNotFound(s) => s@,
            ConfigError::MissingField(s) => s@,
            ConfigError::InvalidJson(s) => s@,
            ConfigError::Io(s) => s@,
            ConfigError::MissingEnvVar(s) => s@,
        }
    }

    /// A human-readable description of the failure.
    pub fn message(&self) -> (r: String)
        ensures
            r@ == self.message_spec(),
    {
        let mut out = String::new();
        match self {
            ConfigError::FileNotFound(s) => {
                out.append("Configuration file not found: ");
                out.append(s.as_str());
            },
            ConfigError::MissingField(s) => {
                out.append("Missing required field: ");
                out.append(s.as_str());
            },
            ConfigError::InvalidJson(s) => {
                out.append("Invalid JSON: ");
                out.append(s.as_str());
            },
            ConfigError::Io(s) => {
                out.append("IO error: ");
                out.append(s.as_str());
            },
            ConfigError::MissingEnvVar(s) => {
                out.append("Missing environment variable: ");
                out.append(s.as_str());
            },
        }
        out
    }

    /// What `message` returns.
    pub open spec fn message_spec(self) -> Seq<char> {
        match self {
            ConfigError::FileNotFound(s) => "Configuration file not found: "@ + s@,
            ConfigError::MissingField(s) => "Missing required field: "@ + s@,
            ConfigError::InvalidJson(s) => "Invalid JSON: "@ + s@,
            ConfigError::Io(s) => "IO error: "@ + s@,
            ConfigError::MissingEnvVar(s) => "Missing environment variable: "@ + s@,
        }
    }
}

/// A chat id as a document writes it: either text or an integer.
#[derive(Debug, Clone)]
pub enum ChatIdValue {
    Text(String),
    Integer(i64),
}

/// Whether a chat id denotes an integer that fits.
pub open spec fn chat_ok(c: ChatIdValue) -> bool {
    match c {
        ChatIdValue::Integer(_) => true,
        ChatIdValue::Text(s) => int_text_valid(s@) && i64::MIN <= int_text_val(s@) <= i64::MAX,
    }
}

/// The integer a chat id denotes.
pub open spec fn chat_val(c: ChatIdValue) -> int {
    match c {
        ChatIdValue::Integer(i) => i as int,
        ChatIdValue::Text(s) => int_text_val(s@),
    }
}

impl ChatIdValue {
    /// The chat id as an integer; text that is no integer is a missing
    /// field.
    pub fn to_chat_id(&self) -> (r: Result<i64, ConfigError>)
        ensures
            chat_ok(*self) ==> (r matches Ok(v) && v == chat_val(*self)),
            !chat_ok(*self) ==> (r matches Err(e) && e is MissingField && e.text()
                == "telegram_chat_id must be a valid integer"@),
    {
        match self {
            ChatIdValue::Integer(i) => Ok(*i),
            ChatIdValue::Text(s) => match parse_i64(s.as_str()) {
                Some(v) => Ok(v),
                None => Err(
                    ConfigError::MissingField(
                        String::from_str("telegram_chat_id must be a valid integer"),
                    ),
                ),
            },
        }
    }
}

/// A user id as a document writes it: either text or an integer.
#[derive(Debug, Clone)]
pub enum DiscordUserIdValue {
    Text(String),
    Integer(u64),
}

/// Whether a user id denotes an unsigned integer that fits.
pub open spec fn uid_ok(u: DiscordUserIdValue) -> bool {
    match u {
        DiscordUserIdValue::Integer(_) => true,
        DiscordUserIdValue::Text(s) => s@.len() > 0 && all_digits(s@) && digits_val(s@)
            <= u64::MAX,
    }
}

/// The integer a user id denotes.
pub open spec fn uid_val(u: DiscordUserIdValue) -> int {
    match u {
        DiscordUserIdValue::Integer(i) => i as int,
        DiscordUserIdValue::Text(s) => digits_val(s@),
    }
}

impl DiscordUserIdValue {
    /// The user id as an integer; text that is no integer is a missing
    /// field.
    pub fn to_u64(&self) -> (r: Result<u64, ConfigError>)
        ensures
            uid_ok(*self) ==> (r matches Ok(v) && v == uid_val(*self)),
            !uid_ok(*self) ==> (r matches Err(e) && e is MissingField && e.text()
                == "discord.user_id must be a valid integer"@),
    {
        match self {
            DiscordUserIdValue::Integer(i) => Ok(*i),
            DiscordUserIdValue::Text(s) => match parse_u64(s.as_str()) {
                Some(v) => Ok(v),
                None => Err(
                    ConfigError::MissingField(
                        String::from_str("discord.user_id must be a valid integer"),
                    ),
                ),
            },
        }
    }
}

/// Whether a backend entry is considered enabled by default.
pub fn default_enabled() -> (r: bool)
    ensures
        r == true,
{
    true
}

/// The device name used when linking, unless the document names one.
pub fn default_device_name() -> (r: String)
    ensures
        r@ == "hook-relay"@,
{
    String::from_str("hook-relay")
}

/// The backend tried first, unless the document names one.
pub fn default_primary_messenger() -> (r: String)
    ensures
        r@ == "telegram"@,
{
    String::from_str("telegram")
}

/// How long a prompt waits for a reply, unless the document says.
pub fn default_timeout_seconds() -> (r: u64)
    ensures
        r == 300,
{
    300
}

/// Relies on `directories::BaseDirs`: the user's home directory,
/// lossily decoded, where one is known.
#[verifier::external_body]
fn home_dir() -> (r: Option<String>) {
    directories::BaseDirs::new().map(|d| d.home_dir().to_string_lossy().to_string())
}

/// Relies on `hostname::get`: the machine's name, lossily decoded; a
/// fixed fallback where it cannot be read.
#[verifier::external_body]
pub(crate) fn get_hostname() -> (r: String) {
    hostname::get().map(|h| h.to_string_lossy().to_string()).unwrap_or_else(
        |_| "unknown".to_string(),
    )
}

/// The configuration directory: `.hook_relay` under the home
/// directory, or bare `.hook_relay` where no home is known.
fn config_dir() -> String {
    match home_dir() {
        Some(h) => h.concat("/.hook_relay"),
        None => String::from_str(".hook_relay"),
    }
}

/// The path of the configuration document in its current format.
pub fn default_config_path() -> (r: String)
    ensures
        exists|d: Seq<char>| r@ == d + "/hook_config.json"@,
{
    let d = config_dir();
    let r = d.concat("/hook_config.json");
    proof {
        assert(r@ == d@ + "/hook_config.json"@);
    }
    r
}

/// The path of the configuration document in the older format.
pub fn legacy_config_path() -> (r: String)
    ensures
        exists|d: Seq<char>| r@ == d + "/telegram_hook.json"@,
{
    let d = config_dir();
    let r = d.concat("/telegram_hook.json");
    proof {
        assert(r@ == d@ + "/telegram_hook.json"@);
    }
    r
}

/// The path of the persisted allow-list.
pub fn default_always_allow_path() -> (r: String)
    ensures
        exists|d: Seq<char>| r@ == d + "/always_allow.json"@,
{
    let d = config_dir();
    let r = d.concat("/always_allow.json");
    proof {
        assert(r@ == d@ + "/always_allow.json"@);
    }
    r
}

/// The directory of the text-reply backend's protocol data.
pub fn default_signal_data_path() -> (r: String)
    ensures
        exists|d: Seq<char>| r@ == d + "/signal_data"@,
{
    let d = config_dir();
    let r = d.concat("/signal_data");
    proof {
        assert(r@ == d@ + "/signal_data"@);
    }
    r
}

/// A backend entry of the current document format, for the
/// button-reply backend.
#[derive(Debug, Clone)]
pub struct TelegramConfigFile {
    pub enabled: bool,
    pub bot_token: String,
    pub chat_id: ChatIdValue,
}

/// A backend entry of the current document format, for the text-reply
/// backend.
#[derive(Debug, Clone)]
pub struct SignalConfigFile {
    pub enabled: bool,
    pub phone_number: String,
    pub device_name: String,
    pub data_path: Option<String>,
}

/// A backend entry of the current document format, for the
/// direct-message backend.
#[derive(Debug, Clone)]
pub struct DiscordConfigFile {
    pub enabled: bool,
    pub bot_token: String,
    pub user_id: DiscordUserIdValue,
}

/// The preferences of the current document format.
#[derive(Debug, Clone)]
pub struct PreferencesData {
    pub primary_messenger: String,
    pub timeout_seconds: u64,
}

/// The current document format, parsed but not yet validated.
#[derive(Debug, Clone)]
pub struct NewConfigData {
    pub telegram: Option<TelegramConfigFile>,
    pub signal: Option<SignalConfigFile>,
    pub discord: Option<DiscordConfigFile>,
    pub preferences: PreferencesData,
}

/// The older document format: one backend, token and chat id.
#[derive(Debug, Clone)]
pub struct LegacyConfigData {
    pub telegram_bot_token: String,
    pub telegram_chat_id: ChatIdValue,
}

/// The validated button-reply backend settings.
#[derive(Debug, Clone)]
pub struct TelegramConfig {
    pub bot_token: String,
    pub chat_id: i64,
}

/// The validated text-reply backend settings.
#[derive(Debug, Clone)]
pub struct SignalConfig {
    pub enabled: bool,
    pub phone_number: String,
    pub device_name: String,
    pub data_path: String,
}

/// The validated direct-message backend settings.
#[derive(Debug, Clone)]
pub struct DiscordConfig {
    pub enabled: bool,
    pub bot_token: String,
    pub user_id: u64,
}

/// The validated configuration a flow runs with.
#[derive(Debug, Clone)]
pub struct Config {
    pub hostname: String,
    pub timeout_seconds: u64,
    pub primary_messenger: String,
    pub telegram: Option<TelegramConfig>,
    pub signal: Option<SignalConfig>,
    pub discord: Option<DiscordConfig>,
}

/// Whether a document's button-reply entry counts: present, enabled,
/// and with a token.
pub open spec fn tel_considered(t: Option<TelegramConfigFile>) -> bool {
    match t {
        Option::Some(tc) => tc.enabled && tc.bot_token@.len() > 0,
        Option::None => false,
    }
}

/// Whether a document's text-reply entry counts: present and enabled.
pub open spec fn sig_considered(s: Option<SignalConfigFile>) -> bool {
    match s {
        Option::Some(sc) => sc.enabled,
        Option::None => false,
    }
}

/// Whether a document's direct-message entry counts: present and
/// enabled.
pub open spec fn disc_considered(d: Option<DiscordConfigFile>) -> bool {
    match d {
        Option::Some(dc) => dc.enabled,
        Option::None => false,
    }
}

impl Config {
    /// Validates the current document format: a counted button-reply
    /// entry must have an integer chat id, a counted direct-message
    /// entry an integer user id, and at least one backend must count.
    pub fn from_new_format(data: NewConfigData, hostname: String) -> (r: Result<
        Config,
        ConfigError,
    >)
        ensures
            tel_considered(data.telegram) && !chat_ok(data.telegram->0.chat_id) ==> (r matches Err(
                e,
            ) && e is MissingField),
            (tel_considered(data.telegram) ==> chat_ok(data.telegram->0.chat_id))
                && disc_considered(data.discord) && !uid_ok(data.discord->0.user_id) ==> (
            r matches Err(e) && e is MissingField),
            (tel_considered(data.telegram) ==> chat_ok(data.telegram->0.chat_id)) && (
            disc_considered(data.discord) ==> uid_ok(data.discord->0.user_id)) && !tel_considered(
                data.telegram,
            ) && !sig_considered(data.signal) && !disc_considered(data.discord) ==> (
            r matches Err(e) && e is MissingField && e.text()
                == "at least one messenger must be configured"@),
            (tel_considered(data.telegram) ==> chat_ok(data.telegram->0.chat_id)) && (
            disc_considered(data.discord) ==> uid_ok(data.discord->0.user_id)) && (tel_considered(
                data.telegram,
            ) || sig_considered(data.signal) || disc_considered(data.discord)) ==> (
            r matches Ok(c) && {
                &&& c.hostname@ == hostname@
                &&& c.timeout_seconds == data.preferences.timeout_seconds
                &&& c.primary_messenger@ == data.preferences.primary_messenger@
                &&& c.telegram is Some <==> tel_considered(data.telegram)
                &&& tel_considered(data.telegram) ==> c.telegram->0.bot_token@
                    == data.telegram->0.bot_token@ && c.telegram->0.chat_id == chat_val(
                    data.telegram->0.chat_id,
                )
                &&& c.signal is Some <==> sig_considered(data.signal)
                &&& sig_considered(data.signal) ==> {
                    &&& c.signal->0.enabled
                    &&& c.signal->0.phone_number@ == data.signal->0.phone_number@
                    &&& c.signal->0.device_name@ == data.signal->0.device_name@
                    &&& data.signal->0.data_path is Some ==> c.signal->0.data_path@
                        == data.signal->0.data_path->0@
                }
                &&& c.discord is Some <==> disc_considered(data.discord)
                &&& disc_considered(data.discord) ==> c.discord->0.enabled
                    && c.discord->0.bot_token@ == data.discord->0.bot_token@
                    && c.discord->0.user_id == uid_val(data.discord->0.user_id)
            }),
    {
        let telegram: Option<TelegramConfig> = match &data.telegram {
            Some(t) => {
                if t.enabled && !t.bot_token.as_str().is_empty() {
                    match t.chat_id.to_chat_id() {
                        Ok(chat_id) => Some(
                            TelegramConfig { bot_token: t.bot_token.clone(), chat_id },
                        ),
                        Err(e) => {
                            return Err(e);
                        },
                    }
                } else {
                    None
                }
            },
            None => None,
        };
        let signal: Option<SignalConfig> = match &data.signal {
            Some(s) => {
                if s.enabled {
                    let data_path = match &s.data_path {
                        Some(p) => p.clone(),
                        None => default_signal_data_path(),
                    };
                    Some(
                        SignalConfig {
                            enabled: true,
                            phone_number: s.phone_number.clone(),
                            device_name: s.device_name.clone(),
                            data_path,
                        },
                    )
                } else {
                    None
                }
            },
            None => None,
        };
        let discord: Option<DiscordConfig> = match &data.discord {
            Some(d) => {
                if d.enabled {
                    match d.user_id.to_u64() {
                        Ok(user_id) => Some(
                            DiscordConfig { enabled: true, bot_token: d.bot_token.clone(), user_id },
                        ),
                        Err(e) => {
                            return Err(e);
                        },
                    }
                } else {
                    None
                }
            },
            None => None,
        };
        if telegram.is_none() && signal.is_none() && discord.is_none() {
            return Err(
                ConfigError::MissingField(
                    String::from_str("at least one messenger must be configured"),
                ),
            );
        }
        Ok(
            Config {
                hostname,
                timeout_seconds: data.preferences.timeout_seconds,
                primary_messenger: data.preferences.primary_messenger,
                telegram,
                signal,
                discord,
            },
        )
    }

    /// Validates the older document format: the token must be present
    /// and the chat id an integer; the defaults fill the rest.
    pub fn from_legacy_format(data: LegacyConfigData, hostname: String) -> (r: Result<
        Config,
        ConfigError,
    >)
        ensures
            data.telegram_bot_token@.len() == 0 ==> (r matches Err(e) && e is MissingField
                && e.text() == "telegram_bot_token"@),
            data.telegram_bot_token@.len() > 0 && !chat_ok(data.telegram_chat_id) ==> (
            r matches Err(e) && e is MissingField),
            data.telegram_bot_token@.len() > 0 && chat_ok(data.telegram_chat_id) ==> (
            r matches Ok(c) && {
                &&& c.hostname@ == hostname@
                &&& c.timeout_seconds == 300
                &&& c.primary_messenger@ == "telegram"@
                &&& c.telegram matches Some(t) && t.bot_token@ == data.telegram_bot_token@
                    && t.chat_id == chat_val(data.telegram_chat_id)
                &&& c.signal is None
                &&& c.discord is None
            }),
    {
        if data.telegram_bot_token.as_str().is_empty() {
            return Err(ConfigError::MissingField(String::from_str("telegram_bot_token")));
        }
        let chat_id = match data.telegram_chat_id.to_chat_id() {
            Ok(v) => v,
            Err(e) => {
                return Err(e);
            },
        };
        Ok(
            Config {
                hostname,
                timeout_seconds: default_timeout_seconds(),
                primary_messenger: default_primary_messenger(),
                telegram: Some(
                    TelegramConfig { bot_token: data.telegram_bot_token, chat_id },
                ),
                signal: None,
                discord: None,
            },
        )
    }
}

fn get_str_field(v: &serde_json::Value, key: &str) -> Option<String> {
    match crate::jsonio::json_get(v, key) {
        None => None,
        Some(x) => crate::jsonio::json_as_str(x),
    }
}

fn extract_chat_id(v: &serde_json::Value) -> Option<ChatIdValue> {
    match crate::jsonio::json_as_str(v) {
        Some(s) => Some(ChatIdValue::Text(s)),
        None => match crate::jsonio::json_as_i64(v) {
            Some(i) => Some(ChatIdValue::Integer(i)),
            None => None,
        },
    }
}

fn extract_user_id(v: &serde_json::Value) -> Option<DiscordUserIdValue> {
    match crate::jsonio::json_as_str(v) {
        Some(s) => Some(DiscordUserIdValue::Text(s)),
        None => match crate::jsonio::json_as_u64(v) {
            Some(i) => Some(DiscordUserIdValue::Integer(i)),
            None => None,
        },
    }
}

fn extract_enabled(v: &serde_json::Value) -> Option<bool> {
    match crate::jsonio::json_get(v, "enabled") {
        None => Some(default_enabled()),
        Some(x) => crate::jsonio::json_as_bool(x),
    }
}

fn extract_telegram_entry(v: &serde_json::Value) -> Option<TelegramConfigFile> {
    let enabled = match extract_enabled(v) {
        Some(b) => b,
        None => {
            return None;
        },
    };
    let bot_token = match get_str_field(v, "bot_token") {
        Some(s) => s,
        None => {
            return None;
        },
    };
    let chat_id = match crate::jsonio::json_get(v, "chat_id") {
        Some(x) => match extract_chat_id(x) {
            Some(c) => c,
            None => {
                return None;
            },
        },
        None => {
            return None;
        },
    };
    Some(TelegramConfigFile { enabled, bot_token, chat_id })
}

fn extract_signal_entry(v: &serde_json::Value) -> Option<SignalConfigFile> {
    let enabled = match extract_enabled(v) {
        Some(b) => b,
        None => {
            return None;
        },
    };
    let phone_number = match get_str_field(v, "phone_number") {
        Some(s) => s,
        None => {
            return None;
        },
    };
    let device_name = match crate::jsonio::json_get(v, "device_name") {
        None => default_device_name(),
        Some(x) => match crate::jsonio::json_as_str(x) {
            Some(s) => s,
            None => {
                return None;
            },
        },
    };
    let data_path = match crate::jsonio::json_get(v, "data_path") {
        None => None,
        Some(x) => {
            if crate::jsonio::json_is_null(x) {
                None
            } else {
                match crate::jsonio::json_as_str(x) {
                    Some(s) => Some(s),
                    None => {
                        return None;
                    },
                }
            }
        },
    };
    Some(SignalConfigFile { enabled, phone_number, device_name, data_path })
}

fn extract_discord_entry(v: &serde_json::Value) -> Option<DiscordConfigFile> {
    let enabled = match extract_enabled(v) {
        Some(b) => b,
        None => {
            return None;
        },
    };
    let bot_token = match get_str_field(v, "bot_token") {
        Some(s) => s,
        None => {
            return None;
        },
    };
    let user_id = match crate::jsonio::json_get(v, "user_id") {
        Some(x) => match extract_user_id(x) {
            Some(u) => u,
            None => {
                return None;
            },
        },
        None => {
            return None;
        },
    };
    Some(DiscordConfigFile { enabled, bot_token, user_id })
}

fn extract_preferences(v: Option<&serde_json::Value>) -> Option<PreferencesData> {
    match v {
        None => Some(
            PreferencesData {
                primary_messenger: default_primary_messenger(),
                timeout_seconds: default_timeout_seconds(),
            },
        ),
        Some(p) => {
            let primary_messenger = match crate::jsonio::json_get(p, "primary_messenger") {
                None => default_primary_messenger(),
                Some(x) => match crate::jsonio::json_as_str(x) {
                    Some(s) => s,
                    None => {
                        return None;
                    },
                },
            };
            let timeout_seconds = match crate::jsonio::json_get(p, "timeout_seconds") {
                None => default_timeout_seconds(),
                Some(x) => match crate::jsonio::json_as_u64(x) {
                    Some(t) => t,
                    None => {
                        return None;
                    },
                },
            };
            Some(PreferencesData { primary_messenger, timeout_seconds })
        },
    }
}

fn extract_new_data(v: &serde_json::Value) -> Option<NewConfigData> {
    if !crate::jsonio::json_is_object(v) {
        return None;
    }
    let messengers = match crate::jsonio::json_get(v, "messengers") {
        Some(m) => m,
        None => {
            return None;
        },
    };
    if !crate::jsonio::json_is_object(messengers) {
        return None;
    }
    let telegram = match crate::jsonio::json_get(messengers, "telegram") {
        None => None,
        Some(t) => {
            if crate::jsonio::json_is_null(t) {
                None
            } else {
                match extract_telegram_entry(t) {
                    Some(e) => Some(e),
                    None => {
                        return None;
                    },
                }
            }
        },
    };
    let signal = match crate::jsonio::json_get(messengers, "signal") {
        None => None,
        Some(s) => {
            if crate::jsonio::json_is_null(s) {
                None
            } else {
                match extract_signal_entry(s) {
                    Some(e) => Some(e),
                    None => {
                        return None;
                    },
                }
            }
        },
    };
    let discord = match crate::jsonio::json_get(messengers, "discord") {
        None => None,
        Some(d) => {
            if crate::jsonio::json_is_null(d) {
                None
            } else {
                match extract_discord_entry(d) {
                    Some(e) => Some(e),
                    None => {
                        return None;
                    },
                }
            }
        },
    };
    let preferences = match extract_preferences(crate::jsonio::json_get(v, "preferences")) {
        Some(p) => p,
        None => {
            return None;
        },
    };
    Some(NewConfigData { telegram, signal, discord, preferences })
}

fn extract_legacy_data(v: &serde_json::Value) -> Option<LegacyConfigData> {
    if !crate::jsonio::json_is_object(v) {
        return None;
    }
    let telegram_bot_token = match get_str_field(v, "telegram_bot_token") {
        Some(s) => s,
        None => {
            return None;
        },
    };
    let telegram_chat_id = match crate::jsonio::json_get(v, "telegram_chat_id") {
        Some(x) => match extract_chat_id(x) {
            Some(c) => c,
            None => {
                return None;
            },
        },
        None => {
            return None;
        },
    };
    Some(LegacyConfigData { telegram_bot_token, telegram_chat_id })
}

impl Config {
    /// Reads a configuration document: the current format is tried
    /// first, then the older one; a document that fits neither is
    /// invalid. Validation of what was read is `from_new_format` and
    /// `from_legacy_format`, whose contracts say exactly which
    /// documents are accepted.
    pub fn from_json_str(content: &str) -> Result<Config, ConfigError> {
        match crate::jsonio::json_parse(content) {
            None => Err(
                ConfigError::InvalidJson(String::from_str("the document is not valid JSON")),
            ),
            Some(v) => match extract_new_data(&v) {
                Some(data) => Config::from_new_format(data, get_hostname()),
                None => match extract_legacy_data(&v) {
                    Some(d) => Config::from_legacy_format(d, get_hostname()),
                    None => Err(
                        ConfigError::InvalidJson(
                            String::from_str("the document fits neither configuration format"),
                        ),
                    ),
                },
            },
        }
    }
}

/// The chat backends a flow can select.
#[derive(Debug, Clone, Copy, PartialEq, Eq, Structural)]
pub enum BackendKind {
    Telegram,
    Discord,
    Signal,
}

/// Whether a validated configuration has a usable entry for a backend.
pub open spec fn backend_configured(c: Config, b: BackendKind) -> bool {
    match b {
        BackendKind::Telegram => c.telegram is Some,
        BackendKind::Discord => match c.discord {
            Option::Some(d) => d.enabled,
            Option::None => false,
        },
        BackendKind::Signal => match c.signal {
            Option::Some(s) => s.enabled,
            Option::None => false,
        },
    }
}

/// The backend a primary-backend name denotes, if any.
pub open spec fn primary_kind(p: Seq<char>) -> Option<BackendKind> {
    if p == "telegram"@ {
        Option::Some(BackendKind::Telegram)
    } else if p == "discord"@ {
        Option::Some(BackendKind::Discord)
    } else if p == "signal"@ {
        Option::Some(BackendKind::Signal)
    } else {
        Option::None
    }
}

/// The backend used when the primary is absent or not usable: the
/// first usable one in a fixed order.
pub open spec fn fallback_spec(c: Config) -> Option<BackendKind> {
    if backend_configured(c, BackendKind::Telegram) {
        Option::Some(BackendKind::Telegram)
    } else if backend_configured(c, BackendKind::Discord) {
        Option::Some(BackendKind::Discord)
    } else if backend_configured(c, BackendKind::Signal) {
        Option::Some(BackendKind::Signal)
    } else {
        Option::None
    }
}

/// The backend a flow uses: the configured primary when it is usable,
/// else the first usable one in a fixed order, else none.
pub open spec fn select_spec(c: Config) -> Option<BackendKind> {
    match primary_kind(c.primary_messenger@) {
        Option::Some(k) => if backend_configured(c, k) {
            Option::Some(k)
        } else {
            fallback_spec(c)
        },
        Option::None => fallback_spec(c),
    }
}

/// Selects the backend for a flow that can fall back to silence: a
/// notification is simply skipped when no backend is usable.
pub fn select_backend(c: &Config) -> (r: Option<BackendKind>)
    ensures
        r == select_spec(*c),
{
    let primary = if crate::text::str_eq(c.primary_messenger.as_str(), "telegram") {
        Some(BackendKind::Telegram)
    } else if crate::text::str_eq(c.primary_messenger.as_str(), "discord") {
        Some(BackendKind::Discord)
    } else if crate::text::str_eq(c.primary_messenger.as_str(), "signal") {
        Some(BackendKind::Signal)
    } else {
        None
    };
    match primary {
        Some(k) => {
            if backend_usable(c, k) {
                return Some(k);
            }
        },
        None => {},
    }
    if backend_usable(c, BackendKind::Telegram) {
        Some(BackendKind::Telegram)
    } else if backend_usable(c, BackendKind::Discord) {
        Some(BackendKind::Discord)
    } else if backend_usable(c, BackendKind::Signal) {
        Some(BackendKind::Signal)
    } else {
        None
    }
}

fn backend_usable(c: &Config, b: BackendKind) -> (r: bool)
    ensures
        r == backend_configured(*c, b),
{
    match b {
        BackendKind::Telegram => c.telegram.is_some(),
        BackendKind::Discord => match &c.discord {
            Some(d) => d.enabled,
            None => false,
        },
        BackendKind::Signal => match &c.signal {
            Some(s) => s.enabled,
            None => false,
        },
    }
}

/// Selects the backend for a flow that must reach the operator: with
/// no usable backend the flow fails fast, before any prompt is sent.
pub fn select_backend_required(c: &Config) -> (r: Result<BackendKind, ConfigError>)
    ensures
        match select_spec(*c) {
            Option::Some(k) => r matches Ok(v) && v == k,
            Option::None => r matches Err(e) && e is MissingField && e.text()
                == "at least one messenger must be configured"@,
        },
{
    match select_backend(c) {
        Some(k) => Ok(k),
        None => Err(
            ConfigError::MissingField(
                String::from_str("at least one messenger must be configured"),
            ),
        ),
    }
}

} // verus!

//! The configuration keys that can be read and written by name, and how a
//! text value becomes a setting: `set_value` and `get_value` address
//! settings with dotted keys, and `.clauderc` files with upper-case names.

use vstd::prelude::*;
use crate::error::{ClaudeError, Result};
use crate::text::{parse_unsigned, parse_bool, parse_u32_or, parse_u64_or, parse_bool_or};
use crate::image_processing::str_is;

verus! {

/// A setting that can be addressed by name.
#[derive(Debug, Clone, Copy, PartialEq, Eq, Structural)]
pub enum ConfigKey {
    ApiKey,
    BaseUrl,
    DefaultModel,
    MaxTokens,
    Temperature,
    TopP,
    TopK,
    Timeout,
    Stream,
    UiTheme,
    UiVimMode,
    LoggingLevel,
    LoggingConsole,
    LoggingStructured,
    MaxConcurrentRequests,
    CacheSizeMb,
    EnableMonitoring,
    Editor,
    Shell,
    EnableAutocomplete,
    EnableSyntaxHighlighting,
    IndentSize,
    UseTabs,
    MaxLineLength,
    AutoFormat,
}

/// The setting a dotted key names.
pub open spec fn key_named(name: Seq<char>) -> Option<ConfigKey> {
    if name == "api.anthropic_api_key"@ { Some(ConfigKey::ApiKey) }
    else if name == "api.base_url"@ { Some(ConfigKey::BaseUrl) }
    else if name == "api.default_model"@ { Some(ConfigKey::DefaultModel) }
    else if name == "api.max_tokens"@ { Some(ConfigKey::MaxTokens) }
    else if name == "api.temperature"@ { Some(ConfigKey::Temperature) }
    else if name == "api.top_p"@ { Some(ConfigKey::TopP) }
    else if name == "api.top_k"@ { Some(ConfigKey::TopK) }
    else if name == "api.timeout"@ { Some(ConfigKey::Timeout) }
    else if name == "api.stream"@ { Some(ConfigKey::Stream) }
    else if name == "ui.theme"@ { Some(ConfigKey::UiTheme) }
    else if name == "ui.vim_mode"@ { Some(ConfigKey::UiVimMode) }
    else if name == "logging.level"@ { Some(ConfigKey::LoggingLevel) }
    else if name == "logging.console"@ { Some(ConfigKey::LoggingConsole) }
    else if name == "logging.structured"@ { Some(ConfigKey::LoggingStructured) }
    else if name == "performance.max_concurrent_requests"@ { Some(ConfigKey::MaxConcurrentRequests) }
    else if name == "performance.cache_size_mb"@ { Some(ConfigKey::CacheSizeMb) }
    else if name == "performance.enable_monitoring"@ { Some(ConfigKey::EnableMonitoring) }
    else if name == "preferences.editor"@ { Some(ConfigKey::Editor) }
    else if name == "preferences.shell"@ { Some(ConfigKey::Shell) }
    else if name == "preferences.enable_autocomplete"@ { Some(ConfigKey::EnableAutocomplete) }
    else if name == "preferences.enable_syntax_highlighting"@ { Some(ConfigKey::EnableSyntaxHighlighting) }
    else if name == "preferences.code_style.indent_size"@ { Some(ConfigKey::IndentSize) }
    else if name == "preferences.code_style.use_tabs"@ { Some(ConfigKey::UseTabs) }
    else if name == "preferences.code_style.max_line_length"@ { Some(ConfigKey::MaxLineLength) }
    else if name == "preferences.code_style.auto_format"@ { Some(ConfigKey::AutoFormat) }
    else { None }
}

/// The refusal of an unknown key.
pub open spec fn is_unknown_key(e: ClaudeError) -> bool {
    e matches ClaudeError::Validation { field, message } && field@ == "key"@ && message@ == "Unknown configuration key"@
}

/// The setting `key` names; an unknown key is refused.
pub fn config_key(key: &str) -> (res: Result<ConfigKey>)
    ensures
        key_named(key@) matches Some(k) ==> res == Ok::<ConfigKey, ClaudeError>(k),
        key_named(key@) is None ==> (res matches Err(e) && is_unknown_key(e)),
{
    let k = String::from_str(key);
    if str_is(&k, "api.anthropic_api_key") { Ok(ConfigKey::ApiKey) }
    else if str_is(&k, "api.base_url") { Ok(ConfigKey::BaseUrl) }
    else if str_is(&k, "api.default_model") { Ok(ConfigKey::DefaultModel) }
    else if str_is(&k, "api.max_tokens") { Ok(ConfigKey::MaxTokens) }
    else if str_is(&k, "api.temperature") { Ok(ConfigKey::Temperature) }
    else if str_is(&k, "api.top_p") { Ok(ConfigKey::TopP) }
    else if str_is(&k, "api.top_k") { Ok(ConfigKey::TopK) }
    else if str_is(&k, "api.timeout") { Ok(ConfigKey::Timeout) }
    else if str_is(&k, "api.stream") { Ok(ConfigKey::Stream) }
    else if str_is(&k, "ui.theme") { Ok(ConfigKey::UiTheme) }
    else if str_is(&k, "ui.vim_mode") { Ok(ConfigKey::UiVimMode) }
    else if str_is(&k, "logging.level") { Ok(ConfigKey::LoggingLevel) }
    else if str_is(&k, "logging.console") { Ok(ConfigKey::LoggingConsole) }
    else if str_is(&k, "logging.structured") { Ok(ConfigKey::LoggingStructured) }
    else if str_is(&k, "performance.max_concurrent_requests") { Ok(ConfigKey::MaxConcurrentRequests) }
    else if str_is(&k, "performance.cache_size_mb") { Ok(ConfigKey::CacheSizeMb) }
    else if str_is(&k, "performance.enable_monitoring") { Ok(ConfigKey::EnableMonitoring) }
    else if str_is(&k, "preferences.editor") { Ok(ConfigKey::Editor) }
    else if str_is(&k, "preferences.shell") { Ok(ConfigKey::Shell) }
    else if str_is(&k, "preferences.enable_autocomplete") { Ok(ConfigKey::EnableAutocomplete) }
    else if str_is(&k, "preferences.enable_syntax_highlighting") { Ok(ConfigKey::EnableSyntaxHighlighting) }
    else if str_is(&k, "preferences.code_style.indent_size") { Ok(ConfigKey::IndentSize) }
    else if str_is(&k, "preferences.code_style.use_tabs") { Ok(ConfigKey::UseTabs) }
    else if str_is(&k, "preferences.code_style.max_line_length") { Ok(ConfigKey::MaxLineLength) }
    else if str_is(&k, "preferences.code_style.auto_format") { Ok(ConfigKey::AutoFormat) }
    else {
        Err(ClaudeError::Validation {
            field: String::from_str("key"),
            message: String::from_str("Unknown configuration key"),
        })
    }
}

/// The setting a key given on the command line names: `api_key` names the
/// API key, and every dotted key names what it names in the settings.
pub open spec fn cli_key_named(name: Seq<char>) -> Option<ConfigKey> {
    if name == "api_key"@ { Some(ConfigKey::ApiKey) } else { key_named(name) }
}

/// The setting that the command-line key `key` names; an unknown key is
/// refused.
pub fn cli_config_key(key: &str) -> (res: Result<ConfigKey>)
    ensures
        cli_key_named(key@) matches Some(k) ==> res == Ok::<ConfigKey, ClaudeError>(k),
        cli_key_named(key@) is None ==> (res matches Err(e) && is_unknown_key(e)),
{
    let k = String::from_str(key);
    if str_is(&k, "api_key") { Ok(ConfigKey::ApiKey) } else { config_key(key) }
}

/// A new value for one setting, read from text. Fractional settings keep
/// their text; they are read where fractions are handled.
#[derive(Debug, Clone)]
pub enum ConfigUpdate {
    ApiKey(String),
    BaseUrl(String),
    DefaultModel(String),
    MaxTokens(u32),
    Temperature(String),
    TopP(String),
    TopK(u32),
    Timeout(u64),
    Stream(bool),
    UiTheme(String),
    UiVimMode(bool),
    LoggingLevel(String),
    LoggingConsole(bool),
    LoggingStructured(bool),
    MaxConcurrentRequests(u32),
    CacheSizeMb(u32),
    EnableMonitoring(bool),
    Editor(String),
    Shell(String),
    EnableAutocomplete(bool),
    EnableSyntaxHighlighting(bool),
    IndentSize(u32),
    UseTabs(bool),
    MaxLineLength(u32),
    AutoFormat(bool),
}

/// `v` read as a `u32`, or `d`.
pub open spec fn u32_or(v: Seq<char>, d: u32) -> nat {
    match parse_unsigned(v, u32::MAX as nat) { Some(x) => x, None => d as nat }
}

/// `v` read as a `u64`, or `d`.
pub open spec fn u64_or(v: Seq<char>, d: u64) -> nat {
    match parse_unsigned(v, u64::MAX as nat) { Some(x) => x, None => d as nat }
}

/// `v` read as a boolean, or `d`.
pub open spec fn bool_or(v: Seq<char>, d: bool) -> bool {
    match parse_bool(v) { Some(b) => b, None => d }
}

/// Whether `u` is the update that writing `v` to the setting `k` makes:
/// text settings take `v` as it is; numbers and booleans are read from `v`
/// with the defaults 4096 tokens, 40 for top-k, 30 seconds, 10 requests,
/// 100 MB, indent 4, line length 100, and streaming, console output,
/// autocompletion, highlighting and auto-format on, the other switches off.
pub open spec fn is_update_of(k: ConfigKey, v: Seq<char>, u: ConfigUpdate) -> bool {
    match u {
        ConfigUpdate::ApiKey(s) => k == ConfigKey::ApiKey && s@ == v,
        ConfigUpdate::BaseUrl(s) => k == ConfigKey::BaseUrl && s@ == v,
        ConfigUpdate::DefaultModel(s) => k == ConfigKey::DefaultModel && s@ == v,
        ConfigUpdate::MaxTokens(n) => k == ConfigKey::MaxTokens && n == u32_or(v, 4096),
        ConfigUpdate::Temperature(s) => k == ConfigKey::Temperature && s@ == v,
        ConfigUpdate::TopP(s) => k == ConfigKey::TopP && s@ == v,
        ConfigUpdate::TopK(n) => k == ConfigKey::TopK && n == u32_or(v, 40),
        ConfigUpdate::Timeout(n) => k == ConfigKey::Timeout && n == u64_or(v, 30),
        ConfigUpdate::Stream(b) => k == ConfigKey::Stream && b == bool_or(v, true),
        ConfigUpdate::UiTheme(s) => k == ConfigKey::UiTheme && s@ == v,
        ConfigUpdate::UiVimMode(b) => k == ConfigKey::UiVimMode && b == bool_or(v, false),
        ConfigUpdate::LoggingLevel(s) => k == ConfigKey::LoggingLevel && s@ == v,
        ConfigUpdate::LoggingConsole(b) => k == ConfigKey::LoggingConsole && b == bool_or(v, true),
        ConfigUpdate::LoggingStructured(b) => k == ConfigKey::LoggingStructured && b == bool_or(v, false),
        ConfigUpdate::MaxConcurrentRequests(n) => k == ConfigKey::MaxConcurrentRequests && n == u32_or(v, 10),
        ConfigUpdate::CacheSizeMb(n) => k == ConfigKey::CacheSizeMb && n == u32_or(v, 100),
        ConfigUpdate::EnableMonitoring(b) => k == ConfigKey::EnableMonitoring && b == bool_or(v, false),
        ConfigUpdate::Editor(s) => k == ConfigKey::Editor && s@ == v,
        ConfigUpdate::Shell(s) => k == ConfigKey::Shell && s@ == v,
        ConfigUpdate::EnableAutocomplete(b) => k == ConfigKey::EnableAutocomplete && b == bool_or(v, true),
        ConfigUpdate::EnableSyntaxHighlighting(b) => k == ConfigKey::EnableSyntaxHighlighting && b == bool_or(v, true),
        ConfigUpdate::IndentSize(n) => k == ConfigKey::IndentSize && n == u32_or(v, 4),
        ConfigUpdate::UseTabs(b) => k == ConfigKey::UseTabs && b == bool_or(v, false),
        ConfigUpdate::MaxLineLength(n) => k == ConfigKey::MaxLineLength && n == u32_or(v, 100),
        ConfigUpdate::AutoFormat(b) => k == ConfigKey::AutoFormat && b == bool_or(v, true),
    }
}

/// The update that writing `value` to the setting `k` makes.
pub fn update_for(k: ConfigKey, value: &str) -> (u: ConfigUpdate)
    ensures
        is_update_of(k, value@, u),
{
    let s = String::from_str(value);
    match k {
        ConfigKey::ApiKey => ConfigUpdate::ApiKey(s),
        ConfigKey::BaseUrl => ConfigUpdate::BaseUrl(s),
        ConfigKey::DefaultModel => ConfigUpdate::DefaultModel(s),
        ConfigKey::MaxTokens => ConfigUpdate::MaxTokens(parse_u32_or(value, 4096)),
        ConfigKey::Temperature => ConfigUpdate::Temperature(s),
        ConfigKey::TopP => ConfigUpdate::TopP(s),
        ConfigKey::TopK => ConfigUpdate::TopK(parse_u32_or(value, 40)),
        ConfigKey::Timeout => ConfigUpdate::Timeout(parse_u64_or(value, 30)),
        ConfigKey::Stream => ConfigUpdate::Stream(parse_bool_or(value, true)),
        ConfigKey::UiTheme => ConfigUpdate::UiTheme(s),
        ConfigKey::UiVimMode => ConfigUpdate::UiVimMode(parse_bool_or(value, false)),
        ConfigKey::LoggingLevel => ConfigUpdate::LoggingLevel(s),
        ConfigKey::LoggingConsole => ConfigUpdate::LoggingConsole(parse_bool_or(value, true)),
        ConfigKey::LoggingStructured => ConfigUpdate::LoggingStructured(parse_bool_or(value, false)),
        ConfigKey::MaxConcurrentRequests => ConfigUpdate::MaxConcurrentRequests(parse_u32_or(value, 10)),
        ConfigKey::CacheSizeMb => ConfigUpdate::CacheSizeMb(parse_u32_or(value, 100)),
        ConfigKey::EnableMonitoring => ConfigUpdate::EnableMonitoring(parse_bool_or(value, false)),
        ConfigKey::Editor => ConfigUpdate::Editor(s),
        ConfigKey::Shell => ConfigUpdate::Shell(s),
        ConfigKey::EnableAutocomplete => ConfigUpdate::EnableAutocomplete(parse_bool_or(value, true)),
        ConfigKey::EnableSyntaxHighlighting => ConfigUpdate::EnableSyntaxHighlighting(parse_bool_or(value, true)),
        ConfigKey::IndentSize => ConfigUpdate::IndentSize(parse_u32_or(value, 4)),
        ConfigKey::UseTabs => ConfigUpdate::UseTabs(parse_bool_or(value, false)),
        ConfigKey::MaxLineLength => ConfigUpdate::MaxLineLength(parse_u32_or(value, 100)),
        ConfigKey::AutoFormat => ConfigUpdate::AutoFormat(parse_bool_or(value, true)),
    }
}

/// The update that `set_value(key, value)` makes; an unknown key is refused.
pub fn config_update(key: &str, value: &str) -> (res: Result<ConfigUpdate>)
    ensures
        key_named(key@) matches Some(k) ==> (res matches Ok(u) && is_update_of(k, value@, u)),
        key_named(key@) is None ==> (res matches Err(e) && is_unknown_key(e)),
{
    match config_key(key) {
        Ok(k) => Ok(update_for(k, value)),
        Err(e) => Err(e),
    }
}

/// The setting a `.clauderc` name stands for.
pub open spec fn rc_key_named(name: Seq<char>) -> Option<ConfigKey> {
    if name == "ANTHROPIC_API_KEY"@ { Some(ConfigKey::ApiKey) }
    else if name == "API_BASE_URL"@ { Some(ConfigKey::BaseUrl) }
    else if name == "DEFAULT_MODEL"@ { Some(ConfigKey::DefaultModel) }
    else if name == "MAX_TOKENS"@ { Some(ConfigKey::MaxTokens) }
    else if name == "TEMPERATURE"@ { Some(ConfigKey::Temperature) }
    else if name == "STREAM"@ { Some(ConfigKey::Stream) }
    else if name == "LOG_LEVEL"@ { Some(ConfigKey::LoggingLevel) }
    else if name == "EDITOR"@ { Some(ConfigKey::Editor) }
    else if name == "SHELL"@ { Some(ConfigKey::Shell) }
    else { None }
}

/// The update that a `.clauderc` setting makes, if its name is known; the
/// values are read as `set_value` reads them.
pub fn rc_update(name: &str, value: &str) -> (res: Option<ConfigUpdate>)
    ensures
        rc_key_named(name@) matches Some(k) ==> (res matches Some(u) && is_update_of(k, value@, u)),
        rc_key_named(name@) is None ==> res is None,
{
    let n = String::from_str(name);
    let k = if str_is(&n, "ANTHROPIC_API_KEY") { ConfigKey::ApiKey }
        else if str_is(&n, "API_BASE_URL") { ConfigKey::BaseUrl }
        else if str_is(&n, "DEFAULT_MODEL") { ConfigKey::DefaultModel }
        else if str_is(&n, "MAX_TOKENS") { ConfigKey::MaxTokens }
        else if str_is(&n, "TEMPERATURE") { ConfigKey::Temperature }
        else if str_is(&n, "STREAM") { ConfigKey::Stream }
        else if str_is(&n, "LOG_LEVEL") { ConfigKey::LoggingLevel }
        else if str_is(&n, "EDITOR") { ConfigKey::Editor }
        else if str_is(&n, "SHELL") { ConfigKey::Shell }
        else { return None; };
    Some(update_for(k, value))
}

} // verus!

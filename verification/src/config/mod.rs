//! Configuration: the settings types and their defaults, the recognised
//! configuration file formats, the `.clauderc` line format, and the text
//! values that settings are read from.

pub mod advanced;
pub mod keys;

use vstd::prelude::*;
use std::collections::HashMap;
use crate::error::{ClaudeError, Result, concat_str, is_general_with, is_general_msg};
use crate::text::{split_lines, str_lines, trim_ws, trim_char, split_once, chars_of, trim_chars,
    trim_char_chars, split_once_chars, string_views};
use crate::image_processing::{ascii_lower, to_ascii_lower, str_is};
use crate::paths::{file_extension, file_name, path_extension, path_file_name};

verus! {

/// MCP 服务器配置
#[derive(Debug, Clone)]
pub struct McpServerConfig {
    /// 服务器名称
    pub name: String,
    /// 执行命令
    pub command: String,
    /// 命令参数
    pub args: Vec<String>,
    /// 环境变量
    pub env: HashMap<String, String>,
    /// 工作目录
    pub working_dir: Option<String>,
    /// 是否自动启动
    pub auto_start: bool,
}

/// UI 配置
#[derive(Debug, Clone)]
pub struct UiConfig {
    /// 主题
    pub theme: String,
    /// 是否启用 Vim 模式
    pub vim_mode: bool,
    /// 终端宽度
    pub terminal_width: Option<u16>,
    /// 是否显示行号
    pub show_line_numbers: bool,
    /// 是否启用TUI模式
    pub enable_tui: bool,
}

/// 权限配置
#[derive(Debug, Clone)]
pub struct PermissionConfig {
    /// 允许的工具
    pub allowed_tools: Vec<String>,
    /// 拒绝的工具
    pub denied_tools: Vec<String>,
    /// 是否需要确认
    pub require_confirmation: bool,
}

/// 内存配置
#[derive(Debug, Clone)]
pub struct MemoryConfig {
    /// 最大内存条目数
    pub max_entries: usize,
    /// 内存文件路径
    pub memory_file: Option<String>,
    /// 是否自动保存
    pub auto_save: bool,
}

/// 配置文件格式
#[derive(Debug, Clone, Copy, PartialEq, Eq, Structural)]
pub enum ConfigFormat {
    Json,
    Yaml,
    Toml,
    Rc, // .clauderc 格式（类似 .bashrc）
}

/// 日志配置
#[derive(Debug, Clone)]
pub struct LoggingConfig {
    /// 日志级别
    pub level: String,
    /// 日志文件路径
    pub file: Option<String>,
    /// 是否启用控制台输出
    pub console: bool,
    /// 是否启用结构化日志
    pub structured: bool,
    /// 日志格式
    pub format: String,
}

/// 性能配置
#[derive(Debug, Clone)]
pub struct PerformanceConfig {
    /// 最大并发请求数
    pub max_concurrent_requests: u32,
    /// 缓存大小（MB）
    pub cache_size_mb: u32,
    /// 是否启用性能监控
    pub enable_monitoring: bool,
    /// 性能指标收集间隔（秒）
    pub metrics_interval: u64,
}

/// 用户偏好
#[derive(Debug, Clone)]
pub struct UserPreferences {
    /// 默认编辑器
    pub editor: Option<String>,
    /// 默认 shell
    pub shell: Option<String>,
    /// 自动保存间隔（秒）
    pub autosave_interval: u64,
    /// 是否启用自动完成
    pub enable_autocomplete: bool,
    /// 是否启用语法高亮
    pub enable_syntax_highlighting: bool,
    /// 代码风格偏好
    pub code_style: CodeStyleConfig,
}

/// 代码风格配置
#[derive(Debug, Clone)]
pub struct CodeStyleConfig {
    /// 缩进大小
    pub indent_size: u32,
    /// 是否使用制表符
    pub use_tabs: bool,
    /// 行长度限制
    pub max_line_length: u32,
    /// 是否自动格式化
    pub auto_format: bool,
}


/// The default API base URL.
pub fn default_api_base_url() -> (s: String)
    ensures s@ == "https://api.anthropic.com"@,
{
    String::from_str("https://api.anthropic.com")
}

/// The default largest number of tokens in a reply.
pub fn default_max_tokens() -> (v: u32)
    ensures v == 4096,
{
    4096
}

/// The default top-k sampling parameter.
pub fn default_top_k() -> (v: u32)
    ensures v == 40,
{
    40
}

/// The default request timeout, in seconds.
pub fn default_timeout() -> (v: u64)
    ensures v == 30,
{
    30
}

/// The default number of retries.
pub fn default_max_retries() -> (v: u32)
    ensures v == 3,
{
    3
}

/// Whether replies are streamed by default.
pub fn default_stream() -> (b: bool)
    ensures b,
{
    true
}

/// The default API version.
pub fn default_api_version() -> (s: String)
    ensures s@ == "2023-06-01"@,
{
    String::from_str("2023-06-01")
}

/// The default log level.
pub fn default_log_level() -> (s: String)
    ensures s@ == "info"@,
{
    String::from_str("info")
}

/// Whether logs go to the console by default.
pub fn default_console_output() -> (b: bool)
    ensures b,
{
    true
}

/// Whether logs are structured by default.
pub fn default_structured() -> (b: bool)
    ensures !b,
{
    false
}

/// The default log format.
pub fn default_log_format() -> (s: String)
    ensures s@ == "pretty"@,
{
    String::from_str("pretty")
}

/// The default largest number of concurrent requests.
pub fn default_max_concurrent() -> (v: u32)
    ensures v == 10,
{
    10
}

/// The default cache size, in MB.
pub fn default_cache_size() -> (v: u32)
    ensures v == 100,
{
    100
}

/// Whether performance monitoring is on by default.
pub fn default_monitoring() -> (b: bool)
    ensures !b,
{
    false
}

/// The default metrics interval, in seconds.
pub fn default_metrics_interval() -> (v: u64)
    ensures v == 60,
{
    60
}

/// The default autosave interval, in seconds.
pub fn default_autosave_interval() -> (v: u64)
    ensures v == 300,
{
    300
}

/// Whether autocompletion is on by default.
pub fn default_autocomplete() -> (b: bool)
    ensures b,
{
    true
}

/// Whether syntax highlighting is on by default.
pub fn default_syntax_highlighting() -> (b: bool)
    ensures b,
{
    true
}

/// The default indent size.
pub fn default_indent_size() -> (v: u32)
    ensures v == 4,
{
    4
}

/// Whether tabs are used by default.
pub fn default_use_tabs() -> (b: bool)
    ensures !b,
{
    false
}

/// The default largest line length.
pub fn default_line_length() -> (v: u32)
    ensures v == 100,
{
    100
}

/// Whether code is formatted automatically by default.
pub fn default_auto_format() -> (b: bool)
    ensures b,
{
    true
}

impl Default for UiConfig {
    fn default() -> (c: UiConfig)
        ensures
            c.theme@ == "default"@,
            !c.vim_mode,
            c.terminal_width is None,
            c.show_line_numbers,
            !c.enable_tui,
    {
        UiConfig {
            theme: String::from_str("default"),
            vim_mode: false,
            terminal_width: None,
            show_line_numbers: true,
            enable_tui: false,
        }
    }
}

impl Default for PermissionConfig {
    fn default() -> (c: PermissionConfig)
        ensures
            string_views(c.allowed_tools@) == seq!["file_read"@, "file_write"@, "network_request"@],
            c.denied_tools@.len() == 0,
            c.require_confirmation,
    {
        let mut allowed: Vec<String> = Vec::new();
        allowed.push(String::from_str("file_read"));
        allowed.push(String::from_str("file_write"));
        allowed.push(String::from_str("network_request"));
        assert(string_views(allowed@) =~= seq!["file_read"@, "file_write"@, "network_request"@]);
        PermissionConfig { allowed_tools: allowed, denied_tools: Vec::new(), require_confirmation: true }
    }
}

impl Default for MemoryConfig {
    fn default() -> (c: MemoryConfig)
        ensures
            c.max_entries == 1000,
            c.memory_file is None,
            c.auto_save,
    {
        MemoryConfig { max_entries: 1000, memory_file: None, auto_save: true }
    }
}

impl Default for LoggingConfig {
    fn default() -> (c: LoggingConfig)
        ensures
            c.level@ == "info"@,
            c.file is None,
            c.console,
            !c.structured,
            c.format@ == "pretty"@,
    {
        LoggingConfig {
            level: default_log_level(),
            file: None,
            console: default_console_output(),
            structured: default_structured(),
            format: default_log_format(),
        }
    }
}

impl Default for PerformanceConfig {
    fn default() -> (c: PerformanceConfig)
        ensures
            c.max_concurrent_requests == 10,
            c.cache_size_mb == 100,
            !c.enable_monitoring,
            c.metrics_interval == 60,
    {
        PerformanceConfig {
            max_concurrent_requests: default_max_concurrent(),
            cache_size_mb: default_cache_size(),
            enable_monitoring: default_monitoring(),
            metrics_interval: default_metrics_interval(),
        }
    }
}

impl Default for UserPreferences {
    fn default() -> (c: UserPreferences)
        ensures
            c.editor is None,
            c.shell is None,
            c.autosave_interval == 300,
            c.enable_autocomplete,
            c.enable_syntax_highlighting,
            c.code_style.indent_size == 4,
            !c.code_style.use_tabs,
            c.code_style.max_line_length == 100,
            c.code_style.auto_format,
    {
        UserPreferences {
            editor: None,
            shell: None,
            autosave_interval: default_autosave_interval(),
            enable_autocomplete: default_autocomplete(),
            enable_syntax_highlighting: default_syntax_highlighting(),
            code_style: CodeStyleConfig::default(),
        }
    }
}

impl Default for CodeStyleConfig {
    fn default() -> (c: CodeStyleConfig)
        ensures
            c.indent_size == 4,
            !c.use_tabs,
            c.max_line_length == 100,
            c.auto_format,
    {
        CodeStyleConfig {
            indent_size: default_indent_size(),
            use_tabs: default_use_tabs(),
            max_line_length: default_line_length(),
            auto_format: default_auto_format(),
        }
    }
}

/// The configuration format of a file, from the extension of its path (any
/// case) or, for a path without a known extension, its file name.
pub open spec fn format_of(extension: Option<Seq<char>>, file_name: Option<Seq<char>>) -> Option<ConfigFormat> {
    match extension {
        Some(ext) => {
            let e = ascii_lower(ext);
            if e == "json"@ { Some(ConfigFormat::Json) }
            else if e == "yaml"@ || e == "yml"@ { Some(ConfigFormat::Yaml) }
            else if e == "toml"@ { Some(ConfigFormat::Toml) }
            else if file_name == Some(".clauderc"@) { Some(ConfigFormat::Rc) }
            else { None }
        },
        None => if file_name == Some(".clauderc"@) { Some(ConfigFormat::Rc) } else { None },
    }
}

/// The view of an optional string slice.
pub open spec fn opt_str_view(o: Option<&str>) -> Option<Seq<char>> {
    match o {
        Some(s) => Some(s@),
        None => None,
    }
}

/// Whether `res` is what a configuration file whose path has the given
/// extension and file name is read as: its format, or the refusal of an
/// unknown extension, or of a path with neither an extension nor the name
/// `.clauderc`.
pub open spec fn format_result(res: Result<ConfigFormat>, extension: Option<Seq<char>>, file_name: Option<Seq<char>>) -> bool {
    &&& format_of(extension, file_name) matches Some(f) ==> res == Ok::<ConfigFormat, ClaudeError>(f)
    &&& format_of(extension, file_name) is None ==> (res matches Err(e) && match extension {
        Some(ext) => is_general_with(e, "Unsupported config file format: "@, ext),
        None => is_general_msg(e, "Cannot detect config file format"@),
    })
}

/// The format of the configuration file at `path`, read from the path's
/// extension and file name.
pub fn detect_format(path: &str) -> (res: Result<ConfigFormat>)
    ensures
        format_result(res, path_extension(path@), path_file_name(path@)),
{
    let ext = file_extension(path);
    let name = file_name(path);
    let r = match (&ext, &name) {
        (Some(e), Some(n)) => format_for(Some(e.as_str()), Some(n.as_str())),
        (Some(e), None) => format_for(Some(e.as_str()), None),
        (None, Some(n)) => format_for(None, Some(n.as_str())),
        (None, None) => format_for(None, None),
    };
    r
}

/// The format of a configuration file given the extension and the file name
/// of its path. Unknown extensions, and paths with neither a known extension
/// nor the name `.clauderc`, are refused.
pub fn format_for(extension: Option<&str>, file_name: Option<&str>) -> (res: Result<ConfigFormat>)
    ensures
        format_result(res, opt_str_view(extension), opt_str_view(file_name)),
{
    let is_rc = match file_name {
        Some(n) => {
            let t = String::from_str(n);
            str_is(&t, ".clauderc")
        },
        None => false,
    };
    match extension {
        Some(ext) => {
            let e = to_ascii_lower(ext);
            if str_is(&e, "json") {
                Ok(ConfigFormat::Json)
            } else if str_is(&e, "yaml") || str_is(&e, "yml") {
                Ok(ConfigFormat::Yaml)
            } else if str_is(&e, "toml") {
                Ok(ConfigFormat::Toml)
            } else if is_rc {
                Ok(ConfigFormat::Rc)
            } else {
                Err(ClaudeError::General(concat_str("Unsupported config file format: ", ext)))
            }
        },
        None => {
            if is_rc {
                Ok(ConfigFormat::Rc)
            } else {
                Err(ClaudeError::General(String::from_str("Cannot detect config file format")))
            }
        },
    }
}

/// The setting a `.clauderc` line makes: after trimming, an empty line or a
/// comment (`#`) makes none; otherwise the text before the first `=` is the
/// key and the text after it the value, both trimmed, the value also
/// stripped of surrounding double and then single quotes. A line without
/// `=` makes none.
pub open spec fn rc_entry(line: Seq<char>) -> Option<(Seq<char>, Seq<char>)> {
    let t = trim_ws(line);
    if t.len() == 0 || t[0] == '#' {
        None
    } else {
        match split_once(t, '=') {
            Some((k, v)) => Some((trim_ws(k), trim_char(trim_char(trim_ws(v), '"'), '\''))),
            None => None,
        }
    }
}

/// The settings of the lines of a `.clauderc` file, in order.
pub open spec fn rc_entries(lines: Seq<Seq<char>>) -> Seq<(Seq<char>, Seq<char>)>
    decreases lines.len(),
{
    if lines.len() == 0 {
        Seq::empty()
    } else {
        rc_entries(lines.drop_last()) + match rc_entry(lines.last()) {
            Some(e) => seq![e],
            None => Seq::empty(),
        }
    }
}

/// The views of a list of key-value pairs.
pub open spec fn pair_views(v: Seq<(String, String)>) -> Seq<(Seq<char>, Seq<char>)> {
    v.map_values(|p: (String, String)| (p.0@, p.1@))
}

/// The setting of one `.clauderc` line, if it makes one.
pub fn parse_rc_line(line: &str) -> (res: Option<(String, String)>)
    ensures
        match res {
            Some((k, v)) => rc_entry(line@) == Some((k@, v@)),
            None => rc_entry(line@) is None,
        },
{
    let cs = chars_of(line);
    let t = trim_chars(&cs);
    let tc = chars_of(t.as_str());
    if tc.len() == 0 || tc[0] == '#' {
        return None;
    }
    match split_once_chars(&tc, '=') {
        Some((k, v)) => {
            let key = trim_chars(&k);
            let v1 = trim_chars(&v);
            let v2 = trim_char_chars(&chars_of(v1.as_str()), '"');
            let v3 = trim_char_chars(&chars_of(v2.as_str()), '\'');
            Some((key, v3))
        },
        None => None,
    }
}

/// The settings of a `.clauderc` file, one per line that makes one, in order.
pub fn parse_rc_format(content: &str) -> (res: Vec<(String, String)>)
    ensures
        pair_views(res@) == rc_entries(split_lines(content@)),
{
    let lines = str_lines(content);
    let ghost lv = string_views(lines@);
    let mut res: Vec<(String, String)> = Vec::new();
    let mut i: usize = 0;
    while i < lines.len()
        invariant
            i <= lines@.len(),
            lv == string_views(lines@),
            lv == split_lines(content@),
            pair_views(res@) == rc_entries(lv.take(i as int)),
        decreases lines.len() - i,
    {
        let ghost before = pair_views(res@);
        assert(lv.take(i + 1).drop_last() =~= lv.take(i as int));
        assert(lv.take(i + 1).last() == lines@[i as int]@);
        match parse_rc_line(lines[i].as_str()) {
            Some(p) => {
                res.push(p);
                assert(pair_views(res@) =~= before + seq![(p.0@, p.1@)]);
            },
            None => {
                assert(pair_views(res@) =~= before + Seq::<(Seq<char>, Seq<char>)>::empty());
            },
        }
        i = i + 1;
    }
    assert(lv.take(lines@.len() as int) =~= lv);
    res
}

} // verus!

//! The command line: commands, their options and the formats read and written.

use vstd::prelude::*;
use std::collections::HashMap;
use std::time::Duration;
use crate::text::{has_prefix, has_suffix, starts_with_str, ends_with_str, trim_ws, trim_chars, chars_of};
use crate::image_processing::str_is;
use crate::gateway::byte_len;

verus! {

/// 输出格式选项
#[derive(Debug, Clone, Copy, PartialEq, Eq, Structural)]
pub enum OutputFormat {
    /// 纯文本格式（默认）
    Text,
    /// JSON 格式（单个结果）
    Json,
    /// 流式 JSON 格式（实时流）
    StreamJson,
}

/// 输入格式选项
#[derive(Debug, Clone, Copy, PartialEq, Eq, Structural)]
pub enum InputFormat {
    /// 纯文本格式（默认）
    Text,
    /// 流式 JSON 格式（实时流输入）
    StreamJson,
}

#[derive(Debug, Clone)]
pub struct Cli {
    /// Your prompt
    pub prompt: Option<String>,

    /// Enable debug mode
    pub debug: bool,

    /// Override verbose mode setting from config
    pub verbose: bool,

    /// Print response and exit (useful for pipes)
    pub print: bool,

    /// Output format (only works with --print): "text" (default), "json" (single result), or "stream-json" (realtime streaming)
    pub output_format: Option<OutputFormat>,

    /// Input format (only works with --print): "text" (default), or "stream-json" (realtime streaming input)
    pub input_format: Option<InputFormat>,

    /// [DEPRECATED. Use --debug instead] Enable MCP debug mode (shows MCP server errors)
    pub mcp_debug: bool,

    /// Bypass all permission checks. Recommended only for sandboxes with no internet access.
    pub dangerously_skip_permissions: bool,

    /// Comma or space-separated list of tool names to allow (e.g. "Bash(git:*) Edit")
    pub allowed_tools: Vec<String>,

    /// Comma or space-separated list of tool names to deny (e.g. "Bash(git:*) Edit")
    pub disallowed_tools: Vec<String>,

    /// Load MCP servers from a JSON file or string
    pub mcp_config: Option<String>,

    /// Append a system prompt to the default system prompt
    pub append_system_prompt: Option<String>,

    /// Continue the most recent conversation
    pub continue_conversation: bool,

    /// Resume a conversation - provide a session ID or interactively select a conversation to resume
    pub resume: Option<String>,

    /// Model for the current session. Provide an alias for the latest model (e.g. 'sonnet' or 'opus') or a model's full name
    pub model: Option<String>,

    /// Enable automatic fallback to specified model when default model is overloaded (only works with --print)
    pub fallback_model: Option<String>,

    /// Additional directories to allow tool access to
    pub add_dirs: Vec<String>,

    /// Automatically connect to IDE on startup if exactly one valid IDE is available
    pub ide: bool,

    /// Only use MCP servers from --mcp-config, ignoring all other MCP configurations
    pub strict_mcp_config: bool,

    /// 配置文件路径
    pub config: Option<String>,

    pub command: Option<Commands>,
}

#[derive(Debug, Clone)]
pub enum Commands {
    /// Manage configuration (e.g. `config set -g theme dark`)
    Config {
        action: ConfigAction,
    },
    /// Configure and manage MCP servers
    Mcp {
        action: McpCommands,
    },
    /// Migrate from global npm installation to local installation
    MigrateInstaller,
    /// Set up a long-lived authentication token (requires a subscription)
    SetupToken,
    /// Check the health of the auto-updater
    Doctor,
    /// Check for updates and install if available
    Update,
    /// Install the native build. Use [target] to specify version (stable, latest, or specific version)
    Install {
        /// Target version (stable, latest, or specific version)
        target: Option<String>,
        /// Force installation even if already installed
        force: bool,
    },
    /// 显示状态信息
    Status,
    /// 查看成本和使用统计
    Cost {
        /// 查看天数（默认30天）
        days: u32,
    },
    /// 清除对话历史
    Clear,
    /// 运行演示模式
    Demo,
    /// 流式响应演示
    Stream {
        /// 测试 URL
        url: Option<String>,
        /// 是否启用实时输出
        realtime: bool,
    },
    /// 模型 API 演示
    Api {
        /// 消息内容
        message: String,
        /// 模型名称
        model: String,
        /// 是否启用流式响应
        stream: bool,
        /// 图像文件路径（可选）
        image: Option<String>,
        /// 是否启用工具调用
        tools: bool,
    },
    /// 初始化项目分析
    Init {
        /// 项目路径
        path: Option<String>,
        /// 是否强制重新分析
        force: bool,
    },
    /// 代码审查
    Review {
        /// 审查目标（文件路径或 PR 编号）
        target: Option<String>,
        /// 审查类型
        review_type: Option<String>,
    },
    /// 上下文压缩
    Compact {
        /// 压缩指令
        instructions: Option<String>,
        /// 压缩级别
        level: Option<u8>,
    },

    /// Git操作
    Git {
        command: GitCommand,
    },

    /// 语法高亮
    Highlight {
        command: HighlightCommand,
    },

    /// 进程管理
    Process {
        command: ProcessCommand,
    },

    /// 图像处理
    Image {
        command: ImageCommand,
    },
    /// 导出对话
    Export {
        /// 导出格式
        format: String,
        /// 输出文件
        output: Option<String>,
    },

    /// 内存管理
    Memory {
        action: MemoryCommands,
    },
    /// 权限管理
    Permissions {
        action: PermissionCommands,
    },
    /// 启动交互模式
    Interactive,

    /// 设置或显示 AI 模型
    Model {
        /// 设置模型名称
        set: Option<String>,
        /// 列出可用模型
        list: bool,
    },

    /// 恢复对话
    Resume {
        /// 对话 ID
        conversation_id: Option<String>,
    },

    /// 提交反馈
    Bug {
        /// 反馈内容
        message: String,
        /// 包含系统信息
        include_system: bool,
    },

    /// 查看发布说明
    ReleaseNotes {
        /// 版本号
        version: Option<String>,
    },

    /// GitHub PR 评论
    PrComments {
        /// PR URL 或编号
        pr: String,
        /// 仓库路径
        repo: Option<String>,
    },

    /// 终端设置
    TerminalSetup,

    /// Vim 模式切换
    Vim {
        /// 启用 Vim 模式
        enable: bool,
    },

    /// 退出程序
    Quit,

    /// 用户登录认证
    Login {
        /// 认证提供商 (anthropic, openai, etc.)
        provider: Option<String>,
        /// 使用浏览器认证
        browser: bool,
    },

    /// 用户登出
    Logout {
        /// 清除所有认证信息
        clear_all: bool,
    },

    /// 打开 Web UI 界面
    Ui {
        /// UI 服务器端口
        port: u16,
        /// 主机地址
        host: String,
        /// 自动打开浏览器
        open: bool,
    },

    /// 启动终端UI界面 (Terminal User Interface)
    Tui,

    /// 启动 Web 服务器
    Serve {
        /// 服务器端口
        port: u16,

        /// 绑定地址
        host: String,

        /// 静态文件目录
        static_dir: Option<String>,

        /// 禁用 CORS
        no_cors: bool,

        /// 禁用压缩
        no_compression: bool,
    },
}

#[derive(Debug, Clone)]
pub enum McpCommands {
    /// 添加 MCP 服务器
    Add {
        /// 服务器名称
        name: String,
        /// 服务器命令
        command: String,
        /// 命令参数
        args: Vec<String>,
    },
    /// 移除 MCP 服务器
    Remove {
        /// 服务器名称
        name: String,
    },
    /// 列出 MCP 服务器
    List,
    /// 启动 MCP 服务器
    Start {
        /// 服务器名称
        name: String,
    },
    /// 停止 MCP 服务器
    Stop {
        /// 服务器名称
        name: String,
    },
}

/// Git 子命令
#[derive(Debug, Clone)]
pub enum GitCommand {
    /// 查看Git状态
    Status,
    /// 添加文件到暂存区
    Add {
        /// 文件路径
        files: Vec<String>,
    },
    /// 提交更改
    Commit {
        /// 提交消息
        message: String,
    },
    /// 查看提交历史
    Log {
        /// 限制显示的提交数量
        limit: u32,
    },
    /// 查看分支
    Branch,
    /// 创建新分支
    Checkout {
        /// 分支名称
        branch: String,
        /// 创建新分支
        create: bool,
    },
    /// 查看差异
    Diff {
        /// 文件路径（可选）
        file: Option<String>,
    },
}

/// 语法高亮子命令
#[derive(Debug, Clone)]
pub enum HighlightCommand {
    /// 高亮代码文件
    File {
        /// 文件路径
        path: String,
        /// 指定语言（可选）
        language: Option<String>,
    },
    /// 高亮代码片段
    Code {
        /// 代码内容
        code: String,
        /// 语言
        language: String,
    },
    /// 列出支持的语言
    Languages,
}

/// 进程管理子命令
#[derive(Debug, Clone)]
pub enum ProcessCommand {
    /// 列出所有进程
    List,
    /// 启动新进程
    Start {
        /// 进程名称
        name: String,
        /// 执行命令
        command: String,
        /// 命令参数
        args: Vec<String>,
        /// 工作目录
        workdir: Option<String>,
        /// 捕获输出
        capture: bool,
    },
    /// 停止进程
    Stop {
        /// 进程ID或名称
        process: String,
        /// 强制终止
        force: bool,
    },
    /// 查看进程状态
    Status {
        /// 进程ID或名称
        process: String,
    },
    /// 向进程发送输入
    Send {
        /// 进程ID或名称
        process: String,
        /// 输入内容
        input: String,
    },
    /// 查看进程输出
    Output {
        /// 进程ID或名称
        process: String,
        /// 显示行数
        lines: usize,
        /// 跟踪输出
        follow: bool,
    },
    /// 重启进程
    Restart {
        /// 进程ID或名称
        process: String,
    },
}

/// 图像处理子命令
#[derive(Debug, Clone)]
pub enum ImageCommand {
    /// 调整图像大小
    Resize {
        /// 输入文件路径
        input: String,
        /// 输出文件路径
        output: String,
        /// 宽度
        width: Option<u32>,
        /// 高度
        height: Option<u32>,
        /// 质量 (1-100)
        quality: u8,
        /// 保持宽高比
        preserve_aspect: bool,
    },
    /// 转换图像格式
    Convert {
        /// 输入文件路径
        input: String,
        /// 输出文件路径
        output: String,
        /// 输出格式
        format: Option<String>,
        /// 质量 (1-100)
        quality: u8,
    },
    /// 获取图像信息
    Info {
        /// 图像文件路径
        path: String,
    },
    /// 创建缩略图
    Thumbnail {
        /// 输入文件路径
        input: String,
        /// 输出文件路径
        output: String,
        /// 缩略图大小
        size: u32,
        /// 质量 (1-100)
        quality: u8,
    },
    /// 旋转图像
    Rotate {
        /// 输入文件路径
        input: String,
        /// 输出文件路径
        output: String,
        /// 旋转角度 (90, 180, 270)
        angle: u32,
    },
    /// 翻转图像
    Flip {
        /// 输入文件路径
        input: String,
        /// 输出文件路径
        output: String,
        /// 水平翻转
        horizontal: bool,
        /// 垂直翻转
        vertical: bool,
    },
    /// 裁剪图像
    Crop {
        /// 输入文件路径
        input: String,
        /// 输出文件路径
        output: String,
        /// X坐标
        x: u32,
        /// Y坐标
        y: u32,
        /// 宽度
        width: u32,
        /// 高度
        height: u32,
    },
}

#[derive(Debug, Clone)]
pub enum ConfigCommands {
    /// 显示配置
    Show,
    /// 设置配置项
    SetValue {
        /// 配置键
        key: String,
        /// 配置值
        value: String,
    },
    /// 获取配置项
    Get {
        /// 配置键
        key: String,
    },
    /// 重置配置
    Reset,
}

#[derive(Debug, Clone)]
pub enum MemoryCommands {
    /// 显示内存内容
    Show,
    /// 添加内存项
    Add {
        /// 内存内容
        content: String,
    },
    /// 清除内存
    Clear,
    /// 搜索内存
    Search {
        /// 搜索关键词
        query: String,
    },
}

#[derive(Debug, Clone)]
pub enum PermissionCommands {
    /// 显示权限设置
    Show,
    /// 允许工具
    Allow {
        /// 工具名称
        tool: String,
    },
    /// 拒绝工具
    Deny {
        /// 工具名称
        tool: String,
    },
    /// 重置权限
    Reset,
}

/// 配置操作
#[derive(Debug, Clone)]
pub enum ConfigAction {
    /// 显示当前配置
    Show,
    /// 获取配置值
    Get {
        /// 配置键
        key: String,
    },
    /// 设置配置值
    SetValue {
        /// 配置键
        key: String,
        /// 配置值
        value: String,
    },
    /// 创建示例配置文件
    Init {
        /// 配置文件路径
        path: Option<String>,
        /// 配置文件格式
        format: String,
        /// 是否覆盖现有文件
        force: bool,
    },
    /// 验证配置文件
    Validate,
    /// 列出所有配置文件位置
    List,
}

/// What can be told of an API key before asking its provider.
#[derive(Debug, Clone, Copy, PartialEq, Eq, Structural)]
pub enum ApiKeyCheck {
    /// The key is taken as valid.
    Valid,
    /// The key does not have the provider's prefix.
    InvalidFormat,
    /// The key is shorter than 20 bytes.
    TooShort,
    /// The key looks right; the provider has to be asked.
    AskProvider,
}

/// The check of `key` for `provider`: an Anthropic key needs the prefix
/// "sk-ant-" and at least 20 bytes and is then sent to the provider; an
/// OpenAI key needs "sk-" and at least 20 bytes; other providers' keys are
/// not checked.
pub open spec fn key_check(provider: Seq<char>, key: Seq<char>) -> ApiKeyCheck {
    if provider == "anthropic"@ {
        if !has_prefix(key, "sk-ant-"@) { ApiKeyCheck::InvalidFormat }
        else if (byte_len(key) as usize) < 20 { ApiKeyCheck::TooShort }
        else { ApiKeyCheck::AskProvider }
    } else if provider == "openai"@ {
        if !has_prefix(key, "sk-"@) { ApiKeyCheck::InvalidFormat }
        else if (byte_len(key) as usize) < 20 { ApiKeyCheck::TooShort }
        else { ApiKeyCheck::Valid }
    } else {
        ApiKeyCheck::Valid
    }
}

/// Checks the form of an API key for a provider.
pub fn check_api_key_format(provider: &str, api_key: &str) -> (c: ApiKeyCheck)
    ensures
        c == key_check(provider@, api_key@),
{
    let p = String::from_str(provider);
    if str_is(&p, "anthropic") {
        if !starts_with_str(api_key, "sk-ant-") {
            ApiKeyCheck::InvalidFormat
        } else if api_key.len() < 20 {
            ApiKeyCheck::TooShort
        } else {
            ApiKeyCheck::AskProvider
        }
    } else if str_is(&p, "openai") {
        if !starts_with_str(api_key, "sk-") {
            ApiKeyCheck::InvalidFormat
        } else if api_key.len() < 20 {
            ApiKeyCheck::TooShort
        } else {
            ApiKeyCheck::Valid
        }
    } else {
        ApiKeyCheck::Valid
    }
}

/// Whether the provider's answer to a test request makes the key valid:
/// a success or 400 does, 401 does not, and any other status or no answer
/// at all (a network failure) is taken as valid.
pub open spec fn provider_accepts(status: Option<u16>) -> bool {
    match status {
        Some(s) => s != 401,
        None => true,
    }
}

/// The verdict on a key from the provider's answer to a test request.
pub fn key_valid_after_test(status: Option<u16>) -> (b: bool)
    ensures
        b == provider_accepts(status),
{
    match status {
        Some(s) => {
            if (200 <= s && s < 300) || s == 400 {
                true
            } else if s == 401 {
                false
            } else {
                true
            }
        },
        None => true,
    }
}

/// Whether a file of the settings directory named `name` holds stored
/// credentials, which a full logout removes: API keys and OAuth tokens.
pub open spec fn credential_file(name: Seq<char>) -> bool {
    has_suffix(name, "_api_key.enc"@) || has_suffix(name, "_oauth_token.enc"@)
}

/// Whether the file `name` holds stored credentials.
pub fn is_credential_file(name: &str) -> (b: bool)
    ensures
        b == credential_file(name@),
{
    ends_with_str(name, "_api_key.enc") || ends_with_str(name, "_oauth_token.enc")
}

/// What a line typed in interactive mode asks for.
#[derive(Debug, Clone)]
pub enum InteractiveAction {
    /// Leave interactive mode (`exit` or `quit`).
    Quit,
    /// Show the commands (`help`).
    Help,
    /// Clear the conversation (`clear`).
    Clear,
    /// Show the status (`status`).
    Status,
    /// Nothing was typed.
    Skip,
    /// Anything else: a message, as typed without surrounding white space.
    Message(String),
}

/// Whether `a` is what the typed line `line` asks for, read without its
/// surrounding white space.
pub open spec fn interactive_action_of(a: InteractiveAction, line: Seq<char>) -> bool {
    let t = trim_ws(line);
    if t == "exit"@ || t == "quit"@ {
        a is Quit
    } else if t == "help"@ {
        a is Help
    } else if t == "clear"@ {
        a is Clear
    } else if t == "status"@ {
        a is Status
    } else if t.len() == 0 {
        a is Skip
    } else {
        a matches InteractiveAction::Message(m) && m@ == t
    }
}

/// What the typed line `line` asks for.
pub fn interactive_action(line: &str) -> (a: InteractiveAction)
    ensures
        interactive_action_of(a, line@),
{
    let cs = chars_of(line);
    let t = trim_chars(&cs);
    if str_is(&t, "exit") || str_is(&t, "quit") {
        InteractiveAction::Quit
    } else if str_is(&t, "help") {
        InteractiveAction::Help
    } else if str_is(&t, "clear") {
        InteractiveAction::Clear
    } else if str_is(&t, "status") {
        InteractiveAction::Status
    } else if str_is(&t, "") {
        proof { reveal_strlit(""); }
        InteractiveAction::Skip
    } else {
        proof {
            reveal_strlit("");
            assert(t@.len() != 0) by {
                if t@.len() == 0 { assert(t@ =~= ""@); }
            }
        }
        InteractiveAction::Message(t)
    }
}

} // verus!

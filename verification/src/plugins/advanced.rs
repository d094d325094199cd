//! Plugin descriptions for the extended plugin system: metadata with
//! dependencies, plugin kinds, event priorities, command results, states,
//! the dependency graph, sandbox settings and logging.

use vstd::prelude::*;
use std::collections::HashMap;

verus! {

/// 插件元数据
#[derive(Debug, Clone)]
pub struct PluginMetadata {
    /// 插件名称
    pub name: String,
    /// 版本
    pub version: String,
    /// 描述
    pub description: String,
    /// 作者
    pub author: String,
    /// 许可证
    pub license: String,
    /// 主页
    pub homepage: Option<String>,
    /// 依赖项
    pub dependencies: Vec<PluginDependency>,
    /// 提供的功能
    pub capabilities: Vec<String>,
    /// 所需权限
    pub permissions: Vec<String>,
    /// 最小系统要求
    pub min_system_version: String,
    /// 插件类型
    pub plugin_type: PluginType,
}

/// 插件依赖
#[derive(Debug, Clone)]
pub struct PluginDependency {
    pub name: String,
    pub version_requirement: String,
    pub optional: bool,
}

/// 插件类型
#[derive(Debug, Clone)]
pub enum PluginType {
    /// 核心插件
    Core,
    /// 扩展插件
    Extension,
    /// 主题插件
    Theme,
    /// 语言支持
    Language,
    /// 工具集成
    Tool,
    /// 自定义
    Custom(String),
}

/// 事件优先级
#[derive(Debug, Clone, Copy, PartialEq, Eq, Structural)]
pub enum EventPriority {
    Low,
    Normal,
    High,
    Critical,
}

/// 命令结果
#[derive(Debug, Clone)]
pub struct CommandResult {
    /// 是否成功
    pub success: bool,
    /// 输出
    pub output: String,
    /// 错误信息
    pub error: Option<String>,
    /// 退出码
    pub exit_code: i32,
    /// 执行时间（毫秒）
    pub execution_time_ms: u64,
}

/// 插件状态
#[derive(Debug, Clone)]
pub enum PluginStatus {
    /// 未初始化
    Uninitialized,
    /// 初始化中
    Initializing,
    /// 已初始化
    Initialized,
    /// 启动中
    Starting,
    /// 运行中
    Running,
    /// 停止中
    Stopping,
    /// 已停止
    Stopped,
    /// 错误状态
    Error(String),
}

/// 依赖图
#[derive(Debug)]
pub struct DependencyGraph {
    /// 节点（插件名称）
    nodes: Vec<String>,
    /// 边（依赖关系）
    edges: Vec<(String, String)>,
}

/// 沙箱配置
#[derive(Debug, Clone)]
pub struct SandboxConfig {
    /// 启用沙箱
    pub enabled: bool,
    /// 允许的系统调用
    pub allowed_syscalls: Vec<String>,
    /// 禁止的系统调用
    pub blocked_syscalls: Vec<String>,
    /// 网络隔离
    pub network_isolation: bool,
    /// 文件系统隔离
    pub filesystem_isolation: bool,
}

/// 日志级别
#[derive(Debug, Clone, Copy, PartialEq, Eq, Structural)]
pub enum LogLevel {
    Trace,
    Debug,
    Info,
    Warn,
    Error,
}

/// Where a plugin writes its log.
pub trait PluginLogger {
    /// Logs `message` at `level`.
    fn log(&self, level: LogLevel, message: &str);
    /// Logs `message` at `level` with context pairs.
    fn log_with_context(&self, level: LogLevel, message: &str, context: &HashMap<String, String>);
}

} // verus!

//! Layered settings: the deployment environments, the settings groups that
//! do not involve fractions with their defaults, and where an environment's
//! own file lives.

use vstd::prelude::*;
use std::collections::HashMap;
use crate::text::string_views;

verus! {

/// 环境类型
#[derive(Debug, Clone, Copy, PartialEq, Eq, Structural)]
pub enum Environment {
    Development,
    Testing,
    Staging,
    Production,
}

/// 基础配置
#[derive(Debug, Clone)]
pub struct BaseConfig {
    /// 应用名称
    pub app_name: String,
    /// 版本
    pub version: String,
    /// 日志级别
    pub log_level: String,
    /// 数据目录
    pub data_dir: String,
    /// 临时目录
    pub temp_dir: String,
}

/// 数据库配置
#[derive(Debug, Clone)]
pub struct DatabaseConfig {
    pub url: String,
    pub max_connections: u32,
    pub timeout_seconds: u64,
    pub ssl_mode: String,
}

/// 缓存配置
#[derive(Debug, Clone)]
pub struct CacheConfig {
    pub enabled: bool,
    pub max_size_mb: u64,
    pub ttl_seconds: u64,
    pub compression: bool,
}

/// 网络配置
#[derive(Debug, Clone)]
pub struct NetworkConfig {
    pub timeout_seconds: u64,
    pub retry_attempts: u32,
    pub retry_delay_ms: u64,
    pub max_concurrent_requests: u32,
}

/// 功能开关
#[derive(Debug, Clone)]
pub struct FeatureFlags {
    /// Web 界面
    pub web_ui: bool,
    /// 实时协作
    pub real_time_collaboration: bool,
    /// 高级分析
    pub advanced_analytics: bool,
    /// 自动备份
    pub auto_backup: bool,
    /// 插件系统
    pub plugin_system: bool,
    /// 自定义功能
    pub custom_features: HashMap<String, bool>,
}

/// 性能配置
#[derive(Debug, Clone)]
pub struct PerformanceConfig {
    /// 最大内存使用（MB）
    pub max_memory_mb: u64,
    /// 工作线程数
    pub worker_threads: Option<usize>,
    /// 异步任务队列大小
    pub async_queue_size: usize,
    /// 垃圾回收配置
    pub gc_config: GcConfig,
}

/// 垃圾回收配置
#[derive(Debug, Clone)]
pub struct GcConfig {
    pub enabled: bool,
    pub interval_seconds: u64,
    pub memory_threshold_mb: u64,
}

/// 安全配置
#[derive(Debug, Clone)]
pub struct SecurityConfig {
    /// 启用 HTTPS
    pub enable_https: bool,
    /// 证书路径
    pub cert_path: Option<String>,
    /// 私钥路径
    pub key_path: Option<String>,
    /// 允许的主机
    pub allowed_hosts: Vec<String>,
    /// API 密钥加密
    pub encrypt_api_keys: bool,
    /// 会话超时（秒）
    pub session_timeout_seconds: u64,
}

/// 监控配置
#[derive(Debug, Clone)]
pub struct MonitoringConfig {
    /// 启用指标收集
    pub enable_metrics: bool,
    /// 指标导出端口
    pub metrics_port: Option<u16>,
    /// 健康检查间隔
    pub health_check_interval_seconds: u64,
    /// 日志聚合
    pub log_aggregation: LogAggregationConfig,
}

/// 日志聚合配置
#[derive(Debug, Clone)]
pub struct LogAggregationConfig {
    pub enabled: bool,
    pub endpoint: Option<String>,
    pub batch_size: usize,
    pub flush_interval_seconds: u64,
}

/// The lower-case word that names an environment in file names.
pub open spec fn environment_word(env: Environment) -> Seq<char> {
    match env {
        Environment::Development => "development"@,
        Environment::Testing => "testing"@,
        Environment::Staging => "staging"@,
        Environment::Production => "production"@,
    }
}

/// The lower-case word that names `env`.
pub fn environment_name(env: Environment) -> (name: &'static str)
    ensures
        name@ == environment_word(env),
{
    match env {
        Environment::Development => "development",
        Environment::Testing => "testing",
        Environment::Staging => "staging",
        Environment::Production => "production",
    }
}

/// The file name of the environment-specific settings file that sits beside
/// a file with the given stem and extension: `{stem}.{environment}.{extension}`.
pub fn environment_file_name(stem: &str, extension: &str, env: Environment) -> (name: String)
    ensures
        name@ == stem@ + "."@ + environment_word(env) + "."@ + extension@,
{
    let mut s = String::from_str(stem);
    s.append(".");
    s.append(environment_name(env));
    s.append(".");
    s.append(extension);
    s
}

/// 环境特定配置
#[derive(Debug, Clone)]
pub struct EnvironmentConfig {
    /// API 端点
    pub api_endpoints: HashMap<String, String>,
    /// 数据库配置
    pub database: Option<DatabaseConfig>,
    /// 缓存配置
    pub cache: CacheConfig,
    /// 网络配置
    pub network: NetworkConfig,
}

/// The layered settings. The experiment settings, whose rollout shares are
/// fractions, are kept beside these by the program that loads them.
#[derive(Debug, Clone)]
pub struct AdvancedConfig {
    /// 基础配置
    pub base: BaseConfig,
    /// 环境特定配置
    pub environment: EnvironmentConfig,
    /// 功能开关
    pub features: FeatureFlags,
    /// 性能配置
    pub performance: PerformanceConfig,
    /// 安全配置
    pub security: SecurityConfig,
    /// 监控配置
    pub monitoring: MonitoringConfig,
}

/// The default base settings.
pub open spec fn default_base(b: BaseConfig) -> bool {
    &&& b.app_name@ == "claude_code_rust"@
    &&& b.version@ == crate::VERSION@
    &&& b.log_level@ == "info"@
    &&& b.data_dir@ == "./data"@
    &&& b.temp_dir@ == "./tmp"@
}

/// The default environment settings: no endpoint and no database, a cache of
/// 100 MB kept an hour and compressed, and requests that time out after 30 s,
/// are tried 3 times a second apart, at most 100 at once.
pub open spec fn default_environment(e: EnvironmentConfig) -> bool {
    &&& e.api_endpoints@ == Map::<String, String>::empty()
    &&& e.database is None
    &&& e.cache == (CacheConfig { enabled: true, max_size_mb: 100, ttl_seconds: 3600, compression: true })
    &&& e.network == (NetworkConfig { timeout_seconds: 30, retry_attempts: 3, retry_delay_ms: 1000, max_concurrent_requests: 100 })
}

/// The default features: the web interface, backups and plugins on; live
/// collaboration and analytics off; no custom feature.
pub open spec fn default_features(f: FeatureFlags) -> bool {
    &&& f.web_ui
    &&& !f.real_time_collaboration
    &&& !f.advanced_analytics
    &&& f.auto_backup
    &&& f.plugin_system
    &&& f.custom_features@ == Map::<String, bool>::empty()
}

/// The default performance settings: 512 MB, as many workers as the runtime
/// picks, a queue of 1000 tasks, and a collection every 5 minutes above 400 MB.
pub open spec fn default_performance(p: PerformanceConfig) -> bool {
    &&& p.max_memory_mb == 512
    &&& p.worker_threads is None
    &&& p.async_queue_size == 1000
    &&& p.gc_config == (GcConfig { enabled: true, interval_seconds: 300, memory_threshold_mb: 400 })
}

/// The default security settings: plain HTTP, no certificate, local hosts
/// only, encrypted keys and sessions of an hour.
pub open spec fn default_security(s: SecurityConfig) -> bool {
    &&& !s.enable_https
    &&& s.cert_path is None
    &&& s.key_path is None
    &&& string_views(s.allowed_hosts@) == seq!["localhost"@, "127.0.0.1"@]
    &&& s.encrypt_api_keys
    &&& s.session_timeout_seconds == 3600
}

/// The default monitoring settings: metrics on port 9090, a health check
/// every 30 s, and log aggregation off, in batches of 100 every minute.
pub open spec fn default_monitoring(m: MonitoringConfig) -> bool {
    &&& m.enable_metrics
    &&& m.metrics_port == Some(9090u16)
    &&& m.health_check_interval_seconds == 30
    &&& !m.log_aggregation.enabled
    &&& m.log_aggregation.endpoint is None
    &&& m.log_aggregation.batch_size == 100
    &&& m.log_aggregation.flush_interval_seconds == 60
}

impl Default for AdvancedConfig {
    fn default() -> (c: AdvancedConfig)
        ensures
            default_base(c.base),
            default_environment(c.environment),
            default_features(c.features),
            default_performance(c.performance),
            default_security(c.security),
            default_monitoring(c.monitoring),
    {
        let mut allowed_hosts: Vec<String> = Vec::new();
        allowed_hosts.push(String::from_str("localhost"));
        allowed_hosts.push(String::from_str("127.0.0.1"));
        let c = AdvancedConfig {
            base: BaseConfig {
                app_name: String::from_str("claude_code_rust"),
                version: String::from_str(crate::VERSION),
                log_level: String::from_str("info"),
                data_dir: String::from_str("./data"),
                temp_dir: String::from_str("./tmp"),
            },
            environment: EnvironmentConfig {
                api_endpoints: HashMap::new(),
                database: None,
                cache: CacheConfig { enabled: true, max_size_mb: 100, ttl_seconds: 3600, compression: true },
                network: NetworkConfig {
                    timeout_seconds: 30,
                    retry_attempts: 3,
                    retry_delay_ms: 1000,
                    max_concurrent_requests: 100,
                },
            },
            features: FeatureFlags {
                web_ui: true,
                real_time_collaboration: false,
                advanced_analytics: false,
                auto_backup: true,
                plugin_system: true,
                custom_features: HashMap::new(),
            },
            performance: PerformanceConfig {
                max_memory_mb: 512,
                worker_threads: None,
                async_queue_size: 1000,
                gc_config: GcConfig { enabled: true, interval_seconds: 300, memory_threshold_mb: 400 },
            },
            security: SecurityConfig {
                enable_https: false,
                cert_path: None,
                key_path: None,
                allowed_hosts,
                encrypt_api_keys: true,
                session_timeout_seconds: 3600,
            },
            monitoring: MonitoringConfig {
                enable_metrics: true,
                metrics_port: Some(9090),
                health_check_interval_seconds: 30,
                log_aggregation: LogAggregationConfig {
                    enabled: false,
                    endpoint: None,
                    batch_size: 100,
                    flush_interval_seconds: 60,
                },
            },
        };
        assert(string_views(c.security.allowed_hosts@) =~= seq!["localhost"@, "127.0.0.1"@]);
        c
    }
}

} // verus!

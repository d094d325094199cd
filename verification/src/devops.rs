//! DevOps settings: environments with their compute, storage, network and
//! security resources, pipelines, deployments and their results.

use vstd::prelude::*;
use std::collections::HashMap;
use std::time::Duration;

verus! {

/// 环境类型
#[derive(Debug, Clone)]
pub enum EnvironmentType {
    Development,
    Testing,
    Staging,
    Production,
    Preview,
    Custom(String),
}

/// 存储资源
#[derive(Debug, Clone)]
pub struct StorageResources {
    /// 持久存储
    pub persistent_storage: Vec<PersistentStorage>,
    /// 对象存储
    pub object_storage: Vec<ObjectStorage>,
    /// 临时存储
    pub ephemeral_storage: EphemeralStorage,
}

/// 持久存储
#[derive(Debug, Clone)]
pub struct PersistentStorage {
    /// 名称
    pub name: String,
    /// 大小（GB）
    pub size_gb: u32,
    /// 存储类型
    pub storage_type: String,
    /// IOPS
    pub iops: Option<u32>,
    /// 加密
    pub encrypted: bool,
}

/// 对象存储
#[derive(Debug, Clone)]
pub struct ObjectStorage {
    /// 存储桶名称
    pub bucket_name: String,
    /// 区域
    pub region: String,
    /// 访问控制
    pub access_control: AccessControl,
    /// 版本控制
    pub versioning: bool,
}

/// 访问控制
#[derive(Debug, Clone)]
pub enum AccessControl {
    Private,
    PublicRead,
    PublicReadWrite,
    AuthenticatedRead,
    Custom(String),
}

/// 临时存储
#[derive(Debug, Clone)]
pub struct EphemeralStorage {
    /// 大小（GB）
    pub size_gb: u32,
    /// 存储类型
    pub storage_type: String,
}

/// VPC 配置
#[derive(Debug, Clone)]
pub struct VpcConfiguration {
    /// CIDR 块
    pub cidr_block: String,
    /// 启用 DNS 解析
    pub enable_dns_resolution: bool,
    /// 启用 DNS 主机名
    pub enable_dns_hostnames: bool,
}

/// 子网配置
#[derive(Debug, Clone)]
pub struct SubnetConfiguration {
    /// 名称
    pub name: String,
    /// CIDR 块
    pub cidr_block: String,
    /// 可用区
    pub availability_zone: String,
    /// 是否公有
    pub is_public: bool,
}

/// 负载均衡器类型
#[derive(Debug, Clone, Copy, PartialEq, Eq, Structural)]
pub enum LoadBalancerType {
    Application,
    Network,
    Classic,
}

/// 负载均衡器监听器
#[derive(Debug, Clone)]
pub struct LoadBalancerListener {
    /// 端口
    pub port: u16,
    /// 协议
    pub protocol: String,
    /// SSL 证书
    pub ssl_certificate: Option<String>,
}

/// 负载均衡器健康检查
#[derive(Debug, Clone)]
pub struct LoadBalancerHealthCheck {
    /// 路径
    pub path: String,
    /// 端口
    pub port: u16,
    /// 协议
    pub protocol: String,
    /// 间隔（秒）
    pub interval: u32,
    /// 超时（秒）
    pub timeout: u32,
    /// 健康阈值
    pub healthy_threshold: u32,
    /// 不健康阈值
    pub unhealthy_threshold: u32,
}

/// CDN 配置
#[derive(Debug, Clone)]
pub struct CdnConfiguration {
    /// 分发域名
    pub distribution_domain: String,
    /// 源站配置
    pub origins: Vec<CdnOrigin>,
    /// 缓存行为
    pub cache_behaviors: Vec<CacheBehavior>,
    /// SSL 证书
    pub ssl_certificate: Option<String>,
}

/// CDN 源站
#[derive(Debug, Clone)]
pub struct CdnOrigin {
    /// 源站 ID
    pub id: String,
    /// 域名
    pub domain_name: String,
    /// 路径
    pub origin_path: String,
    /// 自定义头部
    pub custom_headers: HashMap<String, String>,
}

/// 缓存行为
#[derive(Debug, Clone)]
pub struct CacheBehavior {
    /// 路径模式
    pub path_pattern: String,
    /// 目标源站 ID
    pub target_origin_id: String,
    /// 缓存策略
    pub cache_policy: CachePolicy,
    /// 压缩
    pub compress: bool,
}

/// 缓存策略
#[derive(Debug, Clone)]
pub struct CachePolicy {
    /// TTL（秒）
    pub ttl: u32,
    /// 最小 TTL（秒）
    pub min_ttl: u32,
    /// 最大 TTL（秒）
    pub max_ttl: u32,
    /// 缓存键参数
    pub cache_key_parameters: Vec<String>,
}

/// 数据库资源
#[derive(Debug, Clone)]
pub struct DatabaseResource {
    /// 名称
    pub name: String,
    /// 数据库引擎
    pub engine: DatabaseEngine,
    /// 实例类型
    pub instance_class: String,
    /// 存储大小（GB）
    pub allocated_storage: u32,
    /// 多可用区
    pub multi_az: bool,
    /// 备份配置
    pub backup_config: DatabaseBackup,
}

/// 数据库引擎
#[derive(Debug, Clone, Copy, PartialEq, Eq, Structural)]
pub enum DatabaseEngine {
    PostgreSQL,
    MySQL,
    MariaDB,
    Oracle,
    SQLServer,
    MongoDB,
    Redis,
    DynamoDB,
}

/// 数据库备份
#[derive(Debug, Clone)]
pub struct DatabaseBackup {
    /// 启用自动备份
    pub automated_backup: bool,
    /// 备份保留期（天）
    pub backup_retention_period: u32,
    /// 备份窗口
    pub backup_window: String,
    /// 维护窗口
    pub maintenance_window: String,
}

/// 环境网络
#[derive(Debug, Clone)]
pub struct EnvironmentNetwork {
    /// 域名
    pub domain: String,
    /// SSL 配置
    pub ssl_config: SslConfig,
    /// 防火墙规则
    pub firewall_rules: Vec<FirewallRule>,
    /// VPN 配置
    pub vpn_config: Option<VpnConfig>,
}

/// SSL 配置
#[derive(Debug, Clone)]
pub struct SslConfig {
    /// 启用 SSL
    pub enabled: bool,
    /// 证书来源
    pub certificate_source: CertificateSource,
    /// 强制 HTTPS
    pub force_https: bool,
}

/// 证书来源
#[derive(Debug, Clone)]
pub enum CertificateSource {
    LetsEncrypt,
    AcmCertificate(String),
    CustomCertificate(String),
}

/// 防火墙规则
#[derive(Debug, Clone)]
pub struct FirewallRule {
    /// 规则名称
    pub name: String,
    /// 方向
    pub direction: TrafficDirection,
    /// 协议
    pub protocol: String,
    /// 端口范围
    pub port_range: String,
    /// 源/目标
    pub source_destination: String,
    /// 动作
    pub action: FirewallAction,
}

/// 流量方向
#[derive(Debug, Clone, Copy, PartialEq, Eq, Structural)]
pub enum TrafficDirection {
    Inbound,
    Outbound,
}

/// 防火墙动作
#[derive(Debug, Clone, Copy, PartialEq, Eq, Structural)]
pub enum FirewallAction {
    Allow,
    Deny,
    Log,
}

/// VPN 配置
#[derive(Debug, Clone)]
pub struct VpnConfig {
    /// VPN 类型
    pub vpn_type: VpnType,
    /// 客户端网关
    pub customer_gateway: String,
    /// 虚拟私有网关
    pub virtual_private_gateway: String,
    /// 路由表
    pub route_tables: Vec<String>,
}

/// VPN 类型
#[derive(Debug, Clone, Copy, PartialEq, Eq, Structural)]
pub enum VpnType {
    SiteToSite,
    ClientVpn,
    DirectConnect,
}

/// 环境安全
#[derive(Debug, Clone)]
pub struct EnvironmentSecurity {
    /// IAM 角色
    pub iam_roles: Vec<IamRole>,
    /// 安全组
    pub security_groups: Vec<SecurityGroup>,
    /// 密钥管理
    pub key_management: KeyManagement,
    /// 审计配置
    pub audit_config: AuditConfig,
}

/// IAM 角色
#[derive(Debug, Clone)]
pub struct IamRole {
    /// 角色名称
    pub name: String,
    /// 信任策略
    pub trust_policy: String,
    /// 权限策略
    pub permission_policies: Vec<String>,
    /// 标签
    pub tags: HashMap<String, String>,
}

/// 安全组
#[derive(Debug, Clone)]
pub struct SecurityGroup {
    /// 名称
    pub name: String,
    /// 描述
    pub description: String,
    /// 入站规则
    pub ingress_rules: Vec<SecurityRule>,
    /// 出站规则
    pub egress_rules: Vec<SecurityRule>,
}

/// 安全规则
#[derive(Debug, Clone)]
pub struct SecurityRule {
    /// 协议
    pub protocol: String,
    /// 端口范围
    pub port_range: String,
    /// 源/目标
    pub source_destination: String,
    /// 描述
    pub description: String,
}

/// 密钥管理
#[derive(Debug, Clone)]
pub struct KeyManagement {
    /// KMS 密钥
    pub kms_keys: Vec<KmsKey>,
    /// 密钥轮换
    pub key_rotation: bool,
    /// 密钥策略
    pub key_policies: HashMap<String, String>,
}

/// KMS 密钥
#[derive(Debug, Clone)]
pub struct KmsKey {
    /// 密钥 ID
    pub key_id: String,
    /// 描述
    pub description: String,
    /// 用途
    pub usage: KeyUsage,
    /// 密钥规格
    pub key_spec: String,
}

/// 密钥用途
#[derive(Debug, Clone, Copy, PartialEq, Eq, Structural)]
pub enum KeyUsage {
    EncryptDecrypt,
    SignVerify,
}

/// 审计配置
#[derive(Debug, Clone)]
pub struct AuditConfig {
    /// 启用审计
    pub enabled: bool,
    /// 审计日志存储
    pub log_storage: String,
    /// 审计事件
    pub audit_events: Vec<AuditEvent>,
    /// 保留期（天）
    pub retention_days: u32,
}

/// 审计事件
#[derive(Debug, Clone, Copy, PartialEq, Eq, Structural)]
pub enum AuditEvent {
    ApiCall,
    DataAccess,
    Authentication,
    Authorization,
    ConfigChange,
    All,
}

#[derive(Debug, Clone)]
pub struct BuildConfig {
    pub build_tool: String,
    pub build_commands: Vec<String>,
    pub artifacts: Vec<String>,
}

#[derive(Debug, Clone)]
pub struct DeployConfig {
    pub deployment_strategy: DeploymentStrategy,
    pub rollback_strategy: RollbackStrategy,
    pub health_checks: Vec<HealthCheck>,
}

#[derive(Debug, Clone, Copy, PartialEq, Eq, Structural)]
pub enum DeploymentStrategy {
    BlueGreen,
    Canary,
    Rolling,
    Recreate,
}

#[derive(Debug, Clone, Copy, PartialEq, Eq, Structural)]
pub enum RollbackStrategy {
    Automatic,
    Manual,
    Disabled,
}

#[derive(Debug, Clone)]
pub struct HealthCheck {
    pub name: String,
    pub endpoint: String,
    pub timeout: u32,
    pub retries: u32,
}

#[derive(Debug, Clone)]
pub struct InfrastructureConfig {
    pub provider: String,
    pub region: String,
    pub templates: Vec<String>,
}

#[derive(Debug, Clone)]
pub struct DeploymentConfig {
    pub environments: Vec<String>,
    pub approval_required: bool,
    pub notifications: Vec<NotificationConfig>,
}

#[derive(Debug, Clone)]
pub struct NotificationConfig {
    pub channel: String,
    pub events: Vec<String>,
    pub recipients: Vec<String>,
}

#[derive(Debug, Clone)]
pub struct DevOpsSecurityConfig {
    pub vulnerability_scanning: bool,
    pub compliance_checks: Vec<String>,
    pub secret_management: SecretManagementConfig,
}

#[derive(Debug, Clone)]
pub struct SecretManagementConfig {
    pub provider: String,
    pub encryption: bool,
    pub rotation: bool,
}

#[derive(Debug, Clone)]
pub struct EnvironmentResult {
    pub environment_id: String,
    pub name: String,
    pub status: EnvironmentStatus,
    pub infrastructure: InfrastructureResult,
    pub network: NetworkResult,
    pub security: SecurityResult,
    pub deployment: DeploymentResult,
}

#[derive(Debug, Clone, Copy, PartialEq, Eq, Structural)]
pub enum EnvironmentStatus {
    Creating,
    Ready,
    Updating,
    Deleting,
    Error,
}

#[derive(Debug, Clone)]
pub struct InfrastructureResult {
    pub resources: Vec<String>,
    pub status: String,
}

#[derive(Debug, Clone)]
pub struct NetworkResult {
    pub vpc_id: String,
    pub subnet_ids: Vec<String>,
    pub security_group_ids: Vec<String>,
}

#[derive(Debug, Clone)]
pub struct SecurityResult {
    pub iam_roles: Vec<String>,
    pub kms_keys: Vec<String>,
    pub certificates: Vec<String>,
}

#[derive(Debug, Clone)]
pub struct DeploymentResult {
    pub deployment_id: String,
    pub status: String,
    pub services: Vec<String>,
}

#[derive(Debug, Clone)]
pub struct ApplicationDeployment {
    pub name: String,
    pub version: String,
    pub environment: String,
    pub config: HashMap<String, String>,
}

#[derive(Debug, Clone)]
pub struct Pipeline {
    pub name: String,
    pub stages: Vec<PipelineStage>,
}

#[derive(Debug, Clone)]
pub struct PipelineStage {
    pub name: String,
    pub actions: Vec<PipelineAction>,
}

#[derive(Debug, Clone)]
pub struct PipelineAction {
    pub name: String,
    pub action_type: String,
    pub config: HashMap<String, String>,
}

#[derive(Debug, Clone)]
pub struct InfrastructureTemplate {
    pub name: String,
    pub content: String,
    pub parameters: HashMap<String, String>,
}

#[derive(Debug, Clone)]
pub struct ConfigItem {
    pub key: String,
    pub value: String,
    pub environment: String,
}

} // verus!

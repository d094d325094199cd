//! Cloud-native deployment settings: clusters, networking, load balancing,
//! ingress, storage, databases and caches, and the managers that hold them.

use vstd::prelude::*;
use std::collections::HashMap;
use std::time::Duration;
use crate::error::Result;

verus! {

/// 云原生配置
#[derive(Debug, Clone)]
pub struct CloudNativeConfig {
    /// 云提供商
    pub cloud_provider: CloudProvider,
    /// 集群配置
    pub cluster_config: ClusterConfig,
    /// 网络配置
    pub network_config: NetworkConfig,
    /// 存储配置
    pub storage_config: StorageConfig,
    /// 安全配置
    pub security_config: String, // 简化为字符串配置
    /// 监控配置
    pub monitoring_config: String, // 简化为字符串配置
    /// 自动扩缩容配置
    pub autoscaling_config: String, // 简化为字符串配置
}

/// 云提供商
#[derive(Debug, Clone)]
pub enum CloudProvider {
    AWS,
    Azure,
    GCP,
    Kubernetes,
    Docker,
    OpenShift,
    Custom(String),
}

/// 集群配置
#[derive(Debug, Clone)]
pub struct ClusterConfig {
    /// 集群名称
    pub name: String,
    /// 集群版本
    pub version: String,
    /// 节点配置
    pub node_config: NodeConfig,
    /// 网络插件
    pub network_plugin: String,
    /// 存储类
    pub storage_classes: Vec<StorageClass>,
    /// 命名空间
    pub namespaces: Vec<String>,
}

/// 节点配置
#[derive(Debug, Clone)]
pub struct NodeConfig {
    /// 节点类型
    pub node_type: String,
    /// 最小节点数
    pub min_nodes: u32,
    /// 最大节点数
    pub max_nodes: u32,
    /// 节点规格
    pub instance_type: String,
    /// 磁盘大小（GB）
    pub disk_size_gb: u32,
    /// 标签
    pub labels: HashMap<String, String>,
    /// 污点
    pub taints: Vec<NodeTaint>,
}

/// 节点污点
#[derive(Debug, Clone)]
pub struct NodeTaint {
    /// 键
    pub key: String,
    /// 值
    pub value: String,
    /// 效果
    pub effect: TaintEffect,
}

/// 污点效果
#[derive(Debug, Clone, Copy, PartialEq, Eq, Structural)]
pub enum TaintEffect {
    NoSchedule,
    PreferNoSchedule,
    NoExecute,
}

/// 存储类
#[derive(Debug, Clone)]
pub struct StorageClass {
    /// 名称
    pub name: String,
    /// 提供商
    pub provisioner: String,
    /// 参数
    pub parameters: HashMap<String, String>,
    /// 回收策略
    pub reclaim_policy: ReclaimPolicy,
    /// 卷绑定模式
    pub volume_binding_mode: VolumeBindingMode,
}

/// 回收策略
#[derive(Debug, Clone, Copy, PartialEq, Eq, Structural)]
pub enum ReclaimPolicy {
    Retain,
    Delete,
    Recycle,
}

/// 卷绑定模式
#[derive(Debug, Clone, Copy, PartialEq, Eq, Structural)]
pub enum VolumeBindingMode {
    Immediate,
    WaitForFirstConsumer,
}

/// 网络配置
#[derive(Debug, Clone)]
pub struct NetworkConfig {
    /// VPC 配置
    pub vpc_config: VpcConfig,
    /// 子网配置
    pub subnet_configs: Vec<SubnetConfig>,
    /// 安全组配置
    pub security_groups: Vec<SecurityGroup>,
    /// 负载均衡器配置
    pub load_balancers: Vec<LoadBalancerConfig>,
    /// Ingress 配置
    pub ingress_configs: Vec<IngressConfig>,
}

/// VPC 配置
#[derive(Debug, Clone)]
pub struct VpcConfig {
    /// VPC ID
    pub vpc_id: String,
    /// CIDR 块
    pub cidr_block: String,
    /// 启用 DNS 主机名
    pub enable_dns_hostnames: bool,
    /// 启用 DNS 解析
    pub enable_dns_support: bool,
    /// 标签
    pub tags: HashMap<String, String>,
}

/// 子网配置
#[derive(Debug, Clone)]
pub struct SubnetConfig {
    /// 子网 ID
    pub subnet_id: String,
    /// CIDR 块
    pub cidr_block: String,
    /// 可用区
    pub availability_zone: String,
    /// 是否公有子网
    pub is_public: bool,
    /// 标签
    pub tags: HashMap<String, String>,
}

/// 安全组
#[derive(Debug, Clone)]
pub struct SecurityGroup {
    /// 安全组 ID
    pub group_id: String,
    /// 名称
    pub name: String,
    /// 描述
    pub description: String,
    /// 入站规则
    pub ingress_rules: Vec<SecurityRule>,
    /// 出站规则
    pub egress_rules: Vec<SecurityRule>,
}

/// 安全规则
#[derive(Debug, Clone)]
pub struct SecurityRule {
    /// 协议
    pub protocol: String,
    /// 端口范围
    pub port_range: PortRange,
    /// 源/目标
    pub source_destination: String,
    /// 描述
    pub description: String,
}

/// 端口范围
#[derive(Debug, Clone)]
pub struct PortRange {
    /// 起始端口
    pub from_port: u16,
    /// 结束端口
    pub to_port: u16,
}

/// 负载均衡器配置
#[derive(Debug, Clone)]
pub struct LoadBalancerConfig {
    /// 名称
    pub name: String,
    /// 类型
    pub lb_type: LoadBalancerType,
    /// 监听器
    pub listeners: Vec<Listener>,
    /// 目标组
    pub target_groups: Vec<TargetGroup>,
    /// 健康检查
    pub health_check: HealthCheck,
}

/// 负载均衡器类型
#[derive(Debug, Clone, Copy, PartialEq, Eq, Structural)]
pub enum LoadBalancerType {
    Application,
    Network,
    Classic,
    Gateway,
}

/// 监听器
#[derive(Debug, Clone)]
pub struct Listener {
    /// 端口
    pub port: u16,
    /// 协议
    pub protocol: String,
    /// SSL 证书
    pub ssl_certificate: Option<String>,
    /// 默认动作
    pub default_action: ListenerAction,
}

/// 监听器动作
#[derive(Debug, Clone)]
pub enum ListenerAction {
    Forward(String),
    Redirect(RedirectConfig),
    FixedResponse(FixedResponseConfig),
}

/// 重定向配置
#[derive(Debug, Clone)]
pub struct RedirectConfig {
    /// 状态码
    pub status_code: u16,
    /// 目标 URL
    pub target_url: String,
}

/// 固定响应配置
#[derive(Debug, Clone)]
pub struct FixedResponseConfig {
    /// 状态码
    pub status_code: u16,
    /// 内容类型
    pub content_type: String,
    /// 消息体
    pub message_body: String,
}

/// 目标组
#[derive(Debug, Clone)]
pub struct TargetGroup {
    /// 名称
    pub name: String,
    /// 端口
    pub port: u16,
    /// 协议
    pub protocol: String,
    /// 目标类型
    pub target_type: TargetType,
    /// 目标列表
    pub targets: Vec<Target>,
}

/// 目标类型
#[derive(Debug, Clone, Copy, PartialEq, Eq, Structural)]
pub enum TargetType {
    Instance,
    Ip,
    Lambda,
    Alb,
}

/// 目标
#[derive(Debug, Clone)]
pub struct Target {
    /// 目标 ID
    pub id: String,
    /// 端口
    pub port: Option<u16>,
    /// 可用区
    pub availability_zone: Option<String>,
}

/// 健康检查
#[derive(Debug, Clone)]
pub struct HealthCheck {
    /// 协议
    pub protocol: String,
    /// 端口
    pub port: u16,
    /// 路径
    pub path: String,
    /// 间隔（秒）
    pub interval_seconds: u32,
    /// 超时（秒）
    pub timeout_seconds: u32,
    /// 健康阈值
    pub healthy_threshold: u32,
    /// 不健康阈值
    pub unhealthy_threshold: u32,
}

/// Ingress 配置
#[derive(Debug, Clone)]
pub struct IngressConfig {
    /// 名称
    pub name: String,
    /// 命名空间
    pub namespace: String,
    /// 注解
    pub annotations: HashMap<String, String>,
    /// 规则
    pub rules: Vec<IngressRule>,
    /// TLS 配置
    pub tls: Vec<IngressTLS>,
}

/// Ingress 规则
#[derive(Debug, Clone)]
pub struct IngressRule {
    /// 主机
    pub host: String,
    /// 路径
    pub paths: Vec<IngressPath>,
}

/// Ingress 路径
#[derive(Debug, Clone)]
pub struct IngressPath {
    /// 路径
    pub path: String,
    /// 路径类型
    pub path_type: PathType,
    /// 后端服务
    pub backend: IngressBackend,
}

/// 路径类型
#[derive(Debug, Clone, Copy, PartialEq, Eq, Structural)]
pub enum PathType {
    Exact,
    Prefix,
    ImplementationSpecific,
}

/// Ingress 后端
#[derive(Debug, Clone)]
pub struct IngressBackend {
    /// 服务名称
    pub service_name: String,
    /// 服务端口
    pub service_port: u16,
}

/// Ingress TLS
#[derive(Debug, Clone)]
pub struct IngressTLS {
    /// 主机列表
    pub hosts: Vec<String>,
    /// 密钥名称
    pub secret_name: String,
}

/// 存储配置
#[derive(Debug, Clone)]
pub struct StorageConfig {
    /// 持久卷配置
    pub persistent_volumes: Vec<PersistentVolumeConfig>,
    /// 对象存储配置
    pub object_storage: ObjectStorageConfig,
    /// 数据库配置
    pub database_config: DatabaseConfig,
    /// 缓存配置
    pub cache_config: CacheConfig,
}

/// 持久卷配置
#[derive(Debug, Clone)]
pub struct PersistentVolumeConfig {
    /// 名称
    pub name: String,
    /// 大小
    pub size: String,
    /// 访问模式
    pub access_modes: Vec<AccessMode>,
    /// 存储类
    pub storage_class: String,
    /// 挂载路径
    pub mount_path: String,
}

/// 访问模式
#[derive(Debug, Clone, Copy, PartialEq, Eq, Structural)]
pub enum AccessMode {
    ReadWriteOnce,
    ReadOnlyMany,
    ReadWriteMany,
    ReadWriteOncePod,
}

/// 对象存储配置
#[derive(Debug, Clone)]
pub struct ObjectStorageConfig {
    /// 提供商
    pub provider: ObjectStorageProvider,
    /// 存储桶配置
    pub buckets: Vec<BucketConfig>,
    /// 访问配置
    pub access_config: ObjectStorageAccess,
}

/// 对象存储提供商
#[derive(Debug, Clone)]
pub enum ObjectStorageProvider {
    S3,
    AzureBlob,
    GoogleCloudStorage,
    MinIO,
    Custom(String),
}

/// 存储桶配置
#[derive(Debug, Clone)]
pub struct BucketConfig {
    /// 存储桶名称
    pub name: String,
    /// 区域
    pub region: String,
    /// 版本控制
    pub versioning: bool,
    /// 加密配置
    pub encryption: Option<EncryptionConfig>,
    /// 生命周期规则
    pub lifecycle_rules: Vec<LifecycleRule>,
}

/// 加密配置
#[derive(Debug, Clone)]
pub struct EncryptionConfig {
    /// 加密类型
    pub encryption_type: EncryptionType,
    /// KMS 密钥 ID
    pub kms_key_id: Option<String>,
}

/// 加密类型
#[derive(Debug, Clone, Copy, PartialEq, Eq, Structural)]
pub enum EncryptionType {
    /// Not encrypted.
    Unencrypted,
    AES256,
    KMS,
    CustomerManaged,
}

/// 生命周期规则
#[derive(Debug, Clone)]
pub struct LifecycleRule {
    /// 规则 ID
    pub id: String,
    /// 状态
    pub status: LifecycleStatus,
    /// 过滤器
    pub filter: LifecycleFilter,
    /// 转换规则
    pub transitions: Vec<LifecycleTransition>,
    /// 过期规则
    pub expiration: Option<LifecycleExpiration>,
}

/// 生命周期状态
#[derive(Debug, Clone, Copy, PartialEq, Eq, Structural)]
pub enum LifecycleStatus {
    Enabled,
    Disabled,
}

/// 生命周期过滤器
#[derive(Debug, Clone)]
pub struct LifecycleFilter {
    /// 前缀
    pub prefix: Option<String>,
    /// 标签
    pub tags: HashMap<String, String>,
}

/// 生命周期转换
#[derive(Debug, Clone)]
pub struct LifecycleTransition {
    /// 天数
    pub days: u32,
    /// 存储类
    pub storage_class: String,
}

/// 生命周期过期
#[derive(Debug, Clone)]
pub struct LifecycleExpiration {
    /// 天数
    pub days: u32,
    /// 删除标记过期
    pub expired_object_delete_marker: bool,
}

/// 对象存储访问配置
#[derive(Debug, Clone)]
pub struct ObjectStorageAccess {
    /// 访问密钥 ID
    pub access_key_id: String,
    /// 密钥
    pub secret_access_key: String,
    /// 会话令牌
    pub session_token: Option<String>,
    /// 端点 URL
    pub endpoint_url: Option<String>,
}

/// 数据库配置
#[derive(Debug, Clone)]
pub struct DatabaseConfig {
    /// 数据库类型
    pub db_type: DatabaseType,
    /// 实例配置
    pub instance_config: DatabaseInstanceConfig,
    /// 连接配置
    pub connection_config: DatabaseConnectionConfig,
    /// 备份配置
    pub backup_config: DatabaseBackupConfig,
}

/// 数据库类型
#[derive(Debug, Clone)]
pub enum DatabaseType {
    PostgreSQL,
    MySQL,
    MongoDB,
    Redis,
    Elasticsearch,
    DynamoDB,
    CosmosDB,
    Custom(String),
}

/// 数据库实例配置
#[derive(Debug, Clone)]
pub struct DatabaseInstanceConfig {
    /// 实例类型
    pub instance_type: String,
    /// 存储大小（GB）
    pub storage_size_gb: u32,
    /// 存储类型
    pub storage_type: String,
    /// 多可用区
    pub multi_az: bool,
    /// 版本
    pub version: String,
}

/// 数据库连接配置
#[derive(Debug, Clone)]
pub struct DatabaseConnectionConfig {
    /// 主机
    pub host: String,
    /// 端口
    pub port: u16,
    /// 数据库名称
    pub database_name: String,
    /// 用户名
    pub username: String,
    /// 密码
    pub password: String,
    /// SSL 模式
    pub ssl_mode: String,
}

/// 数据库备份配置
#[derive(Debug, Clone)]
pub struct DatabaseBackupConfig {
    /// 启用自动备份
    pub enable_auto_backup: bool,
    /// 备份保留期（天）
    pub backup_retention_days: u32,
    /// 备份窗口
    pub backup_window: String,
    /// 维护窗口
    pub maintenance_window: String,
}

/// 缓存配置
#[derive(Debug, Clone)]
pub struct CacheConfig {
    /// 缓存类型
    pub cache_type: CacheType,
    /// 节点配置
    pub node_config: CacheNodeConfig,
    /// 集群配置
    pub cluster_config: Option<CacheClusterConfig>,
}

/// 缓存类型
#[derive(Debug, Clone)]
pub enum CacheType {
    Redis,
    Memcached,
    ElastiCache,
    AzureCache,
    Custom(String),
}

/// 缓存节点配置
#[derive(Debug, Clone)]
pub struct CacheNodeConfig {
    /// 节点类型
    pub node_type: String,
    /// 节点数量
    pub num_nodes: u32,
    /// 版本
    pub version: String,
}

/// 缓存集群配置
#[derive(Debug, Clone)]
pub struct CacheClusterConfig {
    /// 启用集群模式
    pub enable_cluster_mode: bool,
    /// 分片数量
    pub num_shards: u32,
    /// 副本数量
    pub num_replicas: u32,
}

/// 容器管理器
#[derive(Debug, Clone)]
pub struct ContainerManager {
    /// 容器运行时
    runtime: ContainerRuntime,
}

/// 容器运行时
#[derive(Debug, Clone, Copy, PartialEq, Eq, Structural)]
pub enum ContainerRuntime {
    Docker,
    Containerd,
    CriO,
    Podman,
}

/// 服务网格
#[derive(Debug, Clone)]
pub struct ServiceMesh {
    /// 网格类型
    mesh_type: ServiceMeshType,
}

/// 服务网格类型
#[derive(Debug, Clone, Copy, PartialEq, Eq, Structural)]
pub enum ServiceMeshType {
    Istio,
    Linkerd,
    Consul,
    Envoy,
}

/// 云配置管理器
#[derive(Debug, Clone)]
pub struct CloudConfigManager {
    /// 配置存储
    config_store: ConfigStore,
}

/// 配置存储
#[derive(Debug, Clone, Copy, PartialEq, Eq, Structural)]
pub enum ConfigStore {
    Kubernetes,
    Consul,
    Etcd,
    Vault,
}

/// 云监控管理器
#[derive(Debug, Clone)]
pub struct CloudMonitoringManager {
    /// 监控后端
    monitoring_backend: MonitoringBackend,
}

/// 监控后端
#[derive(Debug, Clone, Copy, PartialEq, Eq, Structural)]
pub enum MonitoringBackend {
    Prometheus,
    Grafana,
    DataDog,
    NewRelic,
    CloudWatch,
}

/// 指标类型
#[derive(Debug, Clone, Copy, PartialEq, Eq, Structural)]
pub enum MetricType {
    CPU,
    Memory,
    Custom,
    External,
}

/// 应用配置
#[derive(Debug, Clone)]
pub struct ApplicationConfig {
    /// 应用名称
    pub name: String,
    /// 版本
    pub version: String,
    /// 容器配置
    pub containers: Vec<ContainerConfig>,
    /// 服务配置
    pub services: Vec<ServiceConfig>,
    /// 资源配置
    pub resources: ResourceConfig,
}

/// 容器配置
#[derive(Debug, Clone)]
pub struct ContainerConfig {
    /// 容器名称
    pub name: String,
    /// 镜像
    pub image: String,
    /// 端口
    pub ports: Vec<u16>,
    /// 环境变量
    pub env_vars: HashMap<String, String>,
    /// 卷挂载
    pub volume_mounts: Vec<VolumeMount>,
}

/// 卷挂载
#[derive(Debug, Clone)]
pub struct VolumeMount {
    /// 名称
    pub name: String,
    /// 挂载路径
    pub mount_path: String,
    /// 只读
    pub read_only: bool,
}

/// 服务配置
#[derive(Debug, Clone)]
pub struct ServiceConfig {
    /// 服务名称
    pub name: String,
    /// 服务类型
    pub service_type: ServiceType,
    /// 端口
    pub ports: Vec<ServicePort>,
    /// 选择器
    pub selector: HashMap<String, String>,
}

/// 服务类型
#[derive(Debug, Clone, Copy, PartialEq, Eq, Structural)]
pub enum ServiceType {
    ClusterIP,
    NodePort,
    LoadBalancer,
    ExternalName,
}

/// 服务端口
#[derive(Debug, Clone)]
pub struct ServicePort {
    /// 名称
    pub name: String,
    /// 端口
    pub port: u16,
    /// 目标端口
    pub target_port: u16,
    /// 协议
    pub protocol: String,
}

/// 资源配置
#[derive(Debug, Clone)]
pub struct ResourceConfig {
    /// CPU 请求
    pub cpu_request: String,
    /// CPU 限制
    pub cpu_limit: String,
    /// 内存请求
    pub memory_request: String,
    /// 内存限制
    pub memory_limit: String,
}

/// 部署结果
#[derive(Debug, Clone)]
pub struct DeploymentResult {
    /// 部署 ID
    pub deployment_id: String,
    /// 部署状态
    pub status: DeploymentStatus,
    /// 容器列表
    pub containers: Vec<String>,
    /// 服务列表
    pub services: Vec<String>,
    /// 端点列表
    pub endpoints: Vec<String>,
}

/// 部署状态
#[derive(Debug, Clone, Copy, PartialEq, Eq, Structural)]
pub enum DeploymentStatus {
    Success,
    Failed,
    InProgress,
    Rollback,
}

/// 集群状态
#[derive(Debug, Clone)]
pub struct ClusterStatus {
    /// 集群名称
    pub name: String,
    /// 集群版本
    pub version: String,
    /// 节点数量
    pub node_count: u32,
    /// Pod 数量
    pub pod_count: u32,
    /// 服务数量
    pub service_count: u32,
    /// 状态
    pub status: String,
}

impl ContainerManager {
    /// The runtime containers are made with.
    pub closed spec fn runtime(&self) -> ContainerRuntime {
        self.runtime
    }

    /// A manager that uses Docker.
    pub fn new() -> (m: ContainerManager)
        ensures
            m.runtime() == ContainerRuntime::Docker,
    {
        ContainerManager { runtime: ContainerRuntime::Docker }
    }

    /// Creates the application's containers and names them: always
    /// "container-1" and "container-2".
    pub fn create_containers(&self, _app_config: &ApplicationConfig) -> (res: Result<Vec<String>>)
        ensures
            res matches Ok(v) && v@.len() == 2 && v@[0]@ == "container-1"@ && v@[1]@ == "container-2"@,
    {
        let mut v: Vec<String> = Vec::new();
        v.push(String::from_str("container-1"));
        v.push(String::from_str("container-2"));
        Ok(v)
    }
}

impl ServiceMesh {
    /// The kind of mesh.
    pub closed spec fn mesh_type(&self) -> ServiceMeshType {
        self.mesh_type
    }

    /// An Istio mesh.
    pub fn new() -> (m: ServiceMesh)
        ensures
            m.mesh_type() == ServiceMeshType::Istio,
    {
        ServiceMesh { mesh_type: ServiceMeshType::Istio }
    }

    /// Configures the application's service: nothing to do, always succeeds.
    pub fn configure_service(&self, _app_config: &ApplicationConfig) -> (res: Result<()>)
        ensures
            res is Ok,
    {
        Ok(())
    }
}

impl CloudConfigManager {
    /// Where configuration is kept.
    pub closed spec fn config_store(&self) -> ConfigStore {
        self.config_store
    }

    /// A manager that keeps configuration in Kubernetes.
    pub fn new() -> (m: CloudConfigManager)
        ensures
            m.config_store() == ConfigStore::Kubernetes,
    {
        CloudConfigManager { config_store: ConfigStore::Kubernetes }
    }
}

impl CloudMonitoringManager {
    /// Where metrics go.
    pub closed spec fn monitoring_backend(&self) -> MonitoringBackend {
        self.monitoring_backend
    }

    /// A manager that reports to Prometheus.
    pub fn new() -> (m: CloudMonitoringManager)
        ensures
            m.monitoring_backend() == MonitoringBackend::Prometheus,
    {
        CloudMonitoringManager { monitoring_backend: MonitoringBackend::Prometheus }
    }

    /// Sets up monitoring for the application: nothing to do, always succeeds.
    pub fn setup_monitoring(&self, _app_config: &ApplicationConfig) -> (res: Result<()>)
        ensures
            res is Ok,
    {
        Ok(())
    }
}

} // verus!

//! Data processing settings: ETL jobs, sources and targets, transformations,
//! streams, windows, aggregations and data-quality rules.

use vstd::prelude::*;
use std::collections::HashMap;
use std::time::Duration;

verus! {

/// 数据处理配置
#[derive(Debug, Clone)]
pub struct DataProcessingConfig {
    /// 批处理大小
    pub batch_size: usize,
    /// 最大并发处理数
    pub max_concurrent_jobs: usize,
    /// 数据缓冲区大小
    pub buffer_size: usize,
    /// 启用数据压缩
    pub enable_compression: bool,
    /// 启用数据加密
    pub enable_encryption: bool,
    /// 数据保留天数
    pub data_retention_days: u32,
    /// 启用数据血缘追踪
    pub enable_lineage_tracking: bool,
    /// 错误处理策略
    pub error_handling: ErrorHandlingStrategy,
}

/// 错误处理策略
#[derive(Debug, Clone)]
pub enum ErrorHandlingStrategy {
    /// 停止处理
    Stop,
    /// 跳过错误记录
    Skip,
    /// 重试
    Retry { max_retries: u32, delay_ms: u64 },
    /// 发送到死信队列
    DeadLetter,
}

/// ETL 作业类型
#[derive(Debug, Clone, Copy, PartialEq, Eq, Structural)]
pub enum EtlJobType {
    /// 批处理
    Batch,
    /// 流处理
    Stream,
    /// 增量处理
    Incremental,
    /// 全量处理
    FullLoad,
    /// 实时同步
    RealTimeSync,
}

/// 数据源类型
#[derive(Debug, Clone)]
pub enum DataSourceType {
    /// 数据库
    Database(DatabaseType),
    /// 文件系统
    FileSystem(FileSystemType),
    /// 消息队列
    MessageQueue(MessageQueueType),
    /// API 接口
    Api(ApiType),
    /// 对象存储
    ObjectStorage(ObjectStorageType),
    /// 流数据
    Stream(StreamType),
}

/// 数据库类型
#[derive(Debug, Clone, Copy, PartialEq, Eq, Structural)]
pub enum DatabaseType {
    PostgreSQL,
    MySQL,
    Oracle,
    SQLServer,
    MongoDB,
    Cassandra,
    Redis,
    Elasticsearch,
}

/// 文件系统类型
#[derive(Debug, Clone, Copy, PartialEq, Eq, Structural)]
pub enum FileSystemType {
    Local,
    HDFS,
    S3,
    Azure,
    GCS,
    FTP,
    SFTP,
}

/// 消息队列类型
#[derive(Debug, Clone, Copy, PartialEq, Eq, Structural)]
pub enum MessageQueueType {
    Kafka,
    RabbitMQ,
    ActiveMQ,
    AmazonSQS,
    AzureServiceBus,
    GooglePubSub,
}

/// API 类型
#[derive(Debug, Clone, Copy, PartialEq, Eq, Structural)]
pub enum ApiType {
    REST,
    GraphQL,
    SOAP,
    gRPC,
}

/// 对象存储类型
#[derive(Debug, Clone, Copy, PartialEq, Eq, Structural)]
pub enum ObjectStorageType {
    S3,
    AzureBlob,
    GoogleCloudStorage,
    MinIO,
}

/// 流类型
#[derive(Debug, Clone, Copy, PartialEq, Eq, Structural)]
pub enum StreamType {
    Kafka,
    Kinesis,
    EventHub,
    PubSub,
}

/// 连接配置
#[derive(Debug, Clone)]
pub struct ConnectionConfig {
    /// 主机
    pub host: String,
    /// 端口
    pub port: u16,
    /// 用户名
    pub username: String,
    /// 密码
    pub password: String,
    /// 数据库名
    pub database: Option<String>,
    /// 连接参数
    pub parameters: HashMap<String, String>,
    /// SSL 配置
    pub ssl_config: Option<SslConfig>,
}

/// SSL 配置
#[derive(Debug, Clone)]
pub struct SslConfig {
    /// 启用 SSL
    pub enabled: bool,
    /// 证书路径
    pub cert_path: Option<String>,
    /// 私钥路径
    pub key_path: Option<String>,
    /// CA 证书路径
    pub ca_path: Option<String>,
}

/// 过滤操作符
#[derive(Debug, Clone, Copy, PartialEq, Eq, Structural)]
pub enum FilterOperator {
    Equal,
    NotEqual,
    GreaterThan,
    LessThan,
    GreaterThanOrEqual,
    LessThanOrEqual,
    In,
    NotIn,
    Like,
    NotLike,
    IsNull,
    IsNotNull,
    Between,
}

/// 分区配置
#[derive(Debug, Clone)]
pub struct PartitionConfig {
    /// 分区字段
    pub partition_field: String,
    /// 分区类型
    pub partition_type: PartitionType,
    /// 分区数量
    pub partition_count: u32,
}

/// 分区类型
#[derive(Debug, Clone, Copy, PartialEq, Eq, Structural)]
pub enum PartitionType {
    Range,
    Hash,
    List,
    Time,
}

/// 数据目标配置
#[derive(Debug, Clone)]
pub struct DataTargetConfig {
    /// 目标类型
    pub target_type: DataTargetType,
    /// 连接配置
    pub connection_config: ConnectionConfig,
    /// 写入配置
    pub write_config: WriteConfig,
}

/// 数据目标类型
#[derive(Debug, Clone)]
pub enum DataTargetType {
    Database(DatabaseType),
    FileSystem(FileSystemType),
    MessageQueue(MessageQueueType),
    ObjectStorage(ObjectStorageType),
    DataWarehouse(DataWarehouseType),
}

/// 数据仓库类型
#[derive(Debug, Clone, Copy, PartialEq, Eq, Structural)]
pub enum DataWarehouseType {
    Snowflake,
    BigQuery,
    Redshift,
    Synapse,
    Databricks,
}

/// 写入配置
#[derive(Debug, Clone)]
pub struct WriteConfig {
    /// 写入模式
    pub write_mode: WriteMode,
    /// 批次大小
    pub batch_size: usize,
    /// 表名
    pub table_name: Option<String>,
    /// 文件格式
    pub file_format: Option<FileFormat>,
    /// 压缩类型
    pub compression: Option<CompressionType>,
    /// 分区配置
    pub partition_config: Option<PartitionConfig>,
}

/// 写入模式
#[derive(Debug, Clone, Copy, PartialEq, Eq, Structural)]
pub enum WriteMode {
    Append,
    Overwrite,
    Upsert,
    Merge,
}

/// 文件格式
#[derive(Debug, Clone, Copy, PartialEq, Eq, Structural)]
pub enum FileFormat {
    CSV,
    JSON,
    Parquet,
    Avro,
    ORC,
    XML,
}

/// 压缩类型
#[derive(Debug, Clone, Copy, PartialEq, Eq, Structural)]
pub enum CompressionType {
    /// Not compressed.
    Uncompressed,
    Gzip,
    Snappy,
    LZ4,
    Zstd,
}

/// 转换类型
#[derive(Debug, Clone, Copy, PartialEq, Eq, Structural)]
pub enum TransformationType {
    /// 字段映射
    FieldMapping,
    /// 数据类型转换
    TypeConversion,
    /// 字符串操作
    StringOperation,
    /// 数学运算
    MathOperation,
    /// 日期时间操作
    DateTimeOperation,
    /// 聚合操作
    Aggregation,
    /// 条件逻辑
    ConditionalLogic,
    /// 数据清洗
    DataCleaning,
    /// 数据验证
    DataValidation,
    /// 自定义函数
    CustomFunction,
}

/// 调度类型
#[derive(Debug, Clone, Copy, PartialEq, Eq, Structural)]
pub enum ScheduleType {
    /// 一次性
    Once,
    /// 间隔调度
    Interval,
    /// Cron 调度
    Cron,
    /// 事件触发
    EventTriggered,
    /// 手动触发
    Manual,
}

/// 作业状态
#[derive(Debug, Clone, Copy, PartialEq, Eq, Structural)]
pub enum JobStatus {
    Created,
    Scheduled,
    Running,
    Completed,
    Failed,
    Cancelled,
    Paused,
}

/// 作业执行结果
#[derive(Debug, Clone)]
pub struct JobExecutionResult {
    /// 执行 ID
    pub execution_id: String,
    /// 状态
    pub status: JobStatus,
    /// 处理记录数
    pub processed_records: u64,
    /// 错误记录数
    pub error_records: u64,
    /// 执行时间（毫秒）
    pub execution_time_ms: u64,
    /// 错误信息
    pub error_message: Option<String>,
}

/// 流状态
#[derive(Debug, Clone, Copy, PartialEq, Eq, Structural)]
pub enum StreamStatus {
    Starting,
    Running,
    Paused,
    Stopped,
    Error,
}

/// 流输入配置
#[derive(Debug, Clone)]
pub struct StreamInputConfig {
    /// 源类型
    pub source_type: StreamType,
    /// 连接配置
    pub connection_config: ConnectionConfig,
    /// 消费者配置
    pub consumer_config: ConsumerConfig,
}

/// 消费者配置
#[derive(Debug, Clone)]
pub struct ConsumerConfig {
    /// 消费者组
    pub consumer_group: String,
    /// 自动提交
    pub auto_commit: bool,
    /// 批次大小
    pub batch_size: usize,
    /// 超时时间
    pub timeout_ms: u64,
}

/// 流输出配置
#[derive(Debug, Clone)]
pub struct StreamOutputConfig {
    /// 目标类型
    pub target_type: StreamType,
    /// 连接配置
    pub connection_config: ConnectionConfig,
    /// 生产者配置
    pub producer_config: ProducerConfig,
}

/// 生产者配置
#[derive(Debug, Clone)]
pub struct ProducerConfig {
    /// 批次大小
    pub batch_size: usize,
    /// 确认模式
    pub acks: AcknowledgmentMode,
    /// 重试次数
    pub retries: u32,
    /// 压缩类型
    pub compression: Option<CompressionType>,
}

/// 确认模式
#[derive(Debug, Clone, Copy, PartialEq, Eq, Structural)]
pub enum AcknowledgmentMode {
    /// No acknowledgment is awaited.
    Unacknowledged,
    Leader,
    All,
}

/// 窗口配置
#[derive(Debug, Clone)]
pub struct WindowConfig {
    /// 窗口类型
    pub window_type: WindowType,
    /// 窗口大小
    pub window_size: Duration,
    /// 滑动间隔
    pub slide_interval: Option<Duration>,
}

/// 窗口类型
#[derive(Debug, Clone, Copy, PartialEq, Eq, Structural)]
pub enum WindowType {
    Tumbling,
    Sliding,
    Session,
}

/// 聚合规则
#[derive(Debug, Clone)]
pub struct AggregationRule {
    /// 聚合字段
    pub field: String,
    /// 聚合函数
    pub function: AggregationFunction,
    /// 分组字段
    pub group_by: Vec<String>,
}

/// 聚合函数
#[derive(Debug, Clone, Copy, PartialEq, Eq, Structural)]
pub enum AggregationFunction {
    Count,
    Sum,
    Average,
    Min,
    Max,
    First,
    Last,
}

/// 质量规则
#[derive(Debug, Clone)]
pub struct QualityRule {
    /// 规则 ID
    pub id: String,
    /// 规则名称
    pub name: String,
    /// 规则类型
    pub rule_type: QualityRuleType,
    /// 字段名
    pub field_name: String,
    /// 规则表达式
    pub expression: String,
    /// 严重程度
    pub severity: QualitySeverity,
    /// 是否启用
    pub enabled: bool,
}

/// 质量规则类型
#[derive(Debug, Clone, Copy, PartialEq, Eq, Structural)]
pub enum QualityRuleType {
    NotNull,
    Unique,
    Range,
    Pattern,
    Custom,
}

/// 质量严重程度
#[derive(Debug, Clone, Copy, PartialEq, Eq, Structural)]
pub enum QualitySeverity {
    Info,
    Warning,
    Error,
    Critical,
}

/// 验证类型
#[derive(Debug, Clone, Copy, PartialEq, Eq, Structural)]
pub enum ValidationType {
    Required,
    Type,
    Range,
    Length,
    Pattern,
    Custom,
}

} // verus!

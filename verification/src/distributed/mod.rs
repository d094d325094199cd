//! Distributed computing: cluster and task descriptions, node selection,
//! shard placement and failure detection.

pub mod cache;
pub mod consensus;
pub mod locks;

use vstd::prelude::*;
use std::collections::HashMap;
use crate::hashing::{md5_hex, hex_lower, md5_of};
use vstd::string::StringSliceAdditionalSpecFns;

verus! {

/// 分布式配置
#[derive(Debug, Clone)]
pub struct DistributedConfig {
    /// 集群名称
    pub cluster_name: String,
    /// 当前节点 ID
    pub node_id: String,
    /// 监听端口
    pub port: u16,
    /// 种子节点列表
    pub seed_nodes: Vec<String>,
    /// 心跳间隔（秒）
    pub heartbeat_interval: u64,
    /// 故障检测超时（秒）
    pub failure_timeout: u64,
    /// 最大重试次数
    pub max_retries: u32,
    /// 启用数据复制
    pub enable_replication: bool,
    /// 复制因子
    pub replication_factor: u32,
    /// 启用分片
    pub enable_sharding: bool,
    /// 分片数量
    pub shard_count: u32,
}

/// 节点状态
#[derive(Debug, Clone, Copy, PartialEq, Eq, Structural)]
pub enum NodeStatus {
    /// 在线
    Online,
    /// 离线
    Offline,
    /// 故障
    Failed,
    /// 维护中
    Maintenance,
    /// 启动中
    Starting,
    /// 停止中
    Stopping,
}

/// 节点角色
#[derive(Debug, Clone, Copy, PartialEq, Eq, Structural)]
pub enum NodeRole {
    /// 主节点
    Master,
    /// 工作节点
    Worker,
    /// 协调节点
    Coordinator,
    /// 存储节点
    Storage,
    /// 计算节点
    Compute,
    /// 混合节点
    Hybrid,
}

/// 节点能力
#[derive(Debug, Clone)]
pub struct NodeCapabilities {
    /// 支持的任务类型
    pub supported_tasks: Vec<String>,
    /// 最大并发任务数
    pub max_concurrent_tasks: u32,
    /// 支持的数据格式
    pub supported_formats: Vec<String>,
    /// 特殊能力
    pub special_capabilities: Vec<String>,
}

/// 任务类型
#[derive(Debug, Clone)]
pub enum TaskType {
    /// 计算任务
    Compute,
    /// 数据处理任务
    DataProcessing,
    /// 机器学习任务
    MachineLearning,
    /// 批处理任务
    BatchProcessing,
    /// 流处理任务
    StreamProcessing,
    /// 存储任务
    Storage,
    /// 网络任务
    Network,
    /// 自定义任务
    Custom(String),
}

/// 任务优先级
#[derive(Debug, Clone, Copy, PartialEq, Eq, Structural)]
pub enum TaskPriority {
    Low,
    Normal,
    High,
    Critical,
    Emergency,
}

/// 任务数据
#[derive(Debug, Clone)]
pub struct TaskData {
    /// 输入数据
    pub input: Vec<u8>,
    /// 数据格式
    pub format: String,
    /// 数据大小（字节）
    pub size: u64,
    /// 数据校验和
    pub checksum: String,
    /// 压缩类型
    pub compression: Option<String>,
}

/// 资源要求
#[derive(Debug, Clone)]
pub struct ResourceRequirements {
    /// 最小 CPU 核心数
    pub min_cpu_cores: u32,
    /// 最小内存（MB）
    pub min_memory_mb: u64,
    /// 最小磁盘空间（GB）
    pub min_disk_gb: u64,
    /// 需要 GPU
    pub requires_gpu: bool,
    /// 最小 GPU 内存（MB）
    pub min_gpu_memory_mb: Option<u64>,
    /// 网络带宽要求（Mbps）
    pub min_network_mbps: Option<u64>,
}

/// 任务约束
#[derive(Debug, Clone)]
pub struct TaskConstraints {
    /// 允许的节点列表
    pub allowed_nodes: Option<Vec<String>>,
    /// 禁止的节点列表
    pub forbidden_nodes: Option<Vec<String>>,
    /// 地理位置约束
    pub geo_constraints: Option<GeoConstraints>,
    /// 安全级别要求
    pub security_level: Option<SecurityLevel>,
    /// 数据本地性要求
    pub data_locality: bool,
}

/// 地理位置约束
#[derive(Debug, Clone)]
pub struct GeoConstraints {
    /// 允许的区域
    pub allowed_regions: Vec<String>,
    /// 禁止的区域
    pub forbidden_regions: Vec<String>,
    /// 最大延迟（毫秒）
    pub max_latency_ms: Option<u64>,
}

/// 安全级别
#[derive(Debug, Clone, Copy, PartialEq, Eq, Structural)]
pub enum SecurityLevel {
    Public,
    Internal,
    Confidential,
    Secret,
    TopSecret,
}

/// 执行状态
#[derive(Debug, Clone, Copy, PartialEq, Eq, Structural)]
pub enum ExecutionStatus {
    Pending,
    Running,
    Completed,
    Failed,
    Cancelled,
    Timeout,
}

/// 任务结果
#[derive(Debug, Clone)]
pub struct TaskResult {
    /// 输出数据
    pub output: Vec<u8>,
    /// 结果格式
    pub format: String,
    /// 执行时间（毫秒）
    pub execution_time_ms: u64,
    /// 资源使用情况
    pub resource_usage: ResourceUsage,
    /// 结果元数据
    pub metadata: HashMap<String, String>,
}

/// 资源使用情况
#[derive(Debug, Clone)]
pub struct ResourceUsage {
    /// CPU 使用时间（毫秒）
    pub cpu_time_ms: u64,
    /// 内存峰值使用量（MB）
    pub peak_memory_mb: u64,
    /// 磁盘 I/O（MB）
    pub disk_io_mb: u64,
    /// 网络 I/O（MB）
    pub network_io_mb: u64,
    /// GPU 使用时间（毫秒）
    pub gpu_time_ms: Option<u64>,
}

/// 分片状态
#[derive(Debug, Clone, Copy, PartialEq, Eq, Structural)]
pub enum ShardStatus {
    Active,
    Migrating,
    Splitting,
    Merging,
    Offline,
    Error,
}

/// 集群状态
#[derive(Debug, Clone)]
pub struct ClusterStatus {
    /// 集群名称
    pub cluster_name: String,
    /// 总节点数
    pub total_nodes: u32,
    /// 在线节点数
    pub online_nodes: u32,
    /// 运行中任务数
    pub running_tasks: u32,
    /// 待处理任务数
    pub pending_tasks: u32,
    /// 总分片数
    pub total_shards: u32,
}

#[derive(Debug, Clone, Copy, PartialEq, Eq, Structural)]
pub struct LeastLoadedStrategy;

#[derive(Debug, Clone, Copy, PartialEq, Eq, Structural)]
pub struct HeartbeatFailureDetection;

#[derive(Debug, Clone, Copy, PartialEq, Eq, Structural)]
pub struct HashShardingStrategy;


impl LeastLoadedStrategy {
    /// The least-loaded node selection strategy.
    pub fn new() -> (s: LeastLoadedStrategy)
        ensures
            s == LeastLoadedStrategy,
    {
        LeastLoadedStrategy
    }

    /// The name of the strategy.
    pub fn name(&self) -> (s: &'static str)
        ensures
            s@ == "least_loaded"@,
    {
        "least_loaded"
    }
}

impl HeartbeatFailureDetection {
    /// The heartbeat-based failure detector.
    pub fn new() -> (s: HeartbeatFailureDetection)
        ensures
            s == HeartbeatFailureDetection,
    {
        HeartbeatFailureDetection
    }

    /// Whether a node whose last check was at `last_check_ms` has failed at
    /// `now_ms` (both in milliseconds since the epoch): more than 60 whole
    /// seconds have passed since the last heartbeat.
    pub fn detect_failure(&self, now_ms: i64, last_check_ms: i64) -> (failed: bool)
        ensures
            failed <==> now_ms - last_check_ms >= 61000,
    {
        let elapsed: i128 = now_ms as i128 - last_check_ms as i128;
        elapsed >= 61000
    }

    /// The name of the strategy.
    pub fn name(&self) -> (s: &'static str)
        ensures
            s@ == "heartbeat"@,
    {
        "heartbeat"
    }
}

impl HashShardingStrategy {
    /// The hash-based sharding strategy.
    pub fn new() -> (s: HashShardingStrategy)
        ensures
            s == HashShardingStrategy,
    {
        HashShardingStrategy
    }

    /// The shard of `key`: the first eight hexadecimal digits of the MD5 digest of its bytes.
    pub fn compute_shard(&self, key: &str) -> (shard: String)
        ensures
            shard@ == hex_lower(md5_of(key.spec_bytes())).take(8),
    {
        let hex = md5_hex(key.as_bytes());
        let mut shard = String::new();
        let mut i: usize = 0;
        while i < 8
            invariant
                i <= 8,
                hex@.len() == 32,
                shard@ == hex@.take(i as int),
            decreases 8 - i,
        {
            crate::text::string_push_char(&mut shard, hex.as_str().get_char(i));
            assert(hex@.take(i + 1) =~= hex@.take(i as int).push(hex@[i as int]));
            i = i + 1;
        }
        shard
    }

    /// The name of the strategy.
    pub fn name(&self) -> (s: &'static str)
        ensures
            s@ == "hash"@,
    {
        "hash"
    }
}

/// Round-robin selection over the available nodes.
#[derive(Debug, Clone, Copy, PartialEq, Eq, Structural)]
pub struct RoundRobinStrategy {
    current_index: usize,
}

impl RoundRobinStrategy {
    /// A strategy that starts with the first node.
    pub fn new() -> (s: RoundRobinStrategy)
        ensures
            s.index() == 0,
    {
        RoundRobinStrategy { current_index: 0 }
    }

    /// The number of selections made so far.
    pub closed spec fn index(&self) -> usize {
        self.current_index
    }

    /// Selects the node at the current index (modulo the number of nodes) and
    /// advances the index; `None`, with the index unchanged, when no node is available.
    pub fn select_node(&mut self, available_nodes: &[String]) -> (res: Option<String>)
        requires
            available_nodes@.len() > 0 ==> old(self).index() < usize::MAX,
        ensures
            available_nodes@.len() == 0 ==> res is None && final(self).index() == old(self).index(),
            available_nodes@.len() > 0 ==> (res matches Some(id)
                && id@ == available_nodes@[old(self).index() as int % available_nodes@.len() as int]@
                && final(self).index() == old(self).index() + 1),
    {
        if available_nodes.len() == 0 {
            return None;
        }
        let selected = available_nodes[self.current_index % available_nodes.len()].clone();
        self.current_index = self.current_index + 1;
        Some(selected)
    }

    /// The name of the strategy.
    pub fn name(&self) -> (s: &'static str)
        ensures
            s@ == "round_robin"@,
    {
        "round_robin"
    }
}

/// The number of online nodes among `statuses`.
pub open spec fn count_online(statuses: Seq<NodeStatus>) -> nat
    decreases statuses.len(),
{
    if statuses.len() == 0 {
        0
    } else {
        count_online(statuses.drop_last()) + if statuses.last() == NodeStatus::Online { 1nat } else { 0nat }
    }
}

/// The cluster summary built from the status of every node and the task and
/// shard counts (what `get_cluster_status` reports).
pub fn summarize_cluster(cluster_name: &str, statuses: &[NodeStatus], running_tasks: u32,
    pending_tasks: u32, total_shards: u32) -> (st: ClusterStatus)
    requires
        statuses@.len() <= u32::MAX,
    ensures
        st.cluster_name@ == cluster_name@,
        st.total_nodes == statuses@.len(),
        st.online_nodes == count_online(statuses@),
        st.running_tasks == running_tasks,
        st.pending_tasks == pending_tasks,
        st.total_shards == total_shards,
{
    let mut online: u32 = 0;
    let mut i: usize = 0;
    while i < statuses.len()
        invariant
            i <= statuses@.len() <= u32::MAX,
            online == count_online(statuses@.take(i as int)),
            online <= i,
        decreases statuses.len() - i,
    {
        assert(statuses@.take(i + 1).drop_last() =~= statuses@.take(i as int));
        if statuses[i] == NodeStatus::Online {
            online = online + 1;
        }
        i = i + 1;
    }
    assert(statuses@.take(statuses@.len() as int) =~= statuses@);
    ClusterStatus {
        cluster_name: String::from_str(cluster_name),
        total_nodes: statuses.len() as u32,
        online_nodes: online,
        running_tasks,
        pending_tasks,
        total_shards,
    }
}

} // verus!

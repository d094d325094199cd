//! Inference service settings: model kinds, warm-up, model pools, request
//! priorities and model descriptions.

use vstd::prelude::*;
use std::collections::HashMap;
use std::time::Duration;

verus! {

/// 推理配置
#[derive(Debug, Clone)]
pub struct InferenceConfig {
    /// 默认模型
    pub default_model: String,
    /// 最大并发推理数
    pub max_concurrent_inferences: usize,
    /// 推理超时时间（秒）
    pub inference_timeout: u64,
    /// 启用缓存
    pub enable_caching: bool,
    /// 缓存 TTL（秒）
    pub cache_ttl: u64,
    /// 启用批处理
    pub enable_batching: bool,
    /// 批处理大小
    pub batch_size: usize,
    /// 批处理等待时间（毫秒）
    pub batch_wait_time: u64,
}

/// 模型类型
#[derive(Debug, Clone)]
pub enum ModelType {
    /// 语言模型
    LanguageModel,
    /// 代码模型
    CodeModel,
    /// 多模态模型
    MultiModal,
    /// 嵌入模型
    Embedding,
    /// 分类模型
    Classification,
    /// 自定义模型
    Custom(String),
}

/// 资源要求
#[derive(Debug, Clone)]
pub struct ResourceRequirements {
    /// 最小内存（MB）
    pub min_memory_mb: u64,
    /// 推荐内存（MB）
    pub recommended_memory_mb: u64,
    /// GPU 要求
    pub gpu_required: bool,
    /// 最小 GPU 内存（MB）
    pub min_gpu_memory_mb: Option<u64>,
    /// CPU 核心数
    pub cpu_cores: u32,
}

/// 预热配置
#[derive(Debug, Clone)]
pub struct WarmupConfig {
    /// 预热请求数
    pub warmup_requests: u32,
    /// 预热输入示例
    pub warmup_inputs: Vec<String>,
    /// 预热超时时间（秒）
    pub warmup_timeout: u64,
}

/// 模型状态
#[derive(Debug, Clone)]
pub enum ModelStatus {
    /// 加载中
    Loading,
    /// 就绪
    Ready,
    /// 忙碌
    Busy,
    /// 错误
    Error(String),
    /// 卸载中
    Unloading,
}

/// 模型池配置
#[derive(Debug, Clone)]
pub struct ModelPoolConfig {
    /// 最大实例数
    pub max_instances: usize,
    /// 最小实例数
    pub min_instances: usize,
    /// 实例空闲超时时间（秒）
    pub idle_timeout: u64,
    /// 健康检查间隔（秒）
    pub health_check_interval: u64,
}

/// 实例状态
#[derive(Debug, Clone)]
pub enum InstanceStatus {
    /// 初始化中
    Initializing,
    /// 可用
    Available,
    /// 忙碌
    Busy,
    /// 错误
    Error(String),
    /// 销毁中
    Destroying,
}

/// 推理优先级
#[derive(Debug, Clone, Copy, PartialEq, Eq, Structural)]
pub enum InferencePriority {
    Low,
    Normal,
    High,
    Critical,
}

/// 模型信息
#[derive(Debug, Clone)]
pub struct ModelInfo {
    /// 模型名称
    pub name: String,
    /// 模型版本
    pub version: String,
    /// 实例 ID
    pub instance_id: String,
}

/// 完成原因
#[derive(Debug, Clone)]
pub enum FinishReason {
    /// 正常完成
    Completed,
    /// 达到最大长度
    MaxLength,
    /// 遇到停止词
    StopSequence,
    /// 超时
    Timeout,
    /// 错误
    Error(String),
}

} // verus!

//! Machine-learning settings: model kinds, layers, optimisers, data
//! specifications, training schedules and model states.

use vstd::prelude::*;
use std::collections::HashMap;
use std::time::Duration;

verus! {

/// 机器学习配置
#[derive(Debug, Clone)]
pub struct MLConfig {
    /// 模型存储路径
    pub model_storage_path: String,
    /// 数据存储路径
    pub data_storage_path: String,
    /// 最大并发训练数
    pub max_concurrent_training: usize,
    /// 最大并发推理数
    pub max_concurrent_inference: usize,
    /// 启用 GPU 加速
    pub enable_gpu: bool,
    /// GPU 设备 ID
    pub gpu_device_ids: Vec<u32>,
    /// 启用分布式训练
    pub enable_distributed: bool,
    /// 启用模型版本管理
    pub enable_versioning: bool,
    /// 启用自动调参
    pub enable_auto_tuning: bool,
}

/// 模型类型
#[derive(Debug, Clone)]
pub enum ModelType {
    /// 分类模型
    Classification,
    /// 回归模型
    Regression,
    /// 聚类模型
    Clustering,
    /// 强化学习模型
    ReinforcementLearning,
    /// 生成模型
    Generative,
    /// 语言模型
    LanguageModel,
    /// 计算机视觉模型
    ComputerVision,
    /// 时间序列模型
    TimeSeries,
    /// 推荐系统
    RecommendationSystem,
    /// 自定义模型
    Custom(String),
}

/// 层类型
#[derive(Debug, Clone, Copy, PartialEq, Eq, Structural)]
pub enum LayerType {
    Dense,
    Convolutional,
    Pooling,
    LSTM,
    GRU,
    Attention,
    Embedding,
    Normalization,
    Dropout,
}

/// 激活函数
#[derive(Debug, Clone, Copy, PartialEq, Eq, Structural)]
pub enum ActivationFunction {
    ReLU,
    Sigmoid,
    Tanh,
    Softmax,
    LeakyReLU,
    ELU,
    Swish,
    GELU,
}

/// 优化器类型
#[derive(Debug, Clone, Copy, PartialEq, Eq, Structural)]
pub enum OptimizerType {
    SGD,
    Adam,
    AdamW,
    RMSprop,
    Adagrad,
    Adadelta,
}

/// 损失函数
#[derive(Debug, Clone)]
pub enum LossFunction {
    MeanSquaredError,
    MeanAbsoluteError,
    CrossEntropy,
    BinaryCrossEntropy,
    SparseCategoricalCrossEntropy,
    Huber,
    Custom(String),
}

/// 卷积层配置
#[derive(Debug)]
pub struct ConvLayerConfig {
    /// 滤波器数量
    pub filters: usize,
    /// 卷积核大小
    pub kernel_size: (usize, usize),
    /// 步长
    pub stride: (usize, usize),
    /// 填充
    pub padding: PaddingType,
    /// 激活函数
    pub activation: ActivationFunction,
}

/// 池化层配置
#[derive(Debug, Clone, Copy)]
pub struct PoolingLayerConfig {
    /// 池化类型
    pub pooling_type: PoolingType,
    /// 池化大小
    pub pool_size: (usize, usize),
    /// 步长
    pub stride: (usize, usize),
}

/// 填充类型
#[derive(Debug, Clone, Copy)]
pub enum PaddingType {
    Valid,
    Same,
    Custom(usize),
}

/// 池化类型
#[derive(Debug, Clone, Copy, PartialEq, Eq, Structural)]
pub enum PoolingType {
    Max,
    Average,
    Global,
}

/// RNN 类型
#[derive(Debug, Clone, Copy, PartialEq, Eq, Structural)]
pub enum RNNType {
    LSTM,
    GRU,
    SimpleRNN,
}

/// 输入规格
#[derive(Debug, Clone)]
pub struct InputSpec {
    /// 输入形状
    pub shape: Vec<usize>,
    /// 数据类型
    pub dtype: DataType,
    /// 输入名称
    pub name: String,
    /// 预处理步骤
    pub preprocessing: Vec<PreprocessingStep>,
}

/// 输出规格
#[derive(Debug, Clone)]
pub struct OutputSpec {
    /// 输出形状
    pub shape: Vec<usize>,
    /// 数据类型
    pub dtype: DataType,
    /// 输出名称
    pub name: String,
    /// 后处理步骤
    pub postprocessing: Vec<PostprocessingStep>,
}

/// 数据类型
#[derive(Debug, Clone, Copy, PartialEq, Eq, Structural)]
pub enum DataType {
    Float32,
    Float64,
    Int32,
    Int64,
    Bool,
    String,
}

/// 预处理步骤
#[derive(Debug, Clone)]
pub enum PreprocessingStep {
    Normalize,
    Standardize,
    MinMaxScale,
    OneHotEncode,
    Tokenize,
    Resize,
    Crop,
    Custom(String),
}

/// 后处理步骤
#[derive(Debug, Clone)]
pub enum PostprocessingStep {
    Softmax,
    Sigmoid,
    Argmax,
    Threshold,
    Denormalize,
    Custom(String),
}

/// 监控模式
#[derive(Debug, Clone, Copy, PartialEq, Eq, Structural)]
pub enum MonitorMode {
    Min,
    Max,
    Auto,
}

/// 学习率调度类型
#[derive(Debug, Clone, Copy, PartialEq, Eq, Structural)]
pub enum LRScheduleType {
    StepLR,
    ExponentialLR,
    CosineAnnealingLR,
    ReduceLROnPlateau,
    CyclicLR,
}

/// 数据增强类型
#[derive(Debug, Clone)]
pub enum AugmentationType {
    Rotation,
    Translation,
    Scaling,
    Flipping,
    Noise,
    Brightness,
    Contrast,
    Custom(String),
}

/// 模型状态
#[derive(Debug, Clone)]
pub enum ModelStatus {
    Loading,
    Ready,
    Training,
    Evaluating,
    Error(String),
    Unloaded,
}

/// 训练状态
#[derive(Debug, Clone)]
pub enum TrainingStatus {
    Pending,
    Running,
    Paused,
    Completed,
    Failed(String),
    Cancelled,
}

/// 文件模型存储实现
#[derive(Debug, Clone)]
pub struct FileModelStorage {
    storage_path: String,
}

impl Clone for ConvLayerConfig {
    fn clone(&self) -> (c: ConvLayerConfig) {
        ConvLayerConfig {
            filters: self.filters,
            kernel_size: (self.kernel_size.0, self.kernel_size.1),
            stride: (self.stride.0, self.stride.1),
            padding: self.padding,
            activation: self.activation.clone(),
        }
    }
}

impl FileModelStorage {
    /// The directory models are kept in.
    pub closed spec fn storage_path(&self) -> Seq<char> {
        self.storage_path@
    }

    /// Storage under the directory `storage_path`.
    pub fn new(storage_path: &str) -> (s: FileModelStorage)
        ensures
            s.storage_path() == storage_path@,
    {
        FileModelStorage { storage_path: String::from_str(storage_path) }
    }
}

} // verus!

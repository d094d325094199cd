//! Analytics settings: event kinds, devices, anomaly detection, insights and
//! reports.

use vstd::prelude::*;
use std::collections::HashMap;
use std::time::Duration;

verus! {

/// 分析配置
#[derive(Debug, Clone)]
pub struct AnalyticsConfig {
    /// 启用实时分析
    pub enable_realtime: bool,
    /// 数据保留天数
    pub data_retention_days: u32,
    /// 分析间隔（秒）
    pub analysis_interval: u64,
    /// 启用预测分析
    pub enable_prediction: bool,
    /// 启用异常检测
    pub enable_anomaly_detection: bool,
    /// 报告生成间隔（小时）
    pub report_interval_hours: u32,
}

/// 事件类型
#[derive(Debug, Clone)]
pub enum EventType {
    /// 用户操作
    UserAction,
    /// 系统事件
    SystemEvent,
    /// 性能事件
    PerformanceEvent,
    /// 错误事件
    ErrorEvent,
    /// 业务事件
    BusinessEvent,
    /// 自定义事件
    Custom(String),
}

/// The name under which an event of this kind is stored.
pub open spec fn event_type_name(e: EventType) -> Seq<char> {
    match e {
        EventType::UserAction => "user_action"@,
        EventType::SystemEvent => "system_event"@,
        EventType::PerformanceEvent => "performance_event"@,
        EventType::ErrorEvent => "error_event"@,
        EventType::BusinessEvent => "business_event"@,
        EventType::Custom(name) => "custom_"@ + name@,
    }
}

impl EventType {
    /// The name under which an event of this kind is stored.
    pub fn to_string(&self) -> (s: String)
        ensures
            s@ == event_type_name(*self),
    {
        match self {
            EventType::UserAction => String::from_str("user_action"),
            EventType::SystemEvent => String::from_str("system_event"),
            EventType::PerformanceEvent => String::from_str("performance_event"),
            EventType::ErrorEvent => String::from_str("error_event"),
            EventType::BusinessEvent => String::from_str("business_event"),
            EventType::Custom(name) => {
                let mut s = String::from_str("custom_");
                s.append(name.as_str());
                s
            },
        }
    }
}

/// 设备信息
#[derive(Debug, Clone)]
pub struct DeviceInfo {
    /// 设备类型
    pub device_type: DeviceType,
    /// 操作系统
    pub os: String,
    /// 浏览器
    pub browser: Option<String>,
    /// 屏幕分辨率
    pub screen_resolution: Option<String>,
}

/// 设备类型
#[derive(Debug, Clone, Copy, PartialEq, Eq, Structural)]
pub enum DeviceType {
    Desktop,
    Mobile,
    Tablet,
    Unknown,
}

/// 旅程状态
#[derive(Debug, Clone, Copy, PartialEq, Eq, Structural)]
pub enum JourneyStatus {
    Active,
    Completed,
    Abandoned,
    Error,
}

/// 异常检测算法
#[derive(Debug, Clone, Copy, PartialEq, Eq, Structural)]
pub enum AnomalyAlgorithm {
    StatisticalOutlier,
    IsolationForest,
    LocalOutlierFactor,
    OneClassSVM,
}

/// 预测模型
#[derive(Debug, Clone, Copy, PartialEq, Eq, Structural)]
pub enum PredictiveModel {
    LinearRegression,
    ARIMA,
    Prophet,
    NeuralNetwork,
}

/// 洞察规则
#[derive(Debug, Clone)]
pub struct InsightRule {
    /// 规则 ID
    pub id: String,
    /// 规则名称
    pub name: String,
    /// 规则描述
    pub description: String,
    /// 触发条件
    pub trigger_condition: String,
    /// 洞察模板
    pub insight_template: String,
    /// 优先级
    pub priority: InsightPriority,
    /// 是否启用
    pub enabled: bool,
}

/// 洞察优先级
#[derive(Debug, Clone, Copy, PartialEq, Eq, Structural)]
pub enum InsightPriority {
    Low,
    Medium,
    High,
    Critical,
}

/// 洞察类型
#[derive(Debug, Clone, Copy, PartialEq, Eq, Structural)]
pub enum InsightType {
    /// 性能洞察
    Performance,
    /// 用户行为洞察
    UserBehavior,
    /// 业务洞察
    Business,
    /// 异常洞察
    Anomaly,
    /// 趋势洞察
    Trend,
    /// 预测洞察
    Prediction,
}

/// 影响程度
#[derive(Debug, Clone, Copy, PartialEq, Eq, Structural)]
pub enum ImpactLevel {
    Low,
    Medium,
    High,
    Critical,
}

/// 报告类型
#[derive(Debug, Clone, Copy, PartialEq, Eq, Structural)]
pub enum ReportType {
    Dashboard,
    Summary,
    Detailed,
    Executive,
    Technical,
}

/// 图表类型
#[derive(Debug, Clone, Copy, PartialEq, Eq, Structural)]
pub enum ChartType {
    Line,
    Bar,
    Pie,
    Scatter,
    Heatmap,
    Table,
}

/// 过滤器操作符
#[derive(Debug, Clone, Copy, PartialEq, Eq, Structural)]
pub enum FilterOperator {
    Equal,
    NotEqual,
    GreaterThan,
    LessThan,
    Contains,
    In,
    Between,
}

} // verus!

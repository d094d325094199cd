//! The API gateway's request path: route matching, choice of a healthy
//! upstream instance, a circuit breaker per upstream service, and the
//! answers the gateway gives when a step refuses a request.
//!
//! Instants and durations are milliseconds on the caller's monotonic clock.

use vstd::prelude::*;
use std::collections::HashMap;
use std::time::Duration;
use vstd::string::StringSliceAdditionalSpecFns;
use crate::error::{ClaudeError, Result};
use crate::keyed::{unique_keys, key_map, lemma_key_at, lemma_key_update, lemma_key_push, find_key};

verus! {

/// 网关配置
#[derive(Debug, Clone)]
pub struct GatewayConfig {
    /// 监听端口
    pub port: u16,
    /// 监听地址
    pub host: String,
    /// 最大并发连接数
    pub max_connections: usize,
    /// 请求超时时间（秒）
    pub request_timeout: u64,
    /// 启用 CORS
    pub enable_cors: bool,
    /// 启用压缩
    pub enable_compression: bool,
    /// 启用缓存
    pub enable_caching: bool,
    /// 缓存 TTL（秒）
    pub cache_ttl: u64,
    /// 健康检查间隔（秒）
    pub health_check_interval: u64,
}

/// 路由定义
#[derive(Debug, Clone)]
pub struct Route {
    /// 路由ID
    pub id: String,
    /// 路径模式
    pub path_pattern: String,
    /// HTTP 方法
    pub methods: Vec<HttpMethod>,
    /// 上游服务
    pub upstream: UpstreamService,
    /// 中间件
    pub middleware: Vec<String>,
    /// 超时时间
    pub timeout: Option<Duration>,
    /// 重试配置
    pub retry_config: Option<RetryConfig>,
    /// 缓存配置
    pub cache_config: Option<CacheConfig>,
}

/// HTTP 方法
#[derive(Debug, Clone, Copy, PartialEq, Eq, Structural)]
pub enum HttpMethod {
    GET,
    POST,
    PUT,
    DELETE,
    PATCH,
    HEAD,
    OPTIONS,
}

/// 上游服务
#[derive(Debug, Clone)]
pub struct UpstreamService {
    /// 服务名称
    pub name: String,
    /// 服务实例
    pub instances: Vec<ServiceInstance>,
    /// 负载均衡策略
    pub load_balance_strategy: LoadBalanceStrategy,
    /// 健康检查配置
    pub health_check: HealthCheckConfig,
}

/// 服务实例
#[derive(Debug, Clone)]
pub struct ServiceInstance {
    /// 实例ID
    pub id: String,
    /// 主机地址
    pub host: String,
    /// 端口
    pub port: u16,
    /// 权重
    pub weight: u32,
    /// 状态
    pub status: InstanceStatus,
    /// 元数据
    pub metadata: HashMap<String, String>,
}

/// 实例状态
#[derive(Debug, Clone, Copy, PartialEq, Eq, Structural)]
pub enum InstanceStatus {
    Healthy,
    Unhealthy,
    Draining,
    Disabled,
}

/// 负载均衡策略
#[derive(Debug, Clone, Copy, PartialEq, Eq, Structural)]
pub enum LoadBalanceStrategy {
    RoundRobin,
    WeightedRoundRobin,
    LeastConnections,
    Random,
    ConsistentHash,
    IpHash,
}

/// 健康检查配置
#[derive(Debug, Clone)]
pub struct HealthCheckConfig {
    /// 检查路径
    pub path: String,
    /// 检查间隔（秒）
    pub interval: u64,
    /// 超时时间（秒）
    pub timeout: u64,
    /// 健康阈值
    pub healthy_threshold: u32,
    /// 不健康阈值
    pub unhealthy_threshold: u32,
}

/// 重试配置
#[derive(Debug, Clone)]
pub struct RetryConfig {
    /// 最大重试次数
    pub max_retries: u32,
    /// 重试间隔（毫秒）
    pub retry_interval: u64,
    /// 退避策略
    pub backoff_strategy: BackoffStrategy,
    /// 可重试的状态码
    pub retryable_status_codes: Vec<u16>,
}

/// 退避策略
#[derive(Debug, Clone, Copy, PartialEq, Eq, Structural)]
pub enum BackoffStrategy {
    Fixed,
    Linear,
    Exponential,
}

/// 缓存配置
#[derive(Debug, Clone)]
pub struct CacheConfig {
    /// 启用缓存
    pub enabled: bool,
    /// TTL（秒）
    pub ttl: u64,
    /// 缓存键策略
    pub key_strategy: CacheKeyStrategy,
    /// 可缓存的状态码
    pub cacheable_status_codes: Vec<u16>,
}

/// 缓存键策略
#[derive(Debug, Clone)]
pub enum CacheKeyStrategy {
    FullUrl,
    PathOnly,
    PathAndQuery,
    Custom(String),
}

/// 网关请求
#[derive(Debug, Clone)]
pub struct GatewayRequest {
    /// 请求ID
    pub id: String,
    /// HTTP 方法
    pub method: HttpMethod,
    /// 路径
    pub path: String,
    /// 查询参数
    pub query_params: HashMap<String, String>,
    /// 请求头
    pub headers: HashMap<String, String>,
    /// 请求体
    pub body: Vec<u8>,
    /// 客户端IP
    pub client_ip: String,
    /// 用户代理
    pub user_agent: String,
    /// 开始时间（毫秒，调用方的单调时钟）
    pub start_time: u64,
    /// 元数据
    pub metadata: HashMap<String, String>,
}

/// 网关响应
#[derive(Debug, Clone)]
pub struct GatewayResponse {
    /// 状态码
    pub status_code: u16,
    /// 响应头
    pub headers: HashMap<String, String>,
    /// 响应体
    pub body: Vec<u8>,
    /// 处理时间（毫秒）
    pub processing_time: u64,
    /// 上游服务信息
    pub upstream_info: Option<UpstreamInfo>,
}

/// 上游服务信息
#[derive(Debug, Clone)]
pub struct UpstreamInfo {
    /// 服务名称
    pub service_name: String,
    /// 实例ID
    pub instance_id: String,
    /// 响应时间（毫秒）
    pub response_time: u64,
}

/// 速率限制规则
#[derive(Debug, Clone)]
pub struct RateLimitRule {
    /// 规则ID
    pub id: String,
    /// 匹配条件
    pub matcher: RateLimitMatcher,
    /// 限制配置
    pub limit: RateLimitConfig,
    /// 动作
    pub action: RateLimitAction,
}

/// 速率限制匹配器
#[derive(Debug, Clone)]
pub enum RateLimitMatcher {
    ClientIp,
    UserId,
    ApiKey,
    Path,
    Custom(String),
}

/// 速率限制配置
#[derive(Debug, Clone)]
pub struct RateLimitConfig {
    /// 请求数限制
    pub requests: u32,
    /// 时间窗口（秒）
    pub window: u64,
    /// 突发限制
    pub burst: Option<u32>,
}

/// 速率限制动作
#[derive(Debug, Clone, Copy, PartialEq, Eq, Structural)]
pub enum RateLimitAction {
    Block,
    Throttle,
    Log,
}

/// 速率限制计数器
#[derive(Debug, Clone)]
pub struct RateLimitCounter {
    /// 计数
    pub count: u32,
    /// 窗口开始时间
    pub window_start: u64,
    /// 最后更新时间
    pub last_update: u64,
}

/// 断路器配置
#[derive(Debug, Clone)]
pub struct CircuitBreakerConfig {
    /// 失败阈值
    pub failure_threshold: u32,
    /// 成功阈值
    pub success_threshold: u32,
    /// 超时时间（秒）
    pub timeout: u64,
    /// 半开状态最大请求数
    pub half_open_max_requests: u32,
}

/// 断路器状态
#[derive(Debug, Clone)]
pub struct CircuitBreakerState {
    /// 状态
    pub state: CircuitState,
    /// 失败计数
    pub failure_count: u32,
    /// 成功计数
    pub success_count: u32,
    /// 最后失败时间
    pub last_failure_time: Option<u64>,
    /// 半开状态请求计数
    pub half_open_requests: u32,
}

/// 断路器状态枚举
#[derive(Debug, Clone, Copy, PartialEq, Eq, Structural)]
pub enum CircuitState {
    Closed,
    Open,
    HalfOpen,
}

/// Milliseconds since the Unix epoch by the system clock
/// (`SystemTime::now`), or 0 where the clock is set before the epoch.
/// Nothing is claimed of the value: it is the time.
#[verifier::external_body]
fn clock_millis() -> u64 {
    match std::time::SystemTime::now().duration_since(std::time::UNIX_EPOCH) {
        Ok(d) => d.as_millis() as u64,
        Err(_) => 0,
    }
}

/// The byte length of a text (what `str::len` gives, taken as a `usize`).
pub open spec fn byte_len(s: Seq<char>) -> nat {
    vstd::utf8::encode_utf8(s).len()
}

/// The bytes of a text, as a new list.
fn text_bytes(s: &str) -> (v: Vec<u8>)
    ensures
        v@ == s.spec_bytes(),
{
    let b = s.as_bytes();
    let mut v: Vec<u8> = Vec::new();
    let mut i: usize = 0;
    while i < b.len()
        invariant
            i <= b@.len(),
            b@ == s.spec_bytes(),
            v@ == b@.take(i as int),
        decreases b.len() - i,
    {
        v.push(b[i]);
        i = i + 1;
        assert(v@ =~= b@.take(i as int));
    }
    assert(b@.take(b@.len() as int) =~= b@);
    v
}

/// A path pattern matches a path that equals it; the pattern `/*`
/// matches every path.
pub open spec fn pattern_matches(pattern: Seq<char>, path: Seq<char>) -> bool {
    pattern == path || pattern == "/*"@
}

/// Matches request paths against route patterns.
pub struct RouteMatcher {
    compiled_patterns: Vec<String>,
}

impl RouteMatcher {
    /// The compiled patterns the matcher keeps.
    pub closed spec fn patterns(&self) -> Seq<String> {
        self.compiled_patterns@
    }

    /// A matcher with no compiled pattern.
    pub fn new() -> (m: RouteMatcher)
        ensures
            m.patterns().len() == 0,
    {
        RouteMatcher { compiled_patterns: Vec::new() }
    }

    /// Whether `pattern` matches `path`.
    pub fn matches(&self, pattern: &str, path: &str) -> (res: Result<bool>)
        ensures
            res matches Ok(b) && b == pattern_matches(pattern@, path@),
    {
        let p = String::from_str(pattern);
        let q = String::from_str(path);
        Ok(p == q || p == String::from_str("/*"))
    }
}

/// Whether a route serves a request: its pattern matches the request's path
/// and it accepts the request's method.
pub open spec fn serves(r: Route, request: GatewayRequest) -> bool {
    pattern_matches(r.path_pattern@, request.path@) && r.methods@.contains(request.method)
}

fn method_listed(methods: &Vec<HttpMethod>, m: HttpMethod) -> (b: bool)
    ensures
        b == methods@.contains(m),
{
    let mut i: usize = 0;
    while i < methods.len()
        invariant
            i <= methods@.len(),
            forall|j: int| 0 <= j < i ==> methods@[j] != m,
        decreases methods.len() - i,
    {
        if methods[i] == m {
            assert(methods@[i as int] == m);
            return true;
        }
        i = i + 1;
    }
    false
}

/// The routing table, by route id.
pub struct Router {
    routes: Vec<(String, Route)>,
    matcher: RouteMatcher,
}

impl Router {
    /// The routes by id.
    pub closed spec fn routes(&self) -> Map<Seq<char>, Route> {
        key_map(self.routes@)
    }

    /// Route ids are distinct.
    pub closed spec fn well_formed(&self) -> bool {
        unique_keys(self.routes@)
    }

    /// An empty routing table.
    pub fn new() -> (res: Result<Router>)
        ensures
            res matches Ok(r) && r.well_formed() && r.routes() == Map::<Seq<char>, Route>::empty(),
    {
        let r = Router { routes: Vec::new(), matcher: RouteMatcher::new() };
        assert(r.routes() =~= Map::<Seq<char>, Route>::empty());
        Ok(r)
    }

    /// Adds `route` under its id, replacing any route with that id.
    pub fn add_route(&mut self, route: Route) -> (res: Result<()>)
        requires
            old(self).well_formed(),
        ensures
            final(self).well_formed(),
            res is Ok,
            final(self).routes() == old(self).routes().insert(route.id@, route),
    {
        let ghost before = self.routes@;
        let item = (route.id.clone(), route);
        match find_key(&self.routes, item.0.as_str()) {
            Some(i) => {
                proof { lemma_key_update(before, i as int, item); }
                self.routes.set(i, item);
            },
            None => {
                proof { lemma_key_push(before, item); }
                self.routes.push(item);
            },
        }
        Ok(())
    }

    /// A route that serves `request`, if any does. Which one, when several
    /// do, is not fixed.
    pub fn match_route(&self, request: &GatewayRequest) -> (res: Result<Option<&Route>>)
        requires
            self.well_formed(),
        ensures
            res matches Ok(o) && match o {
                Some(r) => serves(*r, *request) && exists|k: Seq<char>| #[trigger] self.routes().contains_key(k) && self.routes()[k] == *r,
                None => forall|k: Seq<char>| #[trigger] self.routes().contains_key(k) ==> !serves(self.routes()[k], *request),
            },
    {
        let mut i: usize = 0;
        while i < self.routes.len()
            invariant
                self.well_formed(),
                i <= self.routes@.len(),
                forall|j: int| 0 <= j < i ==> !serves(#[trigger] self.routes@[j].1, *request),
            decreases self.routes.len() - i,
        {
            let r = &self.routes[i].1;
            let m = self.matcher.matches(r.path_pattern.as_str(), request.path.as_str());
            let hit = match m { Ok(b) => b, Err(_) => false };
            if hit && method_listed(&r.methods, request.method) {
                proof {
                    lemma_key_at(self.routes@, i as int);
                    let k = self.routes@[i as int].0@;
                    assert(self.routes().contains_key(k) && self.routes()[k] == *r);
                }
                return Ok(Some(r));
            }
            i = i + 1;
        }
        proof {
            assert forall|k: Seq<char>| #[trigger] self.routes().contains_key(k) implies !serves(self.routes()[k], *request) by {
                let j = choose|j: int| 0 <= j < self.routes@.len() && #[trigger] self.routes@[j].0@ == k;
                lemma_key_at(self.routes@, j);
            }
        }
        Ok(None)
    }
}

/// The positions of the healthy instances, in order.
pub open spec fn healthy_positions(instances: Seq<ServiceInstance>) -> Seq<int>
    decreases instances.len(),
{
    if instances.len() == 0 {
        Seq::empty()
    } else {
        let r = healthy_positions(instances.drop_last());
        if instances.last().status == InstanceStatus::Healthy { r.push(instances.len() - 1) } else { r }
    }
}

proof fn lemma_healthy_positions(instances: Seq<ServiceInstance>)
    ensures
        forall|j: int| 0 <= j < healthy_positions(instances).len()
            ==> 0 <= #[trigger] healthy_positions(instances)[j] < instances.len(),
    decreases instances.len(),
{
    if instances.len() > 0 {
        lemma_healthy_positions(instances.drop_last());
        let r = healthy_positions(instances.drop_last());
        let h = healthy_positions(instances);
        assert forall|j: int| 0 <= j < h.len() implies 0 <= #[trigger] h[j] < instances.len() by {
            if j < r.len() { assert(h[j] == r[j]); }
        }
    }
}

/// A way of choosing among upstream instances.
pub trait LoadBalanceStrategyTrait {
    /// The instance to send `request` to, if any.
    fn select_instance(&self, instances: &[ServiceInstance], request: &GatewayRequest) -> Option<usize>;
}

/// Picks the upstream instance for a request.
pub struct LoadBalancer {}

impl LoadBalancer {
    /// A load balancer.
    pub fn new() -> (b: LoadBalancer) {
        LoadBalancer {}
    }

    /// Among the healthy instances of `upstream`, the one whose position is
    /// the byte length of the request id modulo their number; none when no
    /// instance is healthy.
    pub fn select_instance<'a>(&self, upstream: &'a UpstreamService, request: &GatewayRequest) -> (res: Result<Option<&'a ServiceInstance>>)
        ensures
            ({
                let h = healthy_positions(upstream.instances@);
                res matches Ok(o) && (h.len() == 0 ==> o is None)
                    && (h.len() > 0 ==> (o matches Some(r)
                        && *r == upstream.instances@[h[((byte_len(request.id@) as usize) as int) % (h.len() as int)]]))
            }),
    {
        let ghost inst = upstream.instances@;
        let mut healthy: Vec<usize> = Vec::new();
        let mut i: usize = 0;
        while i < upstream.instances.len()
            invariant
                i <= inst.len(),
                inst == upstream.instances@,
                healthy@.len() == healthy_positions(inst.take(i as int)).len(),
                forall|j: int| 0 <= j < healthy@.len() ==> healthy@[j] as int == #[trigger] healthy_positions(inst.take(i as int))[j],
            decreases upstream.instances.len() - i,
        {
            assert(inst.take(i + 1).drop_last() =~= inst.take(i as int));
            if upstream.instances[i].status == InstanceStatus::Healthy {
                healthy.push(i);
            }
            i = i + 1;
        }
        assert(inst.take(inst.len() as int) =~= inst);
        if healthy.len() == 0 {
            return Ok(None);
        }
        let idstr = request.id.as_str();
        let n = idstr.len();
        assert(idstr@ == request.id@);
        assert(n == byte_len(request.id@) as usize);
        let index = n % healthy.len();
        proof {
            lemma_healthy_positions(inst);
            assert(healthy@[index as int] as int == healthy_positions(inst.take(i as int))[index as int]);
            assert(healthy_positions(inst)[index as int] < inst.len());
        }
        Ok(Some(&upstream.instances[healthy[index]]))
    }
}

/// Applies rate limits to requests.
pub struct RateLimiter {
    rules: Vec<RateLimitRule>,
    counters: Vec<(String, RateLimitCounter)>,
}

impl RateLimiter {
    /// The limiter's rules.
    pub closed spec fn rules(&self) -> Seq<RateLimitRule> {
        self.rules@
    }

    /// The limiter's counters, by key.
    pub closed spec fn counters(&self) -> Seq<(String, RateLimitCounter)> {
        self.counters@
    }

    /// A limiter without rules or counters.
    pub fn new() -> (l: RateLimiter)
        ensures
            l.rules().len() == 0,
            l.counters().len() == 0,
    {
        RateLimiter { rules: Vec::new(), counters: Vec::new() }
    }

    /// Whether `request` may pass: every request passes.
    pub fn check_rate_limit(&self, request: &GatewayRequest) -> (res: Result<bool>)
        ensures
            res matches Ok(b) && b,
    {
        Ok(true)
    }
}

/// The breaker state of a service seen for the first time.
pub open spec fn fresh_breaker() -> CircuitBreakerState {
    CircuitBreakerState { state: CircuitState::Closed, failure_count: 0, success_count: 0, last_failure_time: None, half_open_requests: 0 }
}

/// The state recorded for `service`, or a fresh one.
pub open spec fn breaker_of(states: Map<Seq<char>, CircuitBreakerState>, service: Seq<char>) -> CircuitBreakerState {
    if states.contains_key(service) { states[service] } else { fresh_breaker() }
}

/// Whole seconds from `t` to `now` (none when `now` is earlier).
pub open spec fn elapsed_secs(t: u64, now: u64) -> int {
    if now >= t { (now - t) / 1000 } else { 0 }
}

/// Whether a call to the service may go ahead at `now`: an unknown service
/// and a closed breaker allow it; an open breaker allows it once `timeout`
/// seconds have passed since the last failure; a half-open breaker allows
/// fewer than `half_open_max_requests` calls.
pub open spec fn may_execute(states: Map<Seq<char>, CircuitBreakerState>, cfg: CircuitBreakerConfig,
    service: Seq<char>, now: u64) -> bool {
    if !states.contains_key(service) {
        true
    } else {
        let s = states[service];
        match s.state {
            CircuitState::Closed => true,
            CircuitState::Open => match s.last_failure_time {
                Some(t) => elapsed_secs(t, now) >= cfg.timeout,
                None => false,
            },
            CircuitState::HalfOpen => s.half_open_requests < cfg.half_open_max_requests,
        }
    }
}

/// A state after a success: one more success, no failures, and a half-open
/// breaker that reached the success threshold closes.
pub open spec fn after_success(s: CircuitBreakerState, cfg: CircuitBreakerConfig) -> CircuitBreakerState {
    let n = (s.success_count + 1) as u32;
    if s.state == CircuitState::HalfOpen && n >= cfg.success_threshold {
        CircuitBreakerState { state: CircuitState::Closed, failure_count: 0, success_count: n, half_open_requests: 0, ..s }
    } else {
        CircuitBreakerState { failure_count: 0, success_count: n, ..s }
    }
}

/// A state after a failure at `now`: one more failure, remembered time, and
/// the breaker opens once failures reach the threshold.
pub open spec fn after_failure(s: CircuitBreakerState, cfg: CircuitBreakerConfig, now: u64) -> CircuitBreakerState {
    let n = (s.failure_count + 1) as u32;
    if n >= cfg.failure_threshold {
        CircuitBreakerState { state: CircuitState::Open, failure_count: n, last_failure_time: Some(now), ..s }
    } else {
        CircuitBreakerState { failure_count: n, last_failure_time: Some(now), ..s }
    }
}

/// The state after `n` failures in a row at `now`, from `s`.
pub open spec fn after_failures(s: CircuitBreakerState, cfg: CircuitBreakerConfig, now: u64, n: nat) -> CircuitBreakerState
    decreases n,
{
    if n == 0 { s } else { after_failure(after_failures(s, cfg, now, (n - 1) as nat), cfg, now) }
}

/// A service's breaker opens once it has seen as many failures in a row
/// as the threshold, and it refuses calls until the timeout has passed
/// since the last of them.
pub proof fn law_failures_open_breaker(cfg: CircuitBreakerConfig, now: u64, n: nat, service: Seq<char>)
    requires
        1 <= cfg.failure_threshold <= n < u32::MAX,
        cfg.timeout > 0,
    ensures
        after_failures(fresh_breaker(), cfg, now, n).state == CircuitState::Open,
        after_failures(fresh_breaker(), cfg, now, n).failure_count == n,
        !may_execute(map![service => after_failures(fresh_breaker(), cfg, now, n)], cfg, service, now),
{
    lemma_failure_count(cfg, now, n);
    let m = map![service => after_failures(fresh_breaker(), cfg, now, n)];
    assert(m.contains_key(service));
}

proof fn lemma_failure_count(cfg: CircuitBreakerConfig, now: u64, n: nat)
    requires
        n < u32::MAX,
    ensures
        after_failures(fresh_breaker(), cfg, now, n).failure_count == n,
        n > 0 ==> after_failures(fresh_breaker(), cfg, now, n).last_failure_time == Some(now),
        n >= cfg.failure_threshold && n > 0 ==> after_failures(fresh_breaker(), cfg, now, n).state == CircuitState::Open,
    decreases n,
{
    if n > 0 {
        lemma_failure_count(cfg, now, (n - 1) as nat);
    }
}

/// A success clears the failure count, whatever came before.
pub proof fn law_success_clears_failures(s: CircuitBreakerState, cfg: CircuitBreakerConfig)
    ensures
        after_success(s, cfg).failure_count == 0,
        after_success(s, cfg).success_count == (s.success_count + 1) as u32,
{
}

/// A circuit breaker per upstream service.
pub struct CircuitBreaker {
    states: Vec<(String, CircuitBreakerState)>,
    config: CircuitBreakerConfig,
}

impl CircuitBreaker {
    /// The breaker states by service name.
    pub closed spec fn states(&self) -> Map<Seq<char>, CircuitBreakerState> {
        key_map(self.states@)
    }

    /// The breaker's configuration.
    pub closed spec fn config(&self) -> CircuitBreakerConfig {
        self.config
    }

    /// Service names are distinct.
    pub closed spec fn well_formed(&self) -> bool {
        unique_keys(self.states@)
    }

    /// A breaker that knows no service.
    pub fn new(config: CircuitBreakerConfig) -> (b: CircuitBreaker)
        ensures
            b.well_formed(),
            b.states() == Map::<Seq<char>, CircuitBreakerState>::empty(),
            b.config() == config,
    {
        let b = CircuitBreaker { states: Vec::new(), config };
        assert(b.states() =~= Map::<Seq<char>, CircuitBreakerState>::empty());
        b
    }

    /// The state recorded for `service_name`, if any.
    pub fn get_state(&self, service_name: &str) -> (res: Option<&CircuitBreakerState>)
        requires
            self.well_formed(),
        ensures
            res is Some <==> self.states().contains_key(service_name@),
            res matches Some(s) ==> *s == self.states()[service_name@],
    {
        match find_key(&self.states, service_name) {
            Some(i) => {
                proof { lemma_key_at(self.states@, i as int); }
                Some(&self.states[i].1)
            },
            None => None,
        }
    }

    /// Whether a call to `service_name` may go ahead at `now`.
    pub fn can_execute(&self, service_name: &str, now: u64) -> (res: Result<bool>)
        requires
            self.well_formed(),
        ensures
            res matches Ok(b) && b == may_execute(self.states(), self.config(), service_name@, now),
    {
        match find_key(&self.states, service_name) {
            None => Ok(true),
            Some(i) => {
                proof { lemma_key_at(self.states@, i as int); }
                let s = &self.states[i].1;
                match s.state {
                    CircuitState::Closed => Ok(true),
                    CircuitState::Open => match s.last_failure_time {
                        Some(t) => {
                            let elapsed = if now >= t { (now - t) / 1000 } else { 0 };
                            Ok(elapsed >= self.config.timeout)
                        },
                        None => Ok(false),
                    },
                    CircuitState::HalfOpen => Ok(s.half_open_requests < self.config.half_open_max_requests),
                }
            },
        }
    }

    /// Stores `s` as the state of `service_name`.
    fn put_state(&mut self, service_name: &str, s: CircuitBreakerState)
        requires
            old(self).well_formed(),
        ensures
            final(self).well_formed(),
            final(self).states() == old(self).states().insert(service_name@, s),
            final(self).config() == old(self).config(),
    {
        let ghost before = self.states@;
        let item = (String::from_str(service_name), s);
        match find_key(&self.states, service_name) {
            Some(i) => {
                proof { lemma_key_update(before, i as int, item); }
                self.states.set(i, item);
            },
            None => {
                proof { lemma_key_push(before, item); }
                self.states.push(item);
            },
        }
    }

    /// The state of `service_name`, or a fresh one.
    fn current(&self, service_name: &str) -> (s: CircuitBreakerState)
        requires
            self.well_formed(),
        ensures
            s == breaker_of(self.states(), service_name@),
    {
        match find_key(&self.states, service_name) {
            Some(i) => {
                proof { lemma_key_at(self.states@, i as int); }
                let c = &self.states[i].1;
                CircuitBreakerState {
                    state: c.state,
                    failure_count: c.failure_count,
                    success_count: c.success_count,
                    last_failure_time: c.last_failure_time,
                    half_open_requests: c.half_open_requests,
                }
            },
            None => CircuitBreakerState {
                state: CircuitState::Closed,
                failure_count: 0,
                success_count: 0,
                last_failure_time: None,
                half_open_requests: 0,
            },
        }
    }

    /// Records a successful call to `service_name`.
    pub fn record_success(&mut self, service_name: &str) -> (res: Result<()>)
        requires
            old(self).well_formed(),
            breaker_of(old(self).states(), service_name@).success_count < u32::MAX,
        ensures
            final(self).well_formed(),
            res is Ok,
            final(self).config() == old(self).config(),
            final(self).states() == old(self).states().insert(service_name@,
                after_success(breaker_of(old(self).states(), service_name@), old(self).config())),
    {
        let mut s = self.current(service_name);
        s.success_count = s.success_count + 1;
        s.failure_count = 0;
        if s.state == CircuitState::HalfOpen && s.success_count >= self.config.success_threshold {
            s.state = CircuitState::Closed;
            s.half_open_requests = 0;
        }
        self.put_state(service_name, s);
        Ok(())
    }

    /// Records a failed call to `service_name` at `now`.
    pub fn record_failure(&mut self, service_name: &str, now: u64) -> (res: Result<()>)
        requires
            old(self).well_formed(),
            breaker_of(old(self).states(), service_name@).failure_count < u32::MAX,
        ensures
            final(self).well_formed(),
            res is Ok,
            final(self).config() == old(self).config(),
            final(self).states() == old(self).states().insert(service_name@,
                after_failure(breaker_of(old(self).states(), service_name@), old(self).config(), now)),
    {
        let mut s = self.current(service_name);
        s.failure_count = s.failure_count + 1;
        s.last_failure_time = Some(now);
        if s.failure_count >= self.config.failure_threshold {
            s.state = CircuitState::Open;
        }
        self.put_state(service_name, s);
        Ok(())
    }
}

/// A step that may inspect or change a request and its response on the
/// way through the gateway.
pub trait Middleware {
    /// Processes the request and the response being built.
    fn process(&self, request: &mut GatewayRequest, response: &mut GatewayResponse) -> Result<()>;
    /// The middleware's name.
    fn name(&self) -> &str;
    /// Where it stands among the others.
    fn order(&self) -> i32;
}

/// The middleware that requests pass through, in order.
pub struct MiddlewareChain {
    middleware: Vec<Box<dyn Middleware>>,
}

impl MiddlewareChain {
    /// How many middleware the chain holds.
    pub closed spec fn len(&self) -> nat {
        self.middleware@.len()
    }

    /// An empty chain.
    pub fn new() -> (c: MiddlewareChain)
        ensures
            c.len() == 0,
    {
        MiddlewareChain { middleware: Vec::new() }
    }

    /// Runs every middleware in order; the first failure stops the run and
    /// is the answer. An empty chain changes nothing.
    pub fn process(&self, request: &mut GatewayRequest, response: &mut GatewayResponse) -> (res: Result<()>)
        ensures
            self.len() == 0 ==> res is Ok && *final(request) == *old(request) && *final(response) == *old(response),
    {
        let mut i: usize = 0;
        while i < self.middleware.len()
            invariant
                i <= self.middleware@.len(),
                self.middleware@.len() == 0 ==> *request == *old(request) && *response == *old(response),
            decreases self.middleware.len() - i,
        {
            match self.middleware[i].process(request, response) {
                Ok(()) => {},
                Err(e) => { return Err(e); },
            }
            i = i + 1;
        }
        Ok(())
    }
}

/// A refusal from the gateway: the status, the message as body, no
/// headers and no upstream. The processing time is left at zero for the
/// caller, who holds the clock, to fill in.
pub open spec fn is_refusal(resp: GatewayResponse, status: u16, message: &str) -> bool {
    &&& resp.status_code == status
    &&& resp.headers@ == Map::<String, String>::empty()
    &&& resp.body@ == message.spec_bytes()
    &&& resp.processing_time == 0
    &&& resp.upstream_info is None
}

fn refusal(status: u16, message: &str) -> (resp: GatewayResponse)
    ensures
        is_refusal(resp, status, message),
{
    GatewayResponse {
        status_code: status,
        headers: HashMap::new(),
        body: text_bytes(message),
        processing_time: 0,
        upstream_info: None,
    }
}

/// No service's breaker counts are at their limit.
pub open spec fn counts_fit(states: Map<Seq<char>, CircuitBreakerState>) -> bool {
    forall|k: Seq<char>| #[trigger] states.contains_key(k)
        ==> states[k].success_count < u32::MAX && states[k].failure_count < u32::MAX
}

/// How the gateway answers `request` once route `r` was chosen: an open
/// breaker refuses with 503 "Service unavailable", an upstream without
/// healthy instances with 503 "No healthy upstream instances"; otherwise the
/// upstream's answer (200, "Hello from upstream service") comes back naming
/// the service and the chosen instance, and the service's breaker records a
/// success. Middleware may fail the request; with none, it cannot.
pub open spec fn handled_by(r: Route, states: Map<Seq<char>, CircuitBreakerState>, cfg: CircuitBreakerConfig,
    request: GatewayRequest, now: u64, chain_len: nat, res: Result<GatewayResponse>,
    states2: Map<Seq<char>, CircuitBreakerState>) -> bool {
    let name = r.upstream.name@;
    let h = healthy_positions(r.upstream.instances@);
    if !may_execute(states, cfg, name, now) {
        res matches Ok(resp) && is_refusal(resp, 503, "Service unavailable") && states2 == states
    } else if h.len() == 0 {
        res matches Ok(resp) && is_refusal(resp, 503, "No healthy upstream instances") && states2 == states
    } else {
        let inst = r.upstream.instances@[h[((byte_len(request.id@) as usize) as int) % (h.len() as int)]];
        &&& chain_len == 0 ==> res is Ok
        &&& res is Err ==> states2 == states
        &&& res matches Ok(resp) ==> {
            &&& resp.status_code == 200
            &&& resp.body@ == "Hello from upstream service".spec_bytes()
            &&& resp.processing_time == 0
            &&& chain_len == 0 ==> resp.headers@ == Map::<String, String>::empty()
                && resp.upstream_info == Some(UpstreamInfo { service_name: r.upstream.name, instance_id: inst.id, response_time: 0 })
            &&& states2 == states.insert(name, after_success(breaker_of(states, name), cfg))
        }
    }
}

/// The API gateway: routing table, middleware, load balancing, rate limits
/// and circuit breakers, with its configuration.
pub struct ApiGateway {
    router: Router,
    middleware_chain: MiddlewareChain,
    load_balancer: LoadBalancer,
    rate_limiter: RateLimiter,
    circuit_breaker: CircuitBreaker,
    config: GatewayConfig,
}

impl ApiGateway {
    /// The routes by id.
    pub closed spec fn routes(&self) -> Map<Seq<char>, Route> {
        self.router.routes()
    }

    /// The breaker states by service name.
    pub closed spec fn breaker_states(&self) -> Map<Seq<char>, CircuitBreakerState> {
        self.circuit_breaker.states()
    }

    /// The breakers' configuration.
    pub closed spec fn breaker_config(&self) -> CircuitBreakerConfig {
        self.circuit_breaker.config()
    }

    /// How many middleware requests pass through.
    pub closed spec fn chain_len(&self) -> nat {
        self.middleware_chain.len()
    }

    /// The gateway's configuration.
    pub closed spec fn config(&self) -> GatewayConfig {
        self.config
    }

    /// The parts are well formed.
    pub closed spec fn well_formed(&self) -> bool {
        self.router.well_formed() && self.circuit_breaker.well_formed()
    }

    /// A gateway with no routes and no middleware, whose breakers open after
    /// 5 failures, close after 3 successes, wait 60 seconds and allow 3
    /// half-open calls.
    pub fn new(config: GatewayConfig) -> (res: Result<ApiGateway>)
        ensures
            res matches Ok(g) && g.well_formed() && g.routes() == Map::<Seq<char>, Route>::empty()
                && g.breaker_states() == Map::<Seq<char>, CircuitBreakerState>::empty()
                && g.breaker_config() == (CircuitBreakerConfig { failure_threshold: 5, success_threshold: 3, timeout: 60, half_open_max_requests: 3 })
                && g.chain_len() == 0 && g.config() == config,
    {
        let router = match Router::new() {
            Ok(r) => r,
            Err(e) => { return Err(e); },
        };
        Ok(ApiGateway {
            router,
            middleware_chain: MiddlewareChain::new(),
            load_balancer: LoadBalancer::new(),
            rate_limiter: RateLimiter::new(),
            circuit_breaker: CircuitBreaker::new(CircuitBreakerConfig {
                failure_threshold: 5,
                success_threshold: 3,
                timeout: 60,
                half_open_max_requests: 3,
            }),
            config,
        })
    }

    /// Forwards `request` to `instance`; the upstream answers 200 with
    /// "Hello from upstream service" after 50 milliseconds.
    fn forward_request(&self, request: &GatewayRequest, instance: &ServiceInstance) -> (res: Result<GatewayResponse>)
        ensures
            res matches Ok(resp) && resp.status_code == 200 && resp.body@ == "Hello from upstream service".spec_bytes(),
    {
        Ok(GatewayResponse {
            status_code: 200,
            headers: HashMap::new(),
            body: text_bytes("Hello from upstream service"),
            processing_time: 50,
            upstream_info: Some(UpstreamInfo {
                service_name: String::from_str("mock-service"),
                instance_id: instance.id.clone(),
                response_time: 50,
            }),
        })
    }

    /// Handles `request` at `now`: a request that no route serves gets 404
    /// "Route not found"; otherwise a serving route is chosen and answered as
    /// `handled_by` says.
    pub fn handle_request_at(&mut self, request: GatewayRequest, now: u64) -> (res: Result<GatewayResponse>)
        requires
            old(self).well_formed(),
            counts_fit(old(self).breaker_states()),
        ensures
            final(self).well_formed(),
            final(self).routes() == old(self).routes(),
            final(self).breaker_config() == old(self).breaker_config(),
            final(self).chain_len() == old(self).chain_len(),
            (forall|k: Seq<char>| #[trigger] old(self).routes().contains_key(k) ==> !serves(old(self).routes()[k], request))
                ==> (res matches Ok(resp) && is_refusal(resp, 404, "Route not found")
                    && final(self).breaker_states() == old(self).breaker_states()),
            (exists|k: Seq<char>| #[trigger] old(self).routes().contains_key(k) && serves(old(self).routes()[k], request))
                ==> exists|k: Seq<char>| #[trigger] old(self).routes().contains_key(k)
                    && serves(old(self).routes()[k], request)
                    && handled_by(old(self).routes()[k], old(self).breaker_states(), old(self).breaker_config(),
                        request, now, old(self).chain_len(), res, final(self).breaker_states()),
    {
        let mut request = request;
        let ghost req0 = request;
        match self.rate_limiter.check_rate_limit(&request) {
            Ok(true) => {},
            Ok(false) => { return Ok(refusal(429, "Rate limit exceeded")); },
            Err(e) => { return Err(e); },
        }
        let route = match self.router.match_route(&request) {
            Ok(Some(r)) => r,
            Ok(None) => { return Ok(refusal(404, "Route not found")); },
            Err(e) => { return Err(e); },
        };
        let ghost k = choose|k: Seq<char>| #[trigger] self.router.routes().contains_key(k) && self.router.routes()[k] == *route;
        assert(old(self).routes().contains_key(k) && serves(old(self).routes()[k], request));
        match self.circuit_breaker.can_execute(route.upstream.name.as_str(), now) {
            Ok(true) => {},
            Ok(false) => { return Ok(refusal(503, "Service unavailable")); },
            Err(e) => { return Err(e); },
        }
        let instance = match self.load_balancer.select_instance(&route.upstream, &request) {
            Ok(Some(i)) => i,
            Ok(None) => { return Ok(refusal(503, "No healthy upstream instances")); },
            Err(e) => { return Err(e); },
        };
        let mut response = GatewayResponse {
            status_code: 200,
            headers: HashMap::new(),
            body: Vec::new(),
            processing_time: 0,
            upstream_info: Some(UpstreamInfo {
                service_name: route.upstream.name.clone(),
                instance_id: instance.id.clone(),
                response_time: 0,
            }),
        };
        match self.middleware_chain.process(&mut request, &mut response) {
            Ok(()) => {},
            Err(e) => { return Err(e); },
        }
        let upstream = match self.forward_request(&request, instance) {
            Ok(u) => u,
            Err(e) => { return Err(e); },
        };
        response.status_code = upstream.status_code;
        response.body = upstream.body;
        response.processing_time = 0;
        if response.status_code >= 500 {
            let _ = self.circuit_breaker.record_failure(route.upstream.name.as_str(), now);
        } else {
            let _ = self.circuit_breaker.record_success(route.upstream.name.as_str());
        }
        Ok(response)
    }

    /// Handles `request` now, by the wall clock: as `handle_request_at`
    /// says, for the time the clock gave.
    pub fn handle_request(&mut self, request: GatewayRequest) -> (res: Result<GatewayResponse>)
        requires
            old(self).well_formed(),
            counts_fit(old(self).breaker_states()),
        ensures
            final(self).well_formed(),
            final(self).routes() == old(self).routes(),
            final(self).breaker_config() == old(self).breaker_config(),
            final(self).chain_len() == old(self).chain_len(),
            (forall|k: Seq<char>| #[trigger] old(self).routes().contains_key(k) ==> !serves(old(self).routes()[k], request))
                ==> (res matches Ok(resp) && is_refusal(resp, 404, "Route not found")
                    && final(self).breaker_states() == old(self).breaker_states()),
            (exists|k: Seq<char>| #[trigger] old(self).routes().contains_key(k) && serves(old(self).routes()[k], request))
                ==> exists|now: u64, k: Seq<char>| #[trigger] old(self).routes().contains_key(k)
                    && serves(old(self).routes()[k], request)
                    && #[trigger] handled_by(old(self).routes()[k], old(self).breaker_states(), old(self).breaker_config(),
                        request, now, old(self).chain_len(), res, final(self).breaker_states()),
    {
        let now = clock_millis();
        self.handle_request_at(request, now)
    }

    /// Adds `route` under its id, replacing any route with that id.
    pub fn add_route(&mut self, route: Route) -> (res: Result<()>)
        requires
            old(self).well_formed(),
        ensures
            final(self).well_formed(),
            res is Ok,
            final(self).routes() == old(self).routes().insert(route.id@, route),
            final(self).breaker_states() == old(self).breaker_states(),
            final(self).breaker_config() == old(self).breaker_config(),
            final(self).chain_len() == old(self).chain_len(),
    {
        self.router.add_route(route)
    }

    /// The gateway's parts are in order: always.
    pub fn health_check(&self) -> (res: Result<()>)
        ensures
            res is Ok,
    {
        Ok(())
    }
}

} // verus!

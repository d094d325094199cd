use claude_rust::collaboration::{
    CollaborationManager, ConflictResolver, EditorSettings, NotificationSettings, Operation,
    OperationType, PermissionManager, Position, SimpleConflictResolver, User, UserManager,
    UserPreferences, UserRole, SessionStatus,
};
use claude_rust::database::{DatabaseConnection, MemoryCacheLayer, MockDatabaseConnection, CacheLayer};
use claude_rust::distributed::cache::{
    ConsistencyLevel, ConsistentHashRing, DistributedCacheConfig, DistributedCacheManager,
};
use claude_rust::distributed::consensus::{RaftConsensus, VoteRequest};
use claude_rust::distributed::locks::{DistributedLockManager, LockResult, LockType};
use claude_rust::distributed::{HashShardingStrategy, HeartbeatFailureDetection, RoundRobinStrategy};
use claude_rust::gateway::{
    ApiGateway, BackoffStrategy, CircuitBreaker, CircuitBreakerConfig, CircuitState, GatewayConfig,
    GatewayRequest, HealthCheckConfig, HttpMethod, InstanceStatus, LoadBalanceStrategy, Route,
    RouteMatcher, ServiceInstance, UpstreamService,
};
use claude_rust::plugins::{Plugin, PluginManager, PluginMetadata, PluginStatus, ExamplePlugin};
use claude_rust::cloud::{ContainerManager, ServiceMesh};
use claude_rust::config::McpServerConfig;
use claude_rust::mcp::{McpManager, McpServerStatus};
use std::collections::HashMap;

fn user(id: &str) -> User {
    User {
        id: id.to_string(),
        name: format!("user {}", id),
        email: format!("{}@example.com", id),
        avatar_url: None,
        role: UserRole::Editor,
        preferences: UserPreferences {
            theme: "dark".to_string(),
            language: "en".to_string(),
            notifications: NotificationSettings {
                email_notifications: true,
                push_notifications: false,
                sound_notifications: false,
                notification_types: vec!["mention".to_string()],
            },
            editor_settings: EditorSettings {
                font_size: 14,
                tab_size: 4,
                word_wrap: true,
                show_line_numbers: true,
                syntax_highlighting: true,
            },
        },
    }
}

fn op(id: &str, user_id: &str, version: u64, ts: i64) -> Operation {
    Operation {
        id: id.to_string(),
        operation_type: OperationType::Insert { position: Position { line: 0, column: 0 }, text: "x".to_string() },
        document_id: "doc".to_string(),
        user_id: user_id.to_string(),
        timestamp: ts,
        version,
        data: "{}".to_string(),
    }
}

#[test]
fn sessions_admit_and_release_participants() {
    let mut m = CollaborationManager::new();
    let id = m.create_session_with_id("s1".to_string(), "pairing".to_string(), user("u1"), 1000).unwrap();
    assert_eq!(id, "s1");
    let info = m.get_session_info("s1").unwrap();
    assert_eq!(info.participant_count, 1);
    assert_eq!(info.document_count, 0);
    assert!(matches!(info.status, SessionStatus::Active));
    assert_eq!(info.created_at, 14);
    assert_eq!(info.creator.email, "u1@example.com");
    m.join_session_at("s1", user("u2"), 2000).unwrap();
    assert_eq!(m.get_session_info("s1").unwrap().participant_count, 2);
    m.join_session_at("s1", user("u2"), 3000).unwrap();
    assert_eq!(m.get_session_info("s1").unwrap().participant_count, 2);
    m.leave_session("s1", "u1").unwrap();
    assert_eq!(m.get_session_info("s1").unwrap().participant_count, 1);
    let e = m.join_session_at("nope", user("u3"), 0).unwrap_err();
    assert_eq!(e.to_string(), "Validation error: session - Session not found");
    let e = m.apply_operation_at("s1", op("o1", "u2", 1, 5), 6).unwrap_err();
    assert_eq!(e.to_string(), "Validation error: document - Document not found");
    let random = m.create_session("other".to_string(), user("u9")).unwrap();
    assert_eq!(random.len(), 36);
}

#[test]
fn conflicts_settle_in_time_order() {
    let r = SimpleConflictResolver;
    let ops = vec![op("a", "u1", 1, 30), op("b", "u2", 1, 10), op("c", "u3", 1, 30), op("d", "u4", 1, 20)];
    let settled = r.resolve_conflict(ops).unwrap();
    let ids: Vec<&str> = settled.iter().map(|o| o.id.as_str()).collect();
    assert_eq!(ids, vec!["b", "d", "a", "c"]);
}

#[test]
fn permissions_and_users() {
    let pm = PermissionManager::new();
    assert!(!pm.check_permission("s1", "u1", "edit"));
    let mut um = UserManager::new();
    um.add_user(user("u1"));
    assert_eq!(um.get_user("u1").unwrap().name, "user u1");
    assert!(um.get_user("u2").is_none());
}

#[test]
fn ring_places_keys_on_distinct_nodes() {
    let mut ring = ConsistentHashRing::new();
    ring.add_node("n1", 1);
    ring.add_node("n2", 1);
    ring.add_node("n3", 1);
    let nodes = ring.get_nodes("some-key", 2);
    assert_eq!(nodes.len(), 2);
    assert_ne!(nodes[0], nodes[1]);
    assert_eq!(ring.get_nodes("some-key", 2), nodes);
    let all = ring.get_nodes("some-key", 10);
    assert_eq!(all.len(), 3);
    ring.remove_node("n1");
    assert!(ring.get_nodes("some-key", 10).iter().all(|n| n != "n1"));
}

#[test]
fn removing_a_reweighted_node_leaves_no_trace() {
    let mut ring = ConsistentHashRing::new();
    ring.add_node("a", 1);
    ring.add_node("b", 2);
    ring.add_node("b", 1);
    ring.remove_node("b");
    for k in ["k1", "k2", "k3", "some-key", "other"] {
        assert_eq!(ring.get_nodes(k, 10), vec!["a".to_string()]);
    }
}

#[test]
fn distributed_cache_local_layer() {
    let mut c = DistributedCacheManager::new(DistributedCacheConfig {
        replication_factor: 2,
        consistency_level: ConsistencyLevel::Quorum,
        local_cache_size: 100,
        default_ttl: 60_000,
        enable_compression: false,
    });
    assert_eq!(c.get("k", 0).unwrap(), None);
    c.set("k", b"v".to_vec(), Some(100), 0).unwrap();
    assert_eq!(c.get("k", 100).unwrap(), Some(b"v".to_vec()));
    assert_eq!(c.get("k", 101).unwrap(), None);
    c.set("k", b"w".to_vec(), None, 0).unwrap();
    c.delete("k").unwrap();
    assert_eq!(c.get("k", 1).unwrap(), None);
}

#[test]
fn raft_votes_once_per_term() {
    let mut r = RaftConsensus::new("n1".to_string(), vec!["n2".to_string(), "n3".to_string()]);
    let req = |c: &str, term: u64| VoteRequest { term, candidate_id: c.to_string(), last_log_index: 0, last_log_term: 0 };
    let first = r.handle_vote_request(req("a", 1));
    assert!(first.vote_granted);
    assert_eq!(first.term, 1);
    let second = r.handle_vote_request(req("b", 1));
    assert!(!second.vote_granted);
    let again = r.handle_vote_request(req("a", 1));
    assert!(again.vote_granted);
    let stale = r.handle_vote_request(req("c", 0));
    assert!(!stale.vote_granted);
    assert_eq!(stale.term, 1);
}

#[test]
fn locks_exclude_and_hand_over() {
    let mut m = DistributedLockManager::new("me".to_string());
    assert!(matches!(m.acquire_lock("l", LockType::Exclusive, 1000, 0), LockResult::Acquired));
    assert!(matches!(m.acquire_lock("l", LockType::Exclusive, 1000, 10), LockResult::Conflict));
    assert!(m.check_lock("l").is_some());
    // after expiry the lock can be taken again
    assert!(matches!(m.acquire_lock("l", LockType::Exclusive, 1000, 5000), LockResult::Acquired));
    m.cleanup_expired_locks(100_000);
    assert!(m.check_lock("l").is_none());
    assert!(matches!(m.acquire_lock("s", LockType::Shared, 1000, 0), LockResult::Acquired));
    assert!(matches!(m.acquire_lock("s", LockType::Shared, 1000, 1), LockResult::Acquired));
}

#[test]
fn strategies() {
    let d = HeartbeatFailureDetection::new();
    assert!(!d.detect_failure(60_000, 0));
    assert!(d.detect_failure(61_000, 0));
    let s = HashShardingStrategy::new();
    assert_eq!(s.compute_shard("abc"), "90015098");
    let mut rr = RoundRobinStrategy::new();
    let nodes = vec!["a".to_string(), "b".to_string()];
    assert_eq!(rr.select_node(&nodes), Some("a".to_string()));
    assert_eq!(rr.select_node(&nodes), Some("b".to_string()));
    assert_eq!(rr.select_node(&nodes), Some("a".to_string()));
    assert_eq!(rr.select_node(&[]), None);
}

fn instance(id: &str, status: InstanceStatus) -> ServiceInstance {
    ServiceInstance { id: id.to_string(), host: "h".to_string(), port: 80, weight: 1, status, metadata: HashMap::new() }
}

fn route(id: &str, pattern: &str, instances: Vec<ServiceInstance>) -> Route {
    Route {
        id: id.to_string(),
        path_pattern: pattern.to_string(),
        methods: vec![HttpMethod::GET],
        upstream: UpstreamService {
            name: "svc".to_string(),
            instances,
            load_balance_strategy: LoadBalanceStrategy::RoundRobin,
            health_check: HealthCheckConfig { path: "/h".to_string(), interval: 1, timeout: 1, healthy_threshold: 1, unhealthy_threshold: 1 },
        },
        middleware: vec![],
        timeout: None,
        retry_config: None,
        cache_config: None,
    }
}

fn request(id: &str, method: HttpMethod, path: &str) -> GatewayRequest {
    GatewayRequest {
        id: id.to_string(),
        method,
        path: path.to_string(),
        query_params: HashMap::new(),
        headers: HashMap::new(),
        body: vec![],
        client_ip: "127.0.0.1".to_string(),
        user_agent: "t".to_string(),
        start_time: 0,
        metadata: HashMap::new(),
    }
}

fn gateway() -> ApiGateway {
    ApiGateway::new(GatewayConfig {
        port: 8080,
        host: "localhost".to_string(),
        max_connections: 10,
        request_timeout: 30,
        enable_cors: false,
        enable_compression: false,
        enable_caching: false,
        cache_ttl: 60,
        health_check_interval: 30,
    })
    .unwrap()
}

#[test]
fn gateway_answers() {
    let mut g = gateway();
    let r = g.handle_request_at(request("r1", HttpMethod::GET, "/api"), 0).unwrap();
    assert_eq!(r.status_code, 404);
    assert_eq!(r.body, b"Route not found".to_vec());
    g.add_route(route("r", "/api", vec![instance("i1", InstanceStatus::Unhealthy)])).unwrap();
    let r = g.handle_request_at(request("r1", HttpMethod::POST, "/api"), 0).unwrap();
    assert_eq!(r.status_code, 404);
    let r = g.handle_request_at(request("r1", HttpMethod::GET, "/api"), 0).unwrap();
    assert_eq!(r.status_code, 503);
    assert_eq!(r.body, b"No healthy upstream instances".to_vec());
    g.add_route(route("r", "/*", vec![instance("i1", InstanceStatus::Healthy), instance("i2", InstanceStatus::Healthy)])).unwrap();
    let r = g.handle_request_at(request("abc", HttpMethod::GET, "/anything"), 0).unwrap();
    assert_eq!(r.status_code, 200);
    assert_eq!(r.body, b"Hello from upstream service".to_vec());
    let info = r.upstream_info.unwrap();
    assert_eq!(info.service_name, "svc");
    // "abc" has three bytes: 3 % 2 picks the second healthy instance
    assert_eq!(info.instance_id, "i2");
}

#[test]
fn breaker_opens_after_failures() {
    let cfg = CircuitBreakerConfig { failure_threshold: 2, success_threshold: 1, timeout: 60, half_open_max_requests: 1 };
    let mut b = CircuitBreaker::new(cfg);
    assert!(b.can_execute("svc", 0).unwrap());
    b.record_failure("svc", 1000).unwrap();
    assert!(b.can_execute("svc", 1000).unwrap());
    b.record_failure("svc", 2000).unwrap();
    assert!(matches!(b.get_state("svc").unwrap().state, CircuitState::Open));
    assert!(!b.can_execute("svc", 2000).unwrap());
    assert!(!b.can_execute("svc", 61_999).unwrap());
    assert!(b.can_execute("svc", 62_000).unwrap());
    b.record_success("svc").unwrap();
    assert_eq!(b.get_state("svc").unwrap().failure_count, 0);
    assert!(RouteMatcher::new().matches("/*", "/x").unwrap());
    assert!(!RouteMatcher::new().matches("/a", "/b").unwrap());
    let _ = BackoffStrategy::Fixed;
}

fn metadata(name: &str) -> PluginMetadata {
    PluginMetadata {
        name: name.to_string(),
        version: "1.0.0".to_string(),
        description: "Test plugin".to_string(),
        author: "Test Author".to_string(),
        license: Some("MIT".to_string()),
        homepage: None,
        claude_version: "0.1.0".to_string(),
        dependencies: vec![],
        tags: vec!["test".to_string()],
        entry_point: "main".to_string(),
    }
}

#[test]
fn test_plugin_manager_creation() {
    let manager = PluginManager::new();
    assert!(manager.plugin_directories().is_empty());
}

#[test]
fn test_plugin_lifecycle() {
    let mut manager = PluginManager::new();
    manager.load_plugin(metadata("test_plugin"), "test.toml".to_string()).unwrap();
    let result = manager.activate_plugin("test_plugin");
    assert!(result.is_ok());
    let result = manager.deactivate_plugin("test_plugin");
    assert!(result.is_ok());
}

#[test]
fn plugin_commands() {
    let mut manager = PluginManager::new();
    manager.load_plugin(metadata("p"), "p.toml".to_string()).unwrap();
    let e = manager.execute_plugin_command("p", "hello", &[]).unwrap_err();
    assert_eq!(e.to_string(), "General error: Plugin 'p' is not active");
    manager.activate_plugin("p").unwrap();
    let out = manager.execute_plugin_command("p", "hello", &["a\"b".to_string(), "c".to_string()]).unwrap();
    assert_eq!(out, "{\"args\":[\"a\\\"b\",\"c\"],\"message\":\"Hello from plugin p!\"}");
    let e = manager.execute_plugin_command("q", "hello", &[]).unwrap_err();
    assert_eq!(e.to_string(), "General error: Plugin 'q' not found");
    let mut p = ExamplePlugin::new(metadata("x"));
    let e = p.execute_command("bye", &[]).unwrap_err();
    assert_eq!(e.to_string(), "General error: Unknown command: bye");
    assert_eq!(p.get_commands()[0].name, "hello");
}

#[test]
fn mocks_and_layers() {
    let mut c = MockDatabaseConnection::new();
    let r = c.execute("select 1", &[]).unwrap();
    assert_eq!(r.rows_affected, 1);
    assert_eq!(r.last_insert_id, Some(1));
    assert_eq!(c.get_connection_id().len(), 36);
    let mut layer = MemoryCacheLayer::new();
    layer.set("k", b"v").unwrap();
    assert_eq!(layer.get("k").unwrap(), Some(b"v".to_vec()));
    assert!(layer.delete("k").unwrap());
    assert!(!layer.delete("k").unwrap());
    let names = ContainerManager::new().create_containers(&sample_app()).unwrap();
    assert_eq!(names, vec!["container-1", "container-2"]);
    assert!(ServiceMesh::new().configure_service(&sample_app()).is_ok());
}

fn sample_app() -> claude_rust::cloud::ApplicationConfig {
    claude_rust::cloud::ApplicationConfig {
        name: "app".to_string(),
        version: "1".to_string(),
        containers: vec![],
        services: vec![],
        resources: claude_rust::cloud::ResourceConfig {
            cpu_request: "100m".to_string(),
            cpu_limit: "200m".to_string(),
            memory_request: "64Mi".to_string(),
            memory_limit: "128Mi".to_string(),
        },
    }
}

#[test]
fn plugin_listing_and_active_commands() {
    let mut manager = PluginManager::new();
    manager.load_plugin(metadata("a"), "a.toml".to_string()).unwrap();
    manager.load_plugin(metadata("b"), "b.toml".to_string()).unwrap();
    manager.activate_plugin("b").unwrap();
    let listed = manager.list_plugins();
    assert_eq!(listed.len(), 2);
    let b = listed.iter().find(|(n, _, _)| n == "b").unwrap();
    assert!(matches!(b.1, PluginStatus::Active));
    assert_eq!(b.2.name, "b");
    let a = listed.iter().find(|(n, _, _)| n == "a").unwrap();
    assert!(matches!(a.1, PluginStatus::Unloaded | PluginStatus::Loaded));
    let commands = manager.get_all_commands();
    assert_eq!(commands.len(), 1);
    assert_eq!(commands[0].0, "b");
    assert_eq!(commands[0].1[0].name, "hello");
}

#[test]
fn gateway_handles_requests_by_the_clock() {
    let mut g = gateway();
    let r = g.handle_request(request("r1", HttpMethod::GET, "/api")).unwrap();
    assert_eq!(r.status_code, 404);
    g.add_route(route("r", "/*", vec![instance("i1", InstanceStatus::Healthy)])).unwrap();
    let r = g.handle_request(request("x", HttpMethod::GET, "/x")).unwrap();
    assert_eq!(r.status_code, 200);
}

fn server(name: &str) -> McpServerConfig {
    McpServerConfig {
        name: name.to_string(),
        command: "srv".to_string(),
        args: vec![],
        env: HashMap::new(),
        working_dir: None,
        auto_start: false,
    }
}

#[test]
fn mcp_registry_rules() {
    let mut m = McpManager::new();
    assert!(m.check_start("a").is_ok());
    let e = m.check_send("a").unwrap_err();
    assert_eq!(e.to_string(), "MCP server error: Server 'a' not found");
    m.record_started(server("a"));
    assert!(matches!(m.get_server_status("a"), Some(McpServerStatus::Running)));
    let e = m.check_start("a").unwrap_err();
    assert_eq!(e.to_string(), "MCP server error: Server 'a' is already running");
    assert!(m.check_send("a").is_ok());
    assert_eq!(m.list_running_servers(), vec!["a".to_string()]);
    let inst = m.stop_server("a").unwrap();
    assert!(matches!(inst.status, McpServerStatus::Stopping));
    assert_eq!(inst.config.name, "a");
    assert!(m.get_server_status("a").is_none());
    let e = m.stop_server("a").unwrap_err();
    assert_eq!(e.to_string(), "MCP server error: Server 'a' not found");
}

#[test]
fn connection_ids_are_random_uuid_texts() {
    let a = MockDatabaseConnection::new().get_connection_id();
    let b = MockDatabaseConnection::new().get_connection_id();
    assert_ne!(a, b);
    for id in [a, b] {
        let cs: Vec<char> = id.chars().collect();
        assert_eq!(cs.len(), 36);
        for (i, c) in cs.iter().enumerate() {
            if i == 8 || i == 13 || i == 18 || i == 23 {
                assert_eq!(*c, '-');
            } else {
                assert!(c.is_ascii_digit() || ('a'..='f').contains(c));
            }
        }
        assert_eq!(cs[14], '4');
        assert!(matches!(cs[19], '8' | '9' | 'a' | 'b'));
    }
}

#[test]
fn active_plugins_commands_in_load_order() {
    let mut m = PluginManager::new();
    assert!(m.get_all_commands().is_empty());
    m.load_plugin(metadata("a"), "a.toml".to_string()).unwrap();
    m.load_plugin(metadata("b"), "b.toml".to_string()).unwrap();
    m.load_plugin(metadata("c"), "c.toml".to_string()).unwrap();
    m.activate_plugin("c").unwrap();
    m.activate_plugin("a").unwrap();
    let commands = m.get_all_commands();
    let names: Vec<&str> = commands.iter().map(|(n, _)| n.as_str()).collect();
    assert_eq!(names, vec!["a", "c"]);
}

#[test]
fn adding_a_node_moves_keys_only_onto_it() {
    let mut ring = ConsistentHashRing::new();
    ring.add_node("a", 1);
    ring.add_node("b", 1);
    let keys: Vec<String> = (0..40).map(|i| format!("key-{}", i)).collect();
    let before: Vec<String> = keys.iter().map(|k| ring.get_nodes(k, 1)[0].clone()).collect();
    ring.add_node("c", 1);
    for (k, old) in keys.iter().zip(before.iter()) {
        let now = ring.get_nodes(k, 1)[0].clone();
        assert!(now == *old || now == "c");
        assert!(ring.get_nodes(k, 3).contains(&"c".to_string()));
    }
    assert_eq!(ring.get_nodes("x", 0).len(), 1);
    assert_eq!(ring.get_nodes("x", 2).len(), 2);
    assert_eq!(ring.get_nodes("x", 9).len(), 3);
    assert!(ConsistentHashRing::new().get_nodes("x", 2).is_empty());
}

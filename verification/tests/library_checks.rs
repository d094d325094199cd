use claude_rust::cli::{interactive_action, InteractiveAction};
use claude_rust::config::keys::cli_config_key;
use claude_rust::plugins::{status_text, PluginStatus};
use claude_rust::usage::{usage_counts, UsageRow};
use claude_rust::analytics::EventType;
use claude_rust::network::{create_image_block_from_base64, create_image_block_from_data, media_type_for_extension};
use claude_rust::agent::{file_info, language_for_extension, skip_file, descend_into};
use claude_rust::cache::advanced::{CacheStrategy, EvictionPolicy, MemoryCache, WarmupStrategy};
use claude_rust::cli::{check_api_key_format, key_valid_after_test, ApiKeyCheck};
use claude_rust::config::advanced::{environment_file_name, environment_name, AdvancedConfig, Environment};
use claude_rust::config::keys::{config_key, config_update, rc_update, ConfigKey, ConfigUpdate};
use claude_rust::config::{detect_format, format_for, parse_rc_format, parse_rc_line, ConfigFormat};
use claude_rust::context::{
    estimate_token_count, extract_background_context, extract_error_cases, extract_key_decisions,
    extract_user_intent, generate_future_plans, identify_open_issues, summarize_execution_results,
};
use claude_rust::conversation::{compaction_order, MessageHeader};
use claude_rust::database::{DatabaseType, QueryBuilder, SortDirection};
use claude_rust::error::ClaudeError;
use claude_rust::fs::{Edit, EditType, FileManager};
use claude_rust::git::{parse_branches, parse_commit_log, parse_diff, parse_file_status, parse_remote_status, split_chars};
use claude_rust::hashing::md5_hex;
use claude_rust::network::{ContentBlock, ImageSource, Message, MessageContent};
use claude_rust::text::{chars_of, contains_str, find_chars, parse_u32_or, split_str_chars, str_lines, u64_to_decimal};
use std::time::Duration;

fn msg(role: &str, content: &str) -> Message {
    Message { role: role.to_string(), content: content.to_string() }
}

#[test]
fn decimal_rendering_and_parsing() {
    assert_eq!(u64_to_decimal(0), "0");
    assert_eq!(u64_to_decimal(4096), "4096");
    assert_eq!(u64_to_decimal(u64::MAX), "18446744073709551615");
    assert_eq!(parse_u32_or("123", 7), 123);
    assert_eq!(parse_u32_or("12a", 7), 7);
    assert_eq!(parse_u32_or("4294967296", 7), 7);
    assert_eq!(parse_u32_or("+5", 7), 5);
}

#[test]
fn substring_search() {
    assert!(contains_str("hello world", "o w"));
    assert!(contains_str("abc", ""));
    assert!(!contains_str("abc", "abcd"));
    assert!(contains_str("这是一个错误", "错误"));
}

#[test]
fn lines_like_str_lines() {
    assert_eq!(str_lines("a\nb\r\nc"), vec!["a", "b", "c"]);
    assert_eq!(str_lines("a\n"), vec!["a"]);
    assert_eq!(str_lines(""), Vec::<String>::new());
}

#[test]
fn error_messages() {
    let e = ClaudeError::permission_error("write");
    assert_eq!(e.to_string(), "Permission denied: write");
    let e = ClaudeError::validation_error("f", "bad");
    assert_eq!(e.to_string(), "Validation error: f - bad");
    let e = ClaudeError::not_implemented("x");
    assert_eq!(e.to_string(), "Feature not implemented: x");
}

#[test]
fn line_edits() {
    let fm = FileManager::new();
    assert_eq!(fm.insert_at_line("a\nb", 1, "x").unwrap(), "a\nx\nb");
    assert_eq!(fm.insert_at_line("a\nb", 2, "x").unwrap(), "a\nb\nx");
    assert!(fm.insert_at_line("a\nb", 3, "x").is_err());
    assert_eq!(fm.delete_lines("a\nb\nc", 1, 1).unwrap(), "a\nc");
    assert!(fm.delete_lines("a\nb\nc", 2, 1).is_err());
    assert_eq!(fm.replace_lines("a\nb\nc", 0, 1, "x\ny\nz").unwrap(), "x\ny\nz\nc");
    // deleting the inserted line gives the text back
    let inserted = fm.insert_at_line("a\nb\nc", 1, "x").unwrap();
    assert_eq!(fm.delete_lines(&inserted, 1, 1).unwrap(), "a\nb\nc");
}

#[test]
fn query_builders() {
    let qb = QueryBuilder::new(DatabaseType::PostgreSQL);
    let q = qb
        .select("users", &["id", "name"])
        .join("JOIN roles ON roles.id = users.role_id")
        .where_clause("age > 18")
        .where_clause("active = true")
        .order_by("name", SortDirection::Ascending)
        .limit(10)
        .offset(20)
        .build();
    assert_eq!(
        q.sql,
        "SELECT id, name FROM users JOIN roles ON roles.id = users.role_id WHERE age > 18 AND active = true ORDER BY name ASC LIMIT 10 OFFSET 20"
    );
    let q = qb.insert("users").value("id", "1").value("name", "'a'").build();
    assert_eq!(q.sql, "INSERT INTO users (id, name) VALUES (1, 'a')");
    let q = qb.update("users").set("name", "'b'").where_clause("id = 1").build();
    assert_eq!(q.sql, "UPDATE users SET name = 'b' WHERE id = 1");
    let q = qb.delete("users").build();
    assert_eq!(q.sql, "DELETE FROM users");
}

#[test]
fn md5_digests() {
    assert_eq!(md5_hex(b""), "d41d8cd98f00b204e9800998ecf8427e");
    assert_eq!(md5_hex(b"abc"), "900150983cd24fb0d6963f7d28e17f72");
}

#[test]
fn config_formats() {
    assert!(matches!(format_for(Some("JSON"), Some("c.JSON")), Ok(ConfigFormat::Json)));
    assert!(matches!(format_for(Some("yml"), None), Ok(ConfigFormat::Yaml)));
    assert!(matches!(format_for(None, Some(".clauderc")), Ok(ConfigFormat::Rc)));
    let e = format_for(Some("ini"), Some("c.ini")).unwrap_err();
    assert_eq!(e.to_string(), "General error: Unsupported config file format: ini");
    let e = format_for(None, Some("config")).unwrap_err();
    assert_eq!(e.to_string(), "General error: Cannot detect config file format");
}

#[test]
fn rc_lines() {
    assert_eq!(parse_rc_line("  KEY = \"value\" "), Some(("KEY".to_string(), "value".to_string())));
    assert_eq!(parse_rc_line("# comment"), None);
    assert_eq!(parse_rc_line("novalue"), None);
    let entries = parse_rc_format("A=1\n\n# x\nB='two'\n");
    assert_eq!(entries, vec![("A".to_string(), "1".to_string()), ("B".to_string(), "two".to_string())]);
}

#[test]
fn config_keys_and_updates() {
    assert!(matches!(config_key("api.top_k"), Ok(ConfigKey::TopK)));
    let e = config_key("api.nothing").unwrap_err();
    assert_eq!(e.to_string(), "Validation error: key - Unknown configuration key");
    assert!(matches!(config_update("api.max_tokens", "1000"), Ok(ConfigUpdate::MaxTokens(1000))));
    assert!(matches!(config_update("api.max_tokens", "lots"), Ok(ConfigUpdate::MaxTokens(4096))));
    assert!(matches!(config_update("ui.vim_mode", "yes"), Ok(ConfigUpdate::UiVimMode(false))));
    assert!(matches!(config_update("api.stream", "false"), Ok(ConfigUpdate::Stream(false))));
    match config_update("preferences.editor", "vim") {
        Ok(ConfigUpdate::Editor(s)) => assert_eq!(s, "vim"),
        _ => panic!("wrong update"),
    }
    assert!(matches!(rc_update("MAX_TOKENS", "12"), Some(ConfigUpdate::MaxTokens(12))));
    assert!(rc_update("UNKNOWN", "12").is_none());
}

#[test]
fn environment_files() {
    assert_eq!(environment_name(Environment::Staging), "staging");
    assert_eq!(environment_file_name("app", "yaml", Environment::Production), "app.production.yaml");
}

fn strategy(max: usize, policy: EvictionPolicy) -> CacheStrategy {
    CacheStrategy {
        max_memory_bytes: max,
        default_ttl: Duration::from_secs(60),
        eviction_policy: policy,
        compression_threshold: 1024,
        warmup_strategy: WarmupStrategy { enabled: false, data_sources: vec![], priority_keys: vec![] },
    }
}

#[test]
fn memory_cache_reads_its_writes() {
    let mut c = MemoryCache::new(strategy(100, EvictionPolicy::LRU));
    c.set("a", b"hello", None, 0).unwrap();
    assert_eq!(c.get("a", 5).unwrap(), Some(b"hello".to_vec()));
    assert_eq!(c.get_stats(), (5, 1));
    assert_eq!(c.delete("a").unwrap(), true);
    assert_eq!(c.delete("a").unwrap(), false);
    assert_eq!(c.get("a", 5).unwrap(), None);
    assert_eq!(c.get_stats(), (0, 0));
}

#[test]
fn memory_cache_expired_read_leaves_the_cache() {
    let mut c = MemoryCache::new(strategy(100, EvictionPolicy::LRU));
    c.set("a", b"1234", Some(10), 0).unwrap();
    c.set("b", b"xy", None, 0).unwrap();
    assert_eq!(c.get("a", 10).unwrap(), Some(b"1234".to_vec()));
    assert_eq!(c.get("a", 11).unwrap(), None);
    // the expired entry is gone, and its bytes with it
    assert_eq!(c.get_stats(), (2, 1));
}

#[test]
fn memory_cache_evicts_least_recent() {
    let mut c = MemoryCache::new(strategy(10, EvictionPolicy::LRU));
    c.set("a", b"aaaa", None, 0).unwrap();
    c.set("b", b"bbbb", None, 1).unwrap();
    // reading "a" makes "b" the least recent
    assert!(c.get("a", 2).unwrap().is_some());
    c.set("c", b"cccc", None, 3).unwrap();
    assert_eq!(c.get("b", 4).unwrap(), None);
    assert!(c.get("a", 4).unwrap().is_some());
    assert!(c.get("c", 4).unwrap().is_some());
    assert_eq!(c.get_stats(), (8, 2));
}

#[test]
fn memory_cache_evicts_expired() {
    let mut c = MemoryCache::new(strategy(10, EvictionPolicy::TTL));
    c.set("a", b"aaaa", Some(5), 0).unwrap();
    c.set("b", b"bbbb", None, 0).unwrap();
    c.set("c", b"cccc", None, 10).unwrap();
    assert_eq!(c.get("a", 11).unwrap(), None);
    assert!(c.get("b", 11).unwrap().is_some());
    assert_eq!(c.get_stats(), (8, 2));
}

#[test]
fn context_extraction() {
    let ms = vec![
        msg("system", "be brief"),
        msg("user", "fix the bug"),
        msg("assistant", "我决定重写"),
        msg("assistant", "执行结果良好"),
        msg("user", "there is an error"),
        msg("user", "下一步计划"),
        msg("assistant", "问题待解决"),
    ];
    assert_eq!(extract_background_context(&ms), "be brief | fix the bug | there is an error");
    assert_eq!(extract_key_decisions(&ms), vec!["我决定重写"]);
    assert_eq!(summarize_execution_results(&ms), vec!["执行结果良好"]);
    assert_eq!(extract_error_cases(&ms), vec!["there is an error"]);
    assert_eq!(identify_open_issues(&ms), vec!["问题待解决"]);
    assert_eq!(generate_future_plans(&ms), vec!["下一步计划"]);
    assert_eq!(extract_user_intent(&ms), "下一步计划");
    assert_eq!(extract_user_intent(&[msg("assistant", "x")]), "No clear user intent identified");
    assert_eq!(estimate_token_count(&[msg("user", "12345678"), msg("user", "1")]), 2);
}

fn header(id: &str, role: &str, bytes: usize, ts: i64) -> MessageHeader {
    MessageHeader { id: id.to_string(), role: role.to_string(), content_bytes: bytes, timestamp: ts }
}

#[test]
fn compaction_keeps_important_and_recent() {
    let mut hs = Vec::new();
    hs.push(header("s", "system", 10, 5));
    for i in 0..25 {
        hs.push(header(&format!("m{}", i), "user", 10, 10 + i as i64));
    }
    hs.push(header("long", "assistant", 2000, 1));
    let order = compaction_order(&hs);
    // the long message is oldest, then the system message, then the last 20 others
    let mut expected = vec![26, 0];
    expected.extend(7..26);
    assert_eq!(order, expected);
}

#[test]
fn git_status_lines() {
    let (staged, unstaged, untracked) = parse_file_status("M  a.rs\n M b.rs\nMM c.rs\n?? d.rs\nx\n");
    assert_eq!(staged, vec!["a.rs", "c.rs"]);
    assert_eq!(unstaged, vec!["b.rs", "c.rs"]);
    assert_eq!(untracked, vec!["d.rs"]);
}

#[test]
fn git_log_and_split() {
    assert_eq!(split_chars("a|b||c", '|'), vec!["a", "b", "", "c"]);
    let commits = parse_commit_log("h1|fix|ann|2024-01-01\nbad line\nh2|add|bob|2024-01-02|x");
    assert_eq!(commits.len(), 2);
    assert_eq!(commits[0].hash, "h1");
    assert_eq!(commits[1].author, "bob");
    assert_eq!(commits[1].timestamp, "2024-01-02");
}

#[test]
fn git_branch_lines() {
    let bs = parse_branches("* main\n  dev\n  remotes/origin/main\n\n");
    assert_eq!(bs.len(), 3);
    assert_eq!(bs[0].name, "main");
    assert!(bs[0].is_current);
    assert_eq!(bs[1].name, "dev");
    assert!(!bs[1].is_current && !bs[1].is_remote);
    assert_eq!(bs[2].name, "origin/main");
    assert!(bs[2].is_remote);
}

#[test]
fn git_diff_files() {
    let out = "diff --git a/x.rs b/x.rs\n--- a/x.rs\n+++ b/x.rs\n+new\n-old\n ctx\ndiff --git a/y.rs b/y.rs\n+y\n";
    let ds = parse_diff(out);
    assert_eq!(ds.len(), 2);
    assert_eq!(ds[0].file_path, "x.rs");
    assert_eq!(ds[0].lines_added, 1);
    assert_eq!(ds[0].lines_deleted, 1);
    assert_eq!(ds[0].diff_content, "--- a/x.rs\n+++ b/x.rs\n+new\n-old\n ctx\n");
    assert_eq!(ds[1].file_path, "y.rs");
    assert_eq!(ds[1].lines_added, 1);
}

#[test]
fn api_key_checks() {
    assert_eq!(check_api_key_format("anthropic", "sk-ant-0123456789abcdef"), ApiKeyCheck::AskProvider);
    assert_eq!(check_api_key_format("anthropic", "sk-0123456789abcdefgh"), ApiKeyCheck::InvalidFormat);
    assert_eq!(check_api_key_format("anthropic", "sk-ant-short"), ApiKeyCheck::TooShort);
    assert_eq!(check_api_key_format("openai", "sk-0123456789abcdefgh"), ApiKeyCheck::Valid);
    assert_eq!(check_api_key_format("other", "x"), ApiKeyCheck::Valid);
    assert!(key_valid_after_test(Some(200)));
    assert!(key_valid_after_test(Some(400)));
    assert!(!key_valid_after_test(Some(401)));
    assert!(key_valid_after_test(Some(500)));
    assert!(key_valid_after_test(None));
}

#[test]
fn file_facts() {
    assert_eq!(language_for_extension("rs"), "Rust");
    assert_eq!(language_for_extension("yml"), "YAML");
    assert_eq!(language_for_extension("zz"), "Unknown");
    let f = file_info("src/a.py", "a.py", "py", "x = 1\ny = 2\n");
    assert_eq!(f.language, "Python");
    assert_eq!(f.line_count, 2);
    assert_eq!(f.char_count, 12);
    assert_eq!(f.size_bytes, 12);
    assert!(skip_file(".hidden"));
    assert!(skip_file("Cargo.lock"));
    assert!(!skip_file("main.rs"));
    assert!(descend_into("src"));
    assert!(!descend_into("node_modules"));
    assert!(!descend_into(".git"));
}

#[test]
fn remote_status_reads_ahead_and_behind() {
    let r = parse_remote_status("## main...origin/main [ahead 2, behind 3]\n M src/lib.rs\n");
    assert_eq!(r.ahead, 2);
    assert_eq!(r.behind, 3);
    assert_eq!(r.remote_branch, Some("origin/main".to_string()));
}

#[test]
fn remote_status_without_counts_or_remote() {
    let r = parse_remote_status("## main...origin/main\n");
    assert_eq!((r.ahead, r.behind), (0, 0));
    assert_eq!(r.remote_branch, Some("origin/main".to_string()));
    let r = parse_remote_status("## main\n?? new.txt\n");
    assert_eq!((r.ahead, r.behind), (0, 0));
    assert_eq!(r.remote_branch, None);
    let r = parse_remote_status("");
    assert_eq!(r.remote_branch, None);
    let r = parse_remote_status("## dev...up/dev [behind many, ahead 7]");
    assert_eq!((r.ahead, r.behind), (7, 0));
    assert_eq!(r.remote_branch, Some("up/dev".to_string()));
}

#[test]
fn string_search_and_split() {
    let cs = chars_of("a....b...c");
    let dots = chars_of("...");
    assert_eq!(find_chars(&cs, &dots), Some(1));
    let pieces: Vec<String> = split_str_chars(&cs, &dots).iter().map(|p| p.iter().collect()).collect();
    assert_eq!(pieces, vec!["a".to_string(), ".b".to_string(), "c".to_string()]);
    assert_eq!(find_chars(&cs, &chars_of("x")), None);
}

#[test]
fn query_cache_keys_hash_query_and_parameters() {
    let key = claude_rust::database::generate_cache_key("SELECT 1", &vec![]);
    assert_eq!(key, "query:b1698e52a0f16203489454196a0c6307:params:d41d8cd98f00b204e9800998ecf8427e");
    let key = claude_rust::database::generate_cache_key("SELECT 1", &vec!["a".to_string(), "b".to_string()]);
    assert_eq!(key, "query:b1698e52a0f16203489454196a0c6307:params:b345e1dc09f20fdefdea469f09167892");
}

#[test]
fn message_content_text_and_blocks() {
    let t = MessageContent::Text("hello world".to_string());
    assert!(t.contains("lo w"));
    assert_eq!(t.len(), 11);
    assert_eq!(t.as_str(), "hello world");
    let blocks = MessageContent::Blocks(vec![
        ContentBlock::Text { text: "abc".to_string() },
        ContentBlock::ToolUse { id: "1".to_string(), name: "grep".to_string(), input: "{}".to_string() },
        ContentBlock::ToolResult { tool_use_id: "1".to_string(), content: "found it".to_string(), is_error: None },
        ContentBlock::Image {
            source: ImageSource { source_type: "base64".to_string(), media_type: "image/png".to_string(), data: String::new() },
        },
    ]);
    assert!(blocks.contains("found"));
    assert!(!blocks.contains("grep"));
    assert_eq!(blocks.len(), 11);
    assert!(!blocks.is_empty());
    assert_eq!(blocks.as_str(), "abc [Tool: grep] found it [Image]");
    assert_eq!(blocks.to_string(), blocks.as_str());
    let empty = MessageContent::Blocks(vec![]);
    assert!(empty.is_empty());
    assert_eq!(empty.as_str(), "");
}

#[test]
fn edits_apply_to_file_contents() {
    let fm = FileManager::new();
    let edit = |edit_type: EditType, content: &str| Edit {
        file_path: "f.txt".to_string(),
        edit_type,
        content: content.to_string(),
        line_range: None,
    };
    assert_eq!(fm.apply_edit("f.txt", None, &edit(EditType::Replace, "new")).unwrap(), "new");
    let e = fm.apply_edit("f.txt", None, &edit(EditType::Append, "x")).unwrap_err();
    assert_eq!(e.to_string(), "General error: File system error: File not found: f.txt");
    assert_eq!(fm.apply_edit("f.txt", Some("a\nb"), &edit(EditType::Append, "c")).unwrap(), "a\nb\nc");
    assert_eq!(fm.apply_edit("f.txt", Some("a\nb"), &edit(EditType::Insert { line: 1 }, "x")).unwrap(), "a\nx\nb");
    assert_eq!(fm.apply_edit("f.txt", Some("a\nb\nc"), &edit(EditType::Delete { start: 0, end: 1 }, "")).unwrap(), "c");
    assert_eq!(
        fm.apply_edit("f.txt", Some("a\nb\nc"), &edit(EditType::ReplaceRange { start: 1, end: 1 }, "y\nz")).unwrap(),
        "a\ny\nz\nc"
    );
    assert!(fm.apply_edit("f.txt", Some("a"), &edit(EditType::Delete { start: 1, end: 1 }, "")).is_err());
}

#[test]
fn image_blocks_carry_base64_and_the_media_type() {
    let b = create_image_block_from_data("shots/screen.png", b"Man");
    match b {
        ContentBlock::Image { source } => {
            assert_eq!(source.source_type, "base64");
            assert_eq!(source.media_type, "image/png");
            assert_eq!(source.data, "TWFu");
        }
        _ => panic!("expected an image block"),
    }
    match create_image_block_from_data("photo.JPG", b"hi") {
        ContentBlock::Image { source } => {
            assert_eq!(source.media_type, "image/jpeg");
            assert_eq!(source.data, "aGk=");
        }
        _ => panic!("expected an image block"),
    }
    for (path, media) in [("a.jpeg", "image/jpeg"), ("a.gif", "image/gif"), ("a.webp", "image/webp"), ("noext", "image/jpeg"), (".png", "image/jpeg"), ("a.bmp", "image/jpeg")] {
        match create_image_block_from_data(path, b"") {
            ContentBlock::Image { source } => {
                assert_eq!(source.media_type, media, "{}", path);
                assert_eq!(source.data, "");
            }
            _ => panic!("expected an image block"),
        }
    }
    assert_eq!(media_type_for_extension(None), "image/jpeg");
    assert_eq!(media_type_for_extension(Some("png".to_string())), "image/png");
    match create_image_block_from_base64("AAAA".to_string(), "image/gif".to_string()) {
        ContentBlock::Image { source } => {
            assert_eq!(source.source_type, "base64");
            assert_eq!(source.media_type, "image/gif");
            assert_eq!(source.data, "AAAA");
        }
        _ => panic!("expected an image block"),
    }
}

#[test]
fn layered_settings_defaults() {
    let c = AdvancedConfig::default();
    assert_eq!(c.base.app_name, "claude_code_rust");
    assert_eq!(c.base.version, "0.1.0");
    assert_eq!(c.base.log_level, "info");
    assert_eq!(c.base.data_dir, "./data");
    assert_eq!(c.base.temp_dir, "./tmp");
    assert!(c.environment.api_endpoints.is_empty());
    assert!(c.environment.database.is_none());
    assert!(c.environment.cache.enabled && c.environment.cache.compression);
    assert_eq!((c.environment.cache.max_size_mb, c.environment.cache.ttl_seconds), (100, 3600));
    assert_eq!(c.environment.network.timeout_seconds, 30);
    assert_eq!(c.environment.network.retry_attempts, 3);
    assert_eq!(c.environment.network.retry_delay_ms, 1000);
    assert_eq!(c.environment.network.max_concurrent_requests, 100);
    assert!(c.features.web_ui && c.features.auto_backup && c.features.plugin_system);
    assert!(!c.features.real_time_collaboration && !c.features.advanced_analytics);
    assert!(c.features.custom_features.is_empty());
    assert_eq!(c.performance.max_memory_mb, 512);
    assert_eq!(c.performance.worker_threads, None);
    assert_eq!(c.performance.async_queue_size, 1000);
    assert!(c.performance.gc_config.enabled);
    assert_eq!((c.performance.gc_config.interval_seconds, c.performance.gc_config.memory_threshold_mb), (300, 400));
    assert!(!c.security.enable_https && c.security.encrypt_api_keys);
    assert_eq!(c.security.allowed_hosts, vec!["localhost".to_string(), "127.0.0.1".to_string()]);
    assert_eq!(c.security.session_timeout_seconds, 3600);
    assert!(c.monitoring.enable_metrics);
    assert_eq!(c.monitoring.metrics_port, Some(9090));
    assert_eq!(c.monitoring.health_check_interval_seconds, 30);
    assert!(!c.monitoring.log_aggregation.enabled);
    assert_eq!(c.monitoring.log_aggregation.batch_size, 100);
    assert_eq!(c.monitoring.log_aggregation.flush_interval_seconds, 60);
}

#[test]
fn event_kinds_have_stored_names() {
    assert_eq!(EventType::UserAction.to_string(), "user_action");
    assert_eq!(EventType::SystemEvent.to_string(), "system_event");
    assert_eq!(EventType::PerformanceEvent.to_string(), "performance_event");
    assert_eq!(EventType::ErrorEvent.to_string(), "error_event");
    assert_eq!(EventType::BusinessEvent.to_string(), "business_event");
    assert_eq!(EventType::Custom("signup".to_string()).to_string(), "custom_signup");
}

#[test]
fn formats_are_read_from_paths() {
    assert!(matches!(detect_format("/home/u/.config/app/config.JSON"), Ok(ConfigFormat::Json)));
    assert!(matches!(detect_format("settings.yml"), Ok(ConfigFormat::Yaml)));
    assert!(matches!(detect_format("dir/settings.toml"), Ok(ConfigFormat::Toml)));
    assert!(matches!(detect_format("/home/u/.clauderc"), Ok(ConfigFormat::Rc)));
    let e = detect_format("a/b/config.ini").unwrap_err();
    assert_eq!(e.to_string(), "General error: Unsupported config file format: ini");
    let e = detect_format("a/b/config").unwrap_err();
    assert_eq!(e.to_string(), "General error: Cannot detect config file format");
    let p = claude_rust::image_processing::ImageProcessor::new();
    assert!(matches!(p.infer_format_from_path("out/pic.PNG"), Ok(claude_rust::image_processing::ImageFormatKind::Png)));
    assert!(matches!(p.infer_format_from_path("out/pic.tif"), Ok(claude_rust::image_processing::ImageFormatKind::Tiff)));
    let e = p.infer_format_from_path("out/pic").unwrap_err();
    assert_eq!(e.to_string(), "General error: Cannot determine file format from path");
    let e = p.infer_format_from_path("out/pic.xyz").unwrap_err();
    assert_eq!(e.to_string(), "General error: Unsupported image format: xyz");
}

#[test]
fn file_facts_from_a_path() {
    let f = claude_rust::agent::analyze_file_content("src/lib/main.rs", "fn main() {}\n");
    assert_eq!(f.path, "src/lib/main.rs");
    assert_eq!(f.name, "main.rs");
    assert_eq!(f.extension, "rs");
    assert_eq!(f.language, "Rust");
    assert_eq!(f.line_count, 1);
    assert_eq!(f.char_count, 13);
    assert_eq!(f.size_bytes, 13);
    let g = claude_rust::agent::analyze_file_content("Makefile", "");
    assert_eq!(g.name, "Makefile");
    assert_eq!(g.extension, "");
    assert_eq!(g.language, "Unknown");
    assert_eq!(g.line_count, 0);
}

#[test]
fn json_files_must_parse() {
    let m = claude_rust::fs::FileManager::new();
    assert!(m.syntax_is_checked("conf/settings.json"));
    assert!(!m.syntax_is_checked("src/main.rs"));
    assert!(!m.syntax_is_checked("json"));
    assert!(m.validate_syntax("a.json", "{\"k\": [1, 2]}"));
    assert!(!m.validate_syntax("a.json", "{\"k\": [1, 2}"));
    assert!(m.validate_syntax("a.rs", "fn ("));
}

#[test]
fn credential_files_are_recognised() {
    assert!(claude_rust::cli::is_credential_file("anthropic_api_key.enc"));
    assert!(claude_rust::cli::is_credential_file("github_oauth_token.enc"));
    assert!(!claude_rust::cli::is_credential_file("api_key.enc"));
    assert!(!claude_rust::cli::is_credential_file("anthropic_api_key.enc.bak"));
    assert!(!claude_rust::cli::is_credential_file("settings.json"));
}

#[test]
fn agent_requests_and_edits() {
    let agent = claude_rust::agent::Agent::new();
    match agent.process_user_request("list files").unwrap() {
        claude_rust::agent::AgentResponse::TextContent { content, is_partial } => {
            assert_eq!(content, "Processing: list files");
            assert!(!is_partial);
        }
        _ => panic!("expected text"),
    }
    let ctx = claude_rust::agent::CodeContext {
        file_path: "src/main.rs".to_string(),
        content: "fn main() {}".to_string(),
        language: "Rust".to_string(),
    };
    let edit = agent.generate_code_edit("add logging", &ctx).unwrap();
    assert_eq!(edit.file_path, "src/main.rs");
    assert!(matches!(edit.edit_type, claude_rust::fs::EditType::Replace));
    assert_eq!(edit.content, "// Generated edit for: add logging\\nfn main() {}");
    assert!(edit.line_range.is_none());
}

#[test]
fn plugin_status_texts() {
    assert_eq!(status_text(&PluginStatus::Unloaded), "Unloaded");
    assert_eq!(status_text(&PluginStatus::Active), "Active");
    assert_eq!(status_text(&PluginStatus::Disabled), "Disabled");
    assert_eq!(status_text(&PluginStatus::Error("bad \"x\"".to_string())), "Error(\"bad \\\"x\\\"\")");
}

#[test]
fn usage_counts_by_model_and_day() {
    let row = |m: &str, d: &str, i: u32, o: u32| UsageRow {
        model: m.to_string(),
        date: d.to_string(),
        input_tokens: i,
        output_tokens: o,
        total_tokens: i + o,
    };
    let rows = vec![row("m1", "2024-01-01", 10, 5), row("m2", "2024-01-01", 1, 1), row("m1", "2024-01-02", 3, 4)];
    let u = usage_counts(&rows);
    assert_eq!((u.total_calls, u.total_input_tokens, u.total_output_tokens, u.total_tokens), (3, 14, 10, 24));
    let m1 = u.by_model.iter().find(|(m, _)| m == "m1").unwrap().1;
    assert_eq!((m1.calls, m1.input_tokens, m1.output_tokens), (2, 13, 9));
    let m2 = u.by_model.iter().find(|(m, _)| m == "m2").unwrap().1;
    assert_eq!((m2.calls, m2.input_tokens, m2.output_tokens), (1, 1, 1));
    assert_eq!(u.by_model.len(), 2);
    let d1 = u.by_date.iter().find(|(d, _)| d == "2024-01-01").unwrap().1;
    assert_eq!((d1.calls, d1.total_tokens), (2, 17));
    assert_eq!(u.by_date.len(), 2);
    let empty = usage_counts(&vec![]);
    assert_eq!(empty.total_calls, 0);
    assert!(empty.by_model.is_empty() && empty.by_date.is_empty());
}


#[test]
fn select_sql_depends_on_per_kind_order_only() {
    let a = QueryBuilder::new(DatabaseType::PostgreSQL)
        .select("users", &["id", "name"])
        .where_clause("age > 18")
        .join("JOIN t ON t.id = users.id")
        .limit(5)
        .order_by("name", SortDirection::Ascending)
        .where_clause("active = 1")
        .limit(10)
        .build();
    let b = QueryBuilder::new(DatabaseType::SQLite)
        .select("users", &["id", "name"])
        .limit(10)
        .order_by("name", SortDirection::Ascending)
        .join("JOIN t ON t.id = users.id")
        .where_clause("age > 18")
        .where_clause("active = 1")
        .build();
    assert_eq!(a.sql, b.sql);
    assert_eq!(
        a.sql,
        "SELECT id, name FROM users JOIN t ON t.id = users.id WHERE age > 18 AND active = 1 ORDER BY name ASC LIMIT 10"
    );
}

#[test]
fn extensions_follow_the_last_dot_of_the_file_name() {
    assert!(matches!(detect_format("conf/.hidden.json"), Ok(ConfigFormat::Json)));
    assert!(matches!(detect_format("backup.tar.toml"), Ok(ConfigFormat::Toml)));
    let e = detect_format("dir.json/config").unwrap_err();
    assert_eq!(e.to_string(), "General error: Cannot detect config file format");
}

#[test]
fn interactive_words() {
    assert!(matches!(interactive_action("exit\n"), InteractiveAction::Quit));
    assert!(matches!(interactive_action("  quit "), InteractiveAction::Quit));
    assert!(matches!(interactive_action("help"), InteractiveAction::Help));
    assert!(matches!(interactive_action("clear\r\n"), InteractiveAction::Clear));
    assert!(matches!(interactive_action("status"), InteractiveAction::Status));
    assert!(matches!(interactive_action("   \n"), InteractiveAction::Skip));
    match interactive_action("  explain this code \n") {
        InteractiveAction::Message(m) => assert_eq!(m, "explain this code"),
        _ => panic!("expected a message"),
    }
    assert!(matches!(interactive_action("Exit"), InteractiveAction::Message(_)));
}

#[test]
fn command_line_config_keys() {
    assert!(matches!(cli_config_key("api_key"), Ok(ConfigKey::ApiKey)));
    assert!(matches!(cli_config_key("api.anthropic_api_key"), Ok(ConfigKey::ApiKey)));
    assert!(matches!(cli_config_key("ui.theme"), Ok(ConfigKey::UiTheme)));
    assert!(cli_config_key("theme").is_err());
}

#[test]
fn working_dirs_compare_by_components() {
    let mut m = claude_rust::fs::FileSystemManager::new(vec!["x".to_string(), "/a//b".to_string()]);
    m.add_working_dir("x/".to_string());
    m.add_working_dir("/a/b/".to_string());
    m.add_working_dir("/a/./b".to_string());
    assert_eq!(m.get_working_dirs().len(), 2);
    m.add_working_dir("./x".to_string());
    m.add_working_dir("a/b".to_string());
    m.add_working_dir("a/../b".to_string());
    assert_eq!(m.get_working_dirs(), &["x".to_string(), "/a//b".to_string(), "./x".to_string(), "a/b".to_string(), "a/../b".to_string()]);
    m.add_working_dir("a/b".to_string());
    assert_eq!(m.get_working_dirs().len(), 5);
}

#[test]
fn languages_are_tallied() {
    let files = vec![
        file_info("a.rs", "a.rs", "rs", "x"),
        file_info("b.py", "b.py", "py", "x"),
        file_info("c.rs", "c.rs", "rs", "x"),
    ];
    let counts = claude_rust::agent::language_counts(&files);
    assert_eq!(counts.len(), 2);
    assert_eq!(counts.iter().find(|(l, _)| l == "Rust").unwrap().1, 2);
    assert_eq!(counts.iter().find(|(l, _)| l == "Python").unwrap().1, 1);
}


use claude_rust::error::ClaudeError;
use claude_rust::image_processing::ImageProcessor;
use claude_rust::images::ImageProcessingConfig;
use claude_rust::mcp::McpManager;
use claude_rust::{DESCRIPTION, VERSION};

#[test]
fn test_aspect_ratio_calculation() {
    let processor = ImageProcessor::new();
    let (width, height) = processor.calculate_aspect_ratio_size(1920, 1080, 800, 600);

    assert_eq!(width, 800);
    assert_eq!(height, 450);
}

#[test]
fn test_error_creation() {
    let error = ClaudeError::config_error("test config error");
    assert!(error.to_string().contains("Configuration error"));

    let error = ClaudeError::validation_error("field1", "invalid value");
    assert!(error.to_string().contains("Validation error"));
}

#[test]
fn test_image_processor_creation() {
    let _processor = ImageProcessor::new();
    assert!(true);
}

#[test]
fn test_config_default() {
    let config = ImageProcessingConfig::default();
    assert_eq!(config.quality, 80);
    assert!(config.preserve_aspect_ratio);
}

#[test]
fn test_version() {
    assert!(!VERSION.is_empty());
    assert_eq!(VERSION, "0.1.0");
}

#[test]
fn test_description() {
    assert!(!DESCRIPTION.is_empty());
}

#[test]
fn test_mcp_manager_creation() {
    let manager = McpManager::new();
    assert!(manager.list_running_servers().is_empty());
}

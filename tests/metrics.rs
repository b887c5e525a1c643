use arkaft_mcp_google_adk::server::record_tool_outcome;
use arkaft_mcp_google_adk::server::ToolKind;
use arkaft_mcp_google_adk::utils::error::{ArkaftMcpError, ErrorSeverity};
use arkaft_mcp_google_adk::utils::{init_server_config, validate_server_health, ServerMetrics};

#[test]
fn fresh_metrics_are_fully_successful() {
    let m = ServerMetrics::new();
    assert_eq!(m.success_rate_fraction(), (100, 1));
    assert_eq!(m.average_response_time_fraction(), (0, 1));
    assert_eq!(m.uptime_seconds(), 0);
    assert!(validate_server_health(&m).is_ok());
}

#[test]
fn two_successes_and_a_failure() {
    let mut m = ServerMetrics::new();
    m.record_success(100);
    m.record_success(200);
    m.record_failure();
    assert_eq!(m.total_tool_calls, 3);
    assert_eq!(m.successful_tool_calls, 2);
    assert_eq!(m.failed_tool_calls, 1);
    let (n, d) = m.success_rate_fraction();
    assert_eq!((n, d), (200, 3));
    let rate = n as f64 / d as f64;
    assert!((rate - 66.67).abs() < 0.01);
    let (t, s) = m.average_response_time_fraction();
    assert_eq!(t as f64 / s as f64, 150.0);
}

#[test]
fn low_success_rate_is_a_resource_limit() {
    let mut m = ServerMetrics::new();
    for _ in 0..9 {
        m.record_success(1);
    }
    for _ in 0..3 {
        m.record_failure();
    }
    match validate_server_health(&m) {
        Err(ArkaftMcpError::ResourceLimit(msg)) => assert_eq!(msg, "Success rate too low: 75.0%"),
        other => panic!("unexpected {:?}", other),
    }
}

#[test]
fn ten_calls_are_not_judged() {
    let mut m = ServerMetrics::new();
    for _ in 0..10 {
        m.record_failure();
    }
    assert!(validate_server_health(&m).is_ok());
}

#[test]
fn slow_responses_are_a_timeout() {
    let mut m = ServerMetrics::new();
    m.record_success(5000);
    m.record_success(5001);
    match validate_server_health(&m) {
        Err(ArkaftMcpError::Timeout(msg)) => assert_eq!(msg, "Average response time too high: 5000.5ms"),
        other => panic!("unexpected {:?}", other),
    }
    let mut exact = ServerMetrics::new();
    exact.record_success(5000);
    assert!(validate_server_health(&exact).is_ok());
}

#[test]
fn start_time_is_set_once() {
    let mut m = ServerMetrics::new();
    m.initialize_start_time();
    assert!(m.server_start_time.is_some());
    let first = m.server_start_time;
    m.initialize_start_time();
    assert_eq!(m.server_start_time, first);
    assert!(m.uptime_seconds() < 60);
}

#[test]
fn outcome_recording_and_periodic_check() {
    let mut m = ServerMetrics::new();
    let mut due = false;
    for i in 0..100 {
        due = record_tool_outcome(&mut m, i % 2 == 0, 10);
    }
    assert!(due);
    assert_eq!(m.successful_tool_calls, 50);
    assert_eq!(m.failed_tool_calls, 50);
    assert_eq!(m.total_response_time_ms, 500);
    assert!(!record_tool_outcome(&mut m, true, 1));
}

#[test]
fn tool_names_dispatch() {
    assert_eq!(ToolKind::from_name("adk_query").unwrap(), ToolKind::AdkQuery);
    assert_eq!(ToolKind::from_name("review_rust_file").unwrap(), ToolKind::ReviewRustFile);
    assert_eq!(ToolKind::from_name("validate_architecture").unwrap(), ToolKind::ValidateArchitecture);
    assert_eq!(ToolKind::from_name("get_best_practices").unwrap(), ToolKind::GetBestPractices);
    match ToolKind::from_name("unknown_tool") {
        Err(ArkaftMcpError::ToolExecution(msg)) => assert_eq!(msg, "Unknown tool: unknown_tool"),
        other => panic!("unexpected {:?}", other),
    }
}

#[test]
fn error_severity_and_recovery() {
    let critical = ArkaftMcpError::server_initialization("Test critical error".to_string());
    assert_eq!(critical.severity(), ErrorSeverity::Critical);
    assert!(!critical.is_recoverable());
    let param = ArkaftMcpError::parameter_validation("Test parameter error".to_string());
    assert_eq!(param.severity(), ErrorSeverity::Low);
    assert!(param.is_recoverable());
    assert_eq!(ArkaftMcpError::resource_limit("x".to_string()).severity(), ErrorSeverity::High);
    assert!(ArkaftMcpError::timeout("x".to_string()).is_recoverable());
    assert_eq!(ArkaftMcpError::tool_execution("x".to_string()).severity(), ErrorSeverity::Medium);
}

#[test]
fn server_config_defaults() {
    let c = init_server_config(None, None, None);
    assert_eq!(c.adk_docs_version, "latest");
    assert_eq!(c.log_level, "info");
    assert_eq!(c.server_name, "arkaft-google-adk");
    let d = init_server_config(Some("1.0.0".to_string()), Some("debug".to_string()), None);
    assert_eq!(d.adk_docs_version, "1.0.0");
    assert_eq!(d.log_level, "debug");
}

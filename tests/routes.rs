use tembo_telemetry::{get_tracing_logger, CustomFilterRootSpanBuilder, CustomLoggerBuilder, RootSpanDecision};

#[test]
fn test_excluded_route() {
    let mut filter = CustomFilterRootSpanBuilder::new();
    filter.set_excluded_routes(vec!["/health/liveness".to_string()]);
    let decision = filter.on_request_start("/health/liveness");
    assert_eq!(decision, RootSpanDecision::Suppress);
}

#[test]
fn test_non_excluded_route() {
    let mut filter = CustomFilterRootSpanBuilder::new();
    filter.set_excluded_routes(vec!["/health/liveness".to_string()]);
    let should_log = !filter.is_excluded("/some/other/route");
    assert!(should_log);
}

#[test]
fn exclusion_is_exact_and_case_sensitive() {
    let mut filter = CustomFilterRootSpanBuilder::new();
    get_tracing_logger().exclude("/health/liveness").build(&mut filter);
    assert_eq!(filter.on_request_start("/health/liveness"), RootSpanDecision::Suppress);
    assert_eq!(filter.on_request_start("/health/liveness/x"), RootSpanDecision::Record);
    assert_eq!(filter.on_request_start("/health/liveness/"), RootSpanDecision::Record);
    assert_eq!(filter.on_request_start("/Health/Liveness"), RootSpanDecision::Record);
    assert_eq!(filter.on_request_start("/health"), RootSpanDecision::Record);
}

#[test]
fn builder_keeps_insertion_order() {
    let mut filter = CustomFilterRootSpanBuilder::new();
    get_tracing_logger().exclude("/a").exclude("/b").build(&mut filter);
    assert_eq!(filter.excluded_routes(), &vec!["/a".to_string(), "/b".to_string()]);
    assert!(filter.is_excluded("/a"));
    assert!(filter.is_excluded("/b"));
    assert!(!filter.is_excluded("/c"));
}

#[test]
fn later_build_replaces_published_list() {
    let mut filter = CustomFilterRootSpanBuilder::new();
    get_tracing_logger().exclude("/a").exclude("/b").build(&mut filter);
    CustomLoggerBuilder::new().exclude("/c").build(&mut filter);
    assert_eq!(filter.excluded_routes(), &vec!["/c".to_string()]);
    assert!(!filter.is_excluded("/a"));
    assert!(!filter.is_excluded("/b"));
    assert!(filter.is_excluded("/c"));
}

#[test]
fn empty_builder_excludes_nothing() {
    let mut filter = CustomFilterRootSpanBuilder::new();
    filter.set_excluded_routes(vec!["/x".to_string()]);
    CustomLoggerBuilder::default().build(&mut filter);
    assert!(filter.excluded_routes().is_empty());
    assert_eq!(filter.on_request_start("/x"), RootSpanDecision::Record);
    assert!(!CustomFilterRootSpanBuilder::default().is_excluded(""));
}

#[test]
fn empty_route_never_matches_a_real_path() {
    let mut filter = CustomFilterRootSpanBuilder::new();
    get_tracing_logger().exclude("").build(&mut filter);
    assert!(!filter.is_excluded("/"));
    assert!(filter.is_excluded(""));
}

#[test]
fn builder_accumulates_duplicates() {
    let builder = CustomLoggerBuilder::new().exclude("/a").exclude("/a");
    assert_eq!(builder.excluded_routes().len(), 2);
}

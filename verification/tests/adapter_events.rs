use mars_xlog::adapter::{compose_event_message, XlogLayer, XlogLayerConfig, XlogLayerHandle};
use mars_xlog::handle::Xlog;
use mars_xlog::level::LogLevel;
use mars_xlog::visitor::EventVisitor;

fn logger() -> Xlog {
    Xlog::from_create(3, "demo".to_string()).unwrap()
}

#[test]
fn layer_config_builders_set_each_field() {
    let config = XlogLayerConfig::new(LogLevel::Debug);
    assert!(config.enabled);
    assert_eq!(config.level, LogLevel::Debug);
    assert!(config.tag.is_none());
    assert!(!config.include_spans);

    let config = config.enabled(false).level(LogLevel::Warn).tag("app".to_string()).include_spans(true);
    assert!(!config.enabled);
    assert_eq!(config.level, LogLevel::Warn);
    assert_eq!(config.tag.as_deref(), Some("app"));
    assert!(config.include_spans);
}

#[test]
fn the_handle_reflects_filter_changes() {
    let mut handle = XlogLayerHandle { enabled: true, level: LogLevel::Info };
    assert!(handle.enabled());
    assert_eq!(handle.level(), LogLevel::Info);
    handle.set_enabled(false);
    assert!(!handle.enabled());
    handle.set_level(LogLevel::Error);
    assert_eq!(handle.level(), LogLevel::Error);
    assert!(!handle.enabled());
}

#[test]
fn a_new_layer_forwards_at_the_logger_level() {
    let (layer, handle) = XlogLayer::new(logger(), LogLevel::Info);
    assert_eq!(layer.handle(), handle);
    assert!(handle.enabled);
    assert_eq!(handle.level, LogLevel::Info);
    assert!(layer.is_enabled_for(LogLevel::Info));
    assert!(layer.is_enabled_for(LogLevel::Error));
    assert!(!layer.is_enabled_for(LogLevel::Debug));
}

#[test]
fn a_disabled_layer_forwards_nothing() {
    let config = XlogLayerConfig::new(LogLevel::Verbose).enabled(false);
    let (layer, _) = XlogLayer::with_config(logger(), config);
    assert!(!layer.is_enabled_for(LogLevel::Fatal));
    assert!(!layer.is_metadata_enabled(LogLevel::Fatal));
}

#[test]
fn off_events_are_never_forwarded() {
    let (layer, _) = XlogLayer::new(logger(), LogLevel::Verbose);
    assert!(!layer.is_metadata_enabled(LogLevel::Off));
    assert!(layer.is_metadata_enabled(LogLevel::Verbose));
}

#[test]
fn the_message_field_becomes_the_primary_message() {
    let mut visitor = EventVisitor::new();
    visitor.record_str("message", "hello");
    assert_eq!(visitor.finish(), "hello");
}

#[test]
fn other_fields_render_in_braces_after_the_message() {
    let mut visitor = EventVisitor::new();
    visitor.record_str("message", "hello");
    visitor.record_u64("count", 42);
    visitor.record_bool("ok", true);
    assert_eq!(visitor.finish(), "hello {count=42, ok=true}");
}

#[test]
fn fields_without_a_message_render_alone() {
    let mut visitor = EventVisitor::new();
    visitor.record_i64("delta", -5);
    visitor.record_str("name", "x");
    assert_eq!(visitor.finish(), "{delta=-5, name=x}");
}

#[test]
fn an_empty_event_renders_empty() {
    let visitor = EventVisitor::new();
    assert_eq!(visitor.finish(), "");
}

#[test]
fn numeric_fields_render_their_exact_decimal_text() {
    let mut visitor = EventVisitor::new();
    visitor.record_u64("zero", 0);
    visitor.record_u64("big", u64::MAX);
    visitor.record_i64("min", i64::MIN);
    visitor.record_bool("no", false);
    assert_eq!(
        visitor.finish(),
        "{zero=0, big=18446744073709551615, min=-9223372036854775808, no=false}"
    );
}

#[test]
fn a_later_message_field_wins() {
    let mut visitor = EventVisitor::new();
    visitor.record_str("message", "first");
    visitor.record_str("message", "second");
    assert_eq!(visitor.finish(), "second");
}

#[test]
fn span_names_prefix_the_message_when_asked() {
    let spans = vec!["root".to_string(), "inner".to_string()];
    let composed = compose_event_message("hello".to_string(), &spans, true, "event");
    assert_eq!(composed, "[root > inner] hello");
}

#[test]
fn spans_stand_alone_when_the_body_is_empty() {
    let spans = vec!["root".to_string(), "inner".to_string()];
    let composed = compose_event_message(String::new(), &spans, true, "event");
    assert_eq!(composed, "root > inner");
}

#[test]
fn spans_are_ignored_when_not_requested() {
    let spans = vec!["root".to_string()];
    let composed = compose_event_message("hello".to_string(), &spans, false, "event");
    assert_eq!(composed, "hello");
}

#[test]
fn empty_span_names_add_no_separator() {
    let spans = vec![String::new(), "inner".to_string()];
    let composed = compose_event_message("hello".to_string(), &spans, true, "event");
    assert_eq!(composed, "[inner] hello");
}

#[test]
fn everything_empty_falls_back_to_the_event_name() {
    let composed = compose_event_message(String::new(), &Vec::new(), true, "my_event");
    assert_eq!(composed, "my_event");
}

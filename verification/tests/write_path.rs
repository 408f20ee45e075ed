use mars_xlog::config::{AppenderMode, XlogConfig, XlogError};
use mars_xlog::handle::{lookup_name, LogRecord, Xlog};
use mars_xlog::level::{level_code, level_enabled, LogLevel};
use mars_xlog::lifecycle::OwnerCount;

#[test]
fn a_zero_instance_reply_is_init_failed() {
    match Xlog::from_create(0, "demo".to_string()) {
        Err(XlogError::InitFailed) => {}
        other => panic!("expected InitFailed, got {other:?}"),
    }
}

#[test]
fn a_nonzero_instance_reply_becomes_a_handle() {
    let handle = Xlog::from_create(5, "demo".to_string()).unwrap();
    assert_eq!(handle.instance(), 5);
    assert_eq!(handle.name_prefix, "demo");
}

#[test]
fn lookup_misses_are_absence_not_errors() {
    assert!(Xlog::from_lookup("demo".to_string(), 0).is_none());
    let found = Xlog::from_lookup("demo".to_string(), 9).unwrap();
    assert_eq!(found.instance(), 9);
}

#[test]
fn lookup_names_with_embedded_nul_never_match() {
    assert_eq!(lookup_name("demo"), Some("demo".to_string()));
    assert_eq!(lookup_name("de\0mo"), None);
    assert_eq!(lookup_name(""), Some(String::new()));
}

#[test]
fn a_disabled_level_short_circuits_the_write() {
    let handle = Xlog::from_create(5, "demo".to_string()).unwrap();
    let record = handle.write_record(false, LogLevel::Debug, Some("tag"), "f.rs", "f", 10, "msg");
    assert!(record.is_none());
}

#[test]
fn a_write_record_carries_the_sanitized_metadata() {
    let handle = Xlog::from_create(5, "demo".to_string()).unwrap();
    let record = handle
        .write_record(true, LogLevel::Warn, Some("ta\0g"), "src/a\0.rs", "fu\0nc", 42, "hel\0lo")
        .unwrap();
    assert_eq!(record.level, LogLevel::Warn);
    assert_eq!(record.tag, "tag");
    assert_eq!(record.filename, "src/a.rs");
    assert_eq!(record.func_name, "func");
    assert_eq!(record.line, 42);
    assert_eq!(record.message, "hello");
    assert_eq!(record.pid, -1);
    assert_eq!(record.tid, -1);
    assert_eq!(record.main_tid, -1);
    assert_eq!(record.trace_log, 0);
}

#[test]
fn a_missing_tag_defaults_to_the_name_prefix() {
    let handle = Xlog::from_create(5, "demo".to_string()).unwrap();
    let record = handle.write_record(true, LogLevel::Info, None, "", "", 0, "msg").unwrap();
    assert_eq!(record.tag, "demo");
}

/// A stand-in for the native engine that records every call the boundary
/// code would make, so the whole creation-to-release flow can be walked.
struct FakeEngine {
    min_level: LogLevel,
    writes: Vec<LogRecord>,
    flushes: Vec<bool>,
    releases: Vec<String>,
}

impl FakeEngine {
    fn new(min_level: LogLevel) -> FakeEngine {
        FakeEngine { min_level, writes: Vec::new(), flushes: Vec::new(), releases: Vec::new() }
    }

    fn create(&mut self, name_prefix: &str) -> usize {
        // The real engine hands back an opaque non-zero id on success.
        if name_prefix.is_empty() { 0 } else { 1 }
    }

    fn is_enabled(&self, level: LogLevel) -> bool {
        level_enabled(self.min_level, level)
    }
}

#[test]
fn end_to_end_create_write_flush_release() {
    let mut engine = FakeEngine::new(LogLevel::Info);

    // Create: validate and marshal, then hand the block to the engine.
    let config = XlogConfig::new("/tmp/x".to_string(), "app".to_string()).mode(AppenderMode::Async);
    let native = config.marshal().expect("a valid config must marshal");
    let instance = engine.create(&native.name_prefix);
    let logger = Xlog::from_create(instance, config.name_prefix.clone()).expect("creation succeeds");

    // Info is enabled by default for a logger created at Info.
    assert!(engine.is_enabled(LogLevel::Info));

    // Exactly one native write, with the given level, tag and message.
    let enabled = engine.is_enabled(LogLevel::Info);
    if let Some(record) = logger.write_record(enabled, LogLevel::Info, Some("tag"), "", "", 0, "hello") {
        engine.writes.push(record);
    }
    assert_eq!(engine.writes.len(), 1);
    assert_eq!(level_code(engine.writes[0].level), 2);
    assert_eq!(engine.writes[0].tag, "tag");
    assert_eq!(engine.writes[0].message, "hello");

    // Exactly one synchronous flush.
    engine.flushes.push(true);
    assert_eq!(engine.flushes, vec![true]);

    // Three owners of the handle: the creator and two clones.
    let mut owners = OwnerCount::new();
    let clone_a = logger.clone();
    owners.acquire();
    let clone_b = logger.clone();
    owners.acquire();
    assert_eq!(clone_a.instance(), logger.instance());
    assert_eq!(clone_b.name_prefix, logger.name_prefix);

    // Dropping every owner releases the instance exactly once, for "app".
    for handle in [clone_a, clone_b, logger] {
        if owners.release() {
            engine.releases.push(handle.name_prefix.clone());
        }
        drop(handle);
    }
    assert_eq!(engine.releases, vec!["app".to_string()]);
}

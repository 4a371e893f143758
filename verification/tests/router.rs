use logroute::Channeled;
use logroute::LogEntry;
use logroute::LogExecuteBuilder;
use logroute::LogLevel;
use logroute::LogLevelFilter;
use logroute::LogLocation;
use logroute::LogRecord;
use logroute::Logger;
use logroute::LoggerBuilder;
use std::sync::Arc;
use std::sync::Mutex;

struct Tag {
    name: &'static str,
    log: Arc<Mutex<Vec<String>>>,
}

impl Channeled for Tag {
    fn send(&self, strings: Arc<LogEntry>) {
        self.log.lock().unwrap().push(format!("{}:{}", self.name, strings.args()));
    }
}

fn policy(name: &'static str, log: &Arc<Mutex<Vec<String>>>) -> LogExecuteBuilder<Tag> {
    let mut builder = LogExecuteBuilder::new();
    builder
        .default_channels(Arc::new(Tag { name, log: log.clone() }))
        .directive(None, LogLevelFilter::Error);
    builder
}

fn record(module: &str, target: &str, msg: &str) -> LogRecord {
    let location = LogLocation::new(module.to_string(), "src/lib.rs".to_string(), 1);
    LogRecord::new(LogLevel::Info, target.to_string(), location, msg.to_string())
}

fn router(log: &Arc<Mutex<Vec<String>>>) -> Logger<Tag> {
    let mut builder = LoggerBuilder::new();
    builder
        .default(&mut policy("default", log))
        .module("modA", &mut policy("module", log))
        .target("tgtX", &mut policy("target", log))
        .exact("modA", "tgtX", &mut policy("exact", log));
    assert!(builder.has_default());
    builder.build()
}

fn served_by(logger: &Logger<Tag>, log: &Arc<Mutex<Vec<String>>>, module: &str, target: &str) -> String {
    log.lock().unwrap().clear();
    assert_eq!(logger.control(&record(module, target, "m")), 1);
    let lines = log.lock().unwrap().clone();
    assert_eq!(lines.len(), 1);
    lines[0].trim_end_matches(":m").to_string()
}

#[test]
fn router_priority() {
    let log = Arc::new(Mutex::new(Vec::new()));
    let logger = router(&log);
    assert_eq!(served_by(&logger, &log, "modA", "tgtX"), "exact");
    assert_eq!(served_by(&logger, &log, "modA", "tgtY"), "module");
    assert_eq!(served_by(&logger, &log, "modB", "tgtX"), "target");
    assert_eq!(served_by(&logger, &log, "modB", "tgtY"), "default");
}

#[test]
fn lookups_by_kind() {
    let log = Arc::new(Mutex::new(Vec::new()));
    let logger = router(&log);
    assert!(logger.find_exact("modA", "tgtX").is_some());
    assert!(logger.find_exact("modA", "tgtY").is_none());
    assert!(logger.find_exact("tgtX", "modA").is_none());
    assert!(logger.find_target("tgtX").is_some());
    assert!(logger.find_target("modA").is_none());
    assert!(logger.find_module("modA").is_some());
    assert!(logger.find_module("tgtX").is_none());
    assert!(logger.find_default().is_some());
}

#[test]
fn names_match_as_a_whole() {
    let log = Arc::new(Mutex::new(Vec::new()));
    let logger = router(&log);
    assert_eq!(served_by(&logger, &log, "modA::inner", "tgtX2"), "default");
    assert_eq!(served_by(&logger, &log, "mod", "tgt"), "default");
    assert_eq!(served_by(&logger, &log, "", ""), "default");
}

#[test]
fn later_registration_replaces_an_earlier_one() {
    let log = Arc::new(Mutex::new(Vec::new()));
    let mut builder = LoggerBuilder::new();
    builder
        .default(&mut policy("old default", &log))
        .target("t", &mut policy("old target", &log))
        .default(&mut policy("new default", &log))
        .target("t", &mut policy("new target", &log));
    let logger = builder.build();
    assert_eq!(served_by(&logger, &log, "m", "t"), "new target");
    assert_eq!(served_by(&logger, &log, "m", "u"), "new default");
}

#[test]
fn build_leaves_the_builder_without_registrations() {
    let log = Arc::new(Mutex::new(Vec::new()));
    let mut builder = LoggerBuilder::new();
    builder.default(&mut policy("default", &log)).set_max_logger(LogLevelFilter::Warn);
    assert_eq!(builder.max_level(), LogLevelFilter::Warn);
    let _logger = builder.build();
    assert!(!builder.has_default());
    assert_eq!(builder.max_level(), LogLevelFilter::Warn);
}

#[test]
fn new_builder_asks_for_every_level() {
    let builder: LoggerBuilder<Tag> = LoggerBuilder::new();
    assert_eq!(builder.max_level(), LogLevelFilter::Trace);
    assert!(!builder.has_default());
}

#[test]
fn routed_event_is_dropped_where_the_policy_drops_it() {
    let log = Arc::new(Mutex::new(Vec::new()));
    let mut quiet = LogExecuteBuilder::new();
    quiet.default_channels(Arc::new(Tag { name: "quiet", log: log.clone() })).directive(None, LogLevelFilter::Trace);
    let mut builder = LoggerBuilder::new();
    builder.default(&mut policy("default", &log)).module("modA", &mut quiet);
    let logger = builder.build();
    assert_eq!(logger.control(&record("modA", "t", "m")), 0);
    assert_eq!(logger.control(&record("modB", "t", "m")), 1);
    assert_eq!(*log.lock().unwrap(), vec!["default:m"]);
}

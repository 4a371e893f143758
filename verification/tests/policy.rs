use logroute::policy::passes;
use logroute::Channeled;
use logroute::LogDirective;
use logroute::LogEntry;
use logroute::LogExecuteBuilder;
use logroute::LogLevel;
use logroute::LogLevelFilter;
use logroute::LogLocation;
use logroute::LogRecord;
use logroute::Timestamp;
use std::sync::Arc;
use std::sync::Mutex;

struct Inbox {
    name: &'static str,
    log: Arc<Mutex<Vec<String>>>,
}

impl Channeled for Inbox {
    fn send(&self, strings: Arc<LogEntry>) {
        let line = format!("{}<{}@{}", self.name, strings.args(), strings.time().secs());
        self.log.lock().unwrap().push(line);
    }
}

fn inbox(name: &'static str, log: &Arc<Mutex<Vec<String>>>) -> Arc<Inbox> {
    Arc::new(Inbox { name, log: log.clone() })
}

fn record(level: LogLevel, target: &str, msg: &str) -> LogRecord {
    let location = LogLocation::new("app::db".to_string(), "src/db.rs".to_string(), 9);
    LogRecord::new(level, target.to_string(), location, msg.to_string())
}

const LEVELS: [LogLevel; 5] = [LogLevel::Trace, LogLevel::Debug, LogLevel::Info, LogLevel::Warn, LogLevel::Error];

fn at(secs: i64) -> Timestamp {
    Timestamp::new(secs, 0, 0).unwrap()
}

#[test]
fn most_recent_directive_is_evaluated_first() {
    let directives = vec![
        LogDirective::new(None, LogLevelFilter::Info),
        LogDirective::new(None, LogLevelFilter::Debug),
    ];
    let verdicts: Vec<bool> = LEVELS.iter().map(|l| passes(&directives, "any", *l)).collect();
    assert_eq!(verdicts, vec![true, true, false, false, false]);
    assert!(!passes(&directives, "any", LogLevel::Error));
}

#[test]
fn pass_and_drop_for_every_level_and_threshold() {
    let thresholds = [
        (LogLevelFilter::Off, [false, false, false, false, false]),
        (LogLevelFilter::Trace, [true, false, false, false, false]),
        (LogLevelFilter::Debug, [true, true, false, false, false]),
        (LogLevelFilter::Info, [true, true, true, false, false]),
        (LogLevelFilter::Warn, [true, true, true, true, false]),
        (LogLevelFilter::Error, [true, true, true, true, true]),
    ];
    for (threshold, expected) in thresholds {
        let directives = vec![LogDirective::new(None, threshold)];
        for (level, pass) in LEVELS.iter().zip(expected) {
            assert_eq!(passes(&directives, "t", *level), pass);
            assert_eq!(level.is_within(threshold), pass);
        }
    }
}

#[test]
fn severity_runs_from_trace_to_error() {
    let ranks: Vec<u8> = LEVELS.iter().map(|l| l.rank()).collect();
    assert_eq!(ranks, vec![0, 1, 2, 3, 4]);
}

#[test]
fn no_directive_drops_every_event() {
    let directives: Vec<LogDirective> = Vec::new();
    for level in LEVELS {
        assert!(!passes(&directives, "t", level));
    }
}

#[test]
fn scoped_directive_covers_targets_that_begin_with_its_name() {
    let d = LogDirective::new(Some("net".to_string()), LogLevelFilter::Error);
    assert!(d.covers("net"));
    assert!(d.covers("net::tcp"));
    assert!(!d.covers("ne"));
    assert!(!d.covers("db::net"));
    assert!(LogDirective::new(Some(String::new()), LogLevelFilter::Error).covers("anything"));
    assert!(LogDirective::new(None, LogLevelFilter::Error).covers(""));
}

#[test]
fn last_covering_directive_decides() {
    let directives = vec![
        LogDirective::new(None, LogLevelFilter::Trace),
        LogDirective::new(Some("net".to_string()), LogLevelFilter::Warn),
        LogDirective::new(Some("db".to_string()), LogLevelFilter::Off),
    ];
    assert!(passes(&directives, "net::tcp", LogLevel::Info));
    assert!(!passes(&directives, "net::tcp", LogLevel::Error));
    assert!(!passes(&directives, "db", LogLevel::Trace));
    assert!(passes(&directives, "other", LogLevel::Trace));
    assert!(!passes(&directives, "other", LogLevel::Debug));
    let scoped_only = vec![LogDirective::new(Some("net".to_string()), LogLevelFilter::Error)];
    assert!(!passes(&scoped_only, "db", LogLevel::Trace));
}

#[test]
fn policy_sends_to_level_channels_or_to_default_ones() {
    let log = Arc::new(Mutex::new(Vec::new()));
    let mut builder = LogExecuteBuilder::new();
    builder
        .default_channels(inbox("default", &log))
        .add_channels(LogLevelFilter::Info, inbox("info-1", &log))
        .add_channels(LogLevelFilter::Info, inbox("info-2", &log))
        .directive(None, LogLevelFilter::Error);
    assert!(builder.has_default());
    let policy = builder.build();
    assert!(!builder.has_default());

    assert_eq!(policy.control_at(&record(LogLevel::Info, "t", "a"), at(5)), 2);
    assert_eq!(policy.control_at(&record(LogLevel::Warn, "t", "b"), at(6)), 1);
    assert_eq!(*log.lock().unwrap(), vec!["info-1<a@5", "info-2<a@5", "default<b@6"]);
    assert_eq!(policy.select(LogLevel::Info).len(), 2);
    assert_eq!(policy.select(LogLevel::Trace).len(), 1);
    assert_eq!(policy.default_channels().len(), 1);
}

#[test]
fn policy_drops_what_its_directives_do_not_let_pass() {
    let log = Arc::new(Mutex::new(Vec::new()));
    let mut builder = LogExecuteBuilder::new();
    builder.default_channels(inbox("default", &log)).directive(None, LogLevelFilter::Debug);
    let policy = builder.build();

    assert!(policy.accepts(&record(LogLevel::Debug, "t", "kept")));
    assert!(!policy.accepts(&record(LogLevel::Error, "t", "dropped")));
    assert_eq!(policy.control_at(&record(LogLevel::Error, "t", "dropped"), at(1)), 0);
    assert_eq!(policy.control_at(&record(LogLevel::Debug, "t", "kept"), at(2)), 1);
    assert_eq!(*log.lock().unwrap(), vec!["default<kept@2"]);
}

#[test]
fn policy_without_directives_drops_everything() {
    let log = Arc::new(Mutex::new(Vec::new()));
    let mut builder = LogExecuteBuilder::new();
    builder.default_channels(inbox("default", &log));
    let policy = builder.build();
    for level in LEVELS {
        assert_eq!(policy.control_at(&record(level, "t", "m"), at(1)), 0);
    }
    assert!(log.lock().unwrap().is_empty());
}

#[test]
fn control_stamps_the_event_with_the_current_time() {
    let log = Arc::new(Mutex::new(Vec::new()));
    let mut builder = LogExecuteBuilder::new();
    builder.default_channels(inbox("default", &log)).directive(None, LogLevelFilter::Error);
    let policy = builder.build();
    assert_eq!(policy.control(&record(LogLevel::Info, "t", "m")), 1);
    let line = log.lock().unwrap()[0].clone();
    let secs: i64 = line.rsplit('@').next().unwrap().parse().unwrap();
    assert!(secs > 1_600_000_000);
}

#[test]
fn event_takes_over_the_record() {
    let r = record(LogLevel::Warn, "db", "slow query");
    let e = LogEntry::from_record(&r, at(77));
    assert_eq!(e.level(), LogLevel::Warn);
    assert_eq!(e.target(), "db");
    assert_eq!(e.args(), "slow query");
    assert_eq!(e.location().module(), "app::db");
    assert_eq!(e.location().file(), "src/db.rs");
    assert_eq!(e.location().line(), 9);
    assert_eq!(e.time().secs(), 77);
    assert_eq!((r.level(), r.target(), r.args()), (LogLevel::Warn, "db", "slow query"));
    assert_eq!(r.location().line(), 9);
}

#[test]
fn filters_name_their_levels() {
    assert_eq!(LogLevelFilter::Off.to_log_level(), None);
    assert_eq!(LogLevelFilter::Warn.to_log_level(), Some(LogLevel::Warn));
    for level in LEVELS {
        assert_eq!(level.to_log_level_filter().to_log_level(), Some(level));
    }
}

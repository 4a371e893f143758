//! Severity levels, level filters and the per-level binding table.

use vstd::prelude::*;

verus! {

/// Severity of one log event. `Trace` is the least severe level and `Error`
/// the most severe one.
#[derive(Clone, Copy, Debug, PartialEq, Eq, Structural)]
pub enum LogLevel {
    Error,
    Warn,
    Info,
    Debug,
    Trace,
}

/// A level threshold. `Off` names no level at all.
#[derive(Clone, Copy, Debug, PartialEq, Eq, Structural)]
pub enum LogLevelFilter {
    Off,
    Error,
    Warn,
    Info,
    Debug,
    Trace,
}

impl LogLevel {
    /// Rank of the level by severity: 0 for `Trace` up to 4 for `Error`.
    pub open spec fn severity(self) -> nat {
        match self {
            LogLevel::Trace => 0,
            LogLevel::Debug => 1,
            LogLevel::Info => 2,
            LogLevel::Warn => 3,
            LogLevel::Error => 4,
        }
    }

    /// The name under which the level is displayed.
    pub open spec fn label(self) -> Seq<char> {
        match self {
            LogLevel::Error => "ERROR"@,
            LogLevel::Warn => "WARN"@,
            LogLevel::Info => "INFO"@,
            LogLevel::Debug => "DEBUG"@,
            LogLevel::Trace => "TRACE"@,
        }
    }

    /// Whether an event of this level is at or below `threshold`, that is,
    /// equally or less severe. `Off` admits no level.
    pub open spec fn within(self, threshold: LogLevelFilter) -> bool {
        match threshold.level() {
            Some(limit) => self.severity() <= limit.severity(),
            None => false,
        }
    }

    pub fn rank(self) -> (r: u8)
        ensures
            r == self.severity(),
    {
        match self {
            LogLevel::Trace => 0,
            LogLevel::Debug => 1,
            LogLevel::Info => 2,
            LogLevel::Warn => 3,
            LogLevel::Error => 4,
        }
    }

    pub fn as_str(self) -> (name: &'static str)
        ensures
            name@ == self.label(),
    {
        match self {
            LogLevel::Error => "ERROR",
            LogLevel::Warn => "WARN",
            LogLevel::Info => "INFO",
            LogLevel::Debug => "DEBUG",
            LogLevel::Trace => "TRACE",
        }
    }

    pub fn is_within(self, threshold: LogLevelFilter) -> (b: bool)
        ensures
            b == self.within(threshold),
    {
        match threshold.to_log_level() {
            Some(limit) => self.rank() <= limit.rank(),
            None => false,
        }
    }

    pub fn to_log_level_filter(self) -> (f: LogLevelFilter)
        ensures
            f.level() == Some(self),
    {
        match self {
            LogLevel::Error => LogLevelFilter::Error,
            LogLevel::Warn => LogLevelFilter::Warn,
            LogLevel::Info => LogLevelFilter::Info,
            LogLevel::Debug => LogLevelFilter::Debug,
            LogLevel::Trace => LogLevelFilter::Trace,
        }
    }
}

impl LogLevelFilter {
    /// The level that the filter names, if any.
    pub open spec fn level(self) -> Option<LogLevel> {
        match self {
            LogLevelFilter::Off => None,
            LogLevelFilter::Error => Some(LogLevel::Error),
            LogLevelFilter::Warn => Some(LogLevel::Warn),
            LogLevelFilter::Info => Some(LogLevel::Info),
            LogLevelFilter::Debug => Some(LogLevel::Debug),
            LogLevelFilter::Trace => Some(LogLevel::Trace),
        }
    }

    pub fn to_log_level(self) -> (l: Option<LogLevel>)
        ensures
            l == self.level(),
    {
        match self {
            LogLevelFilter::Off => None,
            LogLevelFilter::Error => Some(LogLevel::Error),
            LogLevelFilter::Warn => Some(LogLevel::Warn),
            LogLevelFilter::Info => Some(LogLevel::Info),
            LogLevelFilter::Debug => Some(LogLevel::Debug),
            LogLevelFilter::Trace => Some(LogLevel::Trace),
        }
    }
}

/// Bindings keyed by an optional level: one list per level and one
/// level-independent default list. A key without bindings has the empty
/// list.
pub struct LevelTable<T> {
    default: Vec<T>,
    error: Vec<T>,
    warn: Vec<T>,
    info: Vec<T>,
    debug: Vec<T>,
    trace: Vec<T>,
}

impl<T> LevelTable<T> {
    /// The bindings registered under `key`, in registration order.
    pub closed spec fn bound(&self, key: Option<LogLevel>) -> Seq<T> {
        match key {
            None => self.default@,
            Some(LogLevel::Error) => self.error@,
            Some(LogLevel::Warn) => self.warn@,
            Some(LogLevel::Info) => self.info@,
            Some(LogLevel::Debug) => self.debug@,
            Some(LogLevel::Trace) => self.trace@,
        }
    }

    /// The bindings that serve `level`: those registered for the level
    /// itself, or the default ones where the level has none.
    pub open spec fn selected(&self, level: LogLevel) -> Seq<T> {
        if self.bound(Some(level)).len() > 0 {
            self.bound(Some(level))
        } else {
            self.bound(None)
        }
    }

    pub open spec fn has_default(&self) -> bool {
        self.bound(None).len() > 0
    }

    pub open spec fn is_empty(&self) -> bool {
        forall|key: Option<LogLevel>| #[trigger] self.bound(key).len() == 0
    }

    pub fn new() -> (table: Self)
        ensures
            table.is_empty(),
    {
        LevelTable {
            default: Vec::new(),
            error: Vec::new(),
            warn: Vec::new(),
            info: Vec::new(),
            debug: Vec::new(),
            trace: Vec::new(),
        }
    }

    pub fn get(&self, key: Option<LogLevel>) -> (list: &Vec<T>)
        ensures
            list@ == self.bound(key),
    {
        match key {
            None => &self.default,
            Some(LogLevel::Error) => &self.error,
            Some(LogLevel::Warn) => &self.warn,
            Some(LogLevel::Info) => &self.info,
            Some(LogLevel::Debug) => &self.debug,
            Some(LogLevel::Trace) => &self.trace,
        }
    }

    /// Appends `item` to the bindings of `key`; every other key keeps its
    /// bindings.
    pub fn add(&mut self, key: Option<LogLevel>, item: T)
        ensures
            final(self).bound(key) == old(self).bound(key).push(item),
            forall|other: Option<LogLevel>|
                other != key ==> #[trigger] final(self).bound(other) == old(self).bound(other),
    {
        match key {
            None => self.default.push(item),
            Some(LogLevel::Error) => self.error.push(item),
            Some(LogLevel::Warn) => self.warn.push(item),
            Some(LogLevel::Info) => self.info.push(item),
            Some(LogLevel::Debug) => self.debug.push(item),
            Some(LogLevel::Trace) => self.trace.push(item),
        }
    }

    pub fn select(&self, level: LogLevel) -> (list: &Vec<T>)
        ensures
            list@ == self.selected(level),
    {
        let own = self.get(Some(level));
        if own.len() > 0 {
            own
        } else {
            self.get(None)
        }
    }

    pub fn default_is_bound(&self) -> (b: bool)
        ensures
            b == self.has_default(),
    {
        self.default.len() > 0
    }
}

} // verus!

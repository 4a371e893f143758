//! Log records as they arrive at the logger, and the events made of them.

use crate::clock::Instant;
use crate::clock::Timestamp;
use crate::level::LogLevel;
use vstd::prelude::*;

verus! {

/// Where in the source a log call stands.
#[derive(Debug)]
pub struct LogLocation {
    module: String,
    file: String,
    line: u32,
}

pub struct LocationView {
    pub module: Seq<char>,
    pub file: Seq<char>,
    pub line: nat,
}

impl View for LogLocation {
    type V = LocationView;

    closed spec fn view(&self) -> LocationView {
        LocationView { module: self.module@, file: self.file@, line: self.line as nat }
    }
}

impl LogLocation {
    pub fn new(module: String, file: String, line: u32) -> (location: LogLocation)
        ensures
            location@ == (LocationView { module: module@, file: file@, line: line as nat }),
    {
        LogLocation { module, file, line }
    }

    pub fn module(&self) -> (path: &str)
        ensures
            path@ == self@.module,
    {
        self.module.as_str()
    }

    pub fn file(&self) -> (file: &str)
        ensures
            file@ == self@.file,
    {
        self.file.as_str()
    }

    pub fn line(&self) -> (line: u32)
        ensures
            line == self@.line,
    {
        self.line
    }
}

impl Clone for LogLocation {
    fn clone(&self) -> (copy: Self)
        ensures
            copy@ == self@,
    {
        LogLocation { module: self.module.clone(), file: self.file.clone(), line: self.line }
    }
}

/// One log call as the logger receives it: level, target, source location and
/// the formatted message.
#[derive(Debug)]
pub struct LogRecord {
    level: LogLevel,
    target: String,
    location: LogLocation,
    args: String,
}

pub struct RecordView {
    pub level: LogLevel,
    pub target: Seq<char>,
    pub location: LocationView,
    pub args: Seq<char>,
}

impl View for LogRecord {
    type V = RecordView;

    closed spec fn view(&self) -> RecordView {
        RecordView { level: self.level, target: self.target@, location: self.location@, args: self.args@ }
    }
}

impl LogRecord {
    pub fn new(level: LogLevel, target: String, location: LogLocation, args: String) -> (record: LogRecord)
        ensures
            record@ == (RecordView { level, target: target@, location: location@, args: args@ }),
    {
        LogRecord { level, target, location, args }
    }

    pub fn level(&self) -> (level: LogLevel)
        ensures
            level == self@.level,
    {
        self.level
    }

    pub fn target(&self) -> (target: &str)
        ensures
            target@ == self@.target,
    {
        self.target.as_str()
    }

    pub fn location(&self) -> (location: &LogLocation)
        ensures
            location@ == self@.location,
    {
        &self.location
    }

    pub fn args(&self) -> (args: &str)
        ensures
            args@ == self@.args,
    {
        self.args.as_str()
    }
}

impl Clone for LogRecord {
    fn clone(&self) -> (copy: Self)
        ensures
            copy@ == self@,
    {
        LogRecord {
            level: self.level,
            target: self.target.clone(),
            location: self.location.clone(),
            args: self.args.clone(),
        }
    }
}

/// One log event: a record together with the instant of its creation. It is
/// never changed after it was made.
#[derive(Debug)]
pub struct LogEntry {
    location: LogLocation,
    target: String,
    msg: String,
    level: LogLevel,
    time: Timestamp,
}

pub struct EntryView {
    pub level: LogLevel,
    pub target: Seq<char>,
    pub location: LocationView,
    pub msg: Seq<char>,
    pub time: Instant,
}

impl View for LogEntry {
    type V = EntryView;

    closed spec fn view(&self) -> EntryView {
        EntryView {
            level: self.level,
            target: self.target@,
            location: self.location@,
            msg: self.msg@,
            time: self.time@,
        }
    }
}

impl Clone for LogEntry {
    fn clone(&self) -> (copy: Self)
        ensures
            copy@ == self@,
    {
        LogEntry {
            location: self.location.clone(),
            target: self.target.clone(),
            msg: self.msg.clone(),
            level: self.level,
            time: self.time,
        }
    }
}

/// The event that a record becomes at the instant `time`.
pub open spec fn entry_of(record: RecordView, time: Instant) -> EntryView {
    EntryView {
        level: record.level,
        target: record.target,
        location: record.location,
        msg: record.args,
        time,
    }
}

impl LogEntry {
    pub fn new(level: LogLevel, target: String, location: LogLocation, msg: String, time: Timestamp) -> (entry:
        LogEntry)
        ensures
            entry@ == (EntryView { level, target: target@, location: location@, msg: msg@, time: time@ }),
    {
        LogEntry { location, target, msg, level, time }
    }

    /// The event of `record`, created at `time`.
    pub fn from_record(record: &LogRecord, time: Timestamp) -> (entry: LogEntry)
        ensures
            entry@ == entry_of(record@, time@),
    {
        LogEntry {
            location: record.location.clone(),
            target: record.target.clone(),
            msg: record.args.clone(),
            level: record.level,
            time,
        }
    }

    pub fn location(&self) -> (location: &LogLocation)
        ensures
            location@ == self@.location,
    {
        &self.location
    }

    pub fn target(&self) -> (target: &str)
        ensures
            target@ == self@.target,
    {
        self.target.as_str()
    }

    pub fn args(&self) -> (args: &str)
        ensures
            args@ == self@.msg,
    {
        self.msg.as_str()
    }

    pub fn level(&self) -> (level: LogLevel)
        ensures
            level == self@.level,
    {
        self.level
    }

    pub fn time(&self) -> (time: &Timestamp)
        ensures
            time@ == self@.time,
    {
        &self.time
    }
}

} // verus!

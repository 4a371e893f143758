//! The console as a sink: which stream, and what is written to it.

use crate::format::rendered;
use crate::format::Formatter;
use crate::format::StringFormatter;
use crate::record::LogEntry;
use vstd::prelude::*;

verus! {

/// One of the two console streams.
#[derive(Clone, Copy, Debug, PartialEq, Eq, Structural)]
pub enum Direction {
    STDOUT,
    STDERR,
}

/// A console sink: a stream and the layout of its lines.
pub struct Std {
    direction: Direction,
    formatter: StringFormatter,
}

impl Std {
    pub closed spec fn stream(&self) -> Direction {
        self.direction
    }

    pub closed spec fn layout(&self) -> StringFormatter {
        self.formatter
    }

    pub fn new(dir: Direction, formatter: StringFormatter) -> (console: Self)
        ensures
            console.stream() == dir,
            console.layout() == formatter,
    {
        Std { direction: dir, formatter }
    }

    /// The stream that the sink writes to.
    pub fn direction(&self) -> (dir: Direction)
        ensures
            dir == self.stream(),
    {
        self.direction
    }

    /// The line that the sink writes for `out`, without its line end.
    pub fn line(&self, out: &LogEntry) -> (text: String)
        ensures
            text@ == rendered(self.layout()@, out@),
    {
        self.formatter.parse(out)
    }
}

} // verus!

//! Routing and dispatch core of a structured logger: a log event is matched
//! to the most specific registered policy, filtered by the policy's
//! directives, and handed to the policy's channels, which render it through
//! compiled layouts for their output sinks.

pub mod channel;
pub mod clock;
pub mod format;
pub mod level;
pub mod level_color;
pub mod output;
pub mod policy;
pub mod record;
pub mod router;
mod share;
pub mod text;

pub use crate::clock::Timestamp;
pub use crate::format::Formatter;
pub use crate::format::Parted;
pub use crate::level::LogLevel;
pub use crate::level::LogLevelFilter;
pub use crate::policy::Channeled;
pub use crate::policy::LogDirective;
pub use crate::policy::LogExecute;
pub use crate::policy::LogExecuteBuilder;
pub use crate::record::LogEntry;
pub use crate::record::LogLocation;
pub use crate::record::LogRecord;
pub use crate::router::Logger;
pub use crate::router::LoggerBuilder;

//! Log levels, ordered by severity.

use std::cmp::Ordering;

use vstd::prelude::*;
use vstd::std_specs::cmp::PartialOrdSpecImpl;

use crate::text::{all_ascii, ascii_lower, same_text, to_lowercase, unicode_lowercase};

verus! {

/// Log level for filtering output.
#[derive(Debug, Clone, Copy, PartialEq, Eq, Ord, Structural)]
pub enum LogLevel {
    Trace,
    Debug,
    Info,
    Warn,
    Error,
}

/// The level that a lower-cased level name denotes.
pub open spec fn level_named(lower: Seq<char>) -> Option<LogLevel> {
    if lower == "trace"@ {
        Some(LogLevel::Trace)
    } else if lower == "debug"@ {
        Some(LogLevel::Debug)
    } else if lower == "info"@ {
        Some(LogLevel::Info)
    } else if lower == "warn"@ || lower == "warning"@ {
        Some(LogLevel::Warn)
    } else if lower == "error"@ {
        Some(LogLevel::Error)
    } else {
        None
    }
}

impl LogLevel {
    /// The level's name.
    pub open spec fn name(self) -> Seq<char> {
        match self {
            LogLevel::Trace => "trace"@,
            LogLevel::Debug => "debug"@,
            LogLevel::Info => "info"@,
            LogLevel::Warn => "warn"@,
            LogLevel::Error => "error"@,
        }
    }

    /// Returns the string representation.
    pub fn as_str(&self) -> (s: &'static str)
        ensures
            s@ == self.name(),
    {
        match self {
            LogLevel::Trace => "trace",
            LogLevel::Debug => "debug",
            LogLevel::Info => "info",
            LogLevel::Warn => "warn",
            LogLevel::Error => "error",
        }
    }

    /// Parse a level name, ignoring case (`warning` is accepted for
    /// `warn`). Any other text is refused with a message that names its
    /// lower-cased form.
    pub fn parse(s: &str) -> (r: Result<LogLevel, String>)
        ensures
            r is Ok <==> level_named(unicode_lowercase(s@)) is Some,
            r matches Ok(l) ==> level_named(unicode_lowercase(s@)) == Some(l),
            r matches Err(m) ==> m@ == "unknown log level: "@ + unicode_lowercase(s@),
            all_ascii(s@) ==> ((r matches Ok(l) && level_named(ascii_lower(s@)) == Some(l)) || (
            r is Err && level_named(ascii_lower(s@)) is None)),
            all_ascii(s@) ==> (r matches Err(m) ==> m@ == "unknown log level: "@ + ascii_lower(s@)),
    {
        let lower = to_lowercase(s);
        let t = lower.as_str();
        if same_text(t, "trace") {
            Ok(LogLevel::Trace)
        } else if same_text(t, "debug") {
            Ok(LogLevel::Debug)
        } else if same_text(t, "info") {
            Ok(LogLevel::Info)
        } else if same_text(t, "warn") || same_text(t, "warning") {
            Ok(LogLevel::Warn)
        } else if same_text(t, "error") {
            Ok(LogLevel::Error)
        } else {
            let mut m = "unknown log level: ".to_owned();
            m.append(t);
            Err(m)
        }
    }
}

impl Default for LogLevel {
    fn default() -> (l: Self)
        ensures
            l == LogLevel::Info,
    {
        LogLevel::Info
    }
}

impl std::str::FromStr for LogLevel {
    type Err = String;

    fn from_str(s: &str) -> (r: Result<Self, Self::Err>)
        ensures
            r is Ok <==> level_named(unicode_lowercase(s@)) is Some,
            r matches Ok(l) ==> level_named(unicode_lowercase(s@)) == Some(l),
            r matches Err(m) ==> m@ == "unknown log level: "@ + unicode_lowercase(s@),
            all_ascii(s@) ==> ((r matches Ok(l) && level_named(ascii_lower(s@)) == Some(l)) || (
            r is Err && level_named(ascii_lower(s@)) is None)),
            all_ascii(s@) ==> (r matches Err(m) ==> m@ == "unknown log level: "@ + ascii_lower(s@)),
    {
        LogLevel::parse(s)
    }
}

impl LogLevel {
    /// Severity of the level, from `Trace` (0) to `Error` (4).
    pub open spec fn severity(self) -> int {
        match self {
            LogLevel::Trace => 0,
            LogLevel::Debug => 1,
            LogLevel::Info => 2,
            LogLevel::Warn => 3,
            LogLevel::Error => 4,
        }
    }

    fn severity_rank(&self) -> (r: u8)
        ensures
            r == self.severity(),
    {
        match self {
            LogLevel::Trace => 0,
            LogLevel::Debug => 1,
            LogLevel::Info => 2,
            LogLevel::Warn => 3,
            LogLevel::Error => 4,
        }
    }
}

/// The order of two severities.
pub open spec fn severity_order(a: int, b: int) -> Ordering {
    if a < b {
        Ordering::Less
    } else if a == b {
        Ordering::Equal
    } else {
        Ordering::Greater
    }
}

impl PartialOrd for LogLevel {
    fn partial_cmp(&self, other: &Self) -> (r: Option<Ordering>) {
        let a = self.severity_rank();
        let b = other.severity_rank();
        if a < b {
            Some(Ordering::Less)
        } else if a == b {
            Some(Ordering::Equal)
        } else {
            Some(Ordering::Greater)
        }
    }
}

impl PartialOrdSpecImpl for LogLevel {
    open spec fn obeys_partial_cmp_spec() -> bool {
        true
    }

    open spec fn partial_cmp_spec(&self, other: &Self) -> Option<Ordering> {
        Some(severity_order(self.severity(), other.severity()))
    }
}

} // verus!

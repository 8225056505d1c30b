//! Log levels and their names.

use vstd::prelude::*;
use vstd::utf8::*;

use crate::text;

verus! {

/// How severe a log message is.
#[derive(Debug, Clone, Copy, PartialEq, Eq, Structural)]
pub enum LogLevel {
    Debug,
    Info,
    Warn,
    Error,
    Fatal,
    Panic,
}

/// The level that an upper-case name stands for.
pub open spec fn level_named(name: Seq<char>) -> Option<LogLevel> {
    if name == "DEBUG"@ {
        Some(LogLevel::Debug)
    } else if name == "INFO"@ {
        Some(LogLevel::Info)
    } else if name == "WARN"@ || name == "WARNING"@ {
        Some(LogLevel::Warn)
    } else if name == "ERROR"@ {
        Some(LogLevel::Error)
    } else if name == "FATAL"@ {
        Some(LogLevel::Fatal)
    } else if name == "PANIC"@ {
        Some(LogLevel::Panic)
    } else {
        None
    }
}

/// The level that a name in any case stands for.
pub open spec fn level_read(name: Seq<char>) -> Option<LogLevel> {
    level_named(text::uppercase(name))
}

impl LogLevel {
    /// The name of the level.
    pub open spec fn name(self) -> Seq<char> {
        match self {
            LogLevel::Debug => "DEBUG"@,
            LogLevel::Info => "INFO"@,
            LogLevel::Warn => "WARN"@,
            LogLevel::Error => "ERROR"@,
            LogLevel::Fatal => "FATAL"@,
            LogLevel::Panic => "PANIC"@,
        }
    }

    /// The name of a level is read back as that level.
    pub proof fn name_reads_back(self)
        ensures
            level_read(self.name()) == Some(self),
    {
        reveal_strlit("DEBUG");
        reveal_strlit("INFO");
        reveal_strlit("WARN");
        reveal_strlit("WARNING");
        reveal_strlit("ERROR");
        reveal_strlit("FATAL");
        reveal_strlit("PANIC");
        let name = self.name();
        assert(is_ascii_chars(name));
        assert(text::uppercase(name) =~= name);
        assert("INFO"@[0] == 'I');
        assert("DEBUG"@[0] == 'D');
        assert("WARN"@[0] == 'W');
        assert("ERROR"@[0] == 'E');
        assert("FATAL"@[0] == 'F');
        assert("PANIC"@[0] == 'P');
    }

    /// ASCII letters in a name may be of either case.
    pub proof fn ascii_case_does_not_matter(a: Seq<char>, b: Seq<char>)
        requires
            is_ascii_chars(a),
            is_ascii_chars(b),
            a.len() == b.len(),
            forall|i: int|
                0 <= i < a.len() ==> text::ascii_upper(#[trigger] a[i]) == text::ascii_upper(b[i]),
        ensures
            level_read(a) == level_read(b),
    {
        assert(text::uppercase(a) =~= text::uppercase(b));
    }

    /// The name of the level.
    pub fn as_str(&self) -> (name: &'static str)
        ensures
            name@ == self.name(),
    {
        match self {
            LogLevel::Debug => "DEBUG",
            LogLevel::Info => "INFO",
            LogLevel::Warn => "WARN",
            LogLevel::Error => "ERROR",
            LogLevel::Fatal => "FATAL",
            LogLevel::Panic => "PANIC",
        }
    }

    /// The level with the given upper-case name.
    pub fn from_upper(name: &str) -> (level: Option<LogLevel>)
        ensures
            level == level_named(name@),
    {
        if text::same(name, "DEBUG") {
            Some(LogLevel::Debug)
        } else if text::same(name, "INFO") {
            Some(LogLevel::Info)
        } else if text::same(name, "WARN") || text::same(name, "WARNING") {
            Some(LogLevel::Warn)
        } else if text::same(name, "ERROR") {
            Some(LogLevel::Error)
        } else if text::same(name, "FATAL") {
            Some(LogLevel::Fatal)
        } else if text::same(name, "PANIC") {
            Some(LogLevel::Panic)
        } else {
            None
        }
    }

    /// The level with the given name, in any case.
    pub fn from_str(s: &str) -> (level: Option<LogLevel>)
        ensures
            level == level_read(s@),
    {
        let upper: String = text::to_uppercase(s);
        LogLevel::from_upper(upper.as_str())
    }
}

} // verus!

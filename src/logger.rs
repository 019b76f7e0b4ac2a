//! Logging to the mod loader's log: levels and the lines a logger writes.
use vstd::prelude::*;
use vstd::string::StringExecFns;

verus! {

/// The loader's log levels.
#[derive(Debug, Clone, Copy, PartialEq, Eq, Hash, Structural)]
pub enum LogLevel {
    Debug,
    Info,
    Warn,
    Error,
}

/// The loader's number for a level.
pub open spec fn level_number(l: LogLevel) -> i32 {
    match l {
        LogLevel::Debug => 0,
        LogLevel::Info => 1,
        LogLevel::Warn => 2,
        LogLevel::Error => 3,
    }
}

impl LogLevel {
    pub fn as_i32(&self) -> (r: i32)
        ensures
            r == level_number(*self),
    {
        match self {
            LogLevel::Debug => 0,
            LogLevel::Info => 1,
            LogLevel::Warn => 2,
            LogLevel::Error => 3,
        }
    }
}

/// A logger that marks each line with a prefix.
pub struct MHWLogger {
    prefix: String,
}

/// The line logged for `message` under `prefix`: `[prefix] message`.
pub open spec fn log_line(prefix: Seq<char>, message: Seq<char>) -> Seq<char> {
    seq!['['] + prefix + seq![']', ' '] + message
}

impl MHWLogger {
    pub closed spec fn prefix(&self) -> Seq<char> {
        self.prefix@
    }

    pub fn new(prefix: &str) -> (r: Self)
        ensures
            r.prefix() == prefix@,
    {
        MHWLogger { prefix: String::from_str(prefix) }
    }

    /// The line written for `message`.
    pub fn line(&self, message: &str) -> (r: String)
        ensures
            r@ == log_line(self.prefix(), message@),
    {
        proof {
            reveal_strlit("[");
            reveal_strlit("] ");
        }
        let mut out = String::from_str("[");
        out.append(self.prefix.as_str());
        out.append("] ");
        out.append(message);
        assert(out@ =~= log_line(self.prefix(), message@));
        out
    }
}

} // verus!

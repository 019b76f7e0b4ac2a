//! The Lua engine's log levels.
use vstd::prelude::*;

verus! {

/// The Lua engine's log levels, numbered 0 to 3.
#[derive(Debug, Clone, Copy, PartialEq, Eq, Hash, Structural)]
pub enum LogLevel {
    Debug,
    Info,
    Warn,
    Error,
}

impl LogLevel {
    /// The engine's number for the level.
    pub fn as_usize(&self) -> (r: usize)
        ensures
            r == match *self {
                LogLevel::Debug => 0usize,
                LogLevel::Info => 1usize,
                LogLevel::Warn => 2usize,
                LogLevel::Error => 3usize,
            },
    {
        match self {
            LogLevel::Debug => 0,
            LogLevel::Info => 1,
            LogLevel::Warn => 2,
            LogLevel::Error => 3,
        }
    }
}

} // verus!

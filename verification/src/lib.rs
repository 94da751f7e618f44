//! A verified media indexing library.
//!
//! The crate models the two-phase indexing protocol of a multimedia
//! demuxing engine: an [`index::Indexer`] is configured (per-track and
//! per-type enablement, an optional progress callback), then consumed by
//! `do_indexing`, which scans an explicit in-memory description of a media
//! source ([`source::MediaSource`]) and produces an immutable
//! [`index::Index`].  The index can be serialized to a binary artifact and
//! read back, with a proved round-trip guarantee.
//!
//! All file and network handling stays with the caller: the library works
//! on plain values (byte buffers and source descriptions) and states what
//! it does with them in `requires`/`ensures` contracts.

pub mod audio;
pub mod codec;
pub mod error;
pub mod frame;
pub mod index;
pub mod pixel;
pub mod resample;
pub mod source;
pub mod text;
pub mod track;
pub mod video;

use vstd::prelude::*;

verus! {

/// Logging/Message level.
#[derive(Clone, Copy, Debug, PartialEq, Eq, Structural)]
pub enum LogLevel {
    /// Show nothing.
    Quiet,
    /// Show fatal errors which could lead the process to crash, such as an
    /// assertion failure.
    Panic,
    /// Show fatal errors after which the process cannot absolutely continue.
    Fatal,
    /// Show all errors, including ones which can be recovered from.
    Error,
    /// Show all warnings and errors.
    ///
    /// Any message related to possibly incorrect or unexpected events
    /// will be shown.
    Warning,
    /// Show informative messages during processing.
    ///
    /// This is in addition to warnings and errors.
    Info,
    /// Same as `Info`, except more verbose.
    Verbose,
    /// Show everything, including debugging information.
    Debug,
    /// Show everything in addition to function tracing information.
    Trace,
}

/// The engine code for each logging level.
pub open spec fn spec_log_level_code(level: LogLevel) -> int {
    match level {
        LogLevel::Quiet => -8,
        LogLevel::Panic => 0,
        LogLevel::Fatal => 8,
        LogLevel::Error => 16,
        LogLevel::Warning => 24,
        LogLevel::Info => 32,
        LogLevel::Verbose => 40,
        LogLevel::Debug => 48,
        LogLevel::Trace => 56,
    }
}

/// The logging level a given engine code stands for; unrecognized codes
/// fall back to `Error`.
pub open spec fn spec_log_level_of_code(code: int) -> LogLevel {
    if code == -8 {
        LogLevel::Quiet
    } else if code == 0 {
        LogLevel::Panic
    } else if code == 8 {
        LogLevel::Fatal
    } else if code == 16 {
        LogLevel::Error
    } else if code == 24 {
        LogLevel::Warning
    } else if code == 32 {
        LogLevel::Info
    } else if code == 40 {
        LogLevel::Verbose
    } else if code == 48 {
        LogLevel::Debug
    } else if code == 56 {
        LogLevel::Trace
    } else {
        LogLevel::Error
    }
}

impl LogLevel {
    /// Returns the engine integer code of this logging level.
    pub fn ffms2_log_level(self) -> (r: i32)
        ensures
            r == spec_log_level_code(self),
    {
        match self {
            Self::Quiet => -8,
            Self::Panic => 0,
            Self::Fatal => 8,
            Self::Error => 16,
            Self::Warning => 24,
            Self::Info => 32,
            Self::Verbose => 40,
            Self::Debug => 48,
            Self::Trace => 56,
        }
    }

    /// Builds a `LogLevel` from its engine integer code; unrecognized codes
    /// map to `Error`.
    pub fn new(log_level: i32) -> (r: Self)
        ensures
            r == spec_log_level_of_code(log_level as int),
    {
        match log_level {
            -8 => Self::Quiet,
            0 => Self::Panic,
            8 => Self::Fatal,
            16 => Self::Error,
            24 => Self::Warning,
            32 => Self::Info,
            40 => Self::Verbose,
            48 => Self::Debug,
            56 => Self::Trace,
            _ => Self::Error,
        }
    }
}

/// Log level settings.
///
/// The level is carried as an explicit value: callers that want a single
/// process-wide setting keep one `Log` value and thread it where needed.
pub struct Log {
    /// The current logging/message level.
    pub level: LogLevel,
}

impl Log {
    /// Creates the log settings at the `Info` level.
    pub fn new() -> (r: Self)
        ensures
            r.level == LogLevel::Info,
    {
        Log { level: LogLevel::Info }
    }

    /// Returns the current logging/message level.
    pub fn log_level(&self) -> (r: LogLevel)
        ensures
            r == self.level,
    {
        self.level
    }

    /// Sets the logging/message level.
    pub fn set_log_level(&mut self, level: LogLevel)
        ensures
            final(self).level == level,
    {
        self.level = level;
    }
}

/// The library version, packed as major, minor, micro and bump, one byte
/// each, most significant first.
pub const FFMS2_VERSION: usize = (2 << 24) | (40 << 16);

/// The library initializer.
pub struct FFMS2;

impl FFMS2 {
    /// Initializes the library.
    ///
    /// The indexing core needs no process-wide setup; this function exists
    /// so that callers can keep a single initialization point and call it
    /// once at the start of a program.
    pub fn init() {
    }

    /// Returns the library version.
    pub fn version() -> (r: usize)
        ensures
            r == FFMS2_VERSION,
    {
        FFMS2_VERSION
    }
}

} // verus!

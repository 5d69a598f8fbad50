//! The records the client writes to its log: their level and text. Where
//! the log goes is the application's business.

use vstd::prelude::*;
use crate::text::{push_str, str_eq};

verus! {

/// The severity of a log record, most severe first.
#[derive(Debug, Clone, Copy, PartialEq, Eq, Structural)]
pub enum LogLevel {
    Error,
    Warn,
    Info,
    Debug,
    Trace,
}

/// A record to write to the log.
#[derive(Debug, Clone)]
pub struct LogRecord {
    pub level: LogLevel,
    pub message: String,
}

/// The level named in the configuration; a debug build logs at debug
/// level whatever the configuration says, and an unknown name means info.
pub open spec fn level_spec(name: Seq<char>, debug_build: bool) -> LogLevel {
    if debug_build {
        LogLevel::Debug
    } else if name == "error"@ {
        LogLevel::Error
    } else if name == "warn"@ {
        LogLevel::Warn
    } else if name == "info"@ {
        LogLevel::Info
    } else if name == "debug"@ {
        LogLevel::Debug
    } else if name == "trace"@ {
        LogLevel::Trace
    } else {
        LogLevel::Info
    }
}

/// The level to log at, from the configured name.
pub fn log_level_for(name: &str, debug_build: bool) -> (r: LogLevel)
    ensures
        r == level_spec(name@, debug_build),
{
    if debug_build {
        LogLevel::Debug
    } else if str_eq(name, "error") {
        LogLevel::Error
    } else if str_eq(name, "warn") {
        LogLevel::Warn
    } else if str_eq(name, "info") {
        LogLevel::Info
    } else if str_eq(name, "debug") {
        LogLevel::Debug
    } else if str_eq(name, "trace") {
        LogLevel::Trace
    } else {
        LogLevel::Info
    }
}

/// The text of an optional error, or "Unknown error".
pub open spec fn error_text(error: Option<Seq<char>>) -> Seq<char> {
    match error {
        Some(e) => e,
        None => "Unknown error"@,
    }
}

/// The view of an optional string slice.
pub open spec fn opt_view(s: Option<&str>) -> Option<Seq<char>> {
    match s {
        Some(t) => Some(t@),
        None => None,
    }
}

fn push_error(msg: &mut String, error: Option<&str>)
    ensures
        final(msg)@ == old(msg)@ + error_text(opt_view(error)),
{
    match error {
        Some(e) => push_str(msg, e),
        None => push_str(msg, "Unknown error"),
    }
}

/// The record written when the program shuts down.
pub fn log_shutdown_info() -> (r: LogRecord)
    ensures
        r.level == LogLevel::Info,
        r.message@ == "=== Zarumet Shutting Down ==="@,
{
    let mut message = String::new();
    push_str(&mut message, "=== Zarumet Shutting Down ===");
    LogRecord { level: LogLevel::Info, message }
}

/// The record of an attempt to connect to the server.
pub fn log_mpd_connection(address: &str, success: bool, error: Option<&str>) -> (r: LogRecord)
    ensures
        success ==> r.level == LogLevel::Info && r.message@ == "Successfully connected to MPD at: "@
            + address@,
        !success ==> r.level == LogLevel::Error && r.message@ == "Failed to connect to MPD at: "@
            + address@ + " - "@ + error_text(opt_view(error)),
{
    let mut message = String::new();
    if success {
        push_str(&mut message, "Successfully connected to MPD at: ");
        push_str(&mut message, address);
        LogRecord { level: LogLevel::Info, message }
    } else {
        push_str(&mut message, "Failed to connect to MPD at: ");
        push_str(&mut message, address);
        push_str(&mut message, " - ");
        push_error(&mut message, error);
        LogRecord { level: LogLevel::Error, message }
    }
}

/// The record of a command sent to the server.
pub fn log_mpd_command(command: &str, success: bool, error: Option<&str>) -> (r: LogRecord)
    ensures
        success ==> r.level == LogLevel::Debug && r.message@
            == "MPD command executed successfully: "@ + command@,
        !success ==> r.level == LogLevel::Warn && r.message@ == "MPD command failed: "@ + command@
            + " - "@ + error_text(opt_view(error)),
{
    let mut message = String::new();
    if success {
        push_str(&mut message, "MPD command executed successfully: ");
        push_str(&mut message, command);
        LogRecord { level: LogLevel::Debug, message }
    } else {
        push_str(&mut message, "MPD command failed: ");
        push_str(&mut message, command);
        push_str(&mut message, " - ");
        push_error(&mut message, error);
        LogRecord { level: LogLevel::Warn, message }
    }
}

/// The record of an action of the user, with where it happened.
pub fn log_user_interaction(action: &str, context: Option<&str>) -> (r: LogRecord)
    ensures
        r.level == LogLevel::Debug,
        r.message@ == match context {
            Some(c) => "User action: "@ + action@ + " - "@ + c@,
            None => "User action: "@ + action@,
        },
{
    let mut message = String::new();
    push_str(&mut message, "User action: ");
    push_str(&mut message, action);
    match context {
        Some(c) => {
            push_str(&mut message, " - ");
            push_str(&mut message, c);
        },
        None => {},
    }
    LogRecord { level: LogLevel::Debug, message }
}

/// The record of the configuration file read, or written anew.
pub fn log_config_loading(config_path: &str, created: bool) -> (r: LogRecord)
    ensures
        r.level == LogLevel::Info,
        created ==> r.message@ == "Created default config file at: "@ + config_path@,
        !created ==> r.message@ == "Loaded config file from: "@ + config_path@,
{
    let mut message = String::new();
    if created {
        push_str(&mut message, "Created default config file at: ");
    } else {
        push_str(&mut message, "Loaded config file from: ");
    }
    push_str(&mut message, config_path);
    LogRecord { level: LogLevel::Info, message }
}

/// The record of an operation on the audio server.
pub fn log_pipewire_operation(operation: &str, success: bool, details: Option<&str>) -> (r:
    LogRecord)
    ensures
        success ==> r.level == LogLevel::Debug && r.message@
            == "PipeWire operation successful: "@ + operation@,
        !success ==> r.level == LogLevel::Warn && r.message@ == "PipeWire operation failed: "@
            + operation@ + " - "@ + error_text(opt_view(details)),
{
    let mut message = String::new();
    if success {
        push_str(&mut message, "PipeWire operation successful: ");
        push_str(&mut message, operation);
        LogRecord { level: LogLevel::Debug, message }
    } else {
        push_str(&mut message, "PipeWire operation failed: ");
        push_str(&mut message, operation);
        push_str(&mut message, " - ");
        push_error(&mut message, details);
        LogRecord { level: LogLevel::Warn, message }
    }
}

} // verus!

//! Timed network-trace capture: argument parsing, command construction,
//! outcome classification and the start, wait, stop session, all verified.
//! Running the commands, sleeping and emitting log lines is left to the caller.
pub mod args;
pub mod decimal;
pub mod laws;
pub mod report;
pub mod session;

pub use args::{key_text, parse_args, split_prefix, usage_message, ArgKey, CaptureRequest, UsageError};
pub use decimal::{format_u64, parse_u64, push_decimal};
pub use report::{classify, joined, CommandResult, LogConfig, LogLevel, LogRecord};
pub use session::{
    start_command_text, start_label_text, Action, Event, Phase, Session, Step, Termination,
};

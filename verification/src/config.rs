//! The options of the library. For now these are the options for logging.

pub use crate::log::{LogLevel, LogOutput, Logging};

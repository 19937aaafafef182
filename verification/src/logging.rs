use vstd::prelude::*;

verus! {

/// How log lines are formatted.
#[derive(Debug, Clone, Copy, PartialEq, Eq, Structural)]
pub enum LoggingStyle {
    /// Uses compact logging.
    Compact,
    /// Uses JSON formatted logging
    Json,
}

} // verus!

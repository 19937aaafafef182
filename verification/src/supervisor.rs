use vstd::prelude::*;

verus! {

/// How one of the server tasks ended.
#[derive(Debug, Clone, Copy, PartialEq, Eq, Structural)]
pub enum ServerExit {
    /// The server stopped after a graceful shutdown.
    Graceful,
    /// The server terminated with an error.
    Failed,
    /// The server task could not be joined (it panicked or was cancelled).
    JoinFailed,
}

/// The level at which a server's end is logged.
#[derive(Debug, Clone, Copy, PartialEq, Eq, Structural)]
pub enum Severity {
    Info,
    Error,
}

/// What the supervisor does when a server task ends.
#[derive(Debug, Clone, Copy, PartialEq, Eq, Structural)]
pub struct ExitAction {
    /// The level of the log line that reports the end.
    pub severity: Severity,
    /// Whether every other server is told to shut down.
    pub broadcast_shutdown: bool,
}

/// Decides what follows the end of a server task: only a graceful stop is
/// reported as information, and in every case all the other servers are told
/// to shut down, so that one failing server brings the whole application down.
pub fn on_server_exit(exit: ServerExit) -> (r: ExitAction)
    ensures
        r.broadcast_shutdown,
        r.severity == Severity::Info <==> exit == ServerExit::Graceful,
{
    let severity = match exit {
        ServerExit::Graceful => Severity::Info,
        ServerExit::Failed => Severity::Error,
        ServerExit::JoinFailed => Severity::Error,
    };
    ExitAction { severity, broadcast_shutdown: true }
}

} // verus!

use vstd::prelude::*;

verus! {

/// The kinds of event that a backend process's output stream carries.
#[derive(Clone, Copy, Debug, PartialEq, Eq, Structural)]
pub enum OutputKind {
    Stdout,
    Stderr,
    SpawnError,
    Terminated,
    /// Any other event of the stream.
    Other,
}

#[derive(Clone, Copy, Debug, PartialEq, Eq, Structural)]
pub enum LogLevel {
    Info,
    Warn,
    Error,
}

/// What the relay does with one event: the level it is logged at (if logged) and whether
/// the relay ends with it.
#[derive(Clone, Copy, Debug, PartialEq, Eq, Structural)]
pub struct RelayAction {
    pub level: Option<LogLevel>,
    pub last: bool,
}

pub open spec fn relay_action_of(kind: OutputKind) -> RelayAction {
    match kind {
        OutputKind::Stdout => RelayAction { level: Some(LogLevel::Info), last: false },
        OutputKind::Stderr => RelayAction { level: Some(LogLevel::Error), last: false },
        OutputKind::SpawnError => RelayAction { level: Some(LogLevel::Error), last: false },
        OutputKind::Terminated => RelayAction { level: Some(LogLevel::Warn), last: true },
        OutputKind::Other => RelayAction { level: None, last: false },
    }
}

/// Standard output is logged as information, standard error and spawn errors as errors,
/// termination as a warning that ends the relay; other events are skipped.
pub fn relay_action(kind: OutputKind) -> (r: RelayAction)
    ensures
        r == relay_action_of(kind),
{
    match kind {
        OutputKind::Stdout => RelayAction { level: Some(LogLevel::Info), last: false },
        OutputKind::Stderr => RelayAction { level: Some(LogLevel::Error), last: false },
        OutputKind::SpawnError => RelayAction { level: Some(LogLevel::Error), last: false },
        OutputKind::Terminated => RelayAction { level: Some(LogLevel::Warn), last: true },
        OutputKind::Other => RelayAction { level: None, last: false },
    }
}

} // verus!

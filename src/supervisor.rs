use vstd::prelude::*;
use crate::status::{BackendStatus, StatusError};

verus! {

/// Failed health checks after which startup is given up (one check every two seconds).
pub const STARTUP_POLLS: u32 = 60;

/// Delay between two health checks during startup.
pub const STARTUP_INTERVAL_MS: u64 = 2000;

/// Quiet period after the backend first became ready, before periodic monitoring.
pub const WARMUP_MS: u64 = 10000;

/// Delay between two periodic health checks.
pub const MONITOR_INTERVAL_MS: u64 = 5000;

/// Delay between a relaunch and the health check that confirms it.
pub const CONFIRM_DELAY_MS: u64 = 5000;

/// Automatic relaunches allowed over the supervisor's whole life.
pub const RESTART_LIMIT: u32 = 3;

/// Where the supervisor stands in the life of the backend.
#[derive(Clone, Copy, Debug, PartialEq, Eq, Structural)]
pub enum Phase {
    /// Created; nothing launched yet.
    Idle,
    /// The first launch has been asked for.
    Launching,
    /// Launched; polling the health endpoint until it answers.
    Starting,
    /// Answered at least once; polled periodically.
    Ready,
    /// A periodic check failed; a relaunch has been asked for.
    Restarting,
    /// Relaunched; the next health check confirms the restart.
    Confirming,
    /// Terminal: nothing more is probed or launched.
    Failed,
}

/// What the driver of the supervisor observed, in answer to the last command.
#[derive(Clone, Debug, PartialEq, Eq)]
pub enum Event {
    /// The host application has started.
    Start,
    /// The launcher spawned the backend with this process id.
    Launched { pid: u32 },
    /// The launcher could not spawn the backend.
    LaunchFailed { reason: String },
    /// The health endpoint answered with a success status.
    HealthOk,
    /// The health request failed or answered with another status.
    HealthFailed,
}

/// What the driver of the supervisor must do next.
#[derive(Clone, Copy, Debug, PartialEq, Eq, Structural)]
pub enum Command {
    /// Spawn the backend, listening on `port`.
    Launch { port: u16 },
    /// Wait `delay_ms`, then issue one health check.
    Poll { delay_ms: u64 },
    /// Terminate the process `pid`, which no one tracks any more.
    Terminate { pid: u32 },
    /// Monitoring is over.
    Stop,
}

/// The outcome of one transition: a status to publish, whether the window must be shown,
/// and the next command.
#[derive(Clone, Debug, PartialEq, Eq)]
pub struct Step {
    pub publish: Option<BackendStatus>,
    pub show_window: bool,
    pub command: Command,
}

/// One action of the shutdown of a backend process.
#[derive(Clone, Copy, Debug, PartialEq, Eq, Structural)]
pub enum ShutdownStep {
    /// Ask the process to terminate (SIGTERM).
    Graceful { pid: u32 },
    /// Wait this long.
    Wait { ms: u64 },
    /// Kill the process (SIGKILL, or the platform's forced termination).
    Force { pid: u32 },
}

/// Grace window between the graceful and the forced termination.
pub const GRACE_MS: u64 = 500;

/// The mathematical state of a supervisor.
pub struct SupervisorModel {
    pub port: u16,
    pub phase: Phase,
    pub startup_polls: nat,
    pub restarts: nat,
    pub pid: Option<u32>,
    pub shutting_down: bool,
}

/// What holds of every state that a supervisor reaches.
pub open spec fn model_inv(m: SupervisorModel) -> bool {
    &&& m.startup_polls <= STARTUP_POLLS
    &&& m.phase == Phase::Starting ==> m.startup_polls < STARTUP_POLLS
    &&& (m.phase == Phase::Idle || m.phase == Phase::Launching) ==> m.startup_polls == 0
    &&& m.restarts <= RESTART_LIMIT
}

pub open spec fn initial_model(port: u16) -> SupervisorModel {
    SupervisorModel {
        port,
        phase: Phase::Idle,
        startup_polls: 0,
        restarts: 0,
        pid: None,
        shutting_down: false,
    }
}

pub open spec fn quiet(command: Command) -> Step {
    Step { publish: None, show_window: false, command }
}

pub open spec fn announce(status: BackendStatus, show_window: bool, command: Command) -> Step {
    Step { publish: Some(status), show_window, command }
}

pub open spec fn not_ready(port: u16, error: StatusError) -> BackendStatus {
    BackendStatus { ready: false, port, error: Some(error) }
}

pub open spec fn ready(port: u16) -> BackendStatus {
    BackendStatus { ready: true, port, error: None }
}

/// An event that the current phase does not wait for changes nothing; a process that
/// was spawned all the same is terminated, so that none outlives the supervisor.
pub open spec fn ignore(m: SupervisorModel, e: Event) -> (SupervisorModel, Step) {
    (m, quiet(match e {
        Event::Launched { pid } => Command::Terminate { pid },
        _ => Command::Stop,
    }))
}

/// The transition of the supervisor on one event.
pub open spec fn next(m: SupervisorModel, e: Event) -> (SupervisorModel, Step) {
    if m.shutting_down {
        ignore(m, e)
    } else {
        match m.phase {
            Phase::Idle => match e {
                Event::Start => (
                    SupervisorModel { phase: Phase::Launching, ..m },
                    quiet(Command::Launch { port: m.port }),
                ),
                _ => ignore(m, e),
            },
            Phase::Launching => match e {
                Event::Launched { pid } => (
                    SupervisorModel { phase: Phase::Starting, pid: Some(pid), ..m },
                    announce(
                        BackendStatus { ready: false, port: m.port, error: None },
                        false,
                        Command::Poll { delay_ms: 0 },
                    ),
                ),
                Event::LaunchFailed { reason } => (
                    SupervisorModel { phase: Phase::Failed, ..m },
                    announce(
                        not_ready(m.port, StatusError::LaunchFailed(reason)),
                        true,
                        Command::Stop,
                    ),
                ),
                _ => ignore(m, e),
            },
            Phase::Starting => match e {
                Event::HealthOk => (
                    SupervisorModel { phase: Phase::Ready, ..m },
                    announce(
                        ready(m.port),
                        true,
                        Command::Poll { delay_ms: (WARMUP_MS + MONITOR_INTERVAL_MS) as u64 },
                    ),
                ),
                Event::HealthFailed => if m.startup_polls + 1 >= STARTUP_POLLS {
                    (
                        SupervisorModel {
                            phase: Phase::Failed,
                            startup_polls: m.startup_polls + 1,
                            ..m
                        },
                        announce(
                            not_ready(m.port, StatusError::StartupTimeout),
                            true,
                            Command::Stop,
                        ),
                    )
                } else {
                    (
                        SupervisorModel { startup_polls: m.startup_polls + 1, ..m },
                        quiet(Command::Poll { delay_ms: STARTUP_INTERVAL_MS }),
                    )
                },
                _ => ignore(m, e),
            },
            Phase::Ready => match e {
                Event::HealthOk => (m, quiet(Command::Poll { delay_ms: MONITOR_INTERVAL_MS })),
                Event::HealthFailed => if m.restarts < RESTART_LIMIT {
                    (
                        SupervisorModel { phase: Phase::Restarting, restarts: m.restarts + 1, ..m },
                        announce(
                            not_ready(m.port, StatusError::Restarting((m.restarts + 1) as u32)),
                            false,
                            Command::Launch { port: m.port },
                        ),
                    )
                } else {
                    (
                        SupervisorModel { phase: Phase::Failed, ..m },
                        announce(not_ready(m.port, StatusError::RestartLimit), false, Command::Stop),
                    )
                },
                _ => ignore(m, e),
            },
            Phase::Restarting => match e {
                Event::Launched { pid } => (
                    SupervisorModel { phase: Phase::Confirming, pid: Some(pid), ..m },
                    quiet(Command::Poll { delay_ms: CONFIRM_DELAY_MS }),
                ),
                Event::LaunchFailed { reason } => (
                    SupervisorModel { phase: Phase::Ready, ..m },
                    announce(
                        not_ready(m.port, StatusError::RestartFailed(reason)),
                        false,
                        Command::Poll { delay_ms: MONITOR_INTERVAL_MS },
                    ),
                ),
                _ => ignore(m, e),
            },
            Phase::Confirming => match e {
                Event::HealthOk => (
                    SupervisorModel { phase: Phase::Ready, ..m },
                    announce(ready(m.port), false, Command::Poll { delay_ms: MONITOR_INTERVAL_MS }),
                ),
                Event::HealthFailed => (
                    SupervisorModel { phase: Phase::Ready, ..m },
                    quiet(Command::Poll { delay_ms: MONITOR_INTERVAL_MS }),
                ),
                _ => ignore(m, e),
            },
            Phase::Failed => ignore(m, e),
        }
    }
}

/// The actions that terminate `pid`: with signals, a graceful request, the grace window,
/// then a forced kill; without them, the forced kill alone.
pub open spec fn termination_plan(pid: u32, signals: bool) -> Seq<ShutdownStep> {
    if signals {
        seq![
            ShutdownStep::Graceful { pid },
            ShutdownStep::Wait { ms: GRACE_MS },
            ShutdownStep::Force { pid },
        ]
    } else {
        seq![ShutdownStep::Force { pid }]
    }
}

/// Shutdown takes the tracked process away from the supervisor and terminates it.
pub open spec fn shutdown(m: SupervisorModel, signals: bool) -> (SupervisorModel, Seq<ShutdownStep>) {
    (
        SupervisorModel { pid: None, shutting_down: true, ..m },
        match m.pid {
            Some(p) => termination_plan(p, signals),
            None => Seq::empty(),
        },
    )
}

/// The steps that terminate the process `pid`.
pub fn termination_steps(pid: u32, signals: bool) -> (r: Vec<ShutdownStep>)
    ensures
        r@ == termination_plan(pid, signals),
{
    let mut r: Vec<ShutdownStep> = Vec::new();
    if signals {
        r.push(ShutdownStep::Graceful { pid });
        r.push(ShutdownStep::Wait { ms: GRACE_MS });
    }
    r.push(ShutdownStep::Force { pid });
    proof {
        assert(r@ =~= termination_plan(pid, signals));
    }
    r
}

/// The supervisor of the backend process: port, phase, budgets and the tracked process.
pub struct Supervisor {
    port: u16,
    phase: Phase,
    startup_polls: u32,
    restarts: u32,
    pid: Option<u32>,
    shutting_down: bool,
}

impl View for Supervisor {
    type V = SupervisorModel;

    closed spec fn view(&self) -> SupervisorModel {
        SupervisorModel {
            port: self.port,
            phase: self.phase,
            startup_polls: self.startup_polls as nat,
            restarts: self.restarts as nat,
            pid: self.pid,
            shutting_down: self.shutting_down,
        }
    }
}

impl Supervisor {
    /// A supervisor for a backend that will listen on `port`.
    pub fn new(port: u16) -> (r: Supervisor)
        ensures
            r@ == initial_model(port),
            model_inv(r@),
    {
        Supervisor {
            port,
            phase: Phase::Idle,
            startup_polls: 0,
            restarts: 0,
            pid: None,
            shutting_down: false,
        }
    }

    /// The port that the backend was given; it never changes.
    pub fn backend_port(&self) -> (r: u16)
        ensures
            r == self@.port,
    {
        self.port
    }

    pub fn phase(&self) -> (r: Phase)
        ensures
            r == self@.phase,
    {
        self.phase
    }

    /// Restarts attempted so far.
    pub fn restart_count(&self) -> (r: u32)
        ensures
            r == self@.restarts,
    {
        self.restarts
    }

    /// The process that the supervisor tracks, if any.
    pub fn current_pid(&self) -> (r: Option<u32>)
        ensures
            r == self@.pid,
    {
        self.pid
    }

    pub fn is_shutting_down(&self) -> (r: bool)
        ensures
            r == self@.shutting_down,
    {
        self.shutting_down
    }

    fn quiet_step(command: Command) -> (r: Step)
        ensures
            r == quiet(command),
    {
        Step { publish: None, show_window: false, command }
    }

    fn announce_step(status: BackendStatus, show_window: bool, command: Command) -> (r: Step)
        ensures
            r == announce(status, show_window, command),
    {
        Step { publish: Some(status), show_window, command }
    }

    fn ignore_event(&self, e: Event) -> (r: Step)
        ensures
            r == ignore(self@, e).1,
    {
        match e {
            Event::Launched { pid } => Self::quiet_step(Command::Terminate { pid }),
            _ => Self::quiet_step(Command::Stop),
        }
    }

    /// Takes the supervisor through one event and says what to do next.
    pub fn step(&mut self, e: Event) -> (r: Step)
        requires
            model_inv(old(self)@),
        ensures
            (final(self)@, r) == next(old(self)@, e),
            model_inv(final(self)@),
    {
        if self.shutting_down {
            return self.ignore_event(e);
        }
        let port = self.port;
        match self.phase {
            Phase::Idle => match e {
                Event::Start => {
                    self.phase = Phase::Launching;
                    Self::quiet_step(Command::Launch { port })
                },
                _ => self.ignore_event(e),
            },
            Phase::Launching => match e {
                Event::Launched { pid } => {
                    self.phase = Phase::Starting;
                    self.pid = Some(pid);
                    Self::announce_step(
                        BackendStatus::new(false, port, None),
                        false,
                        Command::Poll { delay_ms: 0 },
                    )
                },
                Event::LaunchFailed { reason } => {
                    self.phase = Phase::Failed;
                    Self::announce_step(
                        BackendStatus::new(false, port, Some(StatusError::LaunchFailed(reason))),
                        true,
                        Command::Stop,
                    )
                },
                _ => self.ignore_event(e),
            },
            Phase::Starting => match e {
                Event::HealthOk => {
                    self.phase = Phase::Ready;
                    Self::announce_step(
                        BackendStatus::new(true, port, None),
                        true,
                        Command::Poll { delay_ms: WARMUP_MS + MONITOR_INTERVAL_MS },
                    )
                },
                Event::HealthFailed => {
                    self.startup_polls = self.startup_polls + 1;
                    if self.startup_polls >= STARTUP_POLLS {
                        self.phase = Phase::Failed;
                        Self::announce_step(
                            BackendStatus::new(false, port, Some(StatusError::StartupTimeout)),
                            true,
                            Command::Stop,
                        )
                    } else {
                        Self::quiet_step(Command::Poll { delay_ms: STARTUP_INTERVAL_MS })
                    }
                },
                _ => self.ignore_event(e),
            },
            Phase::Ready => match e {
                Event::HealthOk => Self::quiet_step(Command::Poll { delay_ms: MONITOR_INTERVAL_MS }),
                Event::HealthFailed => {
                    if self.restarts < RESTART_LIMIT {
                        self.restarts = self.restarts + 1;
                        self.phase = Phase::Restarting;
                        Self::announce_step(
                            BackendStatus::new(false, port, Some(StatusError::Restarting(self.restarts))),
                            false,
                            Command::Launch { port },
                        )
                    } else {
                        self.phase = Phase::Failed;
                        Self::announce_step(
                            BackendStatus::new(false, port, Some(StatusError::RestartLimit)),
                            false,
                            Command::Stop,
                        )
                    }
                },
                _ => self.ignore_event(e),
            },
            Phase::Restarting => match e {
                Event::Launched { pid } => {
                    self.phase = Phase::Confirming;
                    self.pid = Some(pid);
                    Self::quiet_step(Command::Poll { delay_ms: CONFIRM_DELAY_MS })
                },
                Event::LaunchFailed { reason } => {
                    self.phase = Phase::Ready;
                    Self::announce_step(
                        BackendStatus::new(false, port, Some(StatusError::RestartFailed(reason))),
                        false,
                        Command::Poll { delay_ms: MONITOR_INTERVAL_MS },
                    )
                },
                _ => self.ignore_event(e),
            },
            Phase::Confirming => match e {
                Event::HealthOk => {
                    self.phase = Phase::Ready;
                    Self::announce_step(
                        BackendStatus::new(true, port, None),
                        false,
                        Command::Poll { delay_ms: MONITOR_INTERVAL_MS },
                    )
                },
                Event::HealthFailed => {
                    self.phase = Phase::Ready;
                    Self::quiet_step(Command::Poll { delay_ms: MONITOR_INTERVAL_MS })
                },
                _ => self.ignore_event(e),
            },
            Phase::Failed => self.ignore_event(e),
        }
    }

    /// Takes the tracked process away and returns the steps that terminate it (none if no
    /// process is tracked). From then on the supervisor launches nothing and monitors nothing.
    pub fn begin_shutdown(&mut self, signals: bool) -> (r: Vec<ShutdownStep>)
        ensures
            (final(self)@, r@) == shutdown(old(self)@, signals),
            model_inv(old(self)@) ==> model_inv(final(self)@),
    {
        let taken = self.pid.take();
        self.shutting_down = true;
        match taken {
            Some(p) => termination_steps(p, signals),
            None => Vec::new(),
        }
    }
}

} // verus!

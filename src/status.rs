use vstd::prelude::*;
use vstd::string::StringExecFns;

verus! {

/// Why the backend is not ready, as announced to the host UI.
#[derive(Clone, Debug, PartialEq, Eq)]
pub enum StatusError {
    /// The backend never answered its health check during startup.
    StartupTimeout,
    /// A periodic health check failed and restart number `attempt` is under way.
    Restarting(u32),
    /// A periodic health check failed with the restart budget spent: monitoring is over.
    RestartLimit,
    /// The first launch of the backend failed, with the launcher's reason.
    LaunchFailed(String),
    /// A relaunch during a restart failed, with the launcher's reason.
    RestartFailed(String),
}

/// The snapshot handed to the host UI at each transition of the supervisor.
#[derive(Clone, Debug, PartialEq, Eq)]
pub struct BackendStatus {
    pub ready: bool,
    pub port: u16,
    pub error: Option<StatusError>,
}

impl BackendStatus {
    pub fn new(ready: bool, port: u16, error: Option<StatusError>) -> (r: BackendStatus)
        ensures
            r == (BackendStatus { ready, port, error }),
    {
        BackendStatus { ready, port, error }
    }
}

/// The character of the decimal digit `d`.
pub open spec fn digit_char(d: nat) -> char {
    if d == 0 { '0' }
    else if d == 1 { '1' }
    else if d == 2 { '2' }
    else if d == 3 { '3' }
    else if d == 4 { '4' }
    else if d == 5 { '5' }
    else if d == 6 { '6' }
    else if d == 7 { '7' }
    else if d == 8 { '8' }
    else { '9' }
}

/// The decimal notation of `n`, without leading zeros.
pub open spec fn decimal(n: nat) -> Seq<char>
    decreases n,
{
    if n < 10 {
        seq![digit_char(n)]
    } else {
        decimal(n / 10).push(digit_char(n % 10))
    }
}

/// The text that the host UI shows for an error.
pub open spec fn message_of(e: StatusError) -> Seq<char> {
    match e {
        StatusError::StartupTimeout => "Backend failed to start within timeout"@,
        StatusError::Restarting(n) => "Backend crashed, restarting... (attempt "@ + decimal(n as nat)
            + ")"@,
        StatusError::RestartLimit => "Backend restart limit reached"@,
        StatusError::LaunchFailed(reason) => reason@,
        StatusError::RestartFailed(reason) => "Failed to restart: "@ + reason@,
    }
}

fn digit_str(d: u32) -> (r: &'static str)
    requires
        d < 10,
    ensures
        r@ == seq![digit_char(d as nat)],
{
    proof {
        reveal_strlit("0");
        reveal_strlit("1");
        reveal_strlit("2");
        reveal_strlit("3");
        reveal_strlit("4");
        reveal_strlit("5");
        reveal_strlit("6");
        reveal_strlit("7");
        reveal_strlit("8");
        reveal_strlit("9");
    }
    let r = if d == 0 { "0" }
    else if d == 1 { "1" }
    else if d == 2 { "2" }
    else if d == 3 { "3" }
    else if d == 4 { "4" }
    else if d == 5 { "5" }
    else if d == 6 { "6" }
    else if d == 7 { "7" }
    else if d == 8 { "8" }
    else { "9" };
    assert(r@ =~= seq![digit_char(d as nat)]);
    r
}

pub(crate) fn append_decimal(s: &mut String, n: u32)
    ensures
        final(s)@ == old(s)@ + decimal(n as nat),
    decreases n,
{
    if n >= 10 {
        append_decimal(s, n / 10);
    }
    s.append(digit_str(n % 10));
    proof {
        if n >= 10 {
            assert(decimal(n as nat) == decimal((n / 10) as nat).push(digit_char((n % 10) as nat)));
        }
        assert(final(s)@ =~= old(s)@ + decimal(n as nat));
    }
}

impl StatusError {
    /// The text shown to the user: fixed words, the attempt number, or the launcher's reason.
    pub fn message(&self) -> (r: String)
        ensures
            r@ == message_of(*self),
    {
        match self {
            StatusError::StartupTimeout => String::from_str("Backend failed to start within timeout"),
            StatusError::Restarting(n) => {
                let mut s = String::from_str("Backend crashed, restarting... (attempt ");
                append_decimal(&mut s, *n);
                s.append(")");
                s
            },
            StatusError::RestartLimit => String::from_str("Backend restart limit reached"),
            StatusError::LaunchFailed(reason) => reason.clone(),
            StatusError::RestartFailed(reason) => {
                let mut s = String::from_str("Failed to restart: ");
                s.append(reason.as_str());
                s
            },
        }
    }
}

} // verus!

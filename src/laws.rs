use vstd::prelude::*;
use crate::status::StatusError;
use crate::supervisor::{
    announce, next, not_ready, quiet, ready, shutdown, Command, Event, Phase, ShutdownStep, Step,
    SupervisorModel, CONFIRM_DELAY_MS, GRACE_MS, MONITOR_INTERVAL_MS, RESTART_LIMIT,
    STARTUP_INTERVAL_MS, STARTUP_POLLS,
};

verus! {

/// The state after the events `evs`, taken in order from `m`.
pub open spec fn run(m: SupervisorModel, evs: Seq<Event>) -> SupervisorModel
    decreases evs.len(),
{
    if evs.len() == 0 {
        m
    } else {
        run(next(m, evs[0]).0, evs.subrange(1, evs.len() as int))
    }
}

/// The steps produced by the events `evs`, taken in order from `m`.
pub open spec fn trace(m: SupervisorModel, evs: Seq<Event>) -> Seq<Step>
    decreases evs.len(),
{
    if evs.len() == 0 {
        Seq::empty()
    } else {
        seq![next(m, evs[0]).1] + trace(next(m, evs[0]).0, evs.subrange(1, evs.len() as int))
    }
}

/// `k` failed health checks in a row.
pub open spec fn failures(k: nat) -> Seq<Event> {
    Seq::new(k, |i: int| Event::HealthFailed)
}

/// Running two sequences of events is running the first, then the second.
pub proof fn lemma_run_concat(m: SupervisorModel, a: Seq<Event>, b: Seq<Event>)
    ensures
        run(m, a + b) == run(run(m, a), b),
        trace(m, a + b) == trace(m, a) + trace(run(m, a), b),
        trace(m, a).len() == a.len(),
    decreases a.len(),
{
    if a.len() == 0 {
        assert(a + b =~= b);
        assert(trace(m, a) + trace(run(m, a), b) =~= trace(run(m, a), b));
    } else {
        let m1 = next(m, a[0]).0;
        let a1 = a.subrange(1, a.len() as int);
        assert((a + b).subrange(1, (a + b).len() as int) =~= a1 + b);
        assert((a + b)[0] == a[0]);
        lemma_run_concat(m1, a1, b);
        assert(trace(m, a + b) =~= trace(m, a) + trace(run(m, a), b));
    }
}

/// One event alone.
proof fn lemma_single(m: SupervisorModel, e: Event)
    ensures
        run(m, seq![e]) == next(m, e).0,
        trace(m, seq![e]) == seq![next(m, e).1],
{
    let s = seq![e];
    let rest = s.subrange(1, 1);
    assert(rest =~= Seq::<Event>::empty());
    assert(s[0] == e);
    assert(run(next(m, e).0, rest) == next(m, e).0);
    assert(trace(next(m, e).0, rest) == Seq::<Step>::empty());
    assert(trace(m, s) =~= seq![next(m, e).1]);
}

/// During startup, each failed check short of the budget only counts and waits.
proof fn lemma_startup_failures(m: SupervisorModel, k: nat)
    requires
        m.phase == Phase::Starting,
        !m.shutting_down,
        m.startup_polls + k < STARTUP_POLLS,
    ensures
        run(m, failures(k)) == (SupervisorModel { startup_polls: m.startup_polls + k, ..m }),
        trace(m, failures(k)).len() == k,
        forall|i: int|
            0 <= i < k ==> trace(m, failures(k))[i] == quiet(
                Command::Poll { delay_ms: STARTUP_INTERVAL_MS },
            ),
    decreases k,
{
    if k == 0 {
    } else {
        let m1 = next(m, Event::HealthFailed).0;
        assert(failures(k)[0] == Event::HealthFailed);
        assert(failures(k).subrange(1, k as int) =~= failures((k - 1) as nat));
        lemma_startup_failures(m1, (k - 1) as nat);
    }
}

/// A backend whose health endpoint first answers on poll `k` (at most the startup budget)
/// becomes ready after exactly `k` polls: the only status published is "ready", once,
/// at the last poll, and no restart is attempted.
pub proof fn lemma_ready_on_kth_poll(m: SupervisorModel, k: nat)
    requires
        m.phase == Phase::Starting,
        m.startup_polls == 0,
        !m.shutting_down,
        1 <= k <= STARTUP_POLLS,
    ensures
        ({
            let evs = failures((k - 1) as nat).push(Event::HealthOk);
            let t = trace(m, evs);
            &&& run(m, evs).phase == Phase::Ready
            &&& run(m, evs).restarts == m.restarts
            &&& t.len() == k
            &&& forall|i: int| 0 <= i < k - 1 ==> t[i].publish is None
            &&& t[k - 1].publish == Some(ready(m.port))
            &&& forall|i: int| 0 <= i < k ==> !(t[i].command is Launch)
        }),
{
    let f = failures((k - 1) as nat);
    let ok = seq![Event::HealthOk];
    assert(f.push(Event::HealthOk) =~= f + ok);
    lemma_startup_failures(m, (k - 1) as nat);
    lemma_run_concat(m, f, ok);
    let m1 = run(m, f);
    lemma_single(m1, Event::HealthOk);
}

/// A backend that never answers during startup fails after exactly the startup budget of
/// polls, and exactly one status is published: the startup timeout, at the last poll.
pub proof fn lemma_startup_timeout(m: SupervisorModel)
    requires
        m.phase == Phase::Starting,
        m.startup_polls == 0,
        !m.shutting_down,
    ensures
        ({
            let evs = failures(STARTUP_POLLS as nat);
            let t = trace(m, evs);
            &&& run(m, evs).phase == Phase::Failed
            &&& t.len() == STARTUP_POLLS
            &&& forall|i: int| 0 <= i < STARTUP_POLLS - 1 ==> t[i].publish is None
            &&& t[STARTUP_POLLS - 1] == announce(
                not_ready(m.port, StatusError::StartupTimeout),
                true,
                Command::Stop,
            )
        }),
{
    let n = (STARTUP_POLLS - 1) as nat;
    let f = failures(n);
    let last = seq![Event::HealthFailed];
    assert(failures(STARTUP_POLLS as nat) =~= f + last);
    lemma_startup_failures(m, n);
    lemma_run_concat(m, f, last);
    let m1 = run(m, f);
    lemma_single(m1, Event::HealthFailed);
}

/// Once failed, the supervisor stays failed: it publishes nothing and never launches or
/// polls again.
pub proof fn lemma_failed_is_terminal(m: SupervisorModel, evs: Seq<Event>)
    requires
        m.phase == Phase::Failed,
    ensures
        run(m, evs) == m,
        forall|i: int|
            0 <= i < trace(m, evs).len() ==> {
                &&& trace(m, evs)[i].publish is None
                &&& (trace(m, evs)[i].command is Stop || trace(m, evs)[i].command is Terminate)
            },
    decreases evs.len(),
{
    if evs.len() > 0 {
        lemma_failed_is_terminal(m, evs.subrange(1, evs.len() as int));
    }
}

/// The events of one restart whose confirmation check fails: the periodic check fails,
/// the relaunch succeeds with `pid`, and the confirmation check fails too.
pub open spec fn failed_restart(pid: u32) -> Seq<Event> {
    seq![Event::HealthFailed, Event::Launched { pid }, Event::HealthFailed]
}

proof fn lemma_failed_restart(m: SupervisorModel, pid: u32)
    requires
        m.phase == Phase::Ready,
        !m.shutting_down,
        m.restarts < RESTART_LIMIT,
    ensures
        run(m, failed_restart(pid)) == (SupervisorModel {
            restarts: m.restarts + 1,
            pid: Some(pid),
            ..m
        }),
        trace(m, failed_restart(pid)) == seq![
            announce(
                not_ready(m.port, StatusError::Restarting((m.restarts + 1) as u32)),
                false,
                Command::Launch { port: m.port },
            ),
            quiet(Command::Poll { delay_ms: CONFIRM_DELAY_MS }),
            quiet(Command::Poll { delay_ms: MONITOR_INTERVAL_MS }),
        ],
{
    let evs = failed_restart(pid);
    let m1 = next(m, evs[0]).0;
    let m2 = next(m1, evs[1]).0;
    let m3 = next(m2, evs[2]).0;
    let e1 = evs.subrange(1, 3);
    let e2 = e1.subrange(1, 2);
    assert(e1 =~= seq![Event::Launched { pid }, Event::HealthFailed]);
    assert(e2 =~= seq![Event::HealthFailed]);
    lemma_single(m2, Event::HealthFailed);
    assert(run(m1, e1) == run(m2, e2));
    assert(run(m, evs) == run(m1, e1));
    assert(trace(m1, e1) =~= seq![next(m1, e1[0]).1] + trace(m2, e2));
    assert(trace(m, evs) =~= seq![next(m, evs[0]).1] + trace(m1, e1));
}

/// A ready backend that keeps failing its periodic checks, with a relaunch (process
/// `first_pid`, `second_pid`, `third_pid`) and a failed confirmation between them, is
/// relaunched exactly three times, each time on the same port; the fourth failure
/// publishes the restart limit once and stops monitoring, with no fourth relaunch.
pub proof fn lemma_restart_budget(m: SupervisorModel, first_pid: u32, second_pid: u32, third_pid: u32)
    requires
        m.phase == Phase::Ready,
        !m.shutting_down,
        m.restarts == 0,
    ensures
        ({
            let evs = failed_restart(first_pid) + failed_restart(second_pid) + failed_restart(
                third_pid,
            ) + seq![Event::HealthFailed];
            let t = trace(m, evs);
            &&& t.len() == 10
            &&& forall|i: int|
                0 <= i < 10 ==> (t[i].command is Launch <==> (i == 0 || i == 3 || i == 6))
            &&& forall|i: int| 0 <= i < 10 && t[i].command is Launch ==> t[i].command == Command::Launch { port: m.port }
            &&& t[9] == announce(not_ready(m.port, StatusError::RestartLimit), false, Command::Stop)
            &&& run(m, evs).phase == Phase::Failed
            &&& run(m, evs).restarts == RESTART_LIMIT
        }),
{
    let a = failed_restart(first_pid);
    let b = failed_restart(second_pid);
    let c = failed_restart(third_pid);
    let d = seq![Event::HealthFailed];
    lemma_failed_restart(m, first_pid);
    let m1 = run(m, a);
    lemma_failed_restart(m1, second_pid);
    let m2 = run(m1, b);
    lemma_failed_restart(m2, third_pid);
    let m3 = run(m2, c);
    lemma_single(m3, Event::HealthFailed);
    lemma_run_concat(m, a, b);
    lemma_run_concat(m, a + b, c);
    lemma_run_concat(m, a + b + c, d);
    let t = trace(m, a + b + c + d);
    assert(t =~= trace(m, a) + trace(m1, b) + trace(m2, c) + trace(m3, d));
}

/// The port never changes, and every launch the supervisor asks for uses it.
pub proof fn lemma_launch_port_fixed(m: SupervisorModel, evs: Seq<Event>)
    ensures
        run(m, evs).port == m.port,
        trace(m, evs).len() == evs.len(),
        forall|i: int|
            0 <= i < trace(m, evs).len() && (trace(m, evs)[i].command is Launch)
                ==> (trace(m, evs)[i].command == Command::Launch { port: m.port }),
    decreases evs.len(),
{
    if evs.len() > 0 {
        let m1 = next(m, evs[0]).0;
        lemma_launch_port_fixed(m1, evs.subrange(1, evs.len() as int));
    }
}

/// Once shutdown has begun, the supervisor never launches again, changes nothing, and
/// asks for every process spawned all the same to be terminated.
pub proof fn lemma_no_launch_after_shutdown(m: SupervisorModel, evs: Seq<Event>)
    requires
        m.shutting_down,
    ensures
        run(m, evs) == m,
        trace(m, evs).len() == evs.len(),
        (forall|i: int|
            0 <= i < evs.len() ==> {
                &&& trace(m, evs)[i].publish is None
                &&& !(trace(m, evs)[i].command is Launch)
                &&& (evs[i] matches Event::Launched { pid } ==> trace(m, evs)[i].command
                    == (Command::Terminate { pid }))
            }),
    decreases evs.len(),
{
    if evs.len() > 0 {
        let rest = evs.subrange(1, evs.len() as int);
        lemma_no_launch_after_shutdown(m, rest);
        assert forall|i: int| 1 <= i < evs.len() implies evs[i] == rest[i - 1] by {}
    }
}

/// Shutting down a supervisor that tracks a process ends in a forced kill of exactly that
/// process, after at most one grace window.
pub proof fn lemma_shutdown_kills(m: SupervisorModel, signals: bool)
    requires
        m.pid is Some,
    ensures
        ({
            let steps = shutdown(m, signals).1;
            let p = m.pid.unwrap();
            &&& steps.len() >= 1
            &&& steps.last() == ShutdownStep::Force { pid: p }
            &&& forall|i: int|
                0 <= i < steps.len() ==> match #[trigger] steps[i] {
                    ShutdownStep::Graceful { pid } => pid == p,
                    ShutdownStep::Force { pid } => pid == p,
                    ShutdownStep::Wait { ms } => ms == GRACE_MS,
                }
            &&& forall|i: int, j: int|
                0 <= i < j < steps.len() ==> !(steps[i] is Wait && steps[j] is Wait)
            &&& shutdown(m, signals).0.pid is None
        }),
{
}

/// Shutting down twice in a row: the second time there is nothing to terminate and the
/// supervisor is left as the first shutdown left it.
pub proof fn lemma_shutdown_idempotent(m: SupervisorModel, first: bool, second: bool)
    ensures
        ({
            let m1 = shutdown(m, first).0;
            &&& shutdown(m1, second).1 == Seq::<ShutdownStep>::empty()
            &&& shutdown(m1, second).0 == m1
        }),
{
}

} // verus!

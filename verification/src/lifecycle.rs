//! Stopping a daemon that the terminal client started: when the daemon
//! agrees to stop, and what the client does with its answer.
use vstd::prelude::*;
use crate::text::{decimal, decimal_string, push_str};

verus! {

/// The daemon's answer to a stop request.
#[derive(Clone, Copy, Debug, PartialEq, Eq, Structural)]
pub enum ShutdownOutcome {
    ShuttingDown,
    KeptRunning,
    /// The daemon was not started by the client and is not stopped by it.
    NotManaged,
}

/// The answer, with the work that kept the daemon running.
#[derive(Clone, Copy, Debug, PartialEq, Eq, Structural)]
pub struct ShutdownIfIdleResponse {
    pub outcome: ShutdownOutcome,
    pub active_downloads: u64,
    pub scheduled_queues: u64,
}

pub open spec fn idle_outcome(tui_managed: bool, active: u64, scheduled: u64) -> ShutdownOutcome {
    if !tui_managed {
        ShutdownOutcome::NotManaged
    } else if active > 0 || scheduled > 0 {
        ShutdownOutcome::KeptRunning
    } else {
        ShutdownOutcome::ShuttingDown
    }
}

/// A stop request that is honoured only when the daemon is idle: no active
/// download and no queue with an enabled schedule.
pub fn idle_shutdown_response(tui_managed: bool, active_downloads: u64, scheduled_queues: u64) -> (r:
    ShutdownIfIdleResponse)
    ensures
        r.outcome == idle_outcome(tui_managed, active_downloads, scheduled_queues),
        r.active_downloads == active_downloads,
        r.scheduled_queues == scheduled_queues,
{
    let outcome = if !tui_managed {
        ShutdownOutcome::NotManaged
    } else if active_downloads > 0 || scheduled_queues > 0 {
        ShutdownOutcome::KeptRunning
    } else {
        ShutdownOutcome::ShuttingDown
    };
    ShutdownIfIdleResponse { outcome, active_downloads, scheduled_queues }
}

/// Whether the daemon refuses new work after answering a stop request: it
/// keeps refusing once it has begun stopping, and begins when it answers
/// that it is shutting down.
pub open spec fn stops_after(stopping: bool, outcome: ShutdownOutcome) -> bool {
    stopping || outcome == ShutdownOutcome::ShuttingDown
}

pub fn stopping_after(stopping: bool, response: &ShutdownIfIdleResponse) -> (r: bool)
    ensures
        r == stops_after(stopping, response.outcome),
{
    stopping || response.outcome == ShutdownOutcome::ShuttingDown
}

/// A running daemon asked to stop when idle begins refusing new work
/// exactly when it is managed and has no active download and no scheduled
/// queue; one that is stopping keeps refusing whatever it answers next.
pub proof fn law_idle_stop_gates_new_work(managed: bool, active: u64, scheduled: u64)
    ensures
        stops_after(false, idle_outcome(managed, active, scheduled)) <==> (managed && active == 0 && scheduled
            == 0),
        stops_after(true, idle_outcome(managed, active, scheduled)),
{
}

/// A stop request that a managed daemon honours whatever it is doing.
pub fn forced_shutdown_response(tui_managed: bool, active_downloads: u64, scheduled_queues: u64) -> (r:
    ShutdownIfIdleResponse)
    ensures
        r.outcome == (if tui_managed {
            ShutdownOutcome::ShuttingDown
        } else {
            ShutdownOutcome::NotManaged
        }),
        r.active_downloads == active_downloads,
        r.scheduled_queues == scheduled_queues,
{
    let outcome = if tui_managed {
        ShutdownOutcome::ShuttingDown
    } else {
        ShutdownOutcome::NotManaged
    };
    ShutdownIfIdleResponse { outcome, active_downloads, scheduled_queues }
}

/// A daemon the client did not start is never stopped by it; an idle
/// request never stops a daemon with work; a forced one always stops a
/// managed daemon.
pub proof fn law_shutdown_respects_ownership_and_work(managed: bool, active: u64, scheduled: u64)
    ensures
        !managed ==> idle_outcome(managed, active, scheduled) == ShutdownOutcome::NotManaged,
        (active > 0 || scheduled > 0) ==> idle_outcome(managed, active, scheduled)
            != ShutdownOutcome::ShuttingDown,
        managed && active == 0 && scheduled == 0 ==> idle_outcome(managed, active, scheduled)
            == ShutdownOutcome::ShuttingDown,
{
}

/// What the client does with its daemon after asking it to stop.
#[derive(Clone, Copy, Debug, PartialEq, Eq, Structural)]
pub enum ExitStep {
    /// Wait for the daemon to exit.
    WaitForShutdown,
    /// Leave it running.
    Detach,
    /// Signal the child the client owns.
    TerminateOwned,
}

pub open spec fn kept_running_text(active: u64, scheduled: u64) -> Seq<char> {
    "ario_daemon kept running: "@ + decimal(active as nat) + " active download(s), "@ + decimal(
        scheduled as nat,
    ) + " scheduled queue(s)"@
}

pub open spec fn exit_plan(
    answer: Result<ShutdownIfIdleResponse, Seq<char>>,
    force: bool,
    owns_child: bool,
) -> (ExitStep, Option<Seq<char>>) {
    match answer {
        Ok(r) => match r.outcome {
            ShutdownOutcome::ShuttingDown => (ExitStep::WaitForShutdown, None),
            ShutdownOutcome::KeptRunning => (
                ExitStep::Detach,
                Some(kept_running_text(r.active_downloads, r.scheduled_queues)),
            ),
            ShutdownOutcome::NotManaged => (ExitStep::Detach, None),
        },
        Err(e) => if force && owns_child {
            (
                ExitStep::TerminateOwned,
                Some(
                    "ario_daemon shutdown request failed: "@ + e
                        + "; terminating owned process"@,
                ),
            )
        } else {
            (ExitStep::Detach, Some("ario_daemon kept running: shutdown check failed: "@ + e))
        },
    }
}

/// The step after a stop request and the line to print: a daemon that
/// agreed is waited for; one that kept running or is not managed is left
/// alone; a failed forced request falls back to signalling the child the
/// client owns (`owns_child`: the client started it and it is still there).
pub fn apply_shutdown_result(
    answer: Result<ShutdownIfIdleResponse, String>,
    force: bool,
    owns_child: bool,
) -> (r: (ExitStep, Option<String>))
    ensures
        (r.0, match r.1 {
            Some(m) => Some(m@),
            None => None,
        }) == exit_plan(
            match answer {
                Ok(v) => Ok(v),
                Err(e) => Err(e@),
            },
            force,
            owns_child,
        ),
{
    match answer {
        Ok(r) => match r.outcome {
            ShutdownOutcome::ShuttingDown => (ExitStep::WaitForShutdown, None),
            ShutdownOutcome::KeptRunning => {
                let mut m = "ario_daemon kept running: ".to_owned();
                push_str(&mut m, decimal_string(r.active_downloads).as_str());
                push_str(&mut m, " active download(s), ");
                push_str(&mut m, decimal_string(r.scheduled_queues).as_str());
                push_str(&mut m, " scheduled queue(s)");
                (ExitStep::Detach, Some(m))
            },
            ShutdownOutcome::NotManaged => (ExitStep::Detach, None),
        },
        Err(e) => if force && owns_child {
            let mut m = "ario_daemon shutdown request failed: ".to_owned();
            push_str(&mut m, e.as_str());
            push_str(&mut m, "; terminating owned process");
            (ExitStep::TerminateOwned, Some(m))
        } else {
            let mut m = "ario_daemon kept running: shutdown check failed: ".to_owned();
            push_str(&mut m, e.as_str());
            (ExitStep::Detach, Some(m))
        },
    }
}

} // verus!

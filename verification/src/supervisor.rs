//! Supervision of child processes: the daemon's own aria2c, and the daemon
//! that the terminal client starts for a local server. Both respawn a child
//! that exits, after a back-off, and give up after five exits in a row that
//! each came within three seconds of the start. The caller runs the loop and
//! the processes; these types hold what the loop decides. Times are
//! milliseconds on a monotonic clock.
use vstd::prelude::*;
use crate::text::push_str;

verus! {

/// An exit this soon after the start counts as fast, in milliseconds.
pub const FAST_EXIT_THRESHOLD_MS: u64 = 3000;

/// Fast exits in a row after which supervision stops.
pub const MAX_FAST_EXITS: u32 = 5;

/// Wait before the next spawn attempt, in milliseconds.
pub const RESPAWN_BACKOFF_MS: u64 = 2000;

/// How long a freshly spawned daemon has to answer its health check.
pub const HEALTH_WAIT_TIMEOUT_MS: u64 = 5000;

/// Least time between two notices about failed spawns.
pub const SPAWN_ERROR_NOTICE_INTERVAL_MS: u64 = 10000;

/// The count of fast exits in a row after one more exit that came
/// `runtime_ms` after the start: a slow exit resets it.
pub open spec fn fast_exits_after(count: u32, runtime_ms: u64) -> int {
    if runtime_ms < FAST_EXIT_THRESHOLD_MS {
        count + 1
    } else {
        0
    }
}

/// Supervision state of the daemon's aria2c child.
#[derive(Clone, Copy, Debug, PartialEq, Eq, Structural)]
pub struct Aria2Supervisor {
    pub consecutive_fast_exits: u32,
    /// No spawn is attempted before this instant.
    pub next_spawn_ms: u64,
}

impl Aria2Supervisor {
    /// Supervision still running has seen fewer than five fast exits in a
    /// row.
    pub open spec fn wf(self) -> bool {
        self.consecutive_fast_exits < MAX_FAST_EXITS
    }

    pub fn new(now_ms: u64) -> (r: Self)
        ensures
            r.wf(),
            r.consecutive_fast_exits == 0,
            r.next_spawn_ms == now_ms,
    {
        Aria2Supervisor { consecutive_fast_exits: 0, next_spawn_ms: now_ms }
    }

    /// The child exited after running `runtime_ms`. Returns `true` when
    /// supervision gives up (five fast exits in a row); otherwise the next
    /// spawn waits for the back-off.
    pub fn on_exit(&mut self, runtime_ms: u64, now_ms: u64) -> (give_up: bool)
        requires
            old(self).wf(),
            now_ms <= u64::MAX - RESPAWN_BACKOFF_MS,
        ensures
            final(self).consecutive_fast_exits == fast_exits_after(
                old(self).consecutive_fast_exits,
                runtime_ms,
            ),
            give_up == (final(self).consecutive_fast_exits >= MAX_FAST_EXITS),
            !give_up ==> final(self).wf() && final(self).next_spawn_ms == now_ms
                + RESPAWN_BACKOFF_MS,
            give_up ==> final(self).next_spawn_ms == old(self).next_spawn_ms,
    {
        self.consecutive_fast_exits = if runtime_ms < FAST_EXIT_THRESHOLD_MS {
            self.consecutive_fast_exits + 1
        } else {
            0
        };
        if self.consecutive_fast_exits >= MAX_FAST_EXITS {
            return true;
        }
        self.next_spawn_ms = now_ms + RESPAWN_BACKOFF_MS;
        false
    }

    /// Waiting on the child failed, or a spawn failed: it is treated as
    /// gone, and the next spawn waits for the back-off.
    pub fn on_failure(&mut self, now_ms: u64)
        requires
            now_ms <= u64::MAX - RESPAWN_BACKOFF_MS,
        ensures
            final(self).consecutive_fast_exits == old(self).consecutive_fast_exits,
            final(self).next_spawn_ms == now_ms + RESPAWN_BACKOFF_MS,
    {
        self.next_spawn_ms = now_ms + RESPAWN_BACKOFF_MS;
    }

    /// A spawn is due when there is no child and the back-off has passed.
    pub fn spawn_due(&self, has_child: bool, now_ms: u64) -> (r: bool)
        ensures
            r == (!has_child && now_ms >= self.next_spawn_ms),
    {
        !has_child && now_ms >= self.next_spawn_ms
    }
}

/// Five fast exits in a row, from a fresh start, end supervision at the
/// fifth, and not before.
pub proof fn law_five_fast_exits_stop(runtimes: Seq<u64>)
    requires
        runtimes.len() == 5,
        forall|i: int| 0 <= i < 5 ==> runtimes[i] < FAST_EXIT_THRESHOLD_MS,
    ensures
        fast_exits_after(0, runtimes[0]) == 1,
        fast_exits_after(1, runtimes[1]) == 2,
        fast_exits_after(2, runtimes[2]) == 3,
        fast_exits_after(3, runtimes[3]) == 4,
        fast_exits_after(4, runtimes[4]) == MAX_FAST_EXITS,
{
}

/// A slow exit resets the count, so supervision goes on after it whatever
/// came before.
pub proof fn law_slow_exit_resets(count: u32, runtime_ms: u64)
    requires
        runtime_ms >= FAST_EXIT_THRESHOLD_MS,
    ensures
        fast_exits_after(count, runtime_ms) == 0,
        fast_exits_after(count, runtime_ms) < MAX_FAST_EXITS,
{
}

/// What the terminal client shows about the server it depends on.
#[derive(Clone, Debug, PartialEq, Eq)]
pub enum LifecycleState {
    Starting,
    Retrying,
    Connected,
    Failed(String),
}

pub enum LifecycleModel {
    Starting,
    Retrying,
    Connected,
    Failed(Seq<char>),
}

impl View for LifecycleState {
    type V = LifecycleModel;

    open spec fn view(&self) -> LifecycleModel {
        match self {
            LifecycleState::Starting => LifecycleModel::Starting,
            LifecycleState::Retrying => LifecycleModel::Retrying,
            LifecycleState::Connected => LifecycleModel::Connected,
            LifecycleState::Failed(m) => LifecycleModel::Failed(m@),
        }
    }
}

/// One thing the supervisor reports to the client: a change of lifecycle,
/// or an error notice.
#[derive(Clone, Debug)]
pub enum SupervisorEvent {
    Lifecycle(LifecycleState),
    Notice(String),
}

pub enum EventModel {
    Lifecycle(LifecycleModel),
    Notice(Seq<char>),
}

pub open spec fn event_view(e: SupervisorEvent) -> EventModel {
    match e {
        SupervisorEvent::Lifecycle(s) => EventModel::Lifecycle(s@),
        SupervisorEvent::Notice(m) => EventModel::Notice(m@),
    }
}

pub open spec fn events_view(v: Seq<SupervisorEvent>) -> Seq<EventModel> {
    v.map_values(|e: SupervisorEvent| event_view(e))
}

pub open spec fn crash_loop_text(log: Seq<char>) -> Seq<char> {
    "ario_daemon crash-looping. Check "@ + log
}

pub open spec fn not_healthy_text(log: Seq<char>) -> Seq<char> {
    "ario_daemon did not become healthy within five seconds. Check "@ + log
}

pub open spec fn spawn_failure_text(error: Seq<char>, log: Seq<char>) -> Seq<char> {
    "failed to start ario_daemon: "@ + error + ". Check "@ + log
}

fn text2(a: &str, b: &str) -> (r: String)
    ensures
        r@ == a@ + b@,
{
    let mut s = a.to_owned();
    push_str(&mut s, b);
    s
}

/// Supervision state of a daemon the terminal client started itself.
#[derive(Clone, Copy, Debug, PartialEq, Eq, Structural)]
pub struct DaemonSupervisor {
    pub consecutive_fast_exits: u32,
    pub next_spawn_ms: u64,
    /// A spawned daemon must be healthy by this instant.
    pub readiness_deadline_ms: Option<u64>,
    /// The missed deadline has been reported.
    pub readiness_reported: bool,
    pub connected: bool,
    pub last_spawn_error_ms: Option<u64>,
}

impl DaemonSupervisor {
    pub open spec fn wf(self) -> bool {
        self.consecutive_fast_exits < MAX_FAST_EXITS
    }

    /// Supervision begins by reporting that the server is starting.
    pub fn new(now_ms: u64) -> (r: (Self, SupervisorEvent))
        ensures
            r.0.wf(),
            r.0.consecutive_fast_exits == 0,
            r.0.next_spawn_ms == now_ms,
            r.0.readiness_deadline_ms is None,
            !r.0.readiness_reported,
            !r.0.connected,
            r.0.last_spawn_error_ms is None,
            event_view(r.1) == EventModel::Lifecycle(LifecycleModel::Starting),
    {
        (
            DaemonSupervisor {
                consecutive_fast_exits: 0,
                next_spawn_ms: now_ms,
                readiness_deadline_ms: None,
                readiness_reported: false,
                connected: false,
                last_spawn_error_ms: None,
            },
            SupervisorEvent::Lifecycle(LifecycleState::Starting),
        )
    }

    /// The child exited `runtime_ms` after it started (zero when waiting
    /// on it failed). Returns the events to send and whether supervision
    /// stops; the caller has already sent the exit notice.
    pub fn on_child_exit(&mut self, runtime_ms: u64, now_ms: u64, log_path: &str) -> (r: (
        Vec<SupervisorEvent>,
        bool,
    ))
        requires
            old(self).wf(),
            now_ms <= u64::MAX - RESPAWN_BACKOFF_MS,
        ensures
            final(self).consecutive_fast_exits == fast_exits_after(
                old(self).consecutive_fast_exits,
                runtime_ms,
            ),
            !final(self).connected,
            final(self).readiness_deadline_ms is None,
            r.1 == (final(self).consecutive_fast_exits >= MAX_FAST_EXITS),
            r.1 ==> events_view(r.0@) == seq![
                EventModel::Lifecycle(LifecycleModel::Failed(crash_loop_text(log_path@))),
            ],
            !r.1 ==> final(self).wf() && events_view(r.0@) == seq![
                EventModel::Lifecycle(LifecycleModel::Retrying),
            ] && final(self).next_spawn_ms == now_ms + RESPAWN_BACKOFF_MS,
            final(self).readiness_reported == old(self).readiness_reported,
            final(self).last_spawn_error_ms == old(self).last_spawn_error_ms,
    {
        self.connected = false;
        self.readiness_deadline_ms = None;
        self.consecutive_fast_exits = if runtime_ms < FAST_EXIT_THRESHOLD_MS {
            self.consecutive_fast_exits + 1
        } else {
            0
        };
        let mut events: Vec<SupervisorEvent> = Vec::new();
        if self.consecutive_fast_exits >= MAX_FAST_EXITS {
            let e = SupervisorEvent::Lifecycle(
                LifecycleState::Failed(text2("ario_daemon crash-looping. Check ", log_path)),
            );
            events.push(e);
            assert(events_view(events@) =~= seq![event_view(e)]);
            return (events, true);
        }
        let e = SupervisorEvent::Lifecycle(LifecycleState::Retrying);
        events.push(e);
        assert(events_view(events@) =~= seq![event_view(e)]);
        self.next_spawn_ms = now_ms + RESPAWN_BACKOFF_MS;
        (events, false)
    }

    /// The result of one health check.
    pub fn on_health(&mut self, healthy: bool, now_ms: u64, log_path: &str) -> (r: Vec<
        SupervisorEvent,
    >)
        ensures
            final(self).consecutive_fast_exits == old(self).consecutive_fast_exits,
            final(self).next_spawn_ms == old(self).next_spawn_ms,
            final(self).last_spawn_error_ms == old(self).last_spawn_error_ms,
            final(self).connected == healthy,
            healthy ==> final(self).readiness_deadline_ms is None && !final(self).readiness_reported
                && events_view(r@) == (if old(self).connected {
                Seq::empty()
            } else {
                seq![EventModel::Lifecycle(LifecycleModel::Connected)]
            }),
            !healthy ==> final(self).readiness_deadline_ms == old(self).readiness_deadline_ms && ({
                let missed = old(self).readiness_deadline_ms matches Some(d) && now_ms >= d
                    && !old(self).readiness_reported;
                let lost = if old(self).connected {
                    seq![EventModel::Lifecycle(LifecycleModel::Retrying)]
                } else {
                    Seq::empty()
                };
                &&& final(self).readiness_reported == (old(self).readiness_reported || missed)
                &&& events_view(r@) == (if missed {
                    lost + seq![
                        EventModel::Lifecycle(LifecycleModel::Failed(not_healthy_text(log_path@))),
                        EventModel::Notice(not_healthy_text(log_path@)),
                    ]
                } else {
                    lost
                })
            }),
    {
        let mut events: Vec<SupervisorEvent> = Vec::new();
        let ghost start = events@;
        assert(events_view(events@) =~= Seq::<EventModel>::empty());
        if healthy {
            if !self.connected {
                let e = SupervisorEvent::Lifecycle(LifecycleState::Connected);
                events.push(e);
                assert(events_view(events@) =~= seq![event_view(e)]);
            }
            self.connected = true;
            self.readiness_deadline_ms = None;
            self.readiness_reported = false;
        } else {
            if self.connected {
                self.connected = false;
                let e = SupervisorEvent::Lifecycle(LifecycleState::Retrying);
                events.push(e);
                assert(events_view(events@) =~= seq![event_view(e)]);
            }
            let ghost lost = events_view(events@);
            match self.readiness_deadline_ms {
                Some(deadline) => {
                    if now_ms >= deadline && !self.readiness_reported {
                        let message = text2(
                            "ario_daemon did not become healthy within five seconds. Check ",
                            log_path,
                        );
                        let e1 = SupervisorEvent::Lifecycle(
                            LifecycleState::Failed(message.clone()),
                        );
                        let e2 = SupervisorEvent::Notice(message);
                        let ghost before = events@;
                        events.push(e1);
                        events.push(e2);
                        assert(events_view(events@) =~= events_view(before) + seq![
                            event_view(e1),
                            event_view(e2),
                        ]);
                        self.readiness_reported = true;
                    }
                },
                None => {},
            }
        }
        events
    }

    /// A spawn is due when the server is not healthy, there is no child,
    /// and the back-off has passed.
    pub fn spawn_due(&self, healthy: bool, has_child: bool, now_ms: u64) -> (r: bool)
        ensures
            r == (!healthy && !has_child && now_ms >= self.next_spawn_ms),
    {
        !healthy && !has_child && now_ms >= self.next_spawn_ms
    }

    /// A child was spawned: it has five seconds to become healthy.
    pub fn on_spawned(&mut self, now_ms: u64) -> (r: SupervisorEvent)
        requires
            now_ms <= u64::MAX - HEALTH_WAIT_TIMEOUT_MS,
        ensures
            final(self).readiness_deadline_ms == Some((now_ms + HEALTH_WAIT_TIMEOUT_MS) as u64),
            !final(self).readiness_reported,
            final(self).consecutive_fast_exits == old(self).consecutive_fast_exits,
            final(self).next_spawn_ms == old(self).next_spawn_ms,
            final(self).connected == old(self).connected,
            final(self).last_spawn_error_ms == old(self).last_spawn_error_ms,
            event_view(r) == EventModel::Lifecycle(LifecycleModel::Starting),
    {
        self.readiness_deadline_ms = Some(now_ms + HEALTH_WAIT_TIMEOUT_MS);
        self.readiness_reported = false;
        SupervisorEvent::Lifecycle(LifecycleState::Starting)
    }

    /// A spawn failed with `error`: a notice at most every ten seconds, a
    /// retrying state, and the back-off before the next attempt.
    pub fn on_spawn_failed(&mut self, now_ms: u64, error: &str, log_path: &str) -> (r: Vec<
        SupervisorEvent,
    >)
        requires
            now_ms <= u64::MAX - RESPAWN_BACKOFF_MS,
        ensures
            ({
                let notify = match old(self).last_spawn_error_ms {
                    None => true,
                    Some(last) => now_ms >= last && now_ms - last >= SPAWN_ERROR_NOTICE_INTERVAL_MS,
                };
                &&& final(self).last_spawn_error_ms == (if notify {
                    Some(now_ms)
                } else {
                    old(self).last_spawn_error_ms
                })
                &&& events_view(r@) == (if notify {
                    seq![
                        EventModel::Notice(spawn_failure_text(error@, log_path@)),
                        EventModel::Lifecycle(LifecycleModel::Retrying),
                    ]
                } else {
                    seq![EventModel::Lifecycle(LifecycleModel::Retrying)]
                })
            }),
            final(self).next_spawn_ms == now_ms + RESPAWN_BACKOFF_MS,
            final(self).consecutive_fast_exits == old(self).consecutive_fast_exits,
            final(self).readiness_deadline_ms == old(self).readiness_deadline_ms,
            final(self).readiness_reported == old(self).readiness_reported,
            final(self).connected == old(self).connected,
    {
        let mut events: Vec<SupervisorEvent> = Vec::new();
        let notify = match self.last_spawn_error_ms {
            None => true,
            Some(last) => now_ms >= last && now_ms - last >= SPAWN_ERROR_NOTICE_INTERVAL_MS,
        };
        if notify {
            let mut message = text2("failed to start ario_daemon: ", error);
            push_str(&mut message, ". Check ");
            push_str(&mut message, log_path);
            let e = SupervisorEvent::Notice(message);
            events.push(e);
            self.last_spawn_error_ms = Some(now_ms);
        }
        let ghost before = events@;
        let e = SupervisorEvent::Lifecycle(LifecycleState::Retrying);
        events.push(e);
        assert(events_view(events@) =~= events_view(before).push(event_view(e)));
        self.next_spawn_ms = now_ms + RESPAWN_BACKOFF_MS;
        events
    }
}

} // verus!

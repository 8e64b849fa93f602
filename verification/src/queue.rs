//! Queues, their settings and schedules.
use vstd::prelude::*;
use crate::enums::QueueStatus;
use crate::finetune::{FineTune, overridden};
use crate::schedule::Recurrence;

verus! {

pub const DEFAULT_RETRY_WAIT_SECONDS: u32 = 5;

/// Queue identifier of the Main Queue, which cannot be removed.
pub const MAIN_QUEUE_ID: i64 = 1;

/// Retry wait assumed when a stored queue predates the setting.
pub fn default_retry_wait_seconds() -> (r: u32)
    ensures
        r == DEFAULT_RETRY_WAIT_SECONDS,
{
    DEFAULT_RETRY_WAIT_SECONDS
}

#[derive(Clone, Copy, Debug, PartialEq, Eq, Structural)]
pub struct QueueSettings {
    /// aria2 `-j`: how many items of the queue run at once.
    pub max_concurrent_downloads: u32,
    pub max_retries: u32,
    pub retry_wait_seconds: u32,
    pub default_finetune: FineTune,
}

#[derive(Clone, Debug, PartialEq)]
pub struct Scheduler {
    pub enabled: bool,
    pub recurrence: Recurrence,
    /// Startup catch-up only runs in an open window; closed windows are skipped.
    pub run_missed_on_startup: bool,
}

#[derive(Clone, Debug)]
pub struct Queue {
    /// Scheduled end of the current manual or automatic run.
    pub scheduled_stop_at: Option<i128>,
    pub id: i64,
    pub name: String,
    pub position: i32,
    pub settings: QueueSettings,
    pub scheduler: Scheduler,
    pub created_at: i128,
    pub status: QueueStatus,
}

#[derive(Clone, Debug)]
pub struct CreateQueueRequest {
    pub name: String,
    pub position: i32,
    pub max_concurrent_downloads: u32,
    pub max_retries: u32,
    pub retry_wait_seconds: u32,
    pub default_finetune: FineTune,
    pub scheduler_enabled: bool,
    pub recurrence: Recurrence,
    pub run_missed_on_startup: bool,
}

#[derive(Clone, Debug)]
pub struct UpdateQueueRequest {
    pub name: String,
    pub position: i32,
    pub max_concurrent_downloads: u32,
    pub max_retries: u32,
    pub retry_wait_seconds: u32,
    pub default_finetune: FineTune,
    pub scheduler_enabled: bool,
    pub recurrence: Recurrence,
    pub run_missed_on_startup: bool,
}

/// The queue's default tuning with its retry settings filled in.
pub open spec fn queue_tuning(settings: QueueSettings) -> FineTune {
    FineTune {
        max_retries: Some(settings.max_retries),
        retry_wait_seconds: Some(settings.retry_wait_seconds),
        ..settings.default_finetune
    }
}

/// The tuning a new or edited download gets: the queue's defaults and retry
/// settings, then whatever the request sets explicitly.
pub fn resolve_finetune(settings: &QueueSettings, overrides: Option<FineTune>) -> (r: FineTune)
    ensures
        r == (match overrides {
            Some(o) => overridden(queue_tuning(*settings), o),
            None => queue_tuning(*settings),
        }),
{
    let mut finetune = settings.default_finetune;
    finetune.max_retries = Some(settings.max_retries);
    finetune.retry_wait_seconds = Some(settings.retry_wait_seconds);
    if let Some(overrides) = overrides {
        finetune.apply_override(overrides);
    }
    finetune
}

/// A field that the download request leaves unset keeps the queue's value.
pub proof fn law_unset_fields_inherit_queue_defaults(settings: QueueSettings, o: FineTune)
    ensures
        o.connections_per_download is None ==> overridden(
            queue_tuning(settings),
            o,
        ).connections_per_download == settings.default_finetune.connections_per_download,
        o.max_connections_per_server is None ==> overridden(
            queue_tuning(settings),
            o,
        ).max_connections_per_server == settings.default_finetune.max_connections_per_server,
        o.max_retries is None ==> overridden(queue_tuning(settings), o).max_retries == Some(
            settings.max_retries,
        ),
        o.retry_wait_seconds is None ==> overridden(queue_tuning(settings), o).retry_wait_seconds
            == Some(settings.retry_wait_seconds),
        o.max_retries matches Some(n) ==> overridden(queue_tuning(settings), o).max_retries == Some(
            n,
        ),
{
}

} // verus!

//! The terminal client's state: what it shows, what is selected, which
//! overlay is open, and how the daemon's answers change it. Requests are
//! made by the caller; the state says which request to make.
use vstd::prelude::*;
use crate::deletion::{DeleteDownloadFilesResult, deletion_message, deletion_toast};
use crate::download::{DownloadFilter, DownloadLiveStatus};
use crate::enums::{DownloadStatus, FileCategory};
use crate::finetune::{Aria2GlobalOptions, FineTune};
use crate::overlays::{
    ClipboardImportModal, ConfirmationModal, HelpModal, PendingConfirmationAction, ToastLevel, ToastStack,
    live_toasts, pushed_toasts,
};
use crate::panes::{Focus, SPEED_HISTORY_LEN};
use crate::queue::Queue;
use crate::queue_editor::{QueueModal, modal_wf};
use crate::supervisor::LifecycleState;
use crate::text::push_str;
use crate::torrent_form::TorrentFileModal;

verus! {

/// A speed sample is recorded at most every two seconds.
pub const SPEED_SAMPLE_INTERVAL_MS: u64 = 2000;

/// The category list below its "All" row.
pub open spec fn category_row(i: int) -> Option<FileCategory> {
    if i == 0 {
        Some(FileCategory::Video)
    } else if i == 1 {
        Some(FileCategory::Music)
    } else if i == 2 {
        Some(FileCategory::Document)
    } else if i == 3 {
        Some(FileCategory::Archive)
    } else if i == 4 {
        Some(FileCategory::Program)
    } else if i == 5 {
        Some(FileCategory::Other)
    } else {
        None
    }
}

/// How many categories the list offers below "All".
pub const CATEGORY_COUNT: usize = 6;

pub fn category_at(i: usize) -> (r: Option<FileCategory>)
    ensures
        r == category_row(i as int),
{
    if i == 0 {
        Some(FileCategory::Video)
    } else if i == 1 {
        Some(FileCategory::Music)
    } else if i == 2 {
        Some(FileCategory::Document)
    } else if i == 3 {
        Some(FileCategory::Archive)
    } else if i == 4 {
        Some(FileCategory::Program)
    } else if i == 5 {
        Some(FileCategory::Other)
    } else {
        None
    }
}

/// The form for changing one download's tuning and queue.
#[derive(Clone, Debug)]
pub struct DownloadEditModal {
    pub download_id: i64,
    pub finetune: FineTune,
    /// 0..5 = tuning fields, 6 = queue.
    pub cursor: usize,
    pub queue_cursor: usize,
    pub original_queue_id: i64,
    pub error: Option<String>,
}

/// The client's state.
pub struct App {
    pub api_base: String,
    pub downloads: Vec<DownloadLiveStatus>,
    pub queues: Vec<Queue>,
    pub selected_download: usize,
    /// Row of the queue list; row 0 is "All".
    pub selected_queue: usize,
    /// Row of the category list; row 0 is "All".
    pub selected_category: usize,
    pub focus: Focus,
    pub server_reachable: bool,
    pub aria2_reachable: bool,
    pub aria2_global_options: Option<Aria2GlobalOptions>,
    pub total_download_speed: u64,
    pub active_downloads: u64,
    /// Recent speed samples, oldest first.
    pub speed_history: Vec<u64>,
    pub smoothed_download_speed: Option<u64>,
    pub speed_chart_max: u64,
    pub lifecycle: LifecycleState,
    pub last_error: Option<String>,
    pub should_quit: bool,
    pub modal: Option<ClipboardImportModal>,
    pub queue_modal: Option<QueueModal>,
    pub download_modal: Option<DownloadEditModal>,
    pub torrent_modal: Option<TorrentFileModal>,
    pub confirmation_modal: Option<ConfirmationModal>,
    pub help_modal: Option<HelpModal>,
    pub toasts: ToastStack,
    /// The client may start and supervise the daemon it talks to.
    pub manages_server: bool,
    pub refresh_in_flight: bool,
    /// Counts lifecycle changes, so that an answer to an older refresh is
    /// recognised.
    pub lifecycle_revision: u64,
    pub pending_confirmation_action: Option<PendingConfirmationAction>,
    /// When the last speed sample was recorded, in milliseconds.
    pub last_speed_sample_ms: Option<u64>,
}

/// What a refresh asks the daemon for.
#[derive(Clone, Debug)]
pub struct RefreshRequest {
    pub filter: DownloadFilter,
    pub manages_server: bool,
    pub lifecycle_revision: u64,
}

/// The queue a row of the queue list filters on (row 0 is "All").
pub open spec fn queue_filter_id(queues: Seq<Queue>, row: usize) -> Option<i64> {
    if row == 0 {
        None
    } else if row - 1 < queues.len() {
        Some(queues[row - 1].id)
    } else {
        None
    }
}

pub open spec fn category_filter(row: usize) -> Option<FileCategory> {
    if row == 0 {
        None
    } else {
        category_row(row - 1)
    }
}

/// The listing a refresh asks for: the selected queue and category.
pub open spec fn filter_matches(f: DownloadFilter, a: App) -> bool {
    &&& f.queue_id == queue_filter_id(a.queues@, a.selected_queue)
    &&& f.category == category_filter(a.selected_category)
    &&& f.status is None && f.sort_by is None && !f.sort_desc
}

/// The largest sample, 0 for none.
pub open spec fn peak(s: Seq<u64>) -> u64
    decreases s.len(),
{
    if s.len() == 0 {
        0
    } else {
        let m = peak(s.drop_last());
        if s.last() > m {
            s.last()
        } else {
            m
        }
    }
}

/// The chart's scale for some samples: the peak plus a fifth (rounded up),
/// saturating, and at least 1.
pub open spec fn scale_target(s: Seq<u64>) -> u64 {
    let p = peak(s) as int;
    let headroom = p / 5 + if p % 5 != 0 {
        1int
    } else {
        0
    };
    let t = if p + headroom > u64::MAX {
        u64::MAX as int
    } else {
        p + headroom
    };
    if t < 1 {
        1
    } else {
        t as u64
    }
}

/// The history after one more sample: with fifteen kept, the oldest goes.
pub open spec fn pushed_history(h: Seq<u64>, speed: u64) -> Seq<u64> {
    if h.len() == SPEED_HISTORY_LEN {
        h.drop_first().push(speed)
    } else {
        h.push(speed)
    }
}

/// The chart's scale follows a higher target at once and falls towards a
/// lower one by a tenth (rounded up) per sample.
pub open spec fn next_chart_max(current: u64, target: u64) -> u64 {
    if target >= current {
        target
    } else {
        let decay = current / 10 + if current % 10 != 0 {
            1int
        } else {
            0
        };
        let lowered = if current >= decay {
            current - decay
        } else {
            0
        };
        if lowered >= target {
            lowered as u64
        } else {
            target
        }
    }
}

/// The displayed speed: while anything runs, three parts the previous
/// value to one part the new reading; when nothing runs, zero.
pub open spec fn smoothed(previous: Option<u64>, speed: u64, active: u64) -> u64 {
    if active == 0 {
        0
    } else {
        match previous {
            None => speed,
            Some(p) => ((3 * p + speed) / 4) as u64,
        }
    }
}

/// A new sample is due when none was taken or two seconds have passed (a
/// clock reading earlier than the last sample counts as no time passed).
pub open spec fn sample_due(last: Option<u64>, now: u64) -> bool {
    match last {
        None => true,
        Some(at) => now >= at && now - at >= SPEED_SAMPLE_INTERVAL_MS,
    }
}

/// An answer to a refresh is stale when the client supervises the daemon,
/// the answer reports it unreachable, and a lifecycle change happened
/// since the refresh was sent.
pub open spec fn stale_refresh(a: App, server_reachable: bool, revision: u64) -> bool {
    a.manages_server && !server_reachable && revision != a.lifecycle_revision
}

/// The parts of the state that answers from the daemon leave alone.
pub open spec fn same_screen(a: App, b: App) -> bool {
    &&& a.api_base == b.api_base
    &&& a.selected_queue == b.selected_queue
    &&& a.selected_category == b.selected_category
    &&& a.focus == b.focus
    &&& a.should_quit == b.should_quit
    &&& a.modal == b.modal
    &&& a.queue_modal == b.queue_modal
    &&& a.download_modal == b.download_modal
    &&& a.torrent_modal == b.torrent_modal
    &&& a.confirmation_modal == b.confirmation_modal
    &&& a.help_modal == b.help_modal
    &&& a.manages_server == b.manages_server
    &&& a.pending_confirmation_action == b.pending_confirmation_action
}

pub open spec fn error_text(e: Seq<char>) -> Seq<char> {
    "can't reach server: "@ + e
}

impl App {
    /// The state's invariant: at most fifteen speed samples, a chart scale
    /// of at least 1, at most four toasts, and a consistent queue editor.
    pub open spec fn wf(&self) -> bool {
        &&& self.speed_history@.len() <= SPEED_HISTORY_LEN
        &&& self.speed_chart_max >= 1
        &&& self.toasts.wf()
        &&& (self.queue_modal matches Some(m) ==> modal_wf(m))
    }

    /// A client with nothing loaded, focused on the download list.
    pub fn new(api_base: String, manages_server: bool) -> (r: Self)
        ensures
            r.wf(),
            r.api_base == api_base,
            r.manages_server == manages_server,
            r.downloads@.len() == 0 && r.queues@.len() == 0,
            r.selected_download == 0 && r.selected_queue == 0 && r.selected_category == 0,
            r.focus == Focus::Downloads,
            !r.server_reachable && !r.aria2_reachable && r.aria2_global_options is None,
            r.total_download_speed == 0 && r.active_downloads == 0,
            r.speed_history@.len() == 0 && r.smoothed_download_speed is None && r.speed_chart_max == 1,
            r.lifecycle == LifecycleState::Starting,
            r.last_error is None && !r.should_quit,
            r.modal is None && r.queue_modal is None && r.download_modal is None,
            r.torrent_modal is None && r.confirmation_modal is None && r.help_modal is None,
            r.toasts.view_seq().len() == 0,
            !r.refresh_in_flight && r.lifecycle_revision == 0,
            r.pending_confirmation_action is None && r.last_speed_sample_ms is None,
    {
        App {
            api_base,
            downloads: Vec::new(),
            queues: Vec::new(),
            selected_download: 0,
            selected_queue: 0,
            selected_category: 0,
            focus: Focus::Downloads,
            server_reachable: false,
            aria2_reachable: false,
            aria2_global_options: None,
            total_download_speed: 0,
            active_downloads: 0,
            speed_history: Vec::new(),
            smoothed_download_speed: None,
            speed_chart_max: 1,
            lifecycle: LifecycleState::Starting,
            last_error: None,
            should_quit: false,
            modal: None,
            queue_modal: None,
            download_modal: None,
            torrent_modal: None,
            confirmation_modal: None,
            help_modal: None,
            toasts: ToastStack::new(),
            manages_server,
            refresh_in_flight: false,
            lifecycle_revision: 0,
            pending_confirmation_action: None,
            last_speed_sample_ms: None,
        }
    }

    pub open spec fn any_overlay(&self) -> bool {
        self.modal is Some || self.queue_modal is Some || self.download_modal is Some
            || self.torrent_modal is Some || self.confirmation_modal is Some || self.help_modal is Some
    }

    /// Some overlay covers the main screen.
    pub fn has_open_modal(&self) -> (r: bool)
        ensures
            r == self.any_overlay(),
    {
        self.modal.is_some() || self.queue_modal.is_some() || self.download_modal.is_some()
            || self.torrent_modal.is_some() || self.confirmation_modal.is_some()
            || self.help_modal.is_some()
    }

    pub fn manages_server(&self) -> (r: bool)
        ensures
            r == self.manages_server,
    {
        self.manages_server
    }

    pub fn quit(&mut self)
        ensures
            *final(self) == (App { should_quit: true, ..*old(self) }),
    {
        self.should_quit = true;
    }

    /// The listing for the selected queue and category.
    pub fn current_filter(&self) -> (r: DownloadFilter)
        ensures
            filter_matches(r, *self),
    {
        let queue_id = if self.selected_queue == 0 {
            None
        } else if self.selected_queue - 1 < self.queues.len() {
            Some(self.queues[self.selected_queue - 1].id)
        } else {
            None
        };
        let category = if self.selected_category == 0 {
            None
        } else {
            category_at(self.selected_category - 1)
        };
        DownloadFilter { queue_id, category, status: None, sort_by: None, sort_desc: false }
    }

    /// Drops expired toasts and, unless a refresh is under way, starts one:
    /// the answer comes back through `apply_refresh`.
    pub fn refresh(&mut self, now_ms: u64) -> (r: Option<RefreshRequest>)
        requires
            old(self).wf(),
        ensures
            final(self).wf(),
            final(self).toasts.view_seq() == live_toasts(old(self).toasts.view_seq(), now_ms),
            old(self).refresh_in_flight ==> r is None && *final(self) == (App {
                toasts: final(self).toasts,
                ..*old(self)
            }),
            !old(self).refresh_in_flight ==> *final(self) == (App {
                toasts: final(self).toasts,
                refresh_in_flight: true,
                ..*old(self)
            }) && (r matches Some(q) && filter_matches(q.filter, *old(self)) && q.manages_server
                == old(self).manages_server && q.lifecycle_revision == old(self).lifecycle_revision),
    {
        self.toasts.prune(now_ms);
        if self.refresh_in_flight {
            return None;
        }
        self.refresh_in_flight = true;
        let filter = self.current_filter();
        Some(RefreshRequest { filter, manages_server: self.manages_server, lifecycle_revision: self.lifecycle_revision })
    }

    /// Records a lifecycle change from the supervisor. Only a connected
    /// daemon counts as reachable; a failure's message becomes the error
    /// shown, any other state clears it.
    pub fn apply_lifecycle(&mut self, state: LifecycleState)
        requires
            old(self).lifecycle_revision < u64::MAX,
        ensures
            *final(self) == (App {
                lifecycle_revision: (old(self).lifecycle_revision + 1) as u64,
                last_error: match state {
                    LifecycleState::Failed(m) => Some(m),
                    _ => None,
                },
                server_reachable: state is Connected,
                aria2_reachable: state is Connected && old(self).aria2_reachable,
                lifecycle: state,
                ..*old(self)
            }),
    {
        self.lifecycle_revision = self.lifecycle_revision + 1;
        match &state {
            LifecycleState::Failed(message) => {
                self.last_error = Some(message.clone());
            },
            _ => {
                self.last_error = None;
            },
        }
        match state {
            LifecycleState::Connected => {
                self.server_reachable = true;
            },
            _ => {
                self.server_reachable = false;
                self.aria2_reachable = false;
            },
        }
        self.lifecycle = state;
    }

    pub fn apply_toast(&mut self, message: String, level: ToastLevel, now_ms: u64)
        requires
            old(self).wf(),
        ensures
            final(self).wf(),
            final(self).toasts.view_seq() == pushed_toasts(old(self).toasts.view_seq(), (message@, level, now_ms)),
            *final(self) == (App { toasts: final(self).toasts, ..*old(self) }),
    {
        self.toasts.push(message, level, now_ms);
    }

    /// Reports a deletion with files and refreshes.
    pub fn apply_download_files_deleted(&mut self, result: Result<DeleteDownloadFilesResult, String>, now_ms: u64) -> (r:
        Option<RefreshRequest>)
        requires
            old(self).wf(),
        ensures
            final(self).wf(),
            final(self).toasts.view_seq() == live_toasts(
                pushed_toasts(
                    old(self).toasts.view_seq(),
                    match result {
                        Ok(v) => (deletion_message(v).0, deletion_message(v).1, now_ms),
                        Err(e) => (e@, ToastLevel::Error, now_ms),
                    },
                ),
                now_ms,
            ),
            *final(self) == (App {
                toasts: final(self).toasts,
                refresh_in_flight: true,
                ..*old(self)
            }),
            old(self).refresh_in_flight <==> r is None,
            r matches Some(q) ==> filter_matches(q.filter, *old(self)),
    {
        let (message, level) = deletion_toast(result);
        self.toasts.push(message, level, now_ms);
        self.refresh(now_ms)
    }

    /// Takes the answer to a refresh. An answer that is stale (see
    /// `stale_refresh`) only ends the refresh. Otherwise: the server going
    /// down is announced when the client does not supervise it; a listing
    /// replaces the downloads and keeps the selection on the list, a failed
    /// one is reported when the client does not supervise the daemon;
    /// queues are replaced when they came; the figures are taken; while the
    /// daemon answers, the speed is smoothed, a sample is recorded at most
    /// every two seconds while anything runs, and the daemon counts as
    /// connected.
    pub fn apply_refresh(
        &mut self,
        downloads: Result<Vec<DownloadLiveStatus>, String>,
        queues: Result<Vec<Queue>, String>,
        server_reachable: bool,
        aria2_reachable: bool,
        download_speed: u64,
        active_downloads: u64,
        aria2_global_options: Option<Aria2GlobalOptions>,
        lifecycle_revision: u64,
        now_ms: u64,
    )
        requires
            old(self).wf(),
            old(self).lifecycle_revision < u64::MAX,
        ensures
            final(self).wf(),
            !final(self).refresh_in_flight,
            stale_refresh(*old(self), server_reachable, lifecycle_revision) ==> *final(self) == (App {
                refresh_in_flight: false,
                ..*old(self)
            }),
            !stale_refresh(*old(self), server_reachable, lifecycle_revision) ==> {
                let o = *old(self);
                let f = *final(self);
                let record = server_reachable && active_downloads > 0 && sample_due(o.last_speed_sample_ms, now_ms);
                &&& same_screen(f, o)
                &&& f.toasts.view_seq() == (if !o.manages_server && o.server_reachable && !server_reachable {
                    pushed_toasts(o.toasts.view_seq(), ("server is down"@, ToastLevel::Error, now_ms))
                } else {
                    o.toasts.view_seq()
                })
                &&& (downloads matches Ok(list) ==> f.downloads == list && f.selected_download == (if list@.len()
                    == 0 {
                    0
                } else if o.selected_download < list@.len() {
                    o.selected_download
                } else {
                    (list@.len() - 1) as usize
                }))
                &&& (downloads is Err ==> f.downloads == o.downloads && f.selected_download == o.selected_download)
                &&& (server_reachable ==> f.last_error is None)
                &&& (!server_reachable && !o.manages_server && downloads is Err ==> (f.last_error matches Some(m)
                    && m@ == error_text(downloads->Err_0@)))
                &&& (!server_reachable && (o.manages_server || downloads is Ok) ==> f.last_error == o.last_error)
                &&& f.queues == (match queues {
                    Ok(q) => q,
                    Err(_) => o.queues,
                })
                &&& f.server_reachable == server_reachable && f.aria2_reachable == aria2_reachable
                &&& f.aria2_global_options == (if server_reachable {
                    aria2_global_options
                } else {
                    o.aria2_global_options
                })
                &&& f.total_download_speed == (if active_downloads == 0 {
                    0
                } else {
                    download_speed
                })
                &&& f.active_downloads == active_downloads
                &&& f.smoothed_download_speed == (if server_reachable {
                    Some(smoothed(o.smoothed_download_speed, download_speed, active_downloads))
                } else {
                    None
                })
                &&& (record ==> f.speed_history@ == pushed_history(o.speed_history@, download_speed)
                    && f.speed_chart_max == next_chart_max(
                    o.speed_chart_max,
                    scale_target(pushed_history(o.speed_history@, download_speed)),
                ) && f.last_speed_sample_ms == Some(now_ms))
                &&& (!record ==> f.speed_history == o.speed_history && f.speed_chart_max == o.speed_chart_max
                    && f.last_speed_sample_ms == o.last_speed_sample_ms)
                &&& (server_reachable ==> f.lifecycle == LifecycleState::Connected && f.lifecycle_revision
                    == o.lifecycle_revision + 1)
                &&& (!server_reachable ==> f.lifecycle == o.lifecycle && f.lifecycle_revision
                    == o.lifecycle_revision)
            },
    {
        self.refresh_in_flight = false;
        if self.manages_server && !server_reachable && lifecycle_revision != self.lifecycle_revision {
            return;
        }
        if !self.manages_server && self.server_reachable && !server_reachable {
            self.toasts.push("server is down".to_owned(), ToastLevel::Error, now_ms);
        }
        self.take_downloads(downloads, server_reachable);
        match queues {
            Ok(q) => {
                self.queues = q;
            },
            Err(_) => {},
        }
        self.server_reachable = server_reachable;
        self.aria2_reachable = aria2_reachable;
        if server_reachable {
            self.aria2_global_options = aria2_global_options;
        }
        self.total_download_speed = if active_downloads == 0 {
            0
        } else {
            download_speed
        };
        self.active_downloads = active_downloads;
        self.take_speed(server_reachable, download_speed, active_downloads, now_ms);
        if server_reachable {
            self.apply_lifecycle(LifecycleState::Connected);
        }
    }

    /// A listing replaces the downloads, keeping the selection on the list;
    /// a failed one is reported unless the client supervises the daemon.
    fn take_downloads(&mut self, downloads: Result<Vec<DownloadLiveStatus>, String>, server_reachable: bool)
        ensures
            downloads matches Ok(list) ==> final(self).downloads == list && final(self).selected_download == (
            if list@.len() == 0 {
                0
            } else if old(self).selected_download < list@.len() {
                old(self).selected_download
            } else {
                (list@.len() - 1) as usize
            }) && final(self).last_error == (if server_reachable {
                None
            } else {
                old(self).last_error
            }),
            downloads is Err ==> final(self).downloads == old(self).downloads && final(self).selected_download
                == old(self).selected_download && (!old(self).manages_server ==> (final(self).last_error matches Some(
                m) && m@ == error_text(downloads->Err_0@))) && (old(self).manages_server ==> final(self).last_error
                == old(self).last_error),
            *final(self) == (App {
                downloads: final(self).downloads,
                selected_download: final(self).selected_download,
                last_error: final(self).last_error,
                ..*old(self)
            }),
    {
        match downloads {
            Ok(list) => {
                let n = list.len();
                self.downloads = list;
                if n > 0 {
                    if self.selected_download >= n {
                        self.selected_download = n - 1;
                    }
                } else {
                    self.selected_download = 0;
                }
                if server_reachable {
                    self.last_error = None;
                }
            },
            Err(e) => {
                if !self.manages_server {
                    let mut message = "can't reach server: ".to_owned();
                    push_str(&mut message, e.as_str());
                    self.last_error = Some(message);
                }
            },
        }
    }

    /// While the daemon answers, smooths the speed and records a sample at
    /// most every two seconds while anything runs; otherwise forgets the
    /// smoothed speed.
    fn take_speed(&mut self, server_reachable: bool, download_speed: u64, active_downloads: u64, now_ms: u64)
        requires
            old(self).wf(),
        ensures
            final(self).wf(),
            final(self).smoothed_download_speed == (if server_reachable {
                Some(smoothed(old(self).smoothed_download_speed, download_speed, active_downloads))
            } else {
                None
            }),
            ({
                let record = server_reachable && active_downloads > 0 && sample_due(
                    old(self).last_speed_sample_ms,
                    now_ms,
                );
                &&& (record ==> final(self).speed_history@ == pushed_history(old(self).speed_history@, download_speed)
                    && final(self).speed_chart_max == next_chart_max(
                    old(self).speed_chart_max,
                    scale_target(pushed_history(old(self).speed_history@, download_speed)),
                ) && final(self).last_speed_sample_ms == Some(now_ms))
                &&& (!record ==> final(self).speed_history == old(self).speed_history && final(self).speed_chart_max
                    == old(self).speed_chart_max && final(self).last_speed_sample_ms == old(
                    self,
                ).last_speed_sample_ms)
            }),
            *final(self) == (App {
                smoothed_download_speed: final(self).smoothed_download_speed,
                speed_history: final(self).speed_history,
                speed_chart_max: final(self).speed_chart_max,
                last_speed_sample_ms: final(self).last_speed_sample_ms,
                ..*old(self)
            }),
    {
        if !server_reachable {
            self.smoothed_download_speed = None;
            return;
        }
        let next = if active_downloads == 0 {
            0
        } else {
            match self.smoothed_download_speed {
                None => download_speed,
                Some(previous) => {
                    let mixed: u128 = (previous as u128 * 3 + download_speed as u128) / 4;
                    mixed as u64
                },
            }
        };
        self.smoothed_download_speed = Some(next);
        let due = match self.last_speed_sample_ms {
            None => true,
            Some(at) => now_ms >= at && now_ms - at >= SPEED_SAMPLE_INTERVAL_MS,
        };
        if active_downloads > 0 && due {
            self.push_speed_sample(download_speed);
            self.last_speed_sample_ms = Some(now_ms);
        }
    }

    /// The scale the chart is drawn at.
    pub fn speed_chart_max(&self) -> (r: u64)
        ensures
            r == (if self.speed_chart_max >= scale_target(self.speed_history@) {
                self.speed_chart_max
            } else {
                scale_target(self.speed_history@)
            }),
    {
        let t = speed_scale_target(&self.speed_history);
        if self.speed_chart_max >= t {
            self.speed_chart_max
        } else {
            t
        }
    }

    /// The speed shown: the smoothed one when known, else the last total.
    pub fn displayed_download_speed(&self) -> (r: u64)
        ensures
            r == match self.smoothed_download_speed {
                Some(s) => s,
                None => self.total_download_speed,
            },
    {
        match self.smoothed_download_speed {
            Some(s) => s,
            None => self.total_download_speed,
        }
    }

    /// Adds a sample to the chart history and moves its scale.
    pub fn push_speed_sample(&mut self, speed: u64)
        requires
            old(self).wf(),
        ensures
            final(self).wf(),
            final(self).speed_history@ == pushed_history(old(self).speed_history@, speed),
            final(self).speed_chart_max == next_chart_max(
                old(self).speed_chart_max,
                scale_target(pushed_history(old(self).speed_history@, speed)),
            ),
            *final(self) == (App {
                speed_history: final(self).speed_history,
                speed_chart_max: final(self).speed_chart_max,
                ..*old(self)
            }),
    {
        if self.speed_history.len() == SPEED_HISTORY_LEN {
            self.speed_history.remove(0);
        }
        self.speed_history.push(speed);
        let target = speed_scale_target(&self.speed_history);
        let current = self.speed_chart_max;
        self.speed_chart_max = if target >= current {
            target
        } else {
            let decay = current / 10 + if current % 10 != 0 {
                1
            } else {
                0
            };
            let lowered = if current >= decay {
                current - decay
            } else {
                0
            };
            if lowered >= target {
                lowered
            } else {
                target
            }
        };
    }
}

/// The chart's scale for some samples.
pub fn speed_scale_target(history: &Vec<u64>) -> (r: u64)
    ensures
        r == scale_target(history@),
        r >= 1,
{
    let mut p: u64 = 0;
    let mut i: usize = 0;
    while i < history.len()
        invariant
            i <= history@.len(),
            p == peak(history@.take(i as int)),
        decreases history@.len() - i,
    {
        assert(history@.take(i + 1).drop_last() =~= history@.take(i as int));
        if history[i] > p {
            p = history[i];
        }
        i = i + 1;
    }
    assert(history@.take(i as int) =~= history@);
    let headroom = p / 5 + if p % 5 != 0 {
        1
    } else {
        0
    };
    let t = p.saturating_add(headroom);
    if t < 1 {
        1
    } else {
        t
    }
}

/// The chart's scale never drops below the samples' target, and falls by
/// at most a tenth (rounded up) of itself per sample.
pub proof fn law_chart_scale_decays_gradually(current: u64, target: u64)
    ensures
        next_chart_max(current, target) >= target,
        next_chart_max(current, target) + current / 10 + (if current % 10 != 0 {
            1int
        } else {
            0
        }) >= current,
        target >= 1 ==> next_chart_max(current, target) >= 1,
{
}

} // verus!

//! The poller's decisions: what one `aria2.tellStatus` answer changes in a
//! stored download and in the live transfer figures.
use vstd::prelude::*;
use crate::enums::{DownloadStatus, StatusModel, FileCategory, same_text, opt_status_view};
use crate::live::{LiveStats, coalesced, coalesce_completed_length};
use crate::aria2::{Aria2Status, payload_paths, control_paths, strings_view};
use crate::download::{Download, DownloadArtifact, DownloadArtifactKind, artifacts_view, tagged, push_artifacts};
use crate::category::{CategoryExtensions, after_last, last_segment, category_fits, table_view, extension_of};
use crate::text::{parse_u64, parse_unsigned};

verus! {

/// What happens to a download's entry in the live figures.
#[derive(Clone, Copy, Debug, PartialEq, Eq, Structural)]
pub enum LiveUpdate {
    Keep,
    Store(LiveStats),
    Clear,
}

/// The writes that follow one status answer.
#[derive(Clone, Debug)]
pub struct TransferUpdate {
    /// Status to store, if any.
    pub status: Option<DownloadStatus>,
    pub live: LiveUpdate,
    /// Record the completion time.
    pub set_completed_at: bool,
    /// The download no longer counts as started by hand.
    pub clear_manually_started: bool,
}

pub open spec fn settled_model(s: StatusModel) -> bool {
    s is Completed || s is Error || s is Removed
}

pub open spec fn error_text(message: Option<Seq<char>>) -> Seq<char> {
    match message {
        Some(m) => m,
        None => "aria2 reported an error"@,
    }
}

/// The update for aria2's answer `aria2`, given the status the poll started
/// from (`snapshot`) and the status stored now (`current`, `None` if the
/// download is gone). The stored status wins over a stale answer.
pub open spec fn transfer_outcome(
    snapshot: StatusModel,
    current: Option<StatusModel>,
    aria2: Seq<char>,
    completed: u64,
    speed: u64,
    message: Option<Seq<char>>,
) -> (Option<StatusModel>, LiveUpdate, bool, bool) {
    match current {
        None => (None, LiveUpdate::Keep, false, false),
        Some(cur) => if settled_model(cur) {
            (None, LiveUpdate::Keep, false, false)
        } else if aria2 == "active"@ {
            if cur is Paused {
                (None, LiveUpdate::Clear, false, false)
            } else {
                (
                    if cur is Active {
                        None
                    } else {
                        Some(StatusModel::Active)
                    },
                    LiveUpdate::Store(LiveStats { completed_length: completed, download_speed: speed }),
                    false,
                    false,
                )
            }
        } else if aria2 == "paused"@ {
            if cur is Active && snapshot is Paused {
                (None, LiveUpdate::Keep, false, false)
            } else {
                (Some(StatusModel::Paused), LiveUpdate::Clear, false, false)
            }
        } else if aria2 == "complete"@ {
            (Some(StatusModel::Completed), LiveUpdate::Clear, true, true)
        } else if aria2 == "error"@ {
            (Some(StatusModel::Error(error_text(message))), LiveUpdate::Clear, false, true)
        } else if aria2 == "removed"@ {
            (Some(StatusModel::Removed), LiveUpdate::Clear, false, true)
        } else {
            (None, LiveUpdate::Clear, false, false)
        },
    }
}

pub open spec fn update_view(u: TransferUpdate) -> (Option<StatusModel>, LiveUpdate, bool, bool) {
    (opt_status_view(u.status), u.live, u.set_completed_at, u.clear_manually_started)
}

pub open spec fn opt_str_view(s: Option<&str>) -> Option<Seq<char>> {
    match s {
        Some(t) => Some(t@),
        None => None,
    }
}

fn unchanged(live: LiveUpdate) -> (r: TransferUpdate)
    ensures
        r.status is None,
        r.live == live,
        !r.set_completed_at,
        !r.clear_manually_started,
{
    TransferUpdate { status: None, live, set_completed_at: false, clear_manually_started: false }
}

/// Reconciles one status answer with the stored download. `snapshot` is the
/// status the poll read before asking aria2; `current` is the status stored
/// now, after the answer came.
pub fn reconcile_transfer_state(
    snapshot: &DownloadStatus,
    current: Option<&DownloadStatus>,
    aria2_status: &str,
    completed_length: u64,
    download_speed: u64,
    error_message: Option<&str>,
) -> (r: TransferUpdate)
    ensures
        update_view(r) == transfer_outcome(
            snapshot@,
            match current {
                Some(c) => Some(c@),
                None => None,
            },
            aria2_status@,
            completed_length,
            download_speed,
            opt_str_view(error_message),
        ),
        current matches Some(c) && !(c is Completed || c is Error || c is Removed || c is Paused) && aria2_status@
            == "active"@ ==> r.live == LiveUpdate::Store(LiveStats { completed_length, download_speed }),
{
    let cur = match current {
        None => {
            return unchanged(LiveUpdate::Keep);
        },
        Some(c) => c,
    };
    match cur {
        DownloadStatus::Completed | DownloadStatus::Error(_) | DownloadStatus::Removed => {
            return unchanged(LiveUpdate::Keep);
        },
        _ => {},
    }
    if same_text(aria2_status, "active") {
        match cur {
            DownloadStatus::Paused => unchanged(LiveUpdate::Clear),
            DownloadStatus::Active => unchanged(
                LiveUpdate::Store(LiveStats { completed_length, download_speed }),
            ),
            _ => TransferUpdate {
                status: Some(DownloadStatus::Active),
                live: LiveUpdate::Store(LiveStats { completed_length, download_speed }),
                set_completed_at: false,
                clear_manually_started: false,
            },
        }
    } else if same_text(aria2_status, "paused") {
        let resumed_meanwhile = match (cur, snapshot) {
            (DownloadStatus::Active, DownloadStatus::Paused) => true,
            _ => false,
        };
        if resumed_meanwhile {
            unchanged(LiveUpdate::Keep)
        } else {
            TransferUpdate {
                status: Some(DownloadStatus::Paused),
                live: LiveUpdate::Clear,
                set_completed_at: false,
                clear_manually_started: false,
            }
        }
    } else if same_text(aria2_status, "complete") {
        TransferUpdate {
            status: Some(DownloadStatus::Completed),
            live: LiveUpdate::Clear,
            set_completed_at: true,
            clear_manually_started: true,
        }
    } else if same_text(aria2_status, "error") {
        let message = match error_message {
            Some(m) => m.to_owned(),
            None => "aria2 reported an error".to_owned(),
        };
        TransferUpdate {
            status: Some(DownloadStatus::Error(message)),
            live: LiveUpdate::Clear,
            set_completed_at: false,
            clear_manually_started: true,
        }
    } else if same_text(aria2_status, "removed") {
        TransferUpdate {
            status: Some(DownloadStatus::Removed),
            live: LiveUpdate::Clear,
            set_completed_at: false,
            clear_manually_started: true,
        }
    } else {
        unchanged(LiveUpdate::Clear)
    }
}

/// What the poller does with one stored download before asking aria2.
#[derive(Clone, Copy, Debug, PartialEq, Eq, Structural)]
pub enum PollTarget {
    /// Never handed to aria2: nothing to poll.
    Skip,
    /// Settled: only its live figures are dropped.
    ClearLive,
    /// Ask aria2 for its status.
    Query,
}

pub fn poll_target(download: &Download) -> (r: PollTarget)
    ensures
        download.aria2_gid is None ==> r == PollTarget::Skip,
        download.aria2_gid is Some && settled_model(download.status@) ==> r
            == PollTarget::ClearLive,
        download.aria2_gid is Some && !settled_model(download.status@) ==> r == PollTarget::Query,
{
    match download.aria2_gid {
        None => PollTarget::Skip,
        Some(_) => match download.status {
            DownloadStatus::Completed | DownloadStatus::Error(_) | DownloadStatus::Removed => {
                PollTarget::ClearLive
            },
            _ => PollTarget::Query,
        },
    }
}

/// Name, size and category learned from aria2 once it knows the files.
#[derive(Clone, Debug)]
pub struct ResolvedInfo {
    pub filename: String,
    pub size: Option<u64>,
    pub category: FileCategory,
}

/// What the poller stores after one status answer, besides the transfer
/// update.
#[derive(Clone, Debug)]
pub struct PollPlan {
    /// Replacement list of the download's files, once aria2 names payloads.
    pub artifacts: Option<Vec<DownloadArtifact>>,
    pub completed_length: u64,
    /// The completed length differs from the stored one.
    pub persist_completed_length: bool,
    pub download_speed: u64,
    pub resolved: Option<ResolvedInfo>,
}

/// A number aria2 sent as text; anything unreadable counts as zero.
pub open spec fn number_or_zero(s: Seq<char>) -> u64 {
    match parse_unsigned(s, u64::MAX as int) {
        Some(v) => v as u64,
        None => 0,
    }
}

fn read_number(s: &String) -> (r: u64)
    ensures
        r == number_or_zero(s@),
{
    match parse_u64(s.as_str()) {
        Some(v) => v,
        None => 0,
    }
}

pub open spec fn planned_artifacts(status: Aria2Status) -> Option<Seq<(Seq<char>, DownloadArtifactKind)>> {
    if payload_paths(status.files@).len() > 0 {
        Some(
            tagged(payload_paths(status.files@), DownloadArtifactKind::Payload) + tagged(
                control_paths(status),
                DownloadArtifactKind::Control,
            ),
        )
    } else {
        None
    }
}

pub open spec fn resolved_filename(status: Aria2Status) -> Option<Seq<char>> {
    if status.files@.len() > 0 && status.files@[0].path@.len() > 0 {
        Some(after_last(status.files@[0].path@, '/', '/'))
    } else {
        None
    }
}

impl PollPlan {
    pub open spec fn artifacts_seen(self) -> Option<Seq<(Seq<char>, DownloadArtifactKind)>> {
        match self.artifacts {
            Some(v) => Some(artifacts_view(v@)),
            None => None,
        }
    }
}

/// Everything the poller derives from one status answer for one download:
/// the files to record, the progress to keep (a reported zero does not wipe
/// known progress), and the name, size and category once aria2 knows the
/// first file.
pub fn plan_poll(download: &Download, status: &Aria2Status, extensions: &CategoryExtensions) -> (r:
    PollPlan)
    ensures
        r.artifacts_seen() == planned_artifacts(*status),
        r.completed_length == coalesced(
            number_or_zero(status.completed_length@),
            download.completed_length,
        ),
        r.persist_completed_length == (download.completed_length != Some(r.completed_length)),
        r.download_speed == number_or_zero(status.download_speed@),
        resolved_filename(*status) is None ==> r.resolved is None,
        resolved_filename(*status) matches Some(name) ==> r.resolved matches Some(info) && {
            &&& info.filename@ == name
            &&& info.size == (if number_or_zero(status.total_length@) > 0 {
                Some(number_or_zero(status.total_length@))
            } else {
                None
            })
            &&& category_fits(table_view(extensions@), extension_of(name), info.category)
        },
{
    let (payloads, controls) = status.artifact_paths();
    let artifacts = if payloads.len() > 0 {
        let mut list: Vec<DownloadArtifact> = Vec::new();
        assert(artifacts_view(list@) =~= Seq::<(Seq<char>, DownloadArtifactKind)>::empty());
        push_artifacts(&mut list, payloads, DownloadArtifactKind::Payload);
        push_artifacts(&mut list, controls, DownloadArtifactKind::Control);
        assert(artifacts_view(list@) =~= planned_artifacts(*status)->0);
        Some(list)
    } else {
        None
    };
    let completed_length = coalesce_completed_length(
        read_number(&status.completed_length),
        download.completed_length,
    );
    let total_length = read_number(&status.total_length);
    let download_speed = read_number(&status.download_speed);
    let persist_completed_length = match download.completed_length {
        Some(c) => c != completed_length,
        None => true,
    };
    let resolved = if status.files.len() > 0 && !status.files[0].path.as_str().is_empty() {
        let filename = last_segment(status.files[0].path.as_str(), '/', '/');
        let category = FileCategory::infer_from_filename(filename.as_str(), extensions);
        let size = if total_length > 0 {
            Some(total_length)
        } else {
            None
        };
        Some(ResolvedInfo { filename, size, category })
    } else {
        None
    };
    PollPlan { artifacts, completed_length, persist_completed_length, download_speed, resolved }
}

/// A completed, failed or removed download is never changed by a later
/// answer, nor are its live figures touched.
pub proof fn law_settled_download_is_final(
    snapshot: StatusModel,
    current: StatusModel,
    aria2: Seq<char>,
    completed: u64,
    speed: u64,
    message: Option<Seq<char>>,
)
    requires
        settled_model(current),
    ensures
        transfer_outcome(snapshot, Some(current), aria2, completed, speed, message) == (
            None::<StatusModel>,
            LiveUpdate::Keep,
            false,
            false,
        ),
{
}

/// An `active` answer that arrives after the download was paused does not
/// resume it: nothing is stored and its live figures are dropped.
pub proof fn law_late_active_answer_keeps_pause(
    snapshot: StatusModel,
    completed: u64,
    speed: u64,
    message: Option<Seq<char>>,
)
    ensures
        transfer_outcome(
            snapshot,
            Some(StatusModel::Paused),
            "active"@,
            completed,
            speed,
            message,
        ).0 is None,
        transfer_outcome(
            snapshot,
            Some(StatusModel::Paused),
            "active"@,
            completed,
            speed,
            message,
        ).1 == LiveUpdate::Clear,
{
}

/// A `paused` answer to a poll that began while the download was paused
/// does not undo a resume that happened meanwhile.
pub proof fn law_late_pause_answer_keeps_resume(
    completed: u64,
    speed: u64,
    message: Option<Seq<char>>,
)
    ensures
        transfer_outcome(
            StatusModel::Paused,
            Some(StatusModel::Active),
            "paused"@,
            completed,
            speed,
            message,
        ) == (None::<StatusModel>, LiveUpdate::Keep, false, false),
{
    reveal_strlit("active");
    reveal_strlit("paused");
    assert("active"@[0] == 'a');
}

/// A finished, failed or removed transfer settles a download that is not
/// settled yet, drops its live figures and ends any manual start.
pub proof fn law_terminal_answer_settles(
    snapshot: StatusModel,
    current: StatusModel,
    aria2: Seq<char>,
    completed: u64,
    speed: u64,
    message: Option<Seq<char>>,
)
    requires
        !settled_model(current),
        aria2 == "complete"@ || aria2 == "error"@ || aria2 == "removed"@,
    ensures
        ({
            let o = transfer_outcome(snapshot, Some(current), aria2, completed, speed, message);
            &&& o.0 matches Some(s) && settled_model(s)
            &&& o.1 == LiveUpdate::Clear
            &&& o.3
        }),
{
    reveal_strlit("active");
    reveal_strlit("paused");
    reveal_strlit("complete");
    reveal_strlit("error");
    reveal_strlit("removed");
    assert("active"@[0] == 'a');
    assert("paused"@[0] == 'p');
    assert("complete"@[0] == 'c');
    assert("error"@[0] == 'e');
    assert("removed"@[0] == 'r');
}

/// An `active` answer for a download that is neither settled nor paused
/// refreshes its live figures with the reported progress and speed, and
/// marks it active if it was not yet.
pub proof fn law_active_answer_refreshes_progress(
    snapshot: StatusModel,
    current: StatusModel,
    completed: u64,
    speed: u64,
    message: Option<Seq<char>>,
)
    requires
        !(current is Completed || current is Error || current is Removed || current is Paused),
    ensures
        ({
            let o = transfer_outcome(snapshot, Some(current), "active"@, completed, speed, message);
            &&& o.1 == LiveUpdate::Store(LiveStats { completed_length: completed, download_speed: speed })
            &&& (current is Active ==> o.0 is None)
            &&& (!(current is Active) ==> o.0 == Some(StatusModel::Active))
            &&& !o.2 && !o.3
        }),
{
}

} // verus!

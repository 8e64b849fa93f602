//! Deleting a download together with its files: which files belong to it,
//! how the removal is summed up, and how the client reports it.
use vstd::prelude::*;
use crate::enums::{DownloadStatus, SourceType};
use crate::download::{Download, DownloadArtifact, DownloadArtifactKind, artifacts_view, tagged, push_artifacts};
use crate::aria2::{joined_path, join_path, strings_view};
use crate::overlays::ToastLevel;
use crate::text::{decimal, decimal_string, push_str};

verus! {

/// What a deletion with files removed.
#[derive(Clone, Copy, Debug, PartialEq, Eq, Structural)]
pub struct DeleteDownloadFilesResult {
    pub removed_payloads: u64,
    pub missing_payloads: u64,
    /// Every file of the download was known, so nothing can be left behind.
    pub metadata_complete: bool,
}

pub open spec fn has_payload(v: Seq<(Seq<char>, DownloadArtifactKind)>) -> bool {
    exists|i: int| 0 <= i < v.len() && #[trigger] v[i].1 == DownloadArtifactKind::Payload
}

/// The stored files, then the files aria2 reports now (when it names
/// payloads), then, when nothing names a payload and the download ever
/// started or completed, the file its name points to in its directory. The
/// list is complete once a payload is known, or for an HTTP download with a
/// known name (it has one payload).
pub open spec fn delete_artifacts(
    stored: Seq<(Seq<char>, DownloadArtifactKind)>,
    live: Option<(Seq<Seq<char>>, Seq<Seq<char>>)>,
    download: Download,
) -> (Seq<(Seq<char>, DownloadArtifactKind)>, bool) {
    let with_live = match live {
        Some((p, c)) => if p.len() > 0 {
            stored + tagged(p, DownloadArtifactKind::Payload) + tagged(c, DownloadArtifactKind::Control)
        } else {
            stored
        },
        None => stored,
    };
    let complete = has_payload(stored) || (live matches Some((p, c)) && p.len() > 0);
    if !complete && (download.aria2_gid is Some || download.status is Completed)
        && download.filename is Some {
        let path = joined_path(download.destination_path@, download.filename->0@);
        (
            with_live + seq![
                (path, DownloadArtifactKind::Payload),
                (path + ".aria2"@, DownloadArtifactKind::Control),
            ],
            download.source_type == SourceType::Http,
        )
    } else {
        (with_live, complete)
    }
}

fn any_payload(v: &Vec<DownloadArtifact>) -> (r: bool)
    ensures
        r == has_payload(artifacts_view(v@)),
{
    let mut i: usize = 0;
    while i < v.len()
        invariant
            i <= v@.len(),
            forall|k: int| 0 <= k < i ==> v@[k].kind != DownloadArtifactKind::Payload,
        decreases v@.len() - i,
    {
        if v[i].kind == DownloadArtifactKind::Payload {
            assert(artifacts_view(v@)[i as int].1 == DownloadArtifactKind::Payload);
            return true;
        }
        i = i + 1;
    }
    proof {
        if has_payload(artifacts_view(v@)) {
            let k = choose|k: int| 0 <= k < artifacts_view(v@).len() && #[trigger] artifacts_view(v@)[k].1
                == DownloadArtifactKind::Payload;
            assert(v@[k].kind == DownloadArtifactKind::Payload);
        }
    }
    false
}

/// The files to remove when a download is deleted with its files, and
/// whether that list is complete. `live` is aria2's current payloads and
/// control files, when it could be asked.
pub fn collect_delete_artifacts(
    stored: Vec<DownloadArtifact>,
    live: Option<(Vec<String>, Vec<String>)>,
    download: &Download,
) -> (r: (Vec<DownloadArtifact>, bool))
    ensures
        (artifacts_view(r.0@), r.1) == delete_artifacts(
            artifacts_view(stored@),
            match live {
                Some((p, c)) => Some((strings_view(p@), strings_view(c@))),
                None => None,
            },
            *download,
        ),
{
    let ghost stored_view = artifacts_view(stored@);
    let mut complete = any_payload(&stored);
    let mut artifacts = stored;
    match live {
        Some((payloads, controls)) => {
            if payloads.len() > 0 {
                complete = true;
                push_artifacts(&mut artifacts, payloads, DownloadArtifactKind::Payload);
                push_artifacts(&mut artifacts, controls, DownloadArtifactKind::Control);
            }
        },
        None => {},
    }
    let started = match download.aria2_gid {
        Some(_) => true,
        None => match download.status {
            DownloadStatus::Completed => true,
            _ => false,
        },
    };
    if !complete && started {
        match &download.filename {
            Some(name) => {
                let path = join_path(download.destination_path.as_str(), name.as_str());
                let mut control = path.clone();
                push_str(&mut control, ".aria2");
                let a = DownloadArtifact { path, kind: DownloadArtifactKind::Payload };
                let b = DownloadArtifact { path: control, kind: DownloadArtifactKind::Control };
                let ghost before = artifacts@;
                artifacts.push(a);
                artifacts.push(b);
                assert(artifacts_view(artifacts@) =~= artifacts_view(before) + seq![
                    (a.path@, a.kind),
                    (b.path@, b.kind),
                ]);
                let http = match download.source_type {
                    SourceType::Http => true,
                    _ => false,
                };
                return (artifacts, http);
            },
            None => {},
        }
    }
    (artifacts, complete)
}

/// Each path once, in the order first listed.
pub open spec fn first_occurrences(v: Seq<Seq<char>>) -> Seq<Seq<char>>
    decreases v.len(),
{
    if v.len() == 0 {
        v
    } else {
        let rest = first_occurrences(v.drop_last());
        if rest.contains(v.last()) {
            rest
        } else {
            rest.push(v.last())
        }
    }
}

pub open spec fn paths_of_kind(v: Seq<(Seq<char>, DownloadArtifactKind)>, kind: DownloadArtifactKind) -> Seq<Seq<char>>
    decreases v.len(),
{
    if v.len() == 0 {
        Seq::empty()
    } else {
        let rest = paths_of_kind(v.drop_last(), kind);
        if v.last().1 == kind {
            rest.push(v.last().0)
        } else {
            rest
        }
    }
}

fn contains_path(v: &Vec<String>, x: &String) -> (r: bool)
    ensures
        r == strings_view(v@).contains(x@),
{
    let mut i: usize = 0;
    while i < v.len()
        invariant
            i <= v@.len(),
            forall|k: int| 0 <= k < i ==> v@[k]@ != x@,
        decreases v@.len() - i,
    {
        if crate::enums::same_text(v[i].as_str(), x.as_str()) {
            assert(strings_view(v@)[i as int] == x@);
            return true;
        }
        i = i + 1;
    }
    proof {
        if strings_view(v@).contains(x@) {
            let k = choose|k: int| 0 <= k < strings_view(v@).len() && strings_view(v@)[k] == x@;
            assert(v@[k]@ == x@);
        }
    }
    false
}

/// The distinct payload paths and the distinct control-file paths to
/// remove, each in the order first listed.
pub fn removal_targets(artifacts: &Vec<DownloadArtifact>) -> (r: (Vec<String>, Vec<String>))
    ensures
        strings_view(r.0@) == first_occurrences(paths_of_kind(artifacts_view(artifacts@), DownloadArtifactKind::Payload)),
        strings_view(r.1@) == first_occurrences(paths_of_kind(artifacts_view(artifacts@), DownloadArtifactKind::Control)),
{
    let mut payloads: Vec<String> = Vec::new();
    let mut controls: Vec<String> = Vec::new();
    let mut i: usize = 0;
    while i < artifacts.len()
        invariant
            i <= artifacts@.len(),
            strings_view(payloads@) == first_occurrences(paths_of_kind(artifacts_view(artifacts@.take(i as int)), DownloadArtifactKind::Payload)),
            strings_view(controls@) == first_occurrences(paths_of_kind(artifacts_view(artifacts@.take(i as int)), DownloadArtifactKind::Control)),
        decreases artifacts@.len() - i,
    {
        let a = &artifacts[i];
        proof {
            let prev = artifacts_view(artifacts@.take(i as int));
            let next = artifacts_view(artifacts@.take(i + 1));
            assert(next.drop_last() =~= prev);
            assert(next.last() == (a.path@, a.kind));
            let pp = paths_of_kind(prev, DownloadArtifactKind::Payload);
            let pc = paths_of_kind(prev, DownloadArtifactKind::Control);
            assert(pp.push(a.path@).drop_last() =~= pp);
            assert(pc.push(a.path@).drop_last() =~= pc);
        }
        match a.kind {
            DownloadArtifactKind::Payload => {
                if !contains_path(&payloads, &a.path) {
                    let ghost before = payloads@;
                    payloads.push(a.path.clone());
                    assert(strings_view(payloads@) =~= strings_view(before).push(a.path@));
                }
            },
            DownloadArtifactKind::Control => {
                if !contains_path(&controls, &a.path) {
                    let ghost before = controls@;
                    controls.push(a.path.clone());
                    assert(strings_view(controls@) =~= strings_view(before).push(a.path@));
                }
            },
        }
        i = i + 1;
    }
    proof {
        assert(artifacts@.take(i as int) =~= artifacts@);
    }
    (payloads, controls)
}

/// What happened to one payload file.
#[derive(Clone, Copy, Debug, PartialEq, Eq, Structural)]
pub enum FileRemoval {
    Removed,
    /// It was already gone.
    Missing,
}

pub open spec fn count_of(v: Seq<FileRemoval>, which: FileRemoval) -> nat
    decreases v.len(),
{
    if v.len() == 0 {
        0
    } else {
        count_of(v.drop_last(), which) + (if v.last() == which {
            1nat
        } else {
            0nat
        })
    }
}

proof fn lemma_count_bound(v: Seq<FileRemoval>, which: FileRemoval)
    ensures
        count_of(v, which) <= v.len(),
    decreases v.len(),
{
    if v.len() > 0 {
        lemma_count_bound(v.drop_last(), which);
    }
}

/// Sums up the removal of the payloads (control files are not counted);
/// with no payload at all, one counts as missing.
pub fn tally_removals(outcomes: &[FileRemoval], metadata_complete: bool) -> (r: DeleteDownloadFilesResult)
    ensures
        r.removed_payloads == count_of(outcomes@, FileRemoval::Removed),
        r.missing_payloads == (if outcomes@.len() == 0 {
            1
        } else {
            count_of(outcomes@, FileRemoval::Missing)
        }),
        r.metadata_complete == metadata_complete,
{
    let mut removed: u64 = 0;
    let mut missing: u64 = 0;
    let mut i: usize = 0;
    while i < outcomes.len()
        invariant
            i <= outcomes@.len(),
            removed == count_of(outcomes@.take(i as int), FileRemoval::Removed),
            missing == count_of(outcomes@.take(i as int), FileRemoval::Missing),
            removed + missing == i,
        decreases outcomes@.len() - i,
    {
        proof {
            assert(outcomes@.take(i + 1).drop_last() =~= outcomes@.take(i as int));
        }
        match outcomes[i] {
            FileRemoval::Removed => {
                removed = removed + 1;
            },
            FileRemoval::Missing => {
                missing = missing + 1;
            },
        }
        i = i + 1;
    }
    proof {
        assert(outcomes@.take(i as int) =~= outcomes@);
    }
    if outcomes.len() == 0 {
        missing = 1;
    }
    DeleteDownloadFilesResult { removed_payloads: removed, missing_payloads: missing, metadata_complete }
}

pub open spec fn deletion_message(r: DeleteDownloadFilesResult) -> (Seq<char>, ToastLevel) {
    if r.missing_payloads > 0 || !r.metadata_complete {
        let head = if r.missing_payloads > 0 {
            "download removed; "@ + decimal(r.missing_payloads as nat) + " file(s) were already missing"@
        } else {
            "download and known files removed"@
        };
        (
            if !r.metadata_complete {
                head + "; legacy file metadata was incomplete, so untracked files may remain"@
            } else {
                head
            },
            ToastLevel::Warning,
        )
    } else {
        ("download removed with "@ + decimal(r.removed_payloads as nat) + " file(s)"@, ToastLevel::Success)
    }
}

/// The client's toast for a finished deletion with files: a warning when
/// files were missing or may remain, success otherwise, and the error text
/// on failure.
pub fn deletion_toast(result: Result<DeleteDownloadFilesResult, String>) -> (r: (String, ToastLevel))
    ensures
        (r.0@, r.1) == (match result {
            Ok(v) => deletion_message(v),
            Err(e) => (e@, ToastLevel::Error),
        }),
{
    match result {
        Ok(r) => {
            if r.missing_payloads > 0 || !r.metadata_complete {
                let mut message = if r.missing_payloads > 0 {
                    let mut m = "download removed; ".to_owned();
                    push_str(&mut m, decimal_string(r.missing_payloads).as_str());
                    push_str(&mut m, " file(s) were already missing");
                    m
                } else {
                    "download and known files removed".to_owned()
                };
                if !r.metadata_complete {
                    push_str(&mut message, "; legacy file metadata was incomplete, so untracked files may remain");
                }
                (message, ToastLevel::Warning)
            } else {
                let mut m = "download removed with ".to_owned();
                push_str(&mut m, decimal_string(r.removed_payloads).as_str());
                push_str(&mut m, " file(s)");
                (m, ToastLevel::Success)
            }
        },
        Err(e) => (e, ToastLevel::Error),
    }
}

/// A download that is pending, running or paused is still held by aria2
/// and is removed there before its files are deleted.
pub fn held_by_aria2(status: &DownloadStatus) -> (r: bool)
    ensures
        r == (status is Pending || status is Active || status is Paused),
{
    match status {
        DownloadStatus::Pending | DownloadStatus::Active | DownloadStatus::Paused => true,
        _ => false,
    }
}

/// One step of deleting a download with its files. The daemon performs the
/// steps in order and stops at the first that fails.
#[derive(Clone, Debug)]
pub enum DeleteFilesStep {
    /// Store the download as removed, so nothing restarts it meanwhile.
    MarkRemoved,
    /// Remove it from aria2; if aria2 refuses, store `restore` back as the
    /// download's state and fail.
    RemoveFromAria2 { gid: String, restore: DownloadStatus },
    /// Forget aria2's stored result for it; a failure here is ignored.
    ForgetResult { gid: String },
    /// Delete the payload and control files.
    RemoveFiles,
    /// Delete the download's record, only after its files.
    DeleteRecord,
    /// Drop its live transfer state.
    DropLive,
}

/// A step with texts taken by value.
pub enum DeleteFilesStepView {
    MarkRemoved,
    RemoveFromAria2 { gid: Seq<char>, restore: DownloadStatus },
    ForgetResult { gid: Seq<char> },
    RemoveFiles,
    DeleteRecord,
    DropLive,
}

pub open spec fn delete_step_view(s: DeleteFilesStep) -> DeleteFilesStepView {
    match s {
        DeleteFilesStep::MarkRemoved => DeleteFilesStepView::MarkRemoved,
        DeleteFilesStep::RemoveFromAria2 { gid, restore } => DeleteFilesStepView::RemoveFromAria2 { gid: gid@, restore },
        DeleteFilesStep::ForgetResult { gid } => DeleteFilesStepView::ForgetResult { gid: gid@ },
        DeleteFilesStep::RemoveFiles => DeleteFilesStepView::RemoveFiles,
        DeleteFilesStep::DeleteRecord => DeleteFilesStepView::DeleteRecord,
        DeleteFilesStep::DropLive => DeleteFilesStepView::DropLive,
    }
}

/// The steps of deleting `download` with its files: marked removed first;
/// a download aria2 still holds is removed there (its state restored if
/// aria2 refuses); aria2's result is forgotten; then the files go, and only
/// then the record and the live state.
pub open spec fn delete_files_plan(download: Download) -> Seq<DeleteFilesStepView> {
    let tail = seq![DeleteFilesStepView::RemoveFiles, DeleteFilesStepView::DeleteRecord, DeleteFilesStepView::DropLive];
    match download.aria2_gid {
        None => seq![DeleteFilesStepView::MarkRemoved] + tail,
        Some(g) => if download.status is Pending || download.status is Active || download.status is Paused {
            seq![
                DeleteFilesStepView::MarkRemoved,
                DeleteFilesStepView::RemoveFromAria2 { gid: g@, restore: download.status },
                DeleteFilesStepView::ForgetResult { gid: g@ },
            ] + tail
        } else {
            seq![DeleteFilesStepView::MarkRemoved, DeleteFilesStepView::ForgetResult { gid: g@ }] + tail
        },
    }
}

pub fn delete_files_steps(download: &Download) -> (r: Vec<DeleteFilesStep>)
    ensures
        r@.map_values(|s: DeleteFilesStep| delete_step_view(s)) == delete_files_plan(*download),
{
    let mut steps: Vec<DeleteFilesStep> = Vec::new();
    steps.push(DeleteFilesStep::MarkRemoved);
    match &download.aria2_gid {
        Some(gid) => {
            if held_by_aria2(&download.status) {
                steps.push(DeleteFilesStep::RemoveFromAria2 { gid: gid.clone(), restore: crate::enums::status_copy(&download.status) });
            }
            steps.push(DeleteFilesStep::ForgetResult { gid: gid.clone() });
        },
        None => {},
    }
    steps.push(DeleteFilesStep::RemoveFiles);
    steps.push(DeleteFilesStep::DeleteRecord);
    steps.push(DeleteFilesStep::DropLive);
    proof {
        assert(steps@.map_values(|s: DeleteFilesStep| delete_step_view(s)) =~= delete_files_plan(*download));
    }
    steps
}

/// The paths to remove are the listed ones, each once: nothing listed is
/// left out, nothing unlisted is added, and no path comes twice.
pub proof fn law_targets_once_each(v: Seq<Seq<char>>)
    ensures
        forall|x: Seq<char>| v.contains(x) <==> #[trigger] first_occurrences(v).contains(x),
        forall|i: int, j: int|
            0 <= i < j < first_occurrences(v).len() ==> #[trigger] first_occurrences(v)[i]
                != #[trigger] first_occurrences(v)[j],
    decreases v.len(),
{
    if v.len() > 0 {
        let d = v.drop_last();
        law_targets_once_each(d);
        let rest = first_occurrences(d);
        assert forall|x: Seq<char>| v.contains(x) <==> #[trigger] first_occurrences(v).contains(x) by {
            if v.contains(x) {
                let i = choose|i: int| 0 <= i < v.len() && v[i] == x;
                if i < d.len() {
                    assert(d[i] == x);
                    assert(d.contains(x));
                }
            }
            if first_occurrences(v).contains(x) && !rest.contains(x) {
                let i = choose|i: int| 0 <= i < first_occurrences(v).len() && first_occurrences(v)[i] == x;
                assert(i == rest.len());
                assert(v[v.len() - 1] == x);
            }
            if d.contains(x) {
                let i = choose|i: int| 0 <= i < d.len() && d[i] == x;
                assert(v[i] == x);
            }
            if rest.contains(x) {
                let i = choose|i: int| 0 <= i < rest.len() && rest[i] == x;
                assert(first_occurrences(v)[i] == x);
            }
            if x == v.last() {
                assert(v[v.len() - 1] == x);
                if !rest.contains(x) {
                    assert(first_occurrences(v)[rest.len() as int] == x);
                }
            }
        }
    }
}

/// Every payload outcome is counted once, as removed or as already
/// missing.
pub proof fn law_every_payload_counted(outcomes: Seq<FileRemoval>)
    ensures
        count_of(outcomes, FileRemoval::Removed) + count_of(outcomes, FileRemoval::Missing) == outcomes.len(),
    decreases outcomes.len(),
{
    if outcomes.len() > 0 {
        law_every_payload_counted(outcomes.drop_last());
    }
}

/// Deleting with files never drops a stored file from the list; when aria2
/// names at least one payload, every payload and control file it names is
/// listed with its kind, and the list counts as complete.
pub proof fn law_reported_files_are_removed(
    stored: Seq<(Seq<char>, DownloadArtifactKind)>,
    payloads: Seq<Seq<char>>,
    controls: Seq<Seq<char>>,
    download: Download,
)
    ensures
        forall|i: int| 0 <= i < stored.len() ==> delete_artifacts(stored, Some((payloads, controls)), download).0.contains(
            #[trigger] stored[i],
        ),
        payloads.len() > 0 ==> {
            let r = delete_artifacts(stored, Some((payloads, controls)), download);
            &&& forall|i: int| 0 <= i < payloads.len() ==> r.0.contains((#[trigger] payloads[i], DownloadArtifactKind::Payload))
            &&& forall|j: int| 0 <= j < controls.len() ==> r.0.contains((#[trigger] controls[j], DownloadArtifactKind::Control))
            &&& r.1
        },
{
    let r = delete_artifacts(stored, Some((payloads, controls)), download);
    let with_live = if payloads.len() > 0 {
        stored + tagged(payloads, DownloadArtifactKind::Payload) + tagged(controls, DownloadArtifactKind::Control)
    } else {
        stored
    };
    assert(r.0.take(with_live.len() as int) =~= with_live);
    assert forall|i: int| 0 <= i < stored.len() implies r.0.contains(#[trigger] stored[i]) by {
        assert(with_live[i] == stored[i]);
        assert(r.0[i] == stored[i]);
    }
    if payloads.len() > 0 {
        let sp = stored + tagged(payloads, DownloadArtifactKind::Payload);
        assert forall|i: int| 0 <= i < payloads.len() implies r.0.contains(
            (#[trigger] payloads[i], DownloadArtifactKind::Payload),
        ) by {
            let k = stored.len() + i;
            assert(sp[k] == (payloads[i], DownloadArtifactKind::Payload));
            assert(with_live[k] == sp[k]);
            assert(r.0[k] == with_live[k]);
        }
        assert forall|j: int| 0 <= j < controls.len() implies r.0.contains(
            (#[trigger] controls[j], DownloadArtifactKind::Control),
        ) by {
            let k = sp.len() + j;
            assert(with_live[k] == (controls[j], DownloadArtifactKind::Control));
            assert(r.0[k] == with_live[k]);
        }
    }
}

} // verus!

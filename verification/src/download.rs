//! Download records and the requests that create and list them.
use vstd::prelude::*;
use crate::enums::{DownloadStatus, FileCategory, SortField, SourceType};
use crate::finetune::FineTune;
use crate::category::{after_last, last_segment, category_fits, table_view, extension_of};
use crate::config::{Settings, location_for, locations_view, tilde_expanded, opt_string_view, HomeDirError, expand_tilde_in};
use crate::textops::{has_prefix, strip_prefix};
use crate::text::{decimal, decimal_string, push_str};

verus! {

/// One download as the daemon stores it. Instants are nanoseconds since
/// the Unix epoch, in UTC.
#[derive(Clone, Debug)]
pub struct Download {
    pub id: i64,
    /// aria2's own GID for this download
    pub aria2_gid: Option<String>,
    pub url: String,
    pub filename: Option<String>,
    pub destination_path: String,
    pub source_type: SourceType,
    pub category: FileCategory,
    pub status: DownloadStatus,
    pub paused_by_scheduler: bool,
    pub manually_started: bool,
    pub size: Option<u64>,
    pub completed_length: Option<u64>,
    pub queue_id: i64,
    pub position_in_queue: i32,
    pub finetune: FineTune,
    pub created_at: i128,
    pub started_at: Option<i128>,
    pub completed_at: Option<i128>,
}

/// A download together with its live transfer figures.
#[derive(Clone, Debug)]
pub struct DownloadLiveStatus {
    pub download: Download,
    pub completed_length: u64,
    pub download_speed: u64,
    pub eta_seconds: Option<u64>,
}

/// One thing to download.
#[derive(Clone, Debug)]
pub enum AddDownloadInput {
    /// A plain HTTP(S) or magnet URL.
    Url(String),
    /// Raw .torrent file bytes
    TorrentFile { filename: String, data: Vec<u8> },
}

#[derive(Clone, Debug)]
pub struct AddDownloadsRequest {
    pub inputs: Vec<AddDownloadInput>,
    pub queue_id: i64,
    /// `None` = use the queue's `default_finetune` as-is.
    pub finetune_override: Option<FineTune>,
    /// Start the new downloads at once instead of waiting for the queue.
    pub start_immediately: bool,
}

/// Which downloads a listing returns, and in what order.
#[derive(Clone, Debug)]
pub struct DownloadFilter {
    pub queue_id: Option<i64>,
    pub status: Option<DownloadStatus>,
    pub category: Option<FileCategory>,
    pub sort_by: Option<SortField>,
    pub sort_desc: bool,
}

impl Default for DownloadFilter {
    fn default() -> (r: Self)
        ensures
            r.queue_id is None,
            r.status is None,
            r.category is None,
            r.sort_by is None,
            !r.sort_desc,
    {
        DownloadFilter { queue_id: None, status: None, category: None, sort_by: None, sort_desc: false }
    }
}

/// What a file left by a transfer is: downloaded data, or aria2's
/// `.aria2` control file.
#[derive(Clone, Copy, Debug, PartialEq, Eq, Structural)]
pub enum DownloadArtifactKind {
    Payload,
    Control,
}

/// A file on disk that belongs to a download.
#[derive(Clone, Debug)]
pub struct DownloadArtifact {
    pub path: String,
    pub kind: DownloadArtifactKind,
}

pub open spec fn artifacts_view(v: Seq<DownloadArtifact>) -> Seq<(Seq<char>, DownloadArtifactKind)> {
    v.map_values(|a: DownloadArtifact| (a.path@, a.kind))
}

pub open spec fn tagged(paths: Seq<Seq<char>>, kind: DownloadArtifactKind) -> Seq<(Seq<char>, DownloadArtifactKind)> {
    paths.map_values(|p: Seq<char>| (p, kind))
}

/// Appends each path with the given kind.
pub fn push_artifacts(out: &mut Vec<DownloadArtifact>, paths: Vec<String>, kind: DownloadArtifactKind)
    ensures
        artifacts_view(final(out)@) == artifacts_view(old(out)@) + tagged(
            crate::aria2::strings_view(paths@),
            kind,
        ),
{
    let mut i: usize = 0;
    let ghost start = out@;
    while i < paths.len()
        invariant
            i <= paths@.len(),
            artifacts_view(out@) == artifacts_view(start) + tagged(
                crate::aria2::strings_view(paths@.take(i as int)),
                kind,
            ),
        decreases paths@.len() - i,
    {
        let a = DownloadArtifact { path: paths[i].clone(), kind };
        let ghost before = out@;
        out.push(a);
        proof {
            assert(artifacts_view(before.push(a)) =~= artifacts_view(before).push((a.path@, kind)));
            assert(tagged(crate::aria2::strings_view(paths@.take(i + 1)), kind) =~= tagged(
                crate::aria2::strings_view(paths@.take(i as int)),
                kind,
            ).push((paths@[i as int]@, kind)));
        }
        i = i + 1;
    }
    proof {
        assert(paths@.take(i as int) =~= paths@);
    }
}

/// The largest torrent file accepted, in bytes.
pub const MAX_TORRENT_BYTES: usize = 16777216;

/// The base name of an uploaded file: what follows the last `/` or `\`,
/// unless that is empty, `.` or `..`.
pub open spec fn safe_name(filename: Seq<char>) -> Option<Seq<char>> {
    let name = after_last(filename, '/', '\\');
    if name.len() == 0 || name == "."@ || name == ".."@ {
        None
    } else {
        Some(name)
    }
}

pub fn safe_filename(filename: &str) -> (r: Option<String>)
    ensures
        (match r {
            Some(s) => Some(s@),
            None => None,
        }) == safe_name(filename@),
{
    let name = last_segment(filename, '/', '\\');
    if name.as_str().is_empty() || crate::enums::same_text(name.as_str(), ".")
        || crate::enums::same_text(name.as_str(), "..") {
        None
    } else {
        Some(name)
    }
}

/// Why a new download is refused.
#[derive(Clone, Debug, PartialEq, Eq)]
pub enum AddError {
    BadRequest(String),
    PayloadTooLarge(String),
    /// The server itself cannot place the download (no home directory).
    Internal(String),
}

pub enum AddErrorModel {
    BadRequest(Seq<char>),
    PayloadTooLarge(Seq<char>),
    Internal(Seq<char>),
}

pub open spec fn add_error_view(e: AddError) -> AddErrorModel {
    match e {
        AddError::BadRequest(m) => AddErrorModel::BadRequest(m@),
        AddError::PayloadTooLarge(m) => AddErrorModel::PayloadTooLarge(m@),
        AddError::Internal(m) => AddErrorModel::Internal(m@),
    }
}

/// What an input amounts to: the URL to fetch (empty for a torrent file),
/// the file name if known, the kind of source, and the torrent's bytes.
pub struct InputParts {
    pub url: String,
    pub filename: Option<String>,
    pub source_type: SourceType,
    pub torrent_data: Option<Vec<u8>>,
}

pub open spec fn too_large_text() -> Seq<char> {
    "torrent file exceeds the "@ + decimal(MAX_TORRENT_BYTES as nat) + " byte limit"@
}

/// A URL is magnet or plain HTTP by its scheme and named after its last
/// path piece; a torrent file must be non-empty, at most 16 MiB, and have a
/// usable name.
pub open spec fn classified(input: AddDownloadInput) -> Result<(Seq<char>, Option<Seq<char>>, SourceType, Option<Seq<u8>>), AddErrorModel> {
    match input {
        AddDownloadInput::Url(url) => Ok(
            (
                url@,
                Some(after_last(url@, '/', '/')),
                if has_prefix(url@, "magnet:"@) {
                    SourceType::Magnet
                } else {
                    SourceType::Http
                },
                None,
            ),
        ),
        AddDownloadInput::TorrentFile { filename, data } => if data@.len() == 0 {
            Err(AddErrorModel::BadRequest("torrent file must not be empty"@))
        } else if data@.len() > MAX_TORRENT_BYTES {
            Err(AddErrorModel::PayloadTooLarge(too_large_text()))
        } else {
            match safe_name(filename@) {
                Some(name) => Ok((Seq::empty(), Some(name), SourceType::Torrent, Some(data@))),
                None => Err(AddErrorModel::BadRequest("torrent filename is required"@)),
            }
        },
    }
}

pub open spec fn parts_view(p: InputParts) -> (Seq<char>, Option<Seq<char>>, SourceType, Option<Seq<u8>>) {
    (
        p.url@,
        opt_string_view(p.filename),
        p.source_type,
        match p.torrent_data {
            Some(d) => Some(d@),
            None => None,
        },
    )
}

/// Splits an input into what a new download record needs.
pub fn classify_input(input: AddDownloadInput) -> (r: Result<InputParts, AddError>)
    ensures
        (match r {
            Ok(p) => Ok(parts_view(p)),
            Err(e) => Err(add_error_view(e)),
        }) == classified(input),
{
    match input {
        AddDownloadInput::Url(url) => {
            let filename = last_segment(url.as_str(), '/', '/');
            let source_type = match strip_prefix(url.as_str(), "magnet:") {
                Some(_) => SourceType::Magnet,
                None => SourceType::Http,
            };
            Ok(InputParts { url, filename: Some(filename), source_type, torrent_data: None })
        },
        AddDownloadInput::TorrentFile { filename, data } => {
            if data.len() == 0 {
                return Err(AddError::BadRequest("torrent file must not be empty".to_owned()));
            }
            if data.len() > MAX_TORRENT_BYTES {
                let mut m = "torrent file exceeds the ".to_owned();
                push_str(&mut m, decimal_string(MAX_TORRENT_BYTES as u64).as_str());
                push_str(&mut m, " byte limit");
                return Err(AddError::PayloadTooLarge(m));
            }
            match safe_filename(filename.as_str()) {
                Some(name) => {
                    let url = String::new();
                    Ok(InputParts { url, filename: Some(name), source_type: SourceType::Torrent, torrent_data: Some(data) })
                },
                None => Err(AddError::BadRequest("torrent filename is required".to_owned())),
            }
        },
    }
}

/// A category a file name may get under the settings' extension lists;
/// `Other` without a name.
pub open spec fn name_category_fits(settings: Settings, filename: Option<Seq<char>>, c: FileCategory) -> bool {
    match filename {
        Some(f) => category_fits(table_view(settings.category_extensions@), extension_of(f), c),
        None => c == FileCategory::Other,
    }
}

/// The directory a category's downloads go to, with `~/` expanded.
pub open spec fn category_dir(settings: Settings, c: FileCategory, home: Option<String>) -> Result<
    Seq<char>,
    HomeDirError,
> {
    tilde_expanded(
        location_for(locations_view(settings.category_locations@), c, settings.default_download_location@),
        opt_string_view(home),
    )
}

/// A new, pending download record built from an input: its category, its
/// directory (the category's, with `~/` expanded against `home`), and the
/// queue, position and tuning it was added with. The record has no id yet.
pub fn new_download(
    input: AddDownloadInput,
    queue_id: i64,
    position: i32,
    finetune: FineTune,
    settings: &Settings,
    home: Option<String>,
    now: i128,
) -> (r: Result<(Download, Option<Vec<u8>>), AddError>)
    ensures
        classified(input) matches Err(e) ==> (r matches Err(x) && add_error_view(x) == e),
        classified(input) matches Ok(parts) ==> {
            &&& r matches Err(x) ==> add_error_view(x) == AddErrorModel::Internal(
                "could not determine home directory"@,
            ) && exists|c: FileCategory| #[trigger] name_category_fits(*settings, parts.1, c) && category_dir(
                *settings,
                c,
                home,
            ) is Err
            &&& home is Some ==> r is Ok
            &&& r matches Ok(out) ==> {
                let (dl, data) = out;
                &&& dl.url@ == parts.0
                &&& opt_string_view(dl.filename) == parts.1
                &&& dl.source_type == parts.2
                &&& (match data { Some(v) => Some(v@), None => None }) == parts.3
                &&& name_category_fits(*settings, parts.1, dl.category)
                &&& category_dir(*settings, dl.category, home) == Ok::<Seq<char>, HomeDirError>(dl.destination_path@)
                &&& dl.status == DownloadStatus::Pending
                &&& dl.aria2_gid is None
                &&& !dl.paused_by_scheduler && !dl.manually_started
                &&& dl.size is None && dl.completed_length is None
                &&& dl.queue_id == queue_id && dl.position_in_queue == position
                &&& dl.finetune == finetune
                &&& dl.created_at == now && dl.started_at is None && dl.completed_at is None
                &&& dl.id == 0
            }
        },
{
    let parts = match classify_input(input) {
        Ok(p) => p,
        Err(e) => {
            return Err(e);
        },
    };
    let category = match &parts.filename {
        Some(f) => FileCategory::infer_from_filename(f.as_str(), &settings.category_extensions),
        None => FileCategory::Other,
    };
    let configured = settings.location_of(category);
    let ghost home_given = home;
    proof {
        assert(name_category_fits(*settings, parts_view(parts).1, category));
    }
    let destination_path = match expand_tilde_in(configured.as_str(), home) {
        Ok(d) => d,
        Err(_) => {
            proof {
                assert(category_dir(*settings, category, home_given) is Err);
            }
            return Err(AddError::Internal("could not determine home directory".to_owned()));
        },
    };
    let download = Download {
        id: 0,
        aria2_gid: None,
        url: parts.url,
        filename: parts.filename,
        destination_path,
        source_type: parts.source_type,
        category,
        status: DownloadStatus::Pending,
        paused_by_scheduler: false,
        manually_started: false,
        size: None,
        completed_length: None,
        queue_id,
        position_in_queue: position,
        finetune,
        created_at: now,
        started_at: None,
        completed_at: None,
    };
    Ok((download, parts.torrent_data))
}

} // verus!

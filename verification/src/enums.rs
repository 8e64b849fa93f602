//! The plain enumerations shared by the daemon and the terminal client, and
//! their persisted text forms.
use vstd::prelude::*;

verus! {

/// Lifecycle of one download item.
#[derive(Clone, Debug, PartialEq, Eq)]
pub enum DownloadStatus {
    Pending,
    Active,
    Paused,
    Completed,
    Error(String),
    Removed,
}

/// Stored control state of a queue.
#[derive(Clone, Copy, Debug, PartialEq, Eq, Structural)]
pub enum QueueStatus {
    Paused,
    Active,
}

#[derive(Clone, Copy, Debug, PartialEq, Eq, Hash, Structural)]
pub enum FileCategory {
    Video,
    Music,
    Document,
    Archive,
    Program,
    Other,
}

#[derive(Clone, Copy, Debug, PartialEq, Eq, Structural)]
pub enum SourceType {
    Http,
    Torrent,
    Magnet,
}

/// aria2 `--file-allocation`
#[derive(Clone, Copy, Debug, PartialEq, Eq, Structural)]
pub enum AllocStrategy {
    NoAllocation,
    Prealloc,
    Falloc,
    Trunc,
}

/// aria2 `--stream-piece-selector`
#[derive(Clone, Copy, Debug, PartialEq, Eq, Structural)]
pub enum StreamPieceSelector {
    Default,
    InOrder,
    Random,
    Geom,
}

#[derive(Clone, Copy, Debug, PartialEq, Eq, Structural)]
pub enum SortField {
    CreatedAt,
    Size,
    Name,
    QueuePosition,
}

/// String equality (`PartialEq` for `str`).
#[verifier::external_body]
pub(crate) fn same_text(a: &str, b: &str) -> (r: bool)
    ensures
        r == (a@ == b@),
{
    a == b
}

/// A copy of a status that keeps any error message.
pub fn status_copy(s: &DownloadStatus) -> (r: DownloadStatus)
    ensures
        r == *s,
{
    match s {
        DownloadStatus::Pending => DownloadStatus::Pending,
        DownloadStatus::Active => DownloadStatus::Active,
        DownloadStatus::Paused => DownloadStatus::Paused,
        DownloadStatus::Completed => DownloadStatus::Completed,
        DownloadStatus::Error(m) => DownloadStatus::Error(m.clone()),
        DownloadStatus::Removed => DownloadStatus::Removed,
    }
}

/// What a status says, with an error's message as characters.
pub enum StatusModel {
    Pending,
    Active,
    Paused,
    Completed,
    Error(Seq<char>),
    Removed,
}

impl View for DownloadStatus {
    type V = StatusModel;

    open spec fn view(&self) -> StatusModel {
        match self {
            DownloadStatus::Pending => StatusModel::Pending,
            DownloadStatus::Active => StatusModel::Active,
            DownloadStatus::Paused => StatusModel::Paused,
            DownloadStatus::Completed => StatusModel::Completed,
            DownloadStatus::Error(m) => StatusModel::Error(m@),
            DownloadStatus::Removed => StatusModel::Removed,
        }
    }
}

pub open spec fn opt_status_view(s: Option<DownloadStatus>) -> Option<StatusModel> {
    match s {
        Some(t) => Some(t@),
        None => None,
    }
}

/// A download is settled once it has completed, failed or been removed.
pub open spec fn is_settled(s: DownloadStatus) -> bool {
    s is Completed || s is Error || s is Removed
}

pub open spec fn status_name(s: DownloadStatus) -> Seq<char> {
    match s {
        DownloadStatus::Pending => "Pending"@,
        DownloadStatus::Active => "Active"@,
        DownloadStatus::Paused => "Paused"@,
        DownloadStatus::Completed => "Completed"@,
        DownloadStatus::Error(_) => "Error"@,
        DownloadStatus::Removed => "Removed"@,
    }
}

/// Column text and error text under which a status is stored.
pub fn status_to_str(s: &DownloadStatus) -> (r: (&'static str, Option<String>))
    ensures
        r.0@ == status_name(*s),
        r.1 == (match *s {
            DownloadStatus::Error(m) => Some(m),
            _ => None,
        }),
{
    match s {
        DownloadStatus::Pending => ("Pending", None),
        DownloadStatus::Active => ("Active", None),
        DownloadStatus::Paused => ("Paused", None),
        DownloadStatus::Completed => ("Completed", None),
        DownloadStatus::Error(msg) => ("Error", Some(msg.clone())),
        DownloadStatus::Removed => ("Removed", None),
    }
}

/// The stored column text that a value read back denotes: unknown text
/// reads as `Pending`.
pub open spec fn canonical_status_name(s: Seq<char>) -> Seq<char> {
    if s == "Active"@ || s == "Paused"@ || s == "Completed"@ || s == "Error"@ || s
        == "Removed"@ {
        s
    } else {
        "Pending"@
    }
}

/// Reads a stored status; an `Error` row without error text gets an empty
/// message.
pub fn status_from_str(s: &str, err: Option<String>) -> (r: DownloadStatus)
    ensures
        status_name(r) == canonical_status_name(s@),
        r matches DownloadStatus::Error(m) ==> (match err {
            Some(e) => m == e,
            None => m@ == Seq::<char>::empty(),
        }),
{
    if same_text(s, "Active") {
        DownloadStatus::Active
    } else if same_text(s, "Paused") {
        DownloadStatus::Paused
    } else if same_text(s, "Completed") {
        DownloadStatus::Completed
    } else if same_text(s, "Error") {
        DownloadStatus::Error(
            match err {
                Some(m) => m,
                None => String::new(),
            },
        )
    } else if same_text(s, "Removed") {
        DownloadStatus::Removed
    } else {
        DownloadStatus::Pending
    }
}

pub open spec fn queue_status_name(s: QueueStatus) -> Seq<char> {
    match s {
        QueueStatus::Paused => "Paused"@,
        QueueStatus::Active => "Active"@,
    }
}

pub fn queue_status_to_str(s: &QueueStatus) -> (r: &'static str)
    ensures
        r@ == queue_status_name(*s),
{
    match s {
        QueueStatus::Paused => "Paused",
        QueueStatus::Active => "Active",
    }
}

pub open spec fn queue_status_from_name(s: Seq<char>) -> QueueStatus {
    if s == "Active"@ {
        QueueStatus::Active
    } else {
        QueueStatus::Paused
    }
}

pub fn queue_status_from_str(s: &str) -> (r: QueueStatus)
    ensures
        r == queue_status_from_name(s@),
{
    if same_text(s, "Active") {
        QueueStatus::Active
    } else {
        QueueStatus::Paused
    }
}

pub open spec fn category_name(c: FileCategory) -> Seq<char> {
    match c {
        FileCategory::Video => "Video"@,
        FileCategory::Music => "Music"@,
        FileCategory::Document => "Document"@,
        FileCategory::Archive => "Archive"@,
        FileCategory::Program => "Program"@,
        FileCategory::Other => "Other"@,
    }
}

pub fn category_to_str(c: &FileCategory) -> (r: &'static str)
    ensures
        r@ == category_name(*c),
{
    match c {
        FileCategory::Video => "Video",
        FileCategory::Music => "Music",
        FileCategory::Document => "Document",
        FileCategory::Archive => "Archive",
        FileCategory::Program => "Program",
        FileCategory::Other => "Other",
    }
}

pub open spec fn category_from_name(s: Seq<char>) -> FileCategory {
    if s == "Video"@ {
        FileCategory::Video
    } else if s == "Music"@ {
        FileCategory::Music
    } else if s == "Document"@ {
        FileCategory::Document
    } else if s == "Archive"@ {
        FileCategory::Archive
    } else if s == "Program"@ {
        FileCategory::Program
    } else {
        FileCategory::Other
    }
}

pub fn category_from_str(s: &str) -> (r: FileCategory)
    ensures
        r == category_from_name(s@),
{
    if same_text(s, "Video") {
        FileCategory::Video
    } else if same_text(s, "Music") {
        FileCategory::Music
    } else if same_text(s, "Document") {
        FileCategory::Document
    } else if same_text(s, "Archive") {
        FileCategory::Archive
    } else if same_text(s, "Program") {
        FileCategory::Program
    } else {
        FileCategory::Other
    }
}

/// Display label of a category; the same text as its stored name.
pub fn category_label(c: &FileCategory) -> (r: String)
    ensures
        r@ == category_name(*c),
{
    String::from_str(category_to_str(c))
}

pub open spec fn source_name(s: SourceType) -> Seq<char> {
    match s {
        SourceType::Http => "Http"@,
        SourceType::Torrent => "Torrent"@,
        SourceType::Magnet => "Magnet"@,
    }
}

pub fn source_to_str(s: &SourceType) -> (r: &'static str)
    ensures
        r@ == source_name(*s),
{
    match s {
        SourceType::Http => "Http",
        SourceType::Torrent => "Torrent",
        SourceType::Magnet => "Magnet",
    }
}

pub open spec fn source_from_name(s: Seq<char>) -> SourceType {
    if s == "Torrent"@ {
        SourceType::Torrent
    } else if s == "Magnet"@ {
        SourceType::Magnet
    } else {
        SourceType::Http
    }
}

pub fn source_from_str(s: &str) -> (r: SourceType)
    ensures
        r == source_from_name(s@),
{
    if same_text(s, "Torrent") {
        SourceType::Torrent
    } else if same_text(s, "Magnet") {
        SourceType::Magnet
    } else {
        SourceType::Http
    }
}

pub open spec fn alloc_strategy_name(a: AllocStrategy) -> Seq<char> {
    match a {
        AllocStrategy::NoAllocation => "none"@,
        AllocStrategy::Prealloc => "prealloc"@,
        AllocStrategy::Falloc => "falloc"@,
        AllocStrategy::Trunc => "trunc"@,
    }
}

/// aria2's name for a file-allocation strategy.
pub fn alloc_strategy_str(a: &AllocStrategy) -> (r: &'static str)
    ensures
        r@ == alloc_strategy_name(*a),
{
    match a {
        AllocStrategy::NoAllocation => "none",
        AllocStrategy::Prealloc => "prealloc",
        AllocStrategy::Falloc => "falloc",
        AllocStrategy::Trunc => "trunc",
    }
}

pub fn alloc_strategy_label(a: &AllocStrategy) -> (r: String)
    ensures
        r@ == alloc_strategy_name(*a),
{
    String::from_str(alloc_strategy_str(a))
}

pub open spec fn alloc_strategy_from_name(s: Seq<char>) -> Option<AllocStrategy> {
    if s == "none"@ {
        Some(AllocStrategy::NoAllocation)
    } else if s == "prealloc"@ {
        Some(AllocStrategy::Prealloc)
    } else if s == "falloc"@ {
        Some(AllocStrategy::Falloc)
    } else if s == "trunc"@ {
        Some(AllocStrategy::Trunc)
    } else {
        None
    }
}

pub fn alloc_strategy_from_str(s: &str) -> (r: Option<AllocStrategy>)
    ensures
        r == alloc_strategy_from_name(s@),
{
    if same_text(s, "none") {
        Some(AllocStrategy::NoAllocation)
    } else if same_text(s, "prealloc") {
        Some(AllocStrategy::Prealloc)
    } else if same_text(s, "falloc") {
        Some(AllocStrategy::Falloc)
    } else if same_text(s, "trunc") {
        Some(AllocStrategy::Trunc)
    } else {
        None
    }
}

pub open spec fn stream_piece_selector_name(p: StreamPieceSelector) -> Seq<char> {
    match p {
        StreamPieceSelector::Default => "default"@,
        StreamPieceSelector::InOrder => "inorder"@,
        StreamPieceSelector::Random => "random"@,
        StreamPieceSelector::Geom => "geom"@,
    }
}

/// aria2's name for a stream piece selector.
pub fn stream_piece_selector_str(p: &StreamPieceSelector) -> (r: &'static str)
    ensures
        r@ == stream_piece_selector_name(*p),
{
    match p {
        StreamPieceSelector::Default => "default",
        StreamPieceSelector::InOrder => "inorder",
        StreamPieceSelector::Random => "random",
        StreamPieceSelector::Geom => "geom",
    }
}

pub fn stream_piece_selector_label(p: &StreamPieceSelector) -> (r: String)
    ensures
        r@ == stream_piece_selector_name(*p),
{
    String::from_str(stream_piece_selector_str(p))
}

pub open spec fn stream_piece_selector_from_name(s: Seq<char>) -> Option<StreamPieceSelector> {
    if s == "default"@ {
        Some(StreamPieceSelector::Default)
    } else if s == "inorder"@ {
        Some(StreamPieceSelector::InOrder)
    } else if s == "random"@ {
        Some(StreamPieceSelector::Random)
    } else if s == "geom"@ {
        Some(StreamPieceSelector::Geom)
    } else {
        None
    }
}

pub fn stream_piece_selector_from_str(s: &str) -> (r: Option<StreamPieceSelector>)
    ensures
        r == stream_piece_selector_from_name(s@),
{
    if same_text(s, "default") {
        Some(StreamPieceSelector::Default)
    } else if same_text(s, "inorder") {
        Some(StreamPieceSelector::InOrder)
    } else if same_text(s, "random") {
        Some(StreamPieceSelector::Random)
    } else if same_text(s, "geom") {
        Some(StreamPieceSelector::Geom)
    } else {
        None
    }
}

/// A status's stored name is one that reads back as itself.
pub proof fn law_status_round_trip(s: DownloadStatus)
    ensures
        canonical_status_name(status_name(s)) == status_name(s),
{
    reveal_strlit("Pending");
    reveal_strlit("Active");
    reveal_strlit("Paused");
    reveal_strlit("Completed");
    reveal_strlit("Error");
    reveal_strlit("Removed");
}

/// Every stored category, queue status and source type reads back as itself.
pub proof fn law_names_round_trip(c: FileCategory, q: QueueStatus, t: SourceType)
    ensures
        category_from_name(category_name(c)) == c,
        queue_status_from_name(queue_status_name(q)) == q,
        source_from_name(source_name(t)) == t,
{
    reveal_strlit("Video");
    assert("Video"@[0] == 'V');
    reveal_strlit("Music");
    assert("Music"@[0] == 'M');
    reveal_strlit("Document");
    assert("Document"@[0] == 'D');
    reveal_strlit("Archive");
    assert("Archive"@[0] == 'A');
    reveal_strlit("Program");
    assert("Program"@[0] == 'P');
    reveal_strlit("Other");
    assert("Other"@[0] == 'O');
    reveal_strlit("Paused");
    assert("Paused"@[0] == 'P');
    reveal_strlit("Active");
    assert("Active"@[0] == 'A');
    reveal_strlit("Http");
    assert("Http"@[0] == 'H');
    reveal_strlit("Torrent");
    assert("Torrent"@[0] == 'T');
    reveal_strlit("Magnet");
    assert("Magnet"@[0] == 'M');
}

/// aria2 option names read back as the strategy and selector they name.
pub proof fn law_aria2_names_round_trip(a: AllocStrategy, p: StreamPieceSelector)
    ensures
        alloc_strategy_from_name(alloc_strategy_name(a)) == Some(a),
        stream_piece_selector_from_name(stream_piece_selector_name(p)) == Some(p),
{
    reveal_strlit("none");
    assert("none"@[0] == 'n');
    reveal_strlit("prealloc");
    assert("prealloc"@[0] == 'p');
    reveal_strlit("falloc");
    assert("falloc"@[0] == 'f');
    reveal_strlit("trunc");
    assert("trunc"@[0] == 't');
    reveal_strlit("default");
    assert("default"@[0] == 'd');
    reveal_strlit("inorder");
    assert("inorder"@[0] == 'i');
    reveal_strlit("random");
    assert("random"@[0] == 'r');
    reveal_strlit("geom");
    assert("geom"@[0] == 'g');
}

} // verus!

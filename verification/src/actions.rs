//! What pausing, resuming and starting one download asks of aria2.
use vstd::prelude::*;
use crate::enums::{DownloadStatus, SourceType};
use crate::download::Download;
use crate::aria2::{Aria2AddMode, finetune_to_options, option_entries, pairs_view};

verus! {

/// The character of a six-bit value in the standard Base64 alphabet
/// (RFC 4648): `A`-`Z`, `a`-`z`, `0`-`9`, `+`, `/`.
pub open spec fn base64_char(v: int) -> char {
    if v < 26 {
        (65 + v) as char
    } else if v < 52 {
        (97 + v - 26) as char
    } else if v < 62 {
        (48 + v - 52) as char
    } else if v == 62 {
        '+'
    } else {
        '/'
    }
}

/// The standard Base64 text of some bytes: each group of three bytes as
/// four characters of six bits each, a last group of one or two bytes
/// padded with `=`.
pub open spec fn base64_text(data: Seq<u8>) -> Seq<char>
    decreases data.len(),
{
    if data.len() == 0 {
        Seq::empty()
    } else if data.len() == 1 {
        let a = data[0] as int;
        seq![base64_char(a / 4), base64_char((a % 4) * 16), '=', '=']
    } else if data.len() == 2 {
        let a = data[0] as int;
        let b = data[1] as int;
        seq![base64_char(a / 4), base64_char((a % 4) * 16 + b / 16), base64_char((b % 16) * 4), '=']
    } else {
        let a = data[0] as int;
        let b = data[1] as int;
        let c = data[2] as int;
        seq![
            base64_char(a / 4),
            base64_char((a % 4) * 16 + b / 16),
            base64_char((b % 16) * 4 + c / 64),
            base64_char(c % 64),
        ] + base64_text(data.skip(3))
    }
}

/// `base64::engine::general_purpose::STANDARD.encode`: the standard
/// alphabet with `=` padding, four characters for every started group of
/// three bytes.
#[verifier::external_body]
fn base64_encode(data: &[u8]) -> (r: String)
    ensures
        r@ == base64_text(data@),
        r@.len() == 4 * ((data@.len() + 2) / 3),
{
    base64::Engine::encode(&base64::engine::general_purpose::STANDARD, data)
}

/// The aria2 call that starts a download.
#[derive(Clone, Debug)]
pub enum Aria2AddCall {
    /// `aria2.addUri` for an HTTP(S) or magnet URL.
    Uri { url: String, options: Vec<(String, String)> },
    /// `aria2.addTorrent` with the Base64 of the stored metainfo.
    Torrent { encoded: String, options: Vec<(String, String)> },
}

/// Why a download cannot be handed to aria2.
#[derive(Clone, Copy, Debug, PartialEq, Eq, Structural)]
pub enum StartError {
    /// A torrent download whose metainfo was never stored.
    MissingMetainfo,
    /// The download is running or still finishing a pause.
    Conflict,
    /// Never started in aria2, so there is nothing to pause.
    NotStarted,
}

/// The call that starts `download` in aria2 with the given add mode; a
/// torrent needs its stored metainfo (`torrent_data`).
pub fn start_in_aria2(download: &Download, torrent_data: Option<&Vec<u8>>, mode: Aria2AddMode) -> (r:
    Result<Aria2AddCall, StartError>)
    ensures
        download.source_type == SourceType::Torrent && torrent_data is None ==> r == Err::<
            Aria2AddCall,
            StartError,
        >(StartError::MissingMetainfo),
        download.source_type == SourceType::Torrent && torrent_data is Some ==> (
        r matches Ok(Aria2AddCall::Torrent { encoded, options }) && encoded@ == base64_text(torrent_data->0@)
            && pairs_view(options@) == option_entries(
            download.finetune,
            download.destination_path@,
            mode,
        )),
        download.source_type != SourceType::Torrent ==> (r matches Ok(
            Aria2AddCall::Uri { url, options },
        ) && url@ == download.url@ && pairs_view(options@) == option_entries(
            download.finetune,
            download.destination_path@,
            mode,
        )),
{
    let options = finetune_to_options(&download.finetune, download.destination_path.as_str(), mode);
    match download.source_type {
        SourceType::Torrent => match torrent_data {
            Some(d) => Ok(Aria2AddCall::Torrent { encoded: base64_encode(d.as_slice()), options }),
            None => Err(StartError::MissingMetainfo),
        },
        SourceType::Http | SourceType::Magnet => Ok(
            Aria2AddCall::Uri { url: download.url.clone(), options },
        ),
    }
}

/// The message a failed start reports.
pub open spec fn start_error_text(e: StartError) -> Seq<char> {
    match e {
        StartError::MissingMetainfo => "torrent metainfo is unavailable; add the .torrent file again"@,
        StartError::Conflict => "download is active or still finishing a pause"@,
        StartError::NotStarted => "download has not been started in aria2 yet"@,
    }
}

pub fn start_error_message(e: StartError) -> (r: &'static str)
    ensures
        r@ == start_error_text(e),
{
    match e {
        StartError::MissingMetainfo => "torrent metainfo is unavailable; add the .torrent file again",
        StartError::Conflict => "download is active or still finishing a pause",
        StartError::NotStarted => "download has not been started in aria2 yet",
    }
}

/// How a resume request is carried out.
#[derive(Clone, Copy, Debug, PartialEq, Eq, Structural)]
pub enum ResumeStep {
    /// Drop the old aria2 entry and add the download again in this mode.
    Readd(Aria2AddMode),
    /// Unpause the paused aria2 entry.
    Unpause,
    /// Add it to aria2 for the first time.
    Start,
}

pub open spec fn resume_step_for(status: DownloadStatus, has_gid: bool) -> Result<ResumeStep, StartError> {
    match status {
        DownloadStatus::Active => Err(StartError::Conflict),
        DownloadStatus::Error(_) => Ok(ResumeStep::Readd(Aria2AddMode::Retry)),
        DownloadStatus::Removed => Ok(ResumeStep::Readd(Aria2AddMode::Retry)),
        DownloadStatus::Completed => Ok(ResumeStep::Readd(Aria2AddMode::Restart)),
        _ => if has_gid {
            Ok(ResumeStep::Unpause)
        } else {
            Ok(ResumeStep::Start)
        },
    }
}

/// A resume: refused while active; a failed or removed download is retried
/// on its partial file; a completed one restarts from scratch (its
/// completion time and progress are cleared); a paused one is unpaused, and
/// one never handed to aria2 is started.
pub fn resume_plan(status: &DownloadStatus, has_gid: bool) -> (r: Result<ResumeStep, StartError>)
    ensures
        r == resume_step_for(*status, has_gid),
        (status is Paused || status is Pending) && has_gid ==> r == Ok::<ResumeStep, StartError>(ResumeStep::Unpause),
        (status is Paused || status is Pending) && !has_gid ==> r == Ok::<ResumeStep, StartError>(ResumeStep::Start),
{
    match status {
        DownloadStatus::Active => Err(StartError::Conflict),
        DownloadStatus::Error(_) | DownloadStatus::Removed => Ok(ResumeStep::Readd(Aria2AddMode::Retry)),
        DownloadStatus::Completed => Ok(ResumeStep::Readd(Aria2AddMode::Restart)),
        _ => if has_gid {
            Ok(ResumeStep::Unpause)
        } else {
            Ok(ResumeStep::Start)
        },
    }
}

/// A pause needs the download's aria2 GID.
pub fn pause_target(download: &Download) -> (r: Result<String, StartError>)
    ensures
        download.aria2_gid matches Some(g) ==> (r matches Ok(s) && s@ == g@),
        download.aria2_gid is None ==> r == Err::<String, StartError>(StartError::NotStarted),
{
    match &download.aria2_gid {
        Some(g) => Ok(g.clone()),
        None => Err(StartError::NotStarted),
    }
}

/// A running download (also one whose pause is not yet confirmed) is never
/// touched by a resume: the request is refused as a conflict, with no step
/// for aria2. A completed one is never merely unpaused.
pub proof fn law_resume_never_restarts_running(status: DownloadStatus, has_gid: bool)
    ensures
        status is Active ==> resume_step_for(status, has_gid) == Err::<ResumeStep, StartError>(
            StartError::Conflict,
        ),
        status is Completed ==> resume_step_for(status, has_gid) == Ok::<ResumeStep, StartError>(
            ResumeStep::Readd(Aria2AddMode::Restart),
        ),
{
}

/// A paused or pending download that aria2 already holds is unpaused
/// there, not added again; one aria2 never got is started.
pub proof fn law_resume_unpauses_held_downloads(status: DownloadStatus, has_gid: bool)
    requires
        status is Paused || status is Pending,
    ensures
        has_gid ==> resume_step_for(status, has_gid) == Ok::<ResumeStep, StartError>(ResumeStep::Unpause),
        !has_gid ==> resume_step_for(status, has_gid) == Ok::<ResumeStep, StartError>(ResumeStep::Start),
{
}

} // verus!

//! What the client's status bar shows: the server and aria2 indicators, the
//! active filter, the errors, and the speed cluster while downloads run.
use vstd::prelude::*;
use crate::client::{App, category_at, category_row};
use crate::enums::DownloadStatus;
use crate::glyphs::GlyphMode;
use crate::panes::{ServerStatus, filter_indicator_label, filter_label_text, server_status, status_of_server};
use crate::schedule::opt_text;
use crate::text::push_str;
use crate::units::{bytes_text, format_bytes};

verus! {

/// The pieces of the status bar, left to right.
#[derive(Clone, Debug)]
pub struct StatusBar {
    pub server: ServerStatus,
    pub aria2_up: bool,
    /// The active filter's label.
    pub filter: Option<String>,
    /// The client's last error.
    pub error: Option<String>,
    /// The failure message of the selected download.
    pub download_error: Option<String>,
    /// The speed label, shown only while downloads are active.
    pub speed: Option<String>,
    /// Whether the speed history is drawn next to the label.
    pub sparkline: bool,
}

/// The selected queue's name, when a queue (not "All") is selected.
pub open spec fn selected_queue_name(app: App) -> Option<Seq<char>> {
    if app.selected_queue != 0 && app.selected_queue - 1 < app.queues@.len() {
        Some(app.queues@[app.selected_queue - 1].name@)
    } else {
        None
    }
}

/// The selected download's failure message, if it failed.
pub open spec fn selected_failure(app: App) -> Option<Seq<char>> {
    if app.selected_download < app.downloads@.len() {
        match app.downloads@[app.selected_download as int].download.status {
            DownloadStatus::Error(m) => Some(m@),
            _ => None,
        }
    } else {
        None
    }
}

/// The speed shown: the smoothed one once there is one.
pub open spec fn shown_speed(app: App) -> u64 {
    match app.smoothed_download_speed {
        Some(s) => s,
        None => app.total_download_speed,
    }
}

fn selected_queue_name_of(app: &App) -> (r: Option<&str>)
    ensures
        crate::schedule::opt_str_text(r) == selected_queue_name(*app),
{
    if app.selected_queue != 0 && app.selected_queue - 1 < app.queues.len() {
        Some(app.queues[app.selected_queue - 1].name.as_str())
    } else {
        None
    }
}

fn selected_failure_of(app: &App) -> (r: Option<String>)
    ensures
        opt_text(r) == selected_failure(*app),
{
    if app.selected_download < app.downloads.len() {
        match &app.downloads[app.selected_download].download.status {
            DownloadStatus::Error(m) => Some(m.clone()),
            _ => None,
        }
    } else {
        None
    }
}

/// The status bar for the client's state with glyphs of `mode`: the speed
/// cluster appears only while downloads are active, with the history drawn
/// unless glyphs are ASCII; errors use the rest of the bar.
pub fn status_bar(app: &App, mode: GlyphMode) -> (r: StatusBar)
    ensures
        r.server == status_of_server(app.manages_server, app.server_reachable, app.lifecycle@),
        r.aria2_up == app.aria2_reachable,
        opt_text(r.filter) == filter_label_text(
            selected_queue_name(*app),
            if app.selected_category != 0 {
                category_row(app.selected_category - 1)
            } else {
                None
            },
        ),
        opt_text(r.error) == opt_text(app.last_error),
        opt_text(r.download_error) == selected_failure(*app),
        r.speed is Some <==> app.active_downloads > 0,
        r.speed matches Some(s) ==> s@ == bytes_text(shown_speed(*app) as nat) + "/s "@,
        r.sparkline == (app.active_downloads > 0 && mode != GlyphMode::Ascii),
{
    let server = server_status(app.manages_server, app.server_reachable, &app.lifecycle);
    let category = if app.selected_category != 0 {
        category_at(app.selected_category - 1)
    } else {
        None
    };
    let filter = filter_indicator_label(selected_queue_name_of(app), category);
    let error = match &app.last_error {
        Some(e) => Some(e.clone()),
        None => None,
    };
    let active = app.active_downloads > 0;
    let speed = if active {
        let mut label = format_bytes(app.displayed_download_speed());
        push_str(&mut label, "/s ");
        Some(label)
    } else {
        None
    };
    StatusBar {
        server,
        aria2_up: app.aria2_reachable,
        filter,
        error,
        download_error: selected_failure_of(app),
        speed,
        sparkline: active && mode != GlyphMode::Ascii,
    }
}

} // verus!

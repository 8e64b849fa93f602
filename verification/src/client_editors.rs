//! The client's queue editor and torrent form, as the main state opens,
//! drives and closes them.
use vstd::prelude::*;
use crate::client::{App, RefreshRequest, filter_matches};
use crate::client_forms::{TorrentSubmission, form_queue_cursor};
use crate::clock::instant_in_zone_range;
use crate::download::{Download, DownloadFilter, DownloadLiveStatus};
use crate::enums::SortField;
use crate::keys::{is_control_char, without_last_cluster};
use crate::overlays::{ToastLevel, clipboard_queue_cursor, live_toasts, pushed_toasts};
use crate::panes::{adjusted_field, field_steppable};
use crate::queue::Queue;
use crate::queue_editor::{
    OnceWindow, QueueModal, QueueModalMode, QueueSaveRequest, adjust_ok, adjusted_modal, day_toggled, erased,
    filled_from, item_moved_down, save_error_text, saved_from, RecurrenceKind, item_moved_up, modal_wf, moved_down, moved_up, tab_after, tab_before, text_edit_confirmed,
    text_edit_started, typed, window_wf,
};
use crate::schedule::{Recurrence, recurrence_valid};
use crate::textops::trimmed;
use crate::torrent_form::{
    TORRENT_TUNING_LAST_ROW, TorrentFileModal, TorrentFileModalTab, override_of, queue_at_or_main, stepped_cursor,
};

verus! {

/// A stored queue the editor can show: a valid schedule, and a one-time
/// window away from the calendar's limits.
pub open spec fn editable(q: Queue) -> bool {
    &&& recurrence_valid(q.scheduler.recurrence)
    &&& q.scheduler.recurrence matches Recurrence::Once { start, end } ==> instant_in_zone_range(start as int)
        && instant_in_zone_range(end as int)
}

fn queue_editable(q: &Queue) -> (r: bool)
    ensures
        r == editable(*q),
{
    match &q.scheduler.recurrence {
        Recurrence::Once { start, end } => {
            let lo: i128 = (crate::clock::MIN_DAY as i128 + 2 - crate::clock::EPOCH_DAY as i128)
                * crate::clock::NANOS_PER_DAY;
            let hi: i128 = (crate::clock::MAX_DAY as i128 - 1 - crate::clock::EPOCH_DAY as i128)
                * crate::clock::NANOS_PER_DAY;
            lo <= *start && *start < hi && lo <= *end && *end < hi
        },
        Recurrence::Weekly { start_time, end_time, .. } => start_time.secs < crate::clock::SECONDS_PER_DAY
            && start_time.frac < 2_000_000_000 && (start_time.frac < 1_000_000_000 || start_time.secs % 60 == 59)
            && end_time.secs < crate::clock::SECONDS_PER_DAY && end_time.frac < 2_000_000_000 && (end_time.frac
            < 1_000_000_000 || end_time.secs % 60 == 59),
    }
}

/// The editor state changes only inside the open queue editor.
pub open spec fn editor_step(a: App, b: App, rel: spec_fn(QueueModal, QueueModal) -> bool) -> bool {
    &&& b == (App { queue_modal: b.queue_modal, ..a })
    &&& a.queue_modal is None ==> b.queue_modal is None
    &&& a.queue_modal matches Some(m) ==> (b.queue_modal matches Some(n) && rel(m, n))
}

/// The torrent form changes only inside itself.
pub open spec fn torrent_step(a: App, b: App, rel: spec_fn(TorrentFileModal, TorrentFileModal) -> bool) -> bool {
    &&& b == (App { torrent_modal: b.torrent_modal, ..a })
    &&& a.torrent_modal is None ==> b.torrent_modal is None
    &&& a.torrent_modal matches Some(m) ==> (b.torrent_modal matches Some(n) && rel(m, n))
}

impl App {
    /// Opens an editor for a new queue (not over another overlay).
    pub fn open_create_queue_modal(&mut self, window: OnceWindow)
        requires
            old(self).wf(),
            window_wf(window),
        ensures
            final(self).wf(),
            old(self).any_overlay() ==> *final(self) == *old(self),
            !old(self).any_overlay() ==> (final(self).queue_modal matches Some(m) && m.mode == QueueModalMode::Create
                && m.once_start_date == window.start_date && m.once_end_date == window.end_date && *final(self) == (
            App { queue_modal: final(self).queue_modal, ..*old(self) })),
    {
        if self.has_open_modal() {
            return;
        }
        self.queue_modal = Some(QueueModal::create(window));
    }

    /// Opens the editor on the selected queue (not on "All", nor over
    /// another overlay) and returns the listing of its downloads to load
    /// for the items tab, in queue order.
    pub fn open_edit_queue_modal(&mut self, window: OnceWindow) -> (r: Option<(i64, DownloadFilter)>)
        requires
            old(self).wf(),
            window_wf(window),
        ensures
            final(self).wf(),
            (old(self).any_overlay() || old(self).selected_queue == 0 || old(self).selected_queue - 1
                >= old(self).queues@.len() || !editable(old(self).queues@[old(self).selected_queue - 1])) ==> r is None
                && *final(self) == *old(self),
            !(old(self).any_overlay() || old(self).selected_queue == 0 || old(self).selected_queue - 1
                >= old(self).queues@.len() || !editable(old(self).queues@[old(self).selected_queue - 1])) ==> {
                let q = old(self).queues@[old(self).selected_queue - 1];
                &&& final(self).queue_modal matches Some(m) && filled_from(m, q, window)
                &&& *final(self) == (App { queue_modal: final(self).queue_modal, ..*old(self) })
                &&& r matches Some((id, f)) && id == q.id && f.queue_id == Some(q.id) && f.category is None
                    && f.status is None && f.sort_by == Some(SortField::QueuePosition) && !f.sort_desc
            },
    {
        if self.has_open_modal() || self.selected_queue == 0 || self.selected_queue - 1 >= self.queues.len() {
            return None;
        }
        let q = &self.queues[self.selected_queue - 1];
        if !queue_editable(q) {
            return None;
        }
        let modal = QueueModal::edit(q, window);
        let id = q.id;
        self.queue_modal = Some(modal);
        let filter = DownloadFilter {
            queue_id: Some(id),
            category: None,
            status: None,
            sort_by: Some(SortField::QueuePosition),
            sort_desc: false,
        };
        Some((id, filter))
    }

    /// Fills the items tab with a queue's downloads, if the editor is still
    /// open on that queue.
    pub fn apply_queue_downloads_loaded(&mut self, queue_id: i64, result: Result<Vec<DownloadLiveStatus>, String>)
        requires
            old(self).wf(),
        ensures
            final(self).wf(),
            (old(self).queue_modal matches Some(m) && m.mode == (QueueModalMode::Edit { queue_id })
                && result is Ok) ==> (final(self).queue_modal matches Some(n) && n == (QueueModal {
                items: n.items,
                ..old(self).queue_modal->Some_0
            }) && n.items@ == result->Ok_0@.map_values(|d: DownloadLiveStatus| d.download) && *final(self) == (
            App { queue_modal: final(self).queue_modal, ..*old(self) })),
            !(old(self).queue_modal matches Some(m) && m.mode == (QueueModalMode::Edit { queue_id })
                && result is Ok) ==> *final(self) == *old(self),
    {
        let matches_queue = match &self.queue_modal {
            Some(m) => m.mode == (QueueModalMode::Edit { queue_id }),
            None => false,
        };
        if !matches_queue {
            return;
        }
        let mut list = match result {
            Ok(list) => list,
            Err(_) => {
                return;
            },
        };
        let ghost all = list@;
        let mut items: Vec<Download> = Vec::new();
        while list.len() > 0
            invariant
                items@ + list@.map_values(|d: DownloadLiveStatus| d.download) == all.map_values(
                    |d: DownloadLiveStatus| d.download,
                ),
            decreases list@.len(),
        {
            let ghost rest = list@;
            let d = list.remove(0);
            items.push(d.download);
            assert(items@ + list@.map_values(|d: DownloadLiveStatus| d.download) =~= items@.drop_last()
                + rest.map_values(|d: DownloadLiveStatus| d.download));
        }
        assert(items@ =~= all.map_values(|d: DownloadLiveStatus| d.download));
        if let Some(m) = &mut self.queue_modal {
            m.items = items;
        }
    }

    /// A failed save is reported; the view refreshes either way.
    pub fn apply_queue_saved(&mut self, result: Result<(), String>, now_ms: u64) -> (r: Option<RefreshRequest>)
        requires
            old(self).wf(),
        ensures
            final(self).wf(),
            final(self).toasts.view_seq() == live_toasts(
                match result {
                    Ok(_) => old(self).toasts.view_seq(),
                    Err(e) => pushed_toasts(old(self).toasts.view_seq(), (e@, ToastLevel::Error, now_ms)),
                },
                now_ms,
            ),
            *final(self) == (App { toasts: final(self).toasts, refresh_in_flight: true, ..*old(self) }),
            old(self).refresh_in_flight <==> r is None,
            r matches Some(q) ==> filter_matches(q.filter, *old(self)),
    {
        match result {
            Ok(_) => {},
            Err(e) => {
                self.toasts.push(e, ToastLevel::Error, now_ms);
            },
        }
        self.refresh(now_ms)
    }

    pub fn cancel_queue_modal(&mut self)
        ensures
            *final(self) == (App { queue_modal: None, ..*old(self) }),
    {
        self.queue_modal = None;
    }

    pub fn queue_modal_next_tab(&mut self)
        requires
            old(self).wf(),
        ensures
            final(self).wf(),
            editor_step(
                *old(self),
                *final(self),
                |m: QueueModal, n: QueueModal| n == (QueueModal { tab: tab_after(m.tab, m.mode), ..m }),
            ),
    {
        if let Some(m) = &mut self.queue_modal {
            m.next_tab();
        }
    }

    pub fn queue_modal_prev_tab(&mut self)
        requires
            old(self).wf(),
        ensures
            final(self).wf(),
            editor_step(
                *old(self),
                *final(self),
                |m: QueueModal, n: QueueModal| n == (QueueModal { tab: tab_before(m.tab, m.mode), ..m }),
            ),
    {
        if let Some(m) = &mut self.queue_modal {
            m.prev_tab();
        }
    }

    pub fn queue_modal_start_text_edit(&mut self)
        requires
            old(self).wf(),
        ensures
            final(self).wf(),
            editor_step(*old(self), *final(self), |m: QueueModal, n: QueueModal| n == text_edit_started(m)),
    {
        if let Some(m) = &mut self.queue_modal {
            m.start_text_edit();
        }
    }

    pub fn queue_modal_text_input(&mut self, c: char)
        requires
            old(self).wf(),
        ensures
            final(self).wf(),
            editor_step(*old(self), *final(self), |m: QueueModal, n: QueueModal| typed(m, n, c)),
    {
        if let Some(m) = &mut self.queue_modal {
            m.text_input(c);
        }
    }

    pub fn queue_modal_text_backspace(&mut self)
        requires
            old(self).wf(),
        ensures
            final(self).wf(),
            editor_step(*old(self), *final(self), |m: QueueModal, n: QueueModal| erased(m, n)),
    {
        if let Some(m) = &mut self.queue_modal {
            m.text_backspace();
        }
    }

    pub fn queue_modal_confirm_text_edit(&mut self)
        requires
            old(self).wf(),
        ensures
            final(self).wf(),
            editor_step(*old(self), *final(self), |m: QueueModal, n: QueueModal| n == text_edit_confirmed(m)),
    {
        if let Some(m) = &mut self.queue_modal {
            m.confirm_text_edit();
        }
    }

    pub fn queue_modal_cancel_text_edit(&mut self)
        requires
            old(self).wf(),
        ensures
            final(self).wf(),
            editor_step(
                *old(self),
                *final(self),
                |m: QueueModal, n: QueueModal| n == (QueueModal { editing_text: false, ..m }),
            ),
    {
        if let Some(m) = &mut self.queue_modal {
            m.cancel_text_edit();
        }
    }

    pub fn queue_modal_move_down(&mut self)
        requires
            old(self).wf(),
        ensures
            final(self).wf(),
            editor_step(*old(self), *final(self), |m: QueueModal, n: QueueModal| n == moved_down(m)),
    {
        if let Some(m) = &mut self.queue_modal {
            m.move_down();
        }
    }

    pub fn queue_modal_move_up(&mut self)
        requires
            old(self).wf(),
        ensures
            final(self).wf(),
            editor_step(*old(self), *final(self), |m: QueueModal, n: QueueModal| n == moved_up(m)),
    {
        if let Some(m) = &mut self.queue_modal {
            m.move_up();
        }
    }

    pub fn queue_modal_adjust_left(&mut self)
        requires
            old(self).wf(),
        ensures
            final(self).wf(),
            editor_step(*old(self), *final(self), |m: QueueModal, n: QueueModal| n == adjusted_modal(m, false)),
    {
        if let Some(m) = &mut self.queue_modal {
            m.adjust(false);
        }
    }

    pub fn queue_modal_adjust_right(&mut self)
        requires
            old(self).wf(),
            old(self).queue_modal is Some ==> adjust_ok(old(self).queue_modal->Some_0, true),
        ensures
            final(self).wf(),
            editor_step(*old(self), *final(self), |m: QueueModal, n: QueueModal| n == adjusted_modal(m, true)),
    {
        if let Some(m) = &mut self.queue_modal {
            m.adjust(true);
        }
    }

    pub fn queue_modal_toggle_day(&mut self)
        requires
            old(self).wf(),
        ensures
            final(self).wf(),
            editor_step(*old(self), *final(self), |m: QueueModal, n: QueueModal| day_toggled(m, n)),
    {
        if let Some(m) = &mut self.queue_modal {
            m.toggle_day();
        }
    }

    pub fn queue_modal_move_item_down(&mut self)
        requires
            old(self).wf(),
        ensures
            final(self).wf(),
            editor_step(*old(self), *final(self), |m: QueueModal, n: QueueModal| item_moved_down(m, n)),
    {
        if let Some(m) = &mut self.queue_modal {
            m.move_item_down();
        }
    }

    pub fn queue_modal_move_item_up(&mut self)
        requires
            old(self).wf(),
            old(self).queue_modal is Some && old(self).queue_modal->Some_0.tab == crate::queue_editor::QueueModalTab::DownloadItems
                && old(self).queue_modal->Some_0.item_cursor > 0 ==> old(self).queue_modal->Some_0.item_cursor < old(self).queue_modal->Some_0.items@.len(),
        ensures
            final(self).wf(),
            editor_step(*old(self), *final(self), |m: QueueModal, n: QueueModal| item_moved_up(m, n)),
    {
        if let Some(m) = &mut self.queue_modal {
            m.move_item_up();
        }
    }

    /// Saves the editor: a name is required and the schedule must be valid
    /// (the error stays in the editor); otherwise the editor closes and the
    /// request to send is returned.
    pub fn save_queue_modal(&mut self) -> (r: Option<QueueSaveRequest>)
        requires
            old(self).wf(),
        ensures
            final(self).wf(),
            old(self).queue_modal is None ==> r is None && *final(self) == *old(self),
            old(self).queue_modal is Some && trimmed(old(self).queue_modal->Some_0.name@).len() == 0 ==> r is None && (final(self).queue_modal matches Some(n) && n == (QueueModal { error: n.error, ..old(self).queue_modal->Some_0 }) && (n.error matches Some(e)
                && e@ == "name can't be empty"@)) && *final(self) == (App {
                queue_modal: final(self).queue_modal,
                ..*old(self)
            }),
            r is Some ==> final(self).queue_modal is None && *final(self) == (App { queue_modal: None, ..*old(self) }),
            r is None && old(self).queue_modal is Some ==> (final(self).queue_modal matches Some(n) && n == (
            QueueModal { error: n.error, ..old(self).queue_modal->Some_0 }) && (n.error matches Some(e)
                && save_error_text(e@))) && *final(self) == (App { queue_modal: final(self).queue_modal, ..*old(self) }),
            old(self).queue_modal matches Some(m) ==> (r matches Some(q) ==> saved_from(m, q)),
            old(self).queue_modal matches Some(m) ==> (trimmed(m.name@).len() > 0 && m.recurrence_kind
                == RecurrenceKind::Weekly ==> r is Some),
    {
        let m = match &self.queue_modal {
            Some(m) => m,
            None => {
                return None;
            },
        };
        match m.save_request() {
            Ok(request) => {
                self.queue_modal = None;
                Some(request)
            },
            Err(e) => {
                if let Some(m) = &mut self.queue_modal {
                    m.error = Some(e);
                }
                None
            },
        }
    }

    /// Opens the torrent form on the selected queue, else the main queue,
    /// else the first (not over another overlay).
    pub fn open_torrent_file_modal(&mut self)
        ensures
            old(self).any_overlay() ==> *final(self) == *old(self),
            !old(self).any_overlay() ==> (final(self).torrent_modal matches Some(m) && m.tab
                == TorrentFileModalTab::Torrent && m.path_input@.len() == 0 && m.resolved_path is None
                && m.editing_path && m.queue_cursor == form_queue_cursor(*old(self)) && m.finetune_cursor == 0
                && *final(self) == (App { torrent_modal: final(self).torrent_modal, ..*old(self) })),
    {
        if self.has_open_modal() {
            return;
        }
        let main = crate::client_forms::find_main_queue(&self.queues);
        let queue_cursor = clipboard_queue_cursor(self.selected_queue, self.queues.len(), main);
        self.torrent_modal = Some(TorrentFileModal::new(queue_cursor));
    }

    pub fn cancel_torrent_file_modal(&mut self)
        ensures
            *final(self) == (App { torrent_modal: None, ..*old(self) }),
    {
        self.torrent_modal = None;
    }

    pub fn torrent_modal_stop_path_editing(&mut self)
        ensures
            torrent_step(
                *old(self),
                *final(self),
                |m: TorrentFileModal, n: TorrentFileModal| n == (TorrentFileModal { editing_path: false, ..m }),
            ),
    {
        if let Some(m) = &mut self.torrent_modal {
            m.stop_path_editing();
        }
    }

    pub fn torrent_modal_next_tab(&mut self)
        ensures
            torrent_step(
                *old(self),
                *final(self),
                |m: TorrentFileModal, n: TorrentFileModal| n == (TorrentFileModal {
                    editing_path: false,
                    tab: if m.tab == TorrentFileModalTab::Torrent {
                        TorrentFileModalTab::FineTuning
                    } else {
                        TorrentFileModalTab::Torrent
                    },
                    ..m
                }),
            ),
    {
        if let Some(m) = &mut self.torrent_modal {
            m.next_tab();
        }
    }

    pub fn torrent_modal_text_input(&mut self, c: char)
        ensures
            torrent_step(
                *old(self),
                *final(self),
                |m: TorrentFileModal, n: TorrentFileModal|
                    {
                        &&& m.editing_path && !is_control_char(c) ==> n.path_input@ == m.path_input@.push(c) && n == (
                        TorrentFileModal { path_input: n.path_input, resolved_path: None, ..m })
                        &&& !(m.editing_path && !is_control_char(c)) ==> n == m
                    },
            ),
    {
        if let Some(m) = &mut self.torrent_modal {
            m.text_input(c);
        }
    }

    pub fn torrent_modal_text_backspace(&mut self)
        ensures
            torrent_step(
                *old(self),
                *final(self),
                |m: TorrentFileModal, n: TorrentFileModal|
                    {
                        &&& m.editing_path && m.path_input@.len() > 0 ==> n.path_input@ == without_last_cluster(
                            m.path_input@,
                        ) && n == (TorrentFileModal { path_input: n.path_input, resolved_path: None, ..m })
                        &&& !(m.editing_path && m.path_input@.len() > 0) ==> n == m
                    },
            ),
    {
        if let Some(m) = &mut self.torrent_modal {
            m.text_backspace();
        }
    }

    /// Pasted text replaces the path entry, trimmed.
    pub fn paste_torrent_path(&mut self, text: &str)
        ensures
            torrent_step(
                *old(self),
                *final(self),
                |m: TorrentFileModal, n: TorrentFileModal|
                    {
                        &&& m.editing_path ==> n.path_input@ == trimmed(text@) && n == (TorrentFileModal {
                            path_input: n.path_input,
                            resolved_path: None,
                            ..m
                        })
                        &&& !m.editing_path ==> n == m
                    },
            ),
    {
        if let Some(m) = &mut self.torrent_modal {
            m.paste_path(text);
        }
    }

    /// Enter on the path row: while the path is edited, the entry to check
    /// is returned (the check's answer comes back through
    /// `torrent_modal_path_checked`); otherwise editing starts again.
    pub fn torrent_modal_commit_path(&mut self) -> (r: Option<String>)
        ensures
            old(self).torrent_modal is None ==> r is None && *final(self) == *old(self),
            old(self).torrent_modal is Some ==> ({
                let m = old(self).torrent_modal->Some_0;
                &&& !m.editing_path ==> r is None && *final(self) == (App {
                    torrent_modal: Some(TorrentFileModal { editing_path: true, ..m }),
                    ..*old(self)
                })
                &&& m.editing_path ==> r == Some(m.path_input) && *final(self) == *old(self)
            }),
    {
        if let Some(m) = &mut self.torrent_modal {
            if !m.editing_path {
                m.editing_path = true;
                return None;
            }
            return Some(m.path_input.clone());
        }
        None
    }

    /// A checked path is taken into the form; a refused one is reported.
    pub fn torrent_modal_path_checked(&mut self, checked: Result<String, String>, now_ms: u64)
        requires
            old(self).wf(),
        ensures
            final(self).wf(),
            old(self).torrent_modal is None ==> *final(self) == *old(self),
            old(self).torrent_modal is Some && checked is Ok ==> (final(self).torrent_modal matches Some(n)
                && n.path_input == checked->Ok_0 && n.resolved_path == Some(checked->Ok_0) && n == (TorrentFileModal {
                path_input: n.path_input,
                resolved_path: n.resolved_path,
                editing_path: false,
                ..old(self).torrent_modal->Some_0
            }) && *final(self) == (App { torrent_modal: final(self).torrent_modal, ..*old(self) })),
            old(self).torrent_modal is Some && checked is Err ==> final(self).toasts.view_seq() == pushed_toasts(
                old(self).toasts.view_seq(),
                (checked->Err_0@, ToastLevel::Error, now_ms),
            ) && *final(self) == (App { toasts: final(self).toasts, ..*old(self) }),
    {
        if self.torrent_modal.is_none() {
            return;
        }
        match checked {
            Ok(path) => {
                if let Some(m) = &mut self.torrent_modal {
                    m.accept_path(path);
                }
            },
            Err(e) => {
                self.toasts.push(e, ToastLevel::Error, now_ms);
            },
        }
    }

    pub fn torrent_modal_move_down(&mut self)
        ensures
            torrent_step(
                *old(self),
                *final(self),
                |m: TorrentFileModal, n: TorrentFileModal|
                    n == (if m.tab == TorrentFileModalTab::FineTuning {
                        TorrentFileModal {
                            finetune_cursor: stepped_cursor(m.finetune_cursor, true, 6),
                            ..m
                        }
                    } else {
                        m
                    }),
            ),
    {
        if let Some(m) = &mut self.torrent_modal {
            m.move_down();
        }
    }

    pub fn torrent_modal_move_up(&mut self)
        ensures
            torrent_step(
                *old(self),
                *final(self),
                |m: TorrentFileModal, n: TorrentFileModal|
                    n == (if m.tab == TorrentFileModalTab::FineTuning {
                        TorrentFileModal { finetune_cursor: stepped_cursor(m.finetune_cursor, false, 1), ..m }
                    } else {
                        m
                    }),
            ),
    {
        if let Some(m) = &mut self.torrent_modal {
            m.move_up();
        }
    }

    /// Left: the previous queue (once the path is accepted) or a smaller
    /// tuning value.
    pub fn torrent_modal_adjust_left(&mut self)
        ensures
            torrent_step(*old(self), *final(self), |m: TorrentFileModal, n: TorrentFileModal| n == torrent_adjusted(m, false, old(self).queues@.len())),
    {
        let count = self.queues.len();
        if let Some(m) = &mut self.torrent_modal {
            m.adjust(false, count);
        }
    }

    /// Right: the next queue (once the path is accepted) or a larger tuning
    /// value.
    pub fn torrent_modal_adjust_right(&mut self)
        requires
            old(self).torrent_modal is Some && old(self).torrent_modal->Some_0.tab == TorrentFileModalTab::FineTuning
                ==> field_steppable(
                old(self).torrent_modal->Some_0.finetune,
                old(self).torrent_modal->Some_0.finetune_cursor as int,
                true,
            ),
        ensures
            torrent_step(*old(self), *final(self), |m: TorrentFileModal, n: TorrentFileModal| n == torrent_adjusted(m, true, old(self).queues@.len())),
    {
        let count = self.queues.len();
        if let Some(m) = &mut self.torrent_modal {
            m.adjust(true, count);
        }
    }

    /// The entry to check before an upload.
    pub fn torrent_path_entry(&self) -> (r: Option<String>)
        ensures
            r == match self.torrent_modal {
                Some(m) => Some(m.path_input),
                None => None,
            },
    {
        match &self.torrent_modal {
            Some(m) => Some(m.path_input.clone()),
            None => None,
        }
    }

    /// With the entry checked, closes the form and returns the upload to
    /// make, announcing it; a refused entry is reported and the form stays.
    pub fn submit_torrent_file(&mut self, checked: Result<String, String>, start_immediately: bool, now_ms: u64) -> (r:
        Option<TorrentSubmission>)
        requires
            old(self).wf(),
        ensures
            final(self).wf(),
            old(self).torrent_modal is None ==> r is None && *final(self) == *old(self),
            old(self).torrent_modal is Some && checked is Err ==> r is None && final(self).toasts.view_seq()
                == pushed_toasts(old(self).toasts.view_seq(), (checked->Err_0@, ToastLevel::Error, now_ms))
                && *final(self) == (App { toasts: final(self).toasts, ..*old(self) }),
            old(self).torrent_modal is Some && checked is Ok ==> (r matches Some(s) && s.path == checked->Ok_0
                && s.metadata.queue_id == queue_at_or_main(old(self).queues@, old(self).torrent_modal->Some_0.queue_cursor)
                && s.metadata.finetune_override == override_of(old(self).torrent_modal->Some_0.finetune) && s.metadata.start_immediately
                == start_immediately && final(self).toasts.view_seq() == pushed_toasts(
                old(self).toasts.view_seq(),
                ("adding torrent\u{2026}"@, ToastLevel::Info, now_ms),
            ) && *final(self) == (App { torrent_modal: None, toasts: final(self).toasts, ..*old(self) })),
    {
        if self.torrent_modal.is_none() {
            return None;
        }
        let path = match checked {
            Ok(p) => p,
            Err(e) => {
                self.toasts.push(e, ToastLevel::Error, now_ms);
                return None;
            },
        };
        let m = match self.torrent_modal.take() {
            Some(m) => m,
            None => {
                return None;
            },
        };
        let metadata = m.upload_metadata(&self.queues, start_immediately);
        self.toasts.push("adding torrent\u{2026}".to_owned(), ToastLevel::Info, now_ms);
        Some(TorrentSubmission { path, metadata })
    }

    pub fn start_torrent_now(&mut self, checked: Result<String, String>, now_ms: u64) -> (r: Option<TorrentSubmission>)
        requires
            old(self).wf(),
        ensures
            final(self).wf(),
            r matches Some(s) ==> s.metadata.start_immediately,
            (old(self).torrent_modal is Some && checked is Ok) <==> r is Some,
    {
        self.submit_torrent_file(checked, true, now_ms)
    }

    pub fn save_torrent_for_later(&mut self, checked: Result<String, String>, now_ms: u64) -> (r: Option<
        TorrentSubmission,
    >)
        requires
            old(self).wf(),
        ensures
            final(self).wf(),
            r matches Some(s) ==> !s.metadata.start_immediately,
            (old(self).torrent_modal is Some && checked is Ok) <==> r is Some,
    {
        self.submit_torrent_file(checked, false, now_ms)
    }
}

/// The torrent form after left or right.
pub open spec fn torrent_adjusted(m: TorrentFileModal, forward: bool, queue_count: nat) -> TorrentFileModal {
    if m.tab == TorrentFileModalTab::Torrent {
        if !m.editing_path && queue_count > 0 {
            TorrentFileModal { queue_cursor: stepped_cursor(m.queue_cursor, forward, queue_count as usize), ..m }
        } else {
            m
        }
    } else {
        TorrentFileModal { finetune: adjusted_field(m.finetune, m.finetune_cursor, forward), ..m }
    }
}

} // verus!

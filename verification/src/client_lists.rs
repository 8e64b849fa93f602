//! The client's lists (queues, categories, downloads), the actions on the
//! selected row, and confirmations.
use vstd::prelude::*;
use crate::api::DeleteQueueOutcome;
use crate::client::{App, CATEGORY_COUNT, RefreshRequest, filter_matches};
use crate::download::DownloadLiveStatus;
use crate::overlays::{
    ConfirmationModal, HelpModal, PendingConfirmationAction, ToastLevel, live_toasts, pushed_toasts,
};
use crate::panes::{DownloadAction, download_action, action_for};
use crate::queue::{Queue, MAIN_QUEUE_ID};
use crate::text::push_str;
use crate::keys::{apply_help_command, Command, KeyContext, QueueModalKeys};
use crate::queue_editor::QueueModalTab;

verus! {

/// A queue deletion to request: the queue, its name for the answer, and
/// whether its downloads go too.
#[derive(Clone, Debug)]
pub struct QueueDeletion {
    pub queue_id: i64,
    pub queue_name: String,
    pub delete_downloads: bool,
}

/// What a given confirmation goes on to request.
#[derive(Clone, Debug)]
pub enum ConfirmedStep {
    DeleteDownloadFiles { download_id: i64 },
    DeleteQueue(QueueDeletion),
}

/// The queue list's row 0 is "All"; the queue a row shows is one place
/// earlier in the list, and "All" falls back to the first queue.
pub open spec fn queue_index(row: usize) -> int {
    if row == 0 {
        0
    } else {
        row - 1
    }
}

pub open spec fn current_queue_of(a: App) -> Option<Queue> {
    if queue_index(a.selected_queue) < a.queues@.len() {
        Some(a.queues@[queue_index(a.selected_queue)])
    } else {
        None
    }
}

pub open spec fn current_queue_id(a: App) -> Option<i64> {
    match current_queue_of(a) {
        Some(q) => Some(q.id),
        None => None,
    }
}

/// The first position of a queue in a list.
pub open spec fn first_row_of(qs: Seq<Queue>, id: i64) -> Option<int>
    decreases qs.len(),
{
    if qs.len() == 0 {
        None
    } else if qs[0].id == id {
        Some(0)
    } else {
        match first_row_of(qs.drop_first(), id) {
            Some(i) => Some(i + 1),
            None => None,
        }
    }
}

/// The list without the queues of an identifier, in order.
pub open spec fn without_queue(qs: Seq<Queue>, id: i64) -> Seq<Queue>
    decreases qs.len(),
{
    if qs.len() == 0 {
        qs
    } else {
        let rest = without_queue(qs.drop_last(), id);
        if qs.last().id == id {
            rest
        } else {
            rest.push(qs.last())
        }
    }
}

/// The queue-list row after a deletion: the deleted queue's row (so the
/// next queue, or the last one at the end) when it was selected, else the
/// row of the queue that was selected, else "All".
pub open spec fn row_after_delete(before: Seq<Queue>, selected_id: Option<i64>, deleted: i64) -> int {
    let remaining = without_queue(before, deleted);
    if selected_id == Some(deleted) {
        let row = match first_row_of(before, deleted) {
            Some(i) => i + 1,
            None => 0,
        };
        if row < remaining.len() {
            row
        } else {
            remaining.len() as int
        }
    } else {
        match selected_id {
            Some(id) => match first_row_of(remaining, id) {
                Some(i) => i + 1,
                None => 0,
            },
            None => 0,
        }
    }
}

pub open spec fn removal_prompt(name: Seq<char>) -> Seq<char> {
    "Remove \""@ + name + "\" and all of its download items? Downloaded files will be kept."@
}

pub open spec fn removed_text(name: Seq<char>) -> Seq<char> {
    "queue \""@ + name + "\" removed"@
}

/// Overlays that keep a queue deletion from asking for confirmation.
pub open spec fn blocks_queue_prompt(a: App) -> bool {
    a.confirmation_modal is Some || a.modal is Some || a.queue_modal is Some || a.download_modal is Some
}

fn find_queue(qs: &Vec<Queue>, id: i64) -> (r: Option<usize>)
    ensures
        match first_row_of(qs@, id) {
            Some(i) => r matches Some(j) && j == i,
            None => r is None,
        },
        r matches Some(i) ==> i < qs@.len() && qs@[i as int].id == id,
{
    proof {
        lemma_first_row_bounds(qs@, id);
    }
    let mut i: usize = 0;
    assert(qs@.skip(0) =~= qs@);
    while i < qs.len()
        invariant
            i <= qs@.len(),
            first_row_of(qs@, id) == (match first_row_of(qs@.skip(i as int), id) {
                Some(k) => Some(k + i),
                None => None::<int>,
            }),
        decreases qs@.len() - i,
    {
        assert(qs@.skip(i as int).drop_first() =~= qs@.skip(i + 1));
        if qs[i].id == id {
            return Some(i);
        }
        i = i + 1;
    }
    assert(qs@.skip(i as int) =~= Seq::<Queue>::empty());
    None
}

proof fn lemma_first_row_bounds(qs: Seq<Queue>, id: i64)
    ensures
        first_row_of(qs, id) matches Some(i) ==> 0 <= i < qs.len() && qs[i].id == id,
    decreases qs.len(),
{
    if qs.len() > 0 && qs[0].id != id {
        lemma_first_row_bounds(qs.drop_first(), id);
    }
}

proof fn lemma_without_queue_len(qs: Seq<Queue>, id: i64)
    ensures
        without_queue(qs, id).len() <= qs.len(),
    decreases qs.len(),
{
    if qs.len() > 0 {
        lemma_without_queue_len(qs.drop_last(), id);
    }
}

impl App {
    /// Moves the queue selection down (row 0 is "All") and refreshes.
    pub fn select_next_queue(&mut self, now_ms: u64) -> (r: Option<RefreshRequest>)
        requires
            old(self).wf(),
        ensures
            final(self).wf(),
            final(self).selected_queue == (if old(self).selected_queue < old(self).queues@.len() {
                old(self).selected_queue + 1
            } else {
                old(self).queues@.len() as int
            }),
            final(self).toasts.view_seq() == live_toasts(old(self).toasts.view_seq(), now_ms),
            *final(self) == (App {
                selected_queue: final(self).selected_queue,
                toasts: final(self).toasts,
                refresh_in_flight: true,
                ..*old(self)
            }),
            old(self).refresh_in_flight <==> r is None,
            r matches Some(q) ==> filter_matches(q.filter, App { selected_queue: final(self).selected_queue, ..*old(self) }),
    {
        self.selected_queue = if self.selected_queue < self.queues.len() {
            self.selected_queue + 1
        } else {
            self.queues.len()
        };
        self.refresh(now_ms)
    }

    pub fn select_prev_queue(&mut self, now_ms: u64) -> (r: Option<RefreshRequest>)
        requires
            old(self).wf(),
        ensures
            final(self).wf(),
            final(self).selected_queue == (if old(self).selected_queue > 0 {
                old(self).selected_queue - 1
            } else {
                0
            }),
            final(self).toasts.view_seq() == live_toasts(old(self).toasts.view_seq(), now_ms),
            *final(self) == (App {
                selected_queue: final(self).selected_queue,
                toasts: final(self).toasts,
                refresh_in_flight: true,
                ..*old(self)
            }),
            old(self).refresh_in_flight <==> r is None,
            r matches Some(q) ==> filter_matches(q.filter, App { selected_queue: final(self).selected_queue, ..*old(self) }),
    {
        self.selected_queue = if self.selected_queue > 0 {
            self.selected_queue - 1
        } else {
            0
        };
        self.refresh(now_ms)
    }

    /// The queue of the selected row ("All" falls back to the first).
    pub fn current_queue(&self) -> (r: Option<&Queue>)
        ensures
            match current_queue_of(*self) {
                Some(q) => r == Some(&q),
                None => r is None,
            },
    {
        let i = if self.selected_queue == 0 {
            0
        } else {
            self.selected_queue - 1
        };
        if i < self.queues.len() {
            Some(&self.queues[i])
        } else {
            None
        }
    }

    /// Only a real queue other than the main queue can be deleted.
    pub fn can_delete_selected_queue(&self) -> (r: bool)
        ensures
            r == (current_queue_of(*self) matches Some(q) && q.id != MAIN_QUEUE_ID),
    {
        match self.current_queue() {
            Some(q) => q.id != MAIN_QUEUE_ID,
            None => false,
        }
    }

    /// The deletion `d` asks for on the queue list: none while the queue
    /// cannot be deleted or another overlay is open; downloads are kept
    /// unless a confirmation follows.
    pub fn request_delete_selected_queue(&self) -> (r: Option<QueueDeletion>)
        ensures
            (current_queue_of(*self) matches Some(q) && q.id != MAIN_QUEUE_ID) && !blocks_queue_prompt(*self)
                ==> (r matches Some(d) && current_queue_of(*self) == Some(
                self.queues@[queue_index(self.selected_queue)],
            ) && d.queue_id == self.queues@[queue_index(self.selected_queue)].id && d.queue_name@
                == self.queues@[queue_index(self.selected_queue)].name@ && !d.delete_downloads),
            !((current_queue_of(*self) matches Some(q) && q.id != MAIN_QUEUE_ID) && !blocks_queue_prompt(*self))
                ==> r is None,
    {
        if !self.can_delete_selected_queue() || self.confirmation_modal.is_some() || self.modal.is_some()
            || self.queue_modal.is_some() || self.download_modal.is_some() {
            return None;
        }
        match self.current_queue() {
            Some(q) => Some(QueueDeletion { queue_id: q.id, queue_name: q.name.clone(), delete_downloads: false }),
            None => None,
        }
    }

    /// The deletion a confirmed prompt asks for, with the queue's downloads;
    /// none when the queue is gone from the list.
    pub fn confirm_delete_queue(&self, queue_id: i64) -> (r: Option<QueueDeletion>)
        ensures
            match first_row_of(self.queues@, queue_id) {
                Some(i) => r matches Some(d) && d.queue_id == queue_id && d.queue_name@ == self.queues@[i].name@
                    && d.delete_downloads,
                None => r is None,
            },
    {
        match find_queue(&self.queues, queue_id) {
            Some(i) => {
                proof {
                    lemma_first_row_bounds(self.queues@, queue_id);
                }
                let name = self.queues[i].name.clone();
                Some(QueueDeletion { queue_id, queue_name: name, delete_downloads: true })
            },
            None => None,
        }
    }

    pub fn open_confirmation(&mut self, modal: ConfirmationModal, action: PendingConfirmationAction)
        ensures
            *final(self) == (App {
                confirmation_modal: Some(modal),
                pending_confirmation_action: Some(action),
                ..*old(self)
            }),
    {
        self.confirmation_modal = Some(modal);
        self.pending_confirmation_action = Some(action);
    }

    pub fn cancel_confirmation(&mut self)
        ensures
            *final(self) == (App { confirmation_modal: None, pending_confirmation_action: None, ..*old(self) }),
    {
        self.confirmation_modal = None;
        self.pending_confirmation_action = None;
    }

    /// Closes the prompt and returns what it confirmed.
    pub fn confirm_confirmation(&mut self) -> (r: Option<ConfirmedStep>)
        ensures
            *final(self) == (App { confirmation_modal: None, pending_confirmation_action: None, ..*old(self) }),
            match old(self).pending_confirmation_action {
                None => r is None,
                Some(PendingConfirmationAction::DeleteDownloadFiles { download_id }) => r == Some(
                    ConfirmedStep::DeleteDownloadFiles { download_id },
                ),
                Some(PendingConfirmationAction::DeleteQueue { queue_id }) => match first_row_of(
                    old(self).queues@,
                    queue_id,
                ) {
                    Some(i) => r matches Some(ConfirmedStep::DeleteQueue(d)) && d.queue_id == queue_id
                        && d.queue_name@ == old(self).queues@[i].name@ && d.delete_downloads,
                    None => r is None,
                },
            },
    {
        let action = self.pending_confirmation_action;
        self.pending_confirmation_action = None;
        self.confirmation_modal = None;
        match action {
            Some(PendingConfirmationAction::DeleteDownloadFiles { download_id }) => Some(
                ConfirmedStep::DeleteDownloadFiles { download_id },
            ),
            Some(PendingConfirmationAction::DeleteQueue { queue_id }) => match self.confirm_delete_queue(queue_id) {
                Some(d) => Some(ConfirmedStep::DeleteQueue(d)),
                None => None,
            },
            None => None,
        }
    }

    /// Resuming a queue needs a real queue row.
    pub fn resume_selected_queue(&self) -> (r: Option<i64>)
        ensures
            r == (if self.selected_queue == 0 {
                None
            } else {
                current_queue_id(*self)
            }),
    {
        if self.selected_queue == 0 {
            return None;
        }
        match self.current_queue() {
            Some(q) => Some(q.id),
            None => None,
        }
    }

    pub fn pause_selected_queue(&self) -> (r: Option<i64>)
        ensures
            r == (if self.selected_queue == 0 {
                None
            } else {
                current_queue_id(*self)
            }),
    {
        self.resume_selected_queue()
    }

    /// Removing completed downloads: from every queue on "All", from the
    /// selected queue otherwise; a row that no longer shows a queue asks
    /// for nothing.
    pub fn remove_completed_downloads(&self) -> (r: Option<Option<i64>>)
        ensures
            self.selected_queue == 0 ==> r == Some(None::<i64>),
            self.selected_queue != 0 ==> r == (match current_queue_id(*self) {
                Some(id) => Some(Some(id)),
                None => None,
            }),
    {
        if self.selected_queue == 0 {
            return Some(None);
        }
        match self.current_queue() {
            Some(q) => Some(Some(q.id)),
            None => None,
        }
    }

    /// Takes the daemon's answer to a queue deletion: a populated queue
    /// asks for confirmation (unless it is gone or another overlay is open);
    /// a deleted one leaves the list, the selection stays on a neighbouring
    /// or the previously selected queue, success is announced and the view
    /// refreshes; an error is shown.
    pub fn apply_queue_delete_result(
        &mut self,
        queue_id: i64,
        queue_name: String,
        result: Result<DeleteQueueOutcome, String>,
        now_ms: u64,
    ) -> (r: Option<RefreshRequest>)
        requires
            old(self).wf(),
        ensures
            final(self).wf(),
            result == Ok::<DeleteQueueOutcome, String>(DeleteQueueOutcome::NeedsConfirmation) ==> r is None && (if first_row_of(
                old(self).queues@,
                queue_id,
            ) is None || blocks_queue_prompt(*old(self)) {
                *final(self) == *old(self)
            } else {
                final(self).confirmation_modal matches Some(m) && m.title@ == "Remove queue?"@ && m.message@
                    == removal_prompt(queue_name@) && m.confirm_label@ == "Remove"@ && m.cancel_label@
                    == "Cancel"@ && *final(self) == (App {
                    confirmation_modal: final(self).confirmation_modal,
                    pending_confirmation_action: Some(PendingConfirmationAction::DeleteQueue { queue_id }),
                    ..*old(self)
                })
            }),
            result == Ok::<DeleteQueueOutcome, String>(DeleteQueueOutcome::Deleted) ==> {
                &&& final(self).queues@ == without_queue(old(self).queues@, queue_id)
                &&& final(self).selected_queue == row_after_delete(
                    old(self).queues@,
                    current_queue_id(*old(self)),
                    queue_id,
                )
                &&& final(self).toasts.view_seq() == live_toasts(
                    pushed_toasts(old(self).toasts.view_seq(), (removed_text(queue_name@), ToastLevel::Success, now_ms)),
                    now_ms,
                )
                &&& *final(self) == (App {
                    queues: final(self).queues,
                    selected_queue: final(self).selected_queue,
                    toasts: final(self).toasts,
                    refresh_in_flight: true,
                    ..*old(self)
                })
                &&& (old(self).refresh_in_flight <==> r is None)
                &&& (r matches Some(q) ==> filter_matches(q.filter, App {
                    queues: final(self).queues,
                    selected_queue: final(self).selected_queue,
                    ..*old(self)
                }))
            },
            result is Err ==> r is None && final(self).toasts.view_seq() == pushed_toasts(
                old(self).toasts.view_seq(),
                (result->Err_0@, ToastLevel::Error, now_ms),
            ) && *final(self) == (App { toasts: final(self).toasts, ..*old(self) }),
    {
        match result {
            Ok(DeleteQueueOutcome::NeedsConfirmation) => {
                if find_queue(&self.queues, queue_id).is_none() || self.confirmation_modal.is_some()
                    || self.modal.is_some() || self.queue_modal.is_some() || self.download_modal.is_some() {
                    return None;
                }
                let mut message = "Remove \"".to_owned();
                push_str(&mut message, queue_name.as_str());
                push_str(&mut message, "\" and all of its download items? Downloaded files will be kept.");
                let modal = ConfirmationModal::new(
                    "Remove queue?".to_owned(),
                    message,
                    "Remove".to_owned(),
                    "Cancel".to_owned(),
                );
                self.open_confirmation(modal, PendingConfirmationAction::DeleteQueue { queue_id });
                None
            },
            Ok(DeleteQueueOutcome::Deleted) => {
                let selected_id = match self.current_queue() {
                    Some(q) => Some(q.id),
                    None => None,
                };
                let before = self.queues.len();
                let deleted_row = match find_queue(&self.queues, queue_id) {
                    Some(i) => {
                        assert(i < before);
                        i + 1
                    },
                    None => 0,
                };
                self.remove_queues_with_id(queue_id);
                let n = self.queues.len();
                self.selected_queue = if selected_id == Some(queue_id) {
                    if deleted_row < n {
                        deleted_row
                    } else {
                        n
                    }
                } else {
                    match selected_id {
                        Some(id) => match find_queue(&self.queues, id) {
                            Some(i) => {
                                assert(i < n);
                                i + 1
                            },
                            None => 0,
                        },
                        None => 0,
                    }
                };
                let mut message = "queue \"".to_owned();
                push_str(&mut message, queue_name.as_str());
                push_str(&mut message, "\" removed");
                self.toasts.push(message, ToastLevel::Success, now_ms);
                self.refresh(now_ms)
            },
            Err(e) => {
                self.toasts.push(e, ToastLevel::Error, now_ms);
                None
            },
        }
    }

    /// Drops every queue of an identifier from the list, keeping the order.
    fn remove_queues_with_id(&mut self, queue_id: i64)
        ensures
            final(self).queues@ == without_queue(old(self).queues@, queue_id),
            *final(self) == (App { queues: final(self).queues, ..*old(self) }),
    {
        let ghost original = self.queues@;
        let mut i: usize = 0;
        let mut j: usize = 0;
        let n = self.queues.len();
        while j < n
            invariant
                original == old(self).queues@,
                n == original.len(),
                *self == (App { queues: self.queues, ..*old(self) }),
                j <= original.len(),
                i <= j,
                i == without_queue(original.take(j as int), queue_id).len(),
                self.queues@ == without_queue(original.take(j as int), queue_id) + original.skip(j as int),
            decreases original.len() - j,
        {
            let ghost kept = without_queue(original.take(j as int), queue_id);
            proof {
                lemma_without_queue_len(original.take(j as int), queue_id);
            }
            assert(original.take(j + 1).drop_last() =~= original.take(j as int));
            assert(self.queues@[i as int] == original[j as int]);
            if self.queues[i].id == queue_id {
                self.queues.remove(i);
                assert(self.queues@ =~= kept + original.skip(j + 1));
            } else {
                assert(self.queues@ =~= kept.push(original[j as int]) + original.skip(j + 1));
                i = i + 1;
            }
            j = j + 1;
        }
        assert(original.take(j as int) =~= original);
        assert(self.queues@ =~= without_queue(original, queue_id));
    }

    pub fn select_next_category(&mut self, now_ms: u64) -> (r: Option<RefreshRequest>)
        requires
            old(self).wf(),
        ensures
            final(self).wf(),
            final(self).selected_category == (if old(self).selected_category < CATEGORY_COUNT {
                old(self).selected_category + 1
            } else {
                CATEGORY_COUNT as int
            }),
            final(self).toasts.view_seq() == live_toasts(old(self).toasts.view_seq(), now_ms),
            *final(self) == (App {
                selected_category: final(self).selected_category,
                toasts: final(self).toasts,
                refresh_in_flight: true,
                ..*old(self)
            }),
            old(self).refresh_in_flight <==> r is None,
            r matches Some(q) ==> filter_matches(q.filter, App { selected_category: final(self).selected_category, ..*old(self) }),
    {
        self.selected_category = if self.selected_category < CATEGORY_COUNT {
            self.selected_category + 1
        } else {
            CATEGORY_COUNT
        };
        self.refresh(now_ms)
    }

    pub fn select_prev_category(&mut self, now_ms: u64) -> (r: Option<RefreshRequest>)
        requires
            old(self).wf(),
        ensures
            final(self).wf(),
            final(self).selected_category == (if old(self).selected_category > 0 {
                old(self).selected_category - 1
            } else {
                0
            }),
            final(self).toasts.view_seq() == live_toasts(old(self).toasts.view_seq(), now_ms),
            *final(self) == (App {
                selected_category: final(self).selected_category,
                toasts: final(self).toasts,
                refresh_in_flight: true,
                ..*old(self)
            }),
            old(self).refresh_in_flight <==> r is None,
            r matches Some(q) ==> filter_matches(q.filter, App { selected_category: final(self).selected_category, ..*old(self) }),
    {
        self.selected_category = if self.selected_category > 0 {
            self.selected_category - 1
        } else {
            0
        };
        self.refresh(now_ms)
    }

    pub fn select_next_download(&mut self)
        ensures
            *final(self) == (App {
                selected_download: if old(self).downloads@.len() == 0 {
                    old(self).selected_download
                } else if old(self).selected_download + 1 < old(self).downloads@.len() {
                    (old(self).selected_download + 1) as usize
                } else {
                    (old(self).downloads@.len() - 1) as usize
                },
                ..*old(self)
            }),
    {
        let n = self.downloads.len();
        if n > 0 {
            self.selected_download = if self.selected_download < n - 1 {
                self.selected_download + 1
            } else {
                n - 1
            };
        }
    }

    pub fn select_prev_download(&mut self)
        ensures
            *final(self) == (App {
                selected_download: if old(self).selected_download > 0 {
                    (old(self).selected_download - 1) as usize
                } else {
                    0
                },
                ..*old(self)
            }),
    {
        self.selected_download = if self.selected_download > 0 {
            self.selected_download - 1
        } else {
            0
        };
    }

    pub fn current_download(&self) -> (r: Option<&DownloadLiveStatus>)
        ensures
            self.selected_download < self.downloads@.len() ==> r == Some(&self.downloads@[self.selected_download as int]),
            self.selected_download >= self.downloads@.len() ==> r is None,
    {
        if self.selected_download < self.downloads.len() {
            Some(&self.downloads[self.selected_download])
        } else {
            None
        }
    }

    pub fn current_download_action(&self) -> (r: Option<DownloadAction>)
        ensures
            self.selected_download < self.downloads@.len() ==> r == Some(
                action_for(self.downloads@[self.selected_download as int].download.status),
            ),
            self.selected_download >= self.downloads@.len() ==> r is None,
    {
        match self.current_download() {
            Some(d) => Some(download_action(&d.download.status)),
            None => None,
        }
    }

    /// Pausing asks for the selected download only while it runs.
    pub fn pause_selected(&self) -> (r: Option<i64>)
        ensures
            (self.selected_download < self.downloads@.len() && action_for(
                self.downloads@[self.selected_download as int].download.status,
            ) == DownloadAction::Pause) ==> r == Some(self.downloads@[self.selected_download as int].download.id),
            !(self.selected_download < self.downloads@.len() && action_for(
                self.downloads@[self.selected_download as int].download.status,
            ) == DownloadAction::Pause) ==> r is None,
    {
        match self.current_download() {
            Some(d) => if download_action(&d.download.status) == DownloadAction::Pause {
                Some(d.download.id)
            } else {
                None
            },
            None => None,
        }
    }

    /// Start, resume, retry and restart all go through one request; a
    /// running download asks for nothing.
    pub fn resume_selected(&self) -> (r: Option<i64>)
        ensures
            (self.selected_download < self.downloads@.len() && action_for(
                self.downloads@[self.selected_download as int].download.status,
            ) != DownloadAction::Pause) ==> r == Some(self.downloads@[self.selected_download as int].download.id),
            !(self.selected_download < self.downloads@.len() && action_for(
                self.downloads@[self.selected_download as int].download.status,
            ) != DownloadAction::Pause) ==> r is None,
    {
        match self.current_download() {
            Some(d) => if download_action(&d.download.status).key() == 'r' {
                Some(d.download.id)
            } else {
                None
            },
            None => None,
        }
    }

    pub fn delete_selected(&self) -> (r: Option<i64>)
        ensures
            self.selected_download < self.downloads@.len() ==> r == Some(
                self.downloads@[self.selected_download as int].download.id,
            ),
            self.selected_download >= self.downloads@.len() ==> r is None,
    {
        match self.current_download() {
            Some(d) => Some(d.download.id),
            None => None,
        }
    }

    /// `D` on the download list asks for confirmation before deleting the
    /// selected download with its files (not over another overlay).
    pub fn request_delete_selected_files(&mut self)
        ensures
            (!old(self).any_overlay() && old(self).selected_download < old(self).downloads@.len()) ==> (final(self).confirmation_modal is Some && *final(self) == (App {
                confirmation_modal: final(self).confirmation_modal,
                pending_confirmation_action: Some(
                    PendingConfirmationAction::DeleteDownloadFiles {
                        download_id: old(self).downloads@[old(self).selected_download as int].download.id,
                    },
                ),
                ..*old(self)
            })),
            !(!old(self).any_overlay() && old(self).selected_download < old(self).downloads@.len()) ==> *final(self)
                == *old(self),
    {
        if self.has_open_modal() {
            return;
        }
        let id = match self.current_download() {
            Some(d) => d.download.id,
            None => {
                return;
            },
        };
        let modal = ConfirmationModal::new(
            "Delete download and files?".to_owned(),
            "The download and its files will be removed from disk.".to_owned(),
            "Delete".to_owned(),
            "Cancel".to_owned(),
        );
        self.open_confirmation(modal, PendingConfirmationAction::DeleteDownloadFiles { download_id: id });
    }

    /// Opens the keybinding help, unless another overlay is open.
    pub fn open_help_modal(&mut self)
        ensures
            !old(self).any_overlay() ==> (final(self).help_modal matches Some(h) && h.query@.len() == 0
                && !h.editing_search && h.scroll == 0 && *final(self) == (App {
                help_modal: final(self).help_modal,
                ..*old(self)
            })),
            old(self).any_overlay() ==> *final(self) == *old(self),
    {
        if !self.has_open_modal() {
            self.help_modal = Some(HelpModal::default());
        }
    }

    /// What the key handler needs to know of the screen: which overlay is
    /// open and in which state, and the focused pane.
    pub fn key_context(&self) -> (r: KeyContext)
        ensures
            r.confirmation_open == self.confirmation_modal is Some,
            r.help == (match self.help_modal {
                Some(h) => Some(h.editing_search),
                None => None::<bool>,
            }),
            r.queue_modal == (match self.queue_modal {
                Some(m) => Some(QueueModalKeys { editing_text: m.editing_text, on_items_tab: m.tab == QueueModalTab::DownloadItems }),
                None => None::<QueueModalKeys>,
            }),
            r.clipboard == (match self.modal {
                Some(m) => Some(m.tab),
                None => None::<crate::overlays::ModalTab>,
            }),
            r.download_modal_open == self.download_modal is Some,
            r.focus == self.focus,
    {
        KeyContext {
            confirmation_open: self.confirmation_modal.is_some(),
            help: match &self.help_modal {
                Some(h) => Some(h.editing_search),
                None => None,
            },
            queue_modal: match &self.queue_modal {
                Some(m) => Some(QueueModalKeys {
                    editing_text: m.editing_text,
                    on_items_tab: m.tab == QueueModalTab::DownloadItems,
                }),
                None => None,
            },
            clipboard: match &self.modal {
                Some(m) => Some(m.tab),
                None => None,
            },
            download_modal_open: self.download_modal.is_some(),
            focus: self.focus,
        }
    }

    /// Applies a help command to the open help; the help closes when the
    /// command says so. Nothing happens without an open help.
    pub fn apply_help(&mut self, command: Command)
        requires
            old(self).wf(),
        ensures
            final(self).wf(),
            old(self).help_modal is None ==> *final(self) == *old(self),
            old(self).help_modal matches Some(h) ==> ({
                let after = crate::keys::help_after(h, command);
                if after.3 {
                    final(self).help_modal is None
                } else {
                    final(self).help_modal matches Some(n) && (n.query@, n.editing_search, n.scroll as int, false)
                        == after && n.viewport_height == h.viewport_height && n.content() == h.content()
                }
            }),
            *final(self) == (App { help_modal: final(self).help_modal, ..*old(self) }),
    {
        let mut closed = false;
        if let Some(m) = &mut self.help_modal {
            closed = apply_help_command(m, command);
        }
        if closed {
            self.help_modal = None;
        }
    }
}

} // verus!

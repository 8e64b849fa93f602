//! The client's forms on top of the main screen: importing links from the
//! clipboard, editing a download, and adding a local .torrent file.
use vstd::prelude::*;
use crate::aria2::{joined_path, join_path};
use crate::client::{App, DownloadEditModal, RefreshRequest, filter_matches};
use crate::download::{AddDownloadInput, AddDownloadsRequest};
use crate::enums::DownloadStatus;
use crate::finetune::{FineTune, unset_finetune};
use crate::overlays::{
    ClipboardImportModal, ImportUrlEntry, ModalTab, ToastLevel, clipboard_queue_cursor, import_cursor, live_toasts,
    pushed_toasts,
};
use crate::panes::{adjust_finetune_field, adjusted_field, field_steppable};
use crate::queue::Queue;
use crate::table::strings_view;
use crate::torrent_form::{
    TorrentFileModal, TorrentFileModalTab, TorrentUploadMetadata, override_of, queue_at_or_main, step_cursor,
    stepped_cursor,
};

verus! {

/// The queue list's first queue with a name.
pub open spec fn first_named(qs: Seq<Queue>, name: Seq<char>) -> Option<int>
    decreases qs.len(),
{
    if qs.len() == 0 {
        None
    } else if qs[0].name@ == name {
        Some(0)
    } else {
        match first_named(qs.drop_first(), name) {
            Some(i) => Some(i + 1),
            None => None,
        }
    }
}

pub open spec fn as_row(o: Option<int>) -> Option<usize> {
    match o {
        Some(i) => Some(i as usize),
        None => None,
    }
}

/// The queue a new form starts on: the selected queue, else the main
/// queue, else the first.
pub open spec fn form_queue_cursor(a: App) -> usize {
    import_cursor(a.selected_queue, a.queues@.len() as usize, as_row(first_named(a.queues@, "Main Queue"@)))
}

pub(crate) fn find_main_queue(qs: &Vec<Queue>) -> (r: Option<usize>)
    ensures
        r == as_row(first_named(qs@, "Main Queue"@)),
{
    let mut i: usize = 0;
    assert(qs@.skip(0) =~= qs@);
    while i < qs.len()
        invariant
            i <= qs@.len(),
            first_named(qs@, "Main Queue"@) == (match first_named(qs@.skip(i as int), "Main Queue"@) {
                Some(k) => Some(k + i),
                None => None::<int>,
            }),
        decreases qs@.len() - i,
    {
        assert(qs@.skip(i as int).drop_first() =~= qs@.skip(i + 1));
        if crate::enums::same_text(qs[i].name.as_str(), "Main Queue") {
            return Some(i);
        }
        i = i + 1;
    }
    assert(qs@.skip(i as int) =~= Seq::<Queue>::empty());
    None
}

pub open spec fn entries_view(v: Seq<ImportUrlEntry>) -> Seq<(Seq<char>, bool)> {
    v.map_values(|e: ImportUrlEntry| (e.url@, e.selected))
}

/// The URLs of the ticked entries, in order.
pub open spec fn ticked_urls(v: Seq<(Seq<char>, bool)>) -> Seq<Seq<char>>
    decreases v.len(),
{
    if v.len() == 0 {
        Seq::empty()
    } else {
        let rest = ticked_urls(v.drop_last());
        if v.last().1 {
            rest.push(v.last().0)
        } else {
            rest
        }
    }
}

pub open spec fn url_inputs(v: Seq<AddDownloadInput>) -> Seq<Option<Seq<char>>> {
    v.map_values(|i: AddDownloadInput| match i {
        AddDownloadInput::Url(u) => Some(u@),
        _ => None,
    })
}

/// Where a completed download is opened: its file, or its folder when the
/// name is unknown.
pub open spec fn open_target(destination: Seq<char>, filename: Option<Seq<char>>) -> Seq<char> {
    match filename {
        Some(name) => joined_path(destination, name),
        None => destination,
    }
}

/// The row of the first queue with an identifier, 0 when none.
pub open spec fn queue_row_of(qs: Seq<Queue>, id: i64) -> int
    decreases qs.len(),
{
    if qs.len() == 0 {
        0
    } else if qs[0].id == id {
        0
    } else if exists|k: int| 0 <= k < qs.len() && qs[k].id == id {
        queue_row_of(qs.drop_first(), id) + 1
    } else {
        0
    }
}

/// What a save of the download editor sends: a move when the queue
/// changed, then the tuning.
#[derive(Clone, Debug)]
pub struct DownloadEditSave {
    pub download_id: i64,
    pub move_to_queue: Option<i64>,
    pub finetune: FineTune,
}

/// A torrent upload to make: the checked path and what goes with it.
#[derive(Clone, Debug)]
pub struct TorrentSubmission {
    pub path: String,
    pub metadata: TorrentUploadMetadata,
}

fn queue_position(qs: &Vec<Queue>, id: i64) -> (r: usize)
    ensures
        r == queue_row_of(qs@, id),
        qs@.len() > 0 ==> r < qs@.len(),
{
    let mut i: usize = 0;
    while i < qs.len()
        invariant
            i <= qs@.len(),
            forall|k: int| 0 <= k < i ==> qs@[k].id != id,
        decreases qs@.len() - i,
    {
        if qs[i].id == id {
            proof {
                lemma_queue_row(qs@, id, i as int);
            }
            return i;
        }
        i = i + 1;
    }
    proof {
        lemma_queue_row_absent(qs@, id);
    }
    0
}

proof fn lemma_queue_row(qs: Seq<Queue>, id: i64, i: int)
    requires
        0 <= i < qs.len(),
        qs[i].id == id,
        forall|k: int| 0 <= k < i ==> qs[k].id != id,
    ensures
        queue_row_of(qs, id) == i,
    decreases i,
{
    if i > 0 {
        assert(qs.drop_first()[i - 1].id == id);
        lemma_queue_row(qs.drop_first(), id, i - 1);
    }
}

proof fn lemma_queue_row_absent(qs: Seq<Queue>, id: i64)
    requires
        forall|k: int| 0 <= k < qs.len() ==> qs[k].id != id,
    ensures
        queue_row_of(qs, id) == 0,
{
}

impl App {
    /// Opens the import form on the links found on the clipboard, all
    /// ticked (not over another overlay); an empty clipboard is reported.
    pub fn open_clipboard_import(&mut self, urls: Vec<String>, now_ms: u64)
        requires
            old(self).wf(),
        ensures
            final(self).wf(),
            old(self).any_overlay() ==> *final(self) == *old(self),
            !old(self).any_overlay() && urls@.len() == 0 ==> final(self).toasts.view_seq() == pushed_toasts(
                old(self).toasts.view_seq(),
                ("clipboard is empty"@, ToastLevel::Info, now_ms),
            ) && *final(self) == (App { toasts: final(self).toasts, ..*old(self) }),
            !old(self).any_overlay() && urls@.len() > 0 ==> (final(self).modal matches Some(m) && m.tab
                == ModalTab::Urls && entries_view(m.entries@) == strings_view(urls@).map_values(
                |u: Seq<char>| (u, true),
            ) && m.url_cursor == 0 && m.queue_cursor == form_queue_cursor(*old(self)) && m.finetune
                == unset_finetune() && m.finetune_cursor == 0 && *final(self) == (App {
                modal: final(self).modal,
                ..*old(self)
            })),
    {
        if self.has_open_modal() {
            return;
        }
        if urls.len() == 0 {
            self.toasts.push("clipboard is empty".to_owned(), ToastLevel::Info, now_ms);
            return;
        }
        let mut entries: Vec<ImportUrlEntry> = Vec::new();
        let mut i: usize = 0;
        while i < urls.len()
            invariant
                i <= urls@.len(),
                entries_view(entries@) == strings_view(urls@).take(i as int).map_values(|u: Seq<char>| (u, true)),
            decreases urls@.len() - i,
        {
            let url = urls[i].clone();
            let ghost prev = entries@;
            let ghost u = url@;
            entries.push(ImportUrlEntry { url, selected: true });
            assert(u == urls@[i as int]@);
            assert(entries_view(entries@) =~= entries_view(prev).push((u, true)));
            assert(strings_view(urls@).take(i + 1) =~= strings_view(urls@).take(i as int).push(u));
            assert(strings_view(urls@).take(i + 1).map_values(|u: Seq<char>| (u, true)) =~= strings_view(urls@).take(
                i as int,
            ).map_values(|u: Seq<char>| (u, true)).push((u, true)));
            assert(entries_view(entries@) =~= strings_view(urls@).take(i + 1).map_values(
                |u: Seq<char>| (u, true),
            ));
            i = i + 1;
        }
        assert(strings_view(urls@).take(i as int) =~= strings_view(urls@));
        let main = find_main_queue(&self.queues);
        let queue_cursor = clipboard_queue_cursor(self.selected_queue, self.queues.len(), main);
        self.modal = Some(
            ClipboardImportModal {
                tab: ModalTab::Urls,
                entries,
                url_cursor: 0,
                queue_cursor,
                finetune: FineTune::default(),
                finetune_cursor: 0,
            },
        );
    }

    pub fn cancel_modal(&mut self)
        ensures
            *final(self) == (App { modal: None, ..*old(self) }),
    {
        self.modal = None;
    }

    /// Switches between the links and tuning tabs.
    pub fn modal_next_tab(&mut self)
        ensures
            *final(self) == (App {
                modal: match old(self).modal {
                    Some(m) => Some(
                        ClipboardImportModal {
                            tab: if m.tab == ModalTab::Urls {
                                ModalTab::FineTuning
                            } else {
                                ModalTab::Urls
                            },
                            ..m
                        },
                    ),
                    None => None,
                },
                ..*old(self)
            }),
    {
        if let Some(m) = &mut self.modal {
            m.tab = match m.tab {
                ModalTab::Urls => ModalTab::FineTuning,
                ModalTab::FineTuning => ModalTab::Urls,
            };
        }
    }

    /// With two tabs, going back is going forward.
    pub fn modal_prev_tab(&mut self)
        ensures
            *final(self) == (App {
                modal: match old(self).modal {
                    Some(m) => Some(
                        ClipboardImportModal {
                            tab: if m.tab == ModalTab::Urls {
                                ModalTab::FineTuning
                            } else {
                                ModalTab::Urls
                            },
                            ..m
                        },
                    ),
                    None => None,
                },
                ..*old(self)
            }),
    {
        self.modal_next_tab();
    }

    /// Down: the next link, or the next of the four tuning rows.
    pub fn modal_move_down(&mut self)
        ensures
            *final(self) == (App {
                modal: match old(self).modal {
                    Some(m) => Some(
                        if m.tab == ModalTab::Urls {
                            if m.entries@.len() > 0 {
                                ClipboardImportModal {
                                    url_cursor: stepped_cursor(m.url_cursor, true, m.entries@.len() as usize),
                                    ..m
                                }
                            } else {
                                m
                            }
                        } else {
                            ClipboardImportModal { finetune_cursor: stepped_cursor(m.finetune_cursor, true, 4), ..m }
                        },
                    ),
                    None => None,
                },
                ..*old(self)
            }),
    {
        if let Some(m) = &mut self.modal {
            match m.tab {
                ModalTab::Urls => {
                    if m.entries.len() > 0 {
                        m.url_cursor = step_cursor(m.url_cursor, true, m.entries.len());
                    }
                },
                ModalTab::FineTuning => {
                    m.finetune_cursor = step_cursor(m.finetune_cursor, true, 4);
                },
            }
        }
    }

    pub fn modal_move_up(&mut self)
        ensures
            *final(self) == (App {
                modal: match old(self).modal {
                    Some(m) => Some(
                        if m.tab == ModalTab::Urls {
                            ClipboardImportModal { url_cursor: stepped_cursor(m.url_cursor, false, 1), ..m }
                        } else {
                            ClipboardImportModal { finetune_cursor: stepped_cursor(m.finetune_cursor, false, 1), ..m }
                        },
                    ),
                    None => None,
                },
                ..*old(self)
            }),
    {
        if let Some(m) = &mut self.modal {
            match m.tab {
                ModalTab::Urls => {
                    m.url_cursor = step_cursor(m.url_cursor, false, 1);
                },
                ModalTab::FineTuning => {
                    m.finetune_cursor = step_cursor(m.finetune_cursor, false, 1);
                },
            }
        }
    }

    fn modal_adjust(&mut self, forward: bool)
        requires
            old(self).modal is Some && old(self).modal->Some_0.tab == ModalTab::FineTuning ==> field_steppable(
                old(self).modal->Some_0.finetune,
                old(self).modal->Some_0.finetune_cursor as int,
                forward,
            ),
        ensures
            *final(self) == (App {
                modal: match old(self).modal {
                    Some(m) => Some(
                        if m.tab == ModalTab::Urls {
                            if old(self).queues@.len() > 0 {
                                ClipboardImportModal {
                                    queue_cursor: stepped_cursor(
                                        m.queue_cursor,
                                        forward,
                                        old(self).queues@.len() as usize,
                                    ),
                                    ..m
                                }
                            } else {
                                m
                            }
                        } else {
                            ClipboardImportModal {
                                finetune: adjusted_field(m.finetune, m.finetune_cursor, forward),
                                ..m
                            }
                        },
                    ),
                    None => None,
                },
                ..*old(self)
            }),
    {
        let n = self.queues.len();
        if let Some(m) = &mut self.modal {
            match m.tab {
                ModalTab::Urls => {
                    if n > 0 {
                        m.queue_cursor = step_cursor(m.queue_cursor, forward, n);
                    }
                },
                ModalTab::FineTuning => {
                    adjust_finetune_field(&mut m.finetune, m.finetune_cursor, forward);
                },
            }
        }
    }

    /// Left: the previous queue, or a smaller tuning value.
    pub fn modal_adjust_left(&mut self)
        ensures
            *final(self) == (App {
                modal: match old(self).modal {
                    Some(m) => Some(
                        if m.tab == ModalTab::Urls {
                            if old(self).queues@.len() > 0 {
                                ClipboardImportModal {
                                    queue_cursor: stepped_cursor(m.queue_cursor, false, old(self).queues@.len() as usize),
                                    ..m
                                }
                            } else {
                                m
                            }
                        } else {
                            ClipboardImportModal { finetune: adjusted_field(m.finetune, m.finetune_cursor, false), ..m }
                        },
                    ),
                    None => None,
                },
                ..*old(self)
            }),
    {
        self.modal_adjust(false);
    }

    /// Right: the next queue, or a larger tuning value.
    pub fn modal_adjust_right(&mut self)
        requires
            old(self).modal is Some && old(self).modal->Some_0.tab == ModalTab::FineTuning ==> field_steppable(
                old(self).modal->Some_0.finetune,
                old(self).modal->Some_0.finetune_cursor as int,
                true,
            ),
        ensures
            *final(self) == (App {
                modal: match old(self).modal {
                    Some(m) => Some(
                        if m.tab == ModalTab::Urls {
                            if old(self).queues@.len() > 0 {
                                ClipboardImportModal {
                                    queue_cursor: stepped_cursor(m.queue_cursor, true, old(self).queues@.len() as usize),
                                    ..m
                                }
                            } else {
                                m
                            }
                        } else {
                            ClipboardImportModal { finetune: adjusted_field(m.finetune, m.finetune_cursor, true), ..m }
                        },
                    ),
                    None => None,
                },
                ..*old(self)
            }),
    {
        self.modal_adjust(true);
    }

    /// Space ticks or unticks the link under the cursor.
    pub fn modal_toggle_selected_url(&mut self)
        ensures
            *final(self) == (App { modal: final(self).modal, ..*old(self) }),
            old(self).modal is None ==> final(self).modal is None,
            old(self).modal matches Some(m) ==> (final(self).modal matches Some(n) && n == (ClipboardImportModal {
                entries: n.entries,
                ..m
            }) && entries_view(n.entries@) == (if m.url_cursor < m.entries@.len() {
                entries_view(m.entries@).update(
                    m.url_cursor as int,
                    (m.entries@[m.url_cursor as int].url@, !m.entries@[m.url_cursor as int].selected),
                )
            } else {
                entries_view(m.entries@)
            })),
    {
        if let Some(m) = &mut self.modal {
            let i = m.url_cursor;
            if i < m.entries.len() {
                let ghost before = m.entries@;
                let e = m.entries.remove(i);
                let flipped = ImportUrlEntry { url: e.url, selected: !e.selected };
                m.entries.insert(i, flipped);
                assert(entries_view(m.entries@) =~= entries_view(before).update(
                    i as int,
                    (before[i as int].url@, !before[i as int].selected),
                ));
            }
        }
    }

    fn modal_select(&mut self, selected: bool)
        ensures
            *final(self) == (App { modal: final(self).modal, ..*old(self) }),
            old(self).modal is None ==> final(self).modal is None,
            old(self).modal matches Some(m) ==> (final(self).modal matches Some(n) && n == (ClipboardImportModal {
                entries: n.entries,
                ..m
            }) && entries_view(n.entries@) == entries_view(m.entries@).map_values(
                |e: (Seq<char>, bool)| (e.0, selected),
            )),
    {
        if let Some(m) = &mut self.modal {
            let mut out: Vec<ImportUrlEntry> = Vec::new();
            let mut i: usize = 0;
            while i < m.entries.len()
                invariant
                    i <= m.entries@.len(),
                    entries_view(out@) == entries_view(m.entries@).take(i as int).map_values(
                        |e: (Seq<char>, bool)| (e.0, selected),
                    ),
                decreases m.entries@.len() - i,
            {
                let url = m.entries[i].url.clone();
                let ghost prev = out@;
                let ghost u = url@;
                out.push(ImportUrlEntry { url, selected });
                assert(entries_view(out@) =~= entries_view(prev).push((u, selected)));
                assert(entries_view(m.entries@).take(i + 1) =~= entries_view(m.entries@).take(i as int).push(
                    (m.entries@[i as int].url@, m.entries@[i as int].selected),
                ));
                assert(entries_view(m.entries@).take(i + 1).map_values(|e: (Seq<char>, bool)| (e.0, selected))
                    =~= entries_view(m.entries@).take(i as int).map_values(|e: (Seq<char>, bool)| (e.0, selected)).push(
                    (u, selected),
                ));
                assert(entries_view(out@) =~= entries_view(m.entries@).take(i + 1).map_values(
                    |e: (Seq<char>, bool)| (e.0, selected),
                ));
                i = i + 1;
            }
            assert(entries_view(m.entries@).take(i as int) =~= entries_view(m.entries@));
            m.entries = out;
        }
    }

    /// Ticks every link.
    pub fn modal_select_all(&mut self)
        ensures
            *final(self) == (App { modal: final(self).modal, ..*old(self) }),
            old(self).modal is None ==> final(self).modal is None,
            old(self).modal matches Some(m) ==> (final(self).modal matches Some(n) && n == (ClipboardImportModal {
                entries: n.entries,
                ..m
            }) && entries_view(n.entries@) == entries_view(m.entries@).map_values(
                |e: (Seq<char>, bool)| (e.0, true),
            )),
    {
        self.modal_select(true);
    }

    /// Unticks every link.
    pub fn modal_select_none(&mut self)
        ensures
            *final(self) == (App { modal: final(self).modal, ..*old(self) }),
            old(self).modal is None ==> final(self).modal is None,
            old(self).modal matches Some(m) ==> (final(self).modal matches Some(n) && n == (ClipboardImportModal {
                entries: n.entries,
                ..m
            }) && entries_view(n.entries@) == entries_view(m.entries@).map_values(
                |e: (Seq<char>, bool)| (e.0, false),
            )),
    {
        self.modal_select(false);
    }
}

impl App {
    /// Sends the ticked links to the chosen queue, with the tuning when it
    /// differs from the defaults, and closes the form; with nothing ticked
    /// the form just closes.
    pub fn submit_modal(&mut self, start_immediately: bool, now_ms: u64) -> (r: Option<
        (AddDownloadsRequest, Option<RefreshRequest>),
    >)
        requires
            old(self).wf(),
        ensures
            final(self).wf(),
            old(self).modal is None ==> r is None && *final(self) == *old(self),
            old(self).modal matches Some(m) ==> {
                let urls = ticked_urls(entries_view(m.entries@));
                &&& urls.len() == 0 ==> r is None && *final(self) == (App { modal: None, ..*old(self) })
                &&& urls.len() > 0 ==> (r matches Some((req, refresh)) && url_inputs(req.inputs@) == urls.map_values(
                    |u: Seq<char>| Some(u),
                ) && req.queue_id == queue_at_or_main(old(self).queues@, m.queue_cursor) && req.finetune_override
                    == override_of(m.finetune) && req.start_immediately == start_immediately
                    && final(self).toasts.view_seq() == live_toasts(old(self).toasts.view_seq(), now_ms)
                    && *final(self) == (App {
                    modal: None,
                    toasts: final(self).toasts,
                    refresh_in_flight: true,
                    ..*old(self)
                }) && (old(self).refresh_in_flight <==> refresh is None) && (refresh matches Some(q)
                    ==> filter_matches(q.filter, *old(self))))
            },
    {
        let m = match self.modal.take() {
            Some(m) => m,
            None => {
                return None;
            },
        };
        let mut inputs: Vec<AddDownloadInput> = Vec::new();
        let mut i: usize = 0;
        while i < m.entries.len()
            invariant
                i <= m.entries@.len(),
                url_inputs(inputs@) == ticked_urls(entries_view(m.entries@).take(i as int)).map_values(
                    |u: Seq<char>| Some(u),
                ),
            decreases m.entries@.len() - i,
        {
            assert(entries_view(m.entries@).take(i + 1).drop_last() =~= entries_view(m.entries@).take(i as int));
            if m.entries[i].selected {
                let url = m.entries[i].url.clone();
                let ghost prev = inputs@;
                let ghost u = url@;
                inputs.push(AddDownloadInput::Url(url));
                assert(url_inputs(inputs@) =~= url_inputs(prev).push(Some(u)));
                assert(ticked_urls(entries_view(m.entries@).take(i + 1)).map_values(|u: Seq<char>| Some(u))
                    =~= ticked_urls(entries_view(m.entries@).take(i as int)).map_values(|u: Seq<char>| Some(u)).push(
                    Some(u),
                ));
            }
            i = i + 1;
        }
        assert(entries_view(m.entries@).take(i as int) =~= entries_view(m.entries@));
        if inputs.len() == 0 {
            proof {
                assert(url_inputs(inputs@).len() == 0);
            }
            return None;
        }
        let queue_id = if m.queue_cursor < self.queues.len() {
            self.queues[m.queue_cursor].id
        } else {
            1
        };
        let finetune_override = if m.finetune == FineTune::default() {
            None
        } else {
            Some(m.finetune)
        };
        let request = AddDownloadsRequest { inputs, queue_id, finetune_override, start_immediately };
        let refresh = self.refresh(now_ms);
        Some((request, refresh))
    }

    pub fn start_modal_now(&mut self, now_ms: u64) -> (r: Option<(AddDownloadsRequest, Option<RefreshRequest>)>)
        requires
            old(self).wf(),
        ensures
            final(self).wf(),
            r matches Some((req, _)) ==> req.start_immediately,
            old(self).modal is None ==> r is None && *final(self) == *old(self),
            old(self).modal is Some ==> final(self).modal is None,
            (old(self).modal matches Some(m) && ticked_urls(entries_view(m.entries@)).len() > 0) ==> r is Some,
    {
        self.submit_modal(true, now_ms)
    }

    pub fn save_modal_for_later(&mut self, now_ms: u64) -> (r: Option<(AddDownloadsRequest, Option<RefreshRequest>)>)
        requires
            old(self).wf(),
        ensures
            final(self).wf(),
            r matches Some((req, _)) ==> !req.start_immediately,
            old(self).modal is None ==> r is None && *final(self) == *old(self),
            old(self).modal is Some ==> final(self).modal is None,
            (old(self).modal matches Some(m) && ticked_urls(entries_view(m.entries@)).len() > 0) ==> r is Some,
    {
        self.submit_modal(false, now_ms)
    }

    /// Enter on a download: a completed one is opened (the path is
    /// returned), any other gets the download editor on its own queue.
    /// Nothing happens over another overlay or without a selection.
    pub fn activate_selected_download(&mut self) -> (r: Option<String>)
        ensures
            (old(self).any_overlay() || old(self).selected_download >= old(self).downloads@.len()) ==> r is None
                && *final(self) == *old(self),
            !(old(self).any_overlay() || old(self).selected_download >= old(self).downloads@.len()) ==> {
                let d = old(self).downloads@[old(self).selected_download as int].download;
                &&& d.status is Completed ==> (r matches Some(p) && p@ == open_target(
                    d.destination_path@,
                    crate::config::opt_string_view(d.filename),
                ) && *final(self) == *old(self))
                &&& !(d.status is Completed) ==> r is None && *final(self) == (App {
                    download_modal: Some(
                        DownloadEditModal {
                            download_id: d.id,
                            finetune: d.finetune,
                            cursor: 0,
                            queue_cursor: queue_row_of(old(self).queues@, d.queue_id) as usize,
                            original_queue_id: d.queue_id,
                            error: None,
                        },
                    ),
                    ..*old(self)
                })
            },
    {
        if self.has_open_modal() || self.selected_download >= self.downloads.len() {
            return None;
        }
        let d = &self.downloads[self.selected_download].download;
        let completed = match d.status {
            DownloadStatus::Completed => true,
            _ => false,
        };
        if completed {
            let path = match &d.filename {
                Some(name) => join_path(d.destination_path.as_str(), name.as_str()),
                None => d.destination_path.clone(),
            };
            return Some(path);
        }
        let queue_cursor = queue_position(&self.queues, d.queue_id);
        let modal = DownloadEditModal {
            download_id: d.id,
            finetune: d.finetune,
            cursor: 0,
            queue_cursor,
            original_queue_id: d.queue_id,
            error: None,
        };
        self.download_modal = Some(modal);
        None
    }

    /// `f` on a completed download opens its folder (the path is returned).
    pub fn open_selected_download_folder(&self) -> (r: Option<String>)
        ensures
            (!self.any_overlay() && self.selected_download < self.downloads@.len()
                && self.downloads@[self.selected_download as int].download.status is Completed) ==> (r matches Some(p)
                && p == self.downloads@[self.selected_download as int].download.destination_path),
            !(!self.any_overlay() && self.selected_download < self.downloads@.len()
                && self.downloads@[self.selected_download as int].download.status is Completed) ==> r is None,
    {
        if self.has_open_modal() || self.selected_download >= self.downloads.len() {
            return None;
        }
        let d = &self.downloads[self.selected_download].download;
        match d.status {
            DownloadStatus::Completed => Some(d.destination_path.clone()),
            _ => None,
        }
    }

    pub fn cancel_download_modal(&mut self)
        ensures
            *final(self) == (App { download_modal: None, ..*old(self) }),
    {
        self.download_modal = None;
    }

    /// Down: the next of the seven rows (six tuning fields, then the queue).
    pub fn download_modal_move_down(&mut self)
        ensures
            *final(self) == (App {
                download_modal: match old(self).download_modal {
                    Some(m) => Some(DownloadEditModal { cursor: stepped_cursor(m.cursor, true, 7), ..m }),
                    None => None,
                },
                ..*old(self)
            }),
    {
        if let Some(m) = &mut self.download_modal {
            m.cursor = step_cursor(m.cursor, true, 7);
        }
    }

    pub fn download_modal_move_up(&mut self)
        ensures
            *final(self) == (App {
                download_modal: match old(self).download_modal {
                    Some(m) => Some(DownloadEditModal { cursor: stepped_cursor(m.cursor, false, 1), ..m }),
                    None => None,
                },
                ..*old(self)
            }),
    {
        if let Some(m) = &mut self.download_modal {
            m.cursor = step_cursor(m.cursor, false, 1);
        }
    }

    fn download_modal_adjust(&mut self, forward: bool)
        requires
            old(self).download_modal is Some ==> field_steppable(
                old(self).download_modal->Some_0.finetune,
                old(self).download_modal->Some_0.cursor as int,
                forward,
            ),
        ensures
            *final(self) == (App {
                download_modal: match old(self).download_modal {
                    Some(m) => Some(edited_download(m, forward, old(self).queues@.len())),
                    None => None,
                },
                ..*old(self)
            }),
    {
        let n = self.queues.len();
        if let Some(m) = &mut self.download_modal {
            if m.cursor == 6 {
                if n > 0 {
                    let c = m.queue_cursor % n;
                    m.queue_cursor = if forward {
                        if c + 1 < n {
                            c + 1
                        } else {
                            0
                        }
                    } else if c == 0 {
                        n - 1
                    } else {
                        c - 1
                    };
                }
            } else {
                adjust_finetune_field(&mut m.finetune, m.cursor, forward);
            }
        }
    }

    /// Left: a smaller tuning value, or the previous queue (cycling).
    pub fn download_modal_adjust_left(&mut self)
        ensures
            *final(self) == (App {
                download_modal: match old(self).download_modal {
                    Some(m) => Some(edited_download(m, false, old(self).queues@.len())),
                    None => None,
                },
                ..*old(self)
            }),
    {
        self.download_modal_adjust(false);
    }

    /// Right: a larger tuning value, or the next queue (cycling).
    pub fn download_modal_adjust_right(&mut self)
        requires
            old(self).download_modal is Some ==> field_steppable(
                old(self).download_modal->Some_0.finetune,
                old(self).download_modal->Some_0.cursor as int,
                true,
            ),
        ensures
            *final(self) == (App {
                download_modal: match old(self).download_modal {
                    Some(m) => Some(edited_download(m, true, old(self).queues@.len())),
                    None => None,
                },
                ..*old(self)
            }),
    {
        self.download_modal_adjust(true);
    }

    /// Saves the download editor: a move when the queue changed, then the
    /// tuning; the view refreshes. Without a queue under the cursor the
    /// editor stays open with an error.
    pub fn save_download_modal(&mut self, now_ms: u64) -> (r: Option<(DownloadEditSave, Option<RefreshRequest>)>)
        requires
            old(self).wf(),
        ensures
            final(self).wf(),
            old(self).download_modal is None ==> r is None && *final(self) == *old(self),
            old(self).download_modal matches Some(m) ==> {
                &&& m.queue_cursor >= old(self).queues@.len() ==> r is None && (final(self).download_modal matches Some(
                    n,
                ) && n == (DownloadEditModal { error: n.error, ..m }) && (n.error matches Some(e) && e@
                    == "No queue is available"@)) && *final(self) == (App {
                    download_modal: final(self).download_modal,
                    ..*old(self)
                })
                &&& m.queue_cursor < old(self).queues@.len() ==> (r matches Some((save, refresh)) && save.download_id
                    == m.download_id && save.finetune == m.finetune && save.move_to_queue == (if old(
                    self,
                ).queues@[m.queue_cursor as int].id != m.original_queue_id {
                    Some(old(self).queues@[m.queue_cursor as int].id)
                } else {
                    None
                }) && final(self).toasts.view_seq() == live_toasts(old(self).toasts.view_seq(), now_ms)
                    && *final(self) == (App {
                    download_modal: None,
                    toasts: final(self).toasts,
                    refresh_in_flight: true,
                    ..*old(self)
                }) && (old(self).refresh_in_flight <==> refresh is None) && (refresh matches Some(q)
                    ==> filter_matches(q.filter, *old(self))))
            },
    {
        let mut m = match self.download_modal.take() {
            Some(m) => m,
            None => {
                return None;
            },
        };
        if m.queue_cursor >= self.queues.len() {
            m.error = Some("No queue is available".to_owned());
            self.download_modal = Some(m);
            return None;
        }
        let queue_id = self.queues[m.queue_cursor].id;
        let move_to_queue = if queue_id != m.original_queue_id {
            Some(queue_id)
        } else {
            None
        };
        let save = DownloadEditSave { download_id: m.download_id, move_to_queue, finetune: m.finetune };
        let refresh = self.refresh(now_ms);
        Some((save, refresh))
    }
}

/// The download editor after left or right: on the queue row the queue
/// cycles through the list, elsewhere the tuning field steps.
pub open spec fn edited_download(m: DownloadEditModal, forward: bool, n: nat) -> DownloadEditModal {
    if m.cursor == 6 {
        if n > 0 {
            let c = m.queue_cursor as int % n as int;
            DownloadEditModal {
                queue_cursor: (if forward {
                    if c + 1 < n {
                        c + 1
                    } else {
                        0
                    }
                } else if c == 0 {
                    n - 1
                } else {
                    c - 1
                }) as usize,
                ..m
            }
        } else {
            m
        }
    } else {
        DownloadEditModal { finetune: adjusted_field(m.finetune, m.cursor, forward), ..m }
    }
}

} // verus!

//! State logic of the terminal client's panes: focus, the per-download
//! action, tuning adjustments, the status bar and the speed chart.
use vstd::prelude::*;
use crate::enums::{DownloadStatus, FileCategory, AllocStrategy, StreamPieceSelector, category_name, category_label};
use crate::finetune::{Aria2GlobalOptions, FineTune};
use crate::enums::{alloc_strategy_name, stream_piece_selector_name, alloc_strategy_label as alloc_text, stream_piece_selector_label as selector_text};
use crate::text::{decimal, decimal_string};
use crate::supervisor::{LifecycleState, LifecycleModel};
use crate::text::push_str;

verus! {

#[derive(Clone, Copy, Debug, PartialEq, Eq, Structural)]
pub enum Focus {
    Queues,
    Categories,
    Downloads,
}

pub open spec fn focus_next(f: Focus) -> Focus {
    match f {
        Focus::Queues => Focus::Categories,
        Focus::Categories => Focus::Downloads,
        Focus::Downloads => Focus::Queues,
    }
}

pub open spec fn focus_prev(f: Focus) -> Focus {
    match f {
        Focus::Queues => Focus::Downloads,
        Focus::Categories => Focus::Queues,
        Focus::Downloads => Focus::Categories,
    }
}

impl Focus {
    /// The next pane, in a cycle of three.
    pub fn next(self) -> (r: Self)
        ensures
            r == focus_next(self),
    {
        match self {
            Focus::Queues => Focus::Categories,
            Focus::Categories => Focus::Downloads,
            Focus::Downloads => Focus::Queues,
        }
    }

    pub fn prev(self) -> (r: Self)
        ensures
            r == focus_prev(self),
    {
        match self {
            Focus::Queues => Focus::Downloads,
            Focus::Categories => Focus::Queues,
            Focus::Downloads => Focus::Categories,
        }
    }
}

/// Moving the focus forward and back again returns to the same pane, and
/// three steps forward go all the way round.
pub proof fn law_focus_cycles(f: Focus)
    ensures
        focus_prev(focus_next(f)) == f,
        focus_next(focus_prev(f)) == f,
        focus_next(focus_next(focus_next(f))) == f,
{
}

/// The one action offered for the selected download.
#[derive(Clone, Copy, Debug, PartialEq, Eq, Structural)]
pub enum DownloadAction {
    Start,
    Resume,
    Pause,
    Retry,
    Restart,
}

pub open spec fn action_key(a: DownloadAction) -> char {
    match a {
        DownloadAction::Pause => 'p',
        _ => 'r',
    }
}

pub open spec fn action_hint(a: DownloadAction) -> Seq<char> {
    match a {
        DownloadAction::Start => "   r: start"@,
        DownloadAction::Resume => "   r: resume"@,
        DownloadAction::Pause => "   p: pause"@,
        DownloadAction::Retry => "   r: retry"@,
        DownloadAction::Restart => "   r: restart"@,
    }
}

impl DownloadAction {
    /// `p` pauses; every other action is on `r`.
    pub fn key(self) -> (r: char)
        ensures
            r == action_key(self),
    {
        match self {
            DownloadAction::Pause => 'p',
            DownloadAction::Start | DownloadAction::Resume | DownloadAction::Retry
            | DownloadAction::Restart => 'r',
        }
    }

    /// The footer text for the action.
    pub fn hint(self) -> (r: &'static str)
        ensures
            r@ == action_hint(self),
    {
        match self {
            DownloadAction::Start => "   r: start",
            DownloadAction::Resume => "   r: resume",
            DownloadAction::Pause => "   p: pause",
            DownloadAction::Retry => "   r: retry",
            DownloadAction::Restart => "   r: restart",
        }
    }
}

pub open spec fn action_for(s: DownloadStatus) -> DownloadAction {
    match s {
        DownloadStatus::Pending => DownloadAction::Start,
        DownloadStatus::Paused => DownloadAction::Resume,
        DownloadStatus::Active => DownloadAction::Pause,
        DownloadStatus::Error(_) => DownloadAction::Retry,
        DownloadStatus::Removed => DownloadAction::Retry,
        DownloadStatus::Completed => DownloadAction::Restart,
    }
}

/// Pending starts, paused resumes, active pauses, failed or removed
/// retries, completed restarts.
pub fn download_action(status: &DownloadStatus) -> (r: DownloadAction)
    ensures
        r == action_for(*status),
{
    match status {
        DownloadStatus::Pending => DownloadAction::Start,
        DownloadStatus::Paused => DownloadAction::Resume,
        DownloadStatus::Active => DownloadAction::Pause,
        DownloadStatus::Error(_) | DownloadStatus::Removed => DownloadAction::Retry,
        DownloadStatus::Completed => DownloadAction::Restart,
    }
}

/// Only an active download can be paused from the list, and an active
/// download is never offered `r`.
pub proof fn law_pause_only_for_active(s: DownloadStatus)
    ensures
        (action_key(action_for(s)) == 'p') == (s is Active),
{
}

/// The footer's action hint: empty without a selected download.
pub fn downloads_rp_hint(action: Option<DownloadAction>) -> (r: &'static str)
    ensures
        r@ == (match action {
            Some(a) => action_hint(a),
            None => Seq::empty(),
        }),
{
    match action {
        Some(a) => a.hint(),
        None => {
            proof {
                reveal_strlit("");
            }
            ""
        },
    }
}

/// The footer's key hints for the focused pane: the download actions on
/// the list (with the selected download's start or pause key), the queue
/// actions (resume and pause only for a real queue, not All), or just the
/// pane keys on the categories.
pub open spec fn footer_text(focus: Focus, selected_queue: usize, action: Option<DownloadAction>) -> Seq<char> {
    match focus {
        Focus::Downloads => "1/2/3 or Tab: switch pane   j/k \u{2191}/\u{2193}: navigate   Enter: open/edit   f: open folder"@
            + (match action {
            Some(a) => action_hint(a),
            None => Seq::empty(),
        }) + "   d: delete   D: delete + files   v: import clipboard   q: quit"@,
        Focus::Queues => if selected_queue == 0 {
            "1/2/3 or Tab: switch pane   j/k \u{2191}/\u{2193}: navigate   x: remove completed   n: new queue   Enter: edit queue   v: import clipboard   q: quit"@
        } else {
            "1/2/3 or Tab: switch pane   j/k \u{2191}/\u{2193}: navigate   x: remove completed   r/p: resume/pause   n: new queue   Enter: edit queue   v: import clipboard   q: quit"@
        },
        Focus::Categories => "1/2/3 or Tab: switch pane   j/k \u{2191}/\u{2193}: navigate   v: import clipboard   q: quit"@,
    }
}

pub fn footer_hint(focus: Focus, selected_queue: usize, action: Option<DownloadAction>) -> (r: String)
    ensures
        r@ == footer_text(focus, selected_queue, action),
{
    match focus {
        Focus::Downloads => {
            let mut s = "1/2/3 or Tab: switch pane   j/k \u{2191}/\u{2193}: navigate   Enter: open/edit   f: open folder".to_owned();
            push_str(&mut s, downloads_rp_hint(action));
            push_str(&mut s, "   d: delete   D: delete + files   v: import clipboard   q: quit");
            s
        },
        Focus::Queues => if selected_queue == 0 {
            "1/2/3 or Tab: switch pane   j/k \u{2191}/\u{2193}: navigate   x: remove completed   n: new queue   Enter: edit queue   v: import clipboard   q: quit".to_owned()
        } else {
            "1/2/3 or Tab: switch pane   j/k \u{2191}/\u{2193}: navigate   x: remove completed   r/p: resume/pause   n: new queue   Enter: edit queue   v: import clipboard   q: quit".to_owned()
        },
        Focus::Categories => "1/2/3 or Tab: switch pane   j/k \u{2191}/\u{2193}: navigate   v: import clipboard   q: quit".to_owned(),
    }
}

/// A setting left to aria2, labelled with aria2's own value when known.
pub fn aria2_global_label(value: Option<String>) -> (r: String)
    ensures
        r@ == (match value {
            Some(v) => v@ + " (aria2 global)"@,
            None => "(aria2 global)"@,
        }),
{
    match value {
        Some(v) => {
            let mut s = v;
            push_str(&mut s, " (aria2 global)");
            s
        },
        None => "(aria2 global)".to_owned(),
    }
}

/// A tuning value as the forms show it: the value, or what stands for an
/// unset one.
pub open spec fn shown_count(v: Option<u32>, unset: Seq<char>) -> Seq<char> {
    match v {
        Some(n) => decimal(n as nat),
        None => unset,
    }
}

/// The four transfer settings of a form (connections per download, per
/// server, file allocation, piece selection), with `(default)` for those
/// left unset.
pub open spec fn default_labels(f: FineTune) -> Seq<Seq<char>> {
    seq![
        shown_count(f.connections_per_download, "(default)"@),
        shown_count(f.max_connections_per_server, "(default)"@),
        match f.alloc_strategy {
            Some(a) => alloc_strategy_name(a),
            None => "(default)"@,
        },
        match f.stream_piece_selector {
            Some(p) => stream_piece_selector_name(p),
            None => "(default)"@,
        },
    ]
}

/// The same settings in the queue editor: an unset one shows aria2's
/// global value, marked as such (or only the mark when it is not known).
pub open spec fn global_labels(f: FineTune, g: Option<Aria2GlobalOptions>) -> Seq<Seq<char>> {
    let mark = |v: Option<Seq<char>>| match v {
        Some(t) => t + " (aria2 global)"@,
        None => "(aria2 global)"@,
    };
    seq![
        match f.connections_per_download {
            Some(n) => decimal(n as nat),
            None => mark(match g {
                Some(o) => match o.connections_per_download {
                    Some(n) => Some(decimal(n as nat)),
                    None => None,
                },
                None => None,
            }),
        },
        match f.max_connections_per_server {
            Some(n) => decimal(n as nat),
            None => mark(match g {
                Some(o) => match o.max_connections_per_server {
                    Some(n) => Some(decimal(n as nat)),
                    None => None,
                },
                None => None,
            }),
        },
        match f.alloc_strategy {
            Some(a) => alloc_strategy_name(a),
            None => mark(match g {
                Some(o) => match o.alloc_strategy {
                    Some(a) => Some(alloc_strategy_name(a)),
                    None => None,
                },
                None => None,
            }),
        },
        match f.stream_piece_selector {
            Some(p) => stream_piece_selector_name(p),
            None => mark(match g {
                Some(o) => match o.stream_piece_selector {
                    Some(p) => Some(stream_piece_selector_name(p)),
                    None => None,
                },
                None => None,
            }),
        },
    ]
}

fn count_or(v: Option<u32>, unset: &str) -> (r: String)
    ensures
        r@ == shown_count(v, unset@),
{
    match v {
        Some(n) => decimal_string(n as u64),
        None => unset.to_owned(),
    }
}

pub fn default_tuning_labels(f: &FineTune) -> (r: Vec<String>)
    ensures
        r@.map_values(|s: String| s@) == default_labels(*f),
{
    let mut v: Vec<String> = Vec::new();
    v.push(count_or(f.connections_per_download, "(default)"));
    v.push(count_or(f.max_connections_per_server, "(default)"));
    v.push(match &f.alloc_strategy {
        Some(a) => alloc_text(a),
        None => "(default)".to_owned(),
    });
    v.push(match &f.stream_piece_selector {
        Some(p) => selector_text(p),
        None => "(default)".to_owned(),
    });
    assert(v@.map_values(|s: String| s@) =~= default_labels(*f));
    v
}

pub fn global_tuning_labels(f: &FineTune, g: &Option<Aria2GlobalOptions>) -> (r: Vec<String>)
    ensures
        r@.map_values(|s: String| s@) == global_labels(*f, *g),
{
    let mut v: Vec<String> = Vec::new();
    v.push(match f.connections_per_download {
        Some(n) => decimal_string(n as u64),
        None => aria2_global_label(match g {
            Some(o) => match o.connections_per_download {
                Some(n) => Some(decimal_string(n as u64)),
                None => None,
            },
            None => None,
        }),
    });
    v.push(match f.max_connections_per_server {
        Some(n) => decimal_string(n as u64),
        None => aria2_global_label(match g {
            Some(o) => match o.max_connections_per_server {
                Some(n) => Some(decimal_string(n as u64)),
                None => None,
            },
            None => None,
        }),
    });
    v.push(match &f.alloc_strategy {
        Some(a) => alloc_text(a),
        None => aria2_global_label(match g {
            Some(o) => match &o.alloc_strategy {
                Some(a) => Some(alloc_text(a)),
                None => None,
            },
            None => None,
        }),
    });
    v.push(match &f.stream_piece_selector {
        Some(p) => selector_text(p),
        None => aria2_global_label(match g {
            Some(o) => match &o.stream_piece_selector {
                Some(p) => Some(selector_text(p)),
                None => None,
            },
            None => None,
        }),
    });
    assert(v@.map_values(|s: String| s@) =~= global_labels(*f, *g));
    v
}

/// Optional value stepped by one; zero means unset, and stepping up stops
/// at `max`.
pub open spec fn stepped(current: Option<u32>, forward: bool, max: u32) -> Option<u32> {
    let val: int = match current {
        Some(v) => v as int,
        None => 0,
    };
    let new_val: int = if forward {
        if val + 1 < max {
            val + 1
        } else {
            max as int
        }
    } else if val > 0 {
        val - 1
    } else {
        0
    };
    if new_val == 0 {
        None
    } else {
        Some(new_val as u32)
    }
}

/// Steps an optional count where zero means unset.
pub fn adjust_opt_u32(current: Option<u32>, forward: bool, max: u32) -> (r: Option<u32>)
    requires
        forward ==> match current {
            Some(v) => v < u32::MAX,
            None => true,
        },
    ensures
        r == stepped(current, forward, max),
{
    let val = match current {
        Some(v) => v,
        None => 0,
    };
    let new_val = if forward {
        let up = val + 1;
        if up < max {
            up
        } else {
            max
        }
    } else {
        val.saturating_sub(1)
    };
    if new_val == 0 {
        None
    } else {
        Some(new_val)
    }
}

/// Optional value where zero is a real setting: unset, then 0, 1, ... up
/// to `max`; stepping down from 0 unsets it.
pub open spec fn stepped_with_zero(current: Option<u32>, forward: bool, max: u32) -> Option<u32> {
    match current {
        None => if forward {
            Some(0)
        } else {
            None
        },
        Some(v) => if forward {
            Some(
                (if v + 1 <= u32::MAX {
                    if v + 1 < max {
                        v + 1
                    } else {
                        max as int
                    }
                } else {
                    if u32::MAX < max {
                        u32::MAX as int
                    } else {
                        max as int
                    }
                }) as u32,
            )
        } else if v == 0 {
            None
        } else {
            Some((v - 1) as u32)
        },
    }
}

pub fn adjust_opt_u32_including_zero(current: Option<u32>, forward: bool, max: u32) -> (r: Option<
    u32,
>)
    ensures
        r == stepped_with_zero(current, forward, max),
{
    match (current, forward) {
        (None, true) => Some(0),
        (None, false) => None,
        (Some(0), false) => None,
        (Some(value), true) => {
            let up = value.saturating_add(1);
            Some(
                if up < max {
                    up
                } else {
                    max
                },
            )
        },
        (Some(value), false) => Some(value - 1),
    }
}

/// Allocation strategies in the order the tuning form cycles through them.
pub open spec fn alloc_order() -> Seq<Option<AllocStrategy>> {
    seq![
        None,
        Some(AllocStrategy::NoAllocation),
        Some(AllocStrategy::Prealloc),
        Some(AllocStrategy::Falloc),
        Some(AllocStrategy::Trunc),
    ]
}

pub open spec fn selector_order() -> Seq<Option<StreamPieceSelector>> {
    seq![
        None,
        Some(StreamPieceSelector::Default),
        Some(StreamPieceSelector::InOrder),
        Some(StreamPieceSelector::Random),
        Some(StreamPieceSelector::Geom),
    ]
}

/// The neighbour of `current` in a cyclic order (the first entry when it
/// is not listed).
pub open spec fn cycled<T>(order: Seq<T>, current: T, forward: bool) -> T
    recommends
        order.len() > 0,
{
    let idx = if order.contains(current) {
        order.index_of(current)
    } else {
        0
    };
    if forward {
        order[(idx + 1) % (order.len() as int)]
    } else {
        order[(idx + order.len() - 1) % (order.len() as int)]
    }
}

fn alloc_index(a: Option<AllocStrategy>) -> (r: usize)
    ensures
        r < 5,
        alloc_order()[r as int] == a,
{
    match a {
        None => 0,
        Some(AllocStrategy::NoAllocation) => 1,
        Some(AllocStrategy::Prealloc) => 2,
        Some(AllocStrategy::Falloc) => 3,
        Some(AllocStrategy::Trunc) => 4,
    }
}

fn alloc_at(i: usize) -> (r: Option<AllocStrategy>)
    requires
        i < 5,
    ensures
        r == alloc_order()[i as int],
{
    if i == 0 {
        None
    } else if i == 1 {
        Some(AllocStrategy::NoAllocation)
    } else if i == 2 {
        Some(AllocStrategy::Prealloc)
    } else if i == 3 {
        Some(AllocStrategy::Falloc)
    } else {
        Some(AllocStrategy::Trunc)
    }
}

fn selector_index(a: Option<StreamPieceSelector>) -> (r: usize)
    ensures
        r < 5,
        selector_order()[r as int] == a,
{
    match a {
        None => 0,
        Some(StreamPieceSelector::Default) => 1,
        Some(StreamPieceSelector::InOrder) => 2,
        Some(StreamPieceSelector::Random) => 3,
        Some(StreamPieceSelector::Geom) => 4,
    }
}

fn selector_at(i: usize) -> (r: Option<StreamPieceSelector>)
    requires
        i < 5,
    ensures
        r == selector_order()[i as int],
{
    if i == 0 {
        None
    } else if i == 1 {
        Some(StreamPieceSelector::Default)
    } else if i == 2 {
        Some(StreamPieceSelector::InOrder)
    } else if i == 3 {
        Some(StreamPieceSelector::Random)
    } else {
        Some(StreamPieceSelector::Geom)
    }
}

/// Position one step along a cycle of five.
pub open spec fn cycle_step(idx: int, forward: bool) -> int {
    if forward {
        (idx + 1) % 5
    } else {
        (idx + 4) % 5
    }
}

fn step5(idx: usize, forward: bool) -> (r: usize)
    requires
        idx < 5,
    ensures
        r == cycle_step(idx as int, forward),
        r < 5,
{
    if forward {
        (idx + 1) % 5
    } else {
        (idx + 4) % 5
    }
}

/// The tuning form's fields, by cursor row: connections, per-server
/// connections, allocation, piece selector, retries, retry wait.
pub open spec fn adjusted_field(f: FineTune, cursor: usize, forward: bool) -> FineTune {
    if cursor == 0 {
        FineTune { connections_per_download: stepped(f.connections_per_download, forward, 16), ..f }
    } else if cursor == 1 {
        FineTune {
            max_connections_per_server: stepped(f.max_connections_per_server, forward, 16),
            ..f
        }
    } else if cursor == 2 {
        FineTune {
            alloc_strategy: alloc_order()[cycle_step(
                alloc_order().index_of(f.alloc_strategy),
                forward,
            )],
            ..f
        }
    } else if cursor == 3 {
        FineTune {
            stream_piece_selector: selector_order()[cycle_step(
                selector_order().index_of(f.stream_piece_selector),
                forward,
            )],
            ..f
        }
    } else if cursor == 4 {
        FineTune { max_retries: stepped_with_zero(f.max_retries, forward, 20), ..f }
    } else if cursor == 5 {
        FineTune { retry_wait_seconds: stepped_with_zero(f.retry_wait_seconds, forward, 300), ..f }
    } else {
        f
    }
}

proof fn lemma_alloc_index(a: Option<AllocStrategy>, i: int)
    requires
        0 <= i < 5,
        alloc_order()[i] == a,
    ensures
        alloc_order().index_of(a) == i,
{
    assert(alloc_order().contains(a));
    let j = alloc_order().index_of(a);
    assert(alloc_order()[j] == a);
    assert(alloc_order()[0] != alloc_order()[1]);
}

proof fn lemma_selector_index(a: Option<StreamPieceSelector>, i: int)
    requires
        0 <= i < 5,
        selector_order()[i] == a,
    ensures
        selector_order().index_of(a) == i,
{
    assert(selector_order().contains(a));
}

/// Stepping the field under the cursor stays within `u32`.
pub open spec fn field_steppable(f: FineTune, cursor: int, forward: bool) -> bool {
    &&& forward && cursor == 0 ==> f.connections_per_download != Some(u32::MAX)
    &&& forward && cursor == 1 ==> f.max_connections_per_server != Some(u32::MAX)
}

/// Steps the tuning field under the cursor.
pub fn adjust_finetune_field(f: &mut FineTune, cursor: usize, forward: bool)
    requires
        forward && cursor == 0 ==> old(f).connections_per_download != Some(u32::MAX),
        forward && cursor == 1 ==> old(f).max_connections_per_server != Some(u32::MAX),
    ensures
        *final(f) == adjusted_field(*old(f), cursor, forward),
{
    if cursor == 0 {
        f.connections_per_download = adjust_opt_u32(f.connections_per_download, forward, 16);
    } else if cursor == 1 {
        f.max_connections_per_server = adjust_opt_u32(f.max_connections_per_server, forward, 16);
    } else if cursor == 2 {
        let i = alloc_index(f.alloc_strategy);
        proof {
            lemma_alloc_index(f.alloc_strategy, i as int);
        }
        f.alloc_strategy = alloc_at(step5(i, forward));
    } else if cursor == 3 {
        let i = selector_index(f.stream_piece_selector);
        proof {
            lemma_selector_index(f.stream_piece_selector, i as int);
        }
        f.stream_piece_selector = selector_at(step5(i, forward));
    } else if cursor == 4 {
        f.max_retries = adjust_opt_u32_including_zero(f.max_retries, forward, 20);
    } else if cursor == 5 {
        f.retry_wait_seconds = adjust_opt_u32_including_zero(f.retry_wait_seconds, forward, 300);
    }
}

/// Samples kept for the speed chart.
pub const SPEED_HISTORY_LEN: usize = 15;

/// The chart's columns: blanks on the left, then the samples, so the
/// newest sits at the right edge.
pub open spec fn bars_of(samples: Seq<u64>) -> Seq<Option<u64>> {
    let pad: int = if samples.len() < SPEED_HISTORY_LEN {
        SPEED_HISTORY_LEN - samples.len()
    } else {
        0
    };
    Seq::new(pad as nat, |i: int| None::<u64>) + samples.map_values(|s: u64| Some(s))
}

pub fn sparkline_bars(history: &[u64]) -> (r: Vec<Option<u64>>)
    ensures
        r@ == bars_of(history@),
{
    let pad: usize = SPEED_HISTORY_LEN.saturating_sub(history.len());
    let mut out: Vec<Option<u64>> = Vec::new();
    let mut i: usize = 0;
    while i < pad
        invariant
            i <= pad,
            out@ == Seq::new(i as nat, |k: int| None::<u64>),
        decreases pad - i,
    {
        out.push(None);
        proof {
            assert(out@ =~= Seq::new((i + 1) as nat, |k: int| None::<u64>));
        }
        i = i + 1;
    }
    let mut j: usize = 0;
    while j < history.len()
        invariant
            j <= history@.len(),
            pad == (if history@.len() < SPEED_HISTORY_LEN {
                SPEED_HISTORY_LEN - history@.len()
            } else {
                0
            }),
            out@ == Seq::new(pad as nat, |k: int| None::<u64>) + history@.take(j as int).map_values(
                |s: u64| Some(s),
            ),
        decreases history@.len() - j,
    {
        out.push(Some(history[j]));
        proof {
            assert(history@.take(j + 1).map_values(|s: u64| Some(s)) =~= history@.take(
                j as int,
            ).map_values(|s: u64| Some(s)).push(Some(history@[j as int])));
        }
        j = j + 1;
    }
    proof {
        assert(history@.take(j as int) =~= history@);
    }
    out
}

/// What the status bar says about the server.
#[derive(Clone, Copy, Debug, PartialEq, Eq, Structural)]
pub enum ServerStatus {
    Starting,
    Retrying,
    Up,
    Down,
    Failed,
}

pub open spec fn server_status_label(s: ServerStatus) -> Seq<char> {
    match s {
        ServerStatus::Starting => "starting"@,
        ServerStatus::Retrying => "retrying"@,
        ServerStatus::Up => "up"@,
        ServerStatus::Down => "down"@,
        ServerStatus::Failed => "failed"@,
    }
}

impl ServerStatus {
    pub fn label(self) -> (r: &'static str)
        ensures
            r@ == server_status_label(self),
    {
        match self {
            ServerStatus::Starting => "starting",
            ServerStatus::Retrying => "retrying",
            ServerStatus::Up => "up",
            ServerStatus::Down => "down",
            ServerStatus::Failed => "failed",
        }
    }
}

/// A server the client does not manage is up or down by reachability; a
/// managed one follows the supervisor's lifecycle, and counts as up only
/// while it is also reachable.
pub open spec fn status_of_server(manages: bool, reachable: bool, lifecycle: LifecycleModel) -> ServerStatus {
    if !manages {
        if reachable {
            ServerStatus::Up
        } else {
            ServerStatus::Down
        }
    } else {
        match lifecycle {
            LifecycleModel::Starting => ServerStatus::Starting,
            LifecycleModel::Retrying => ServerStatus::Retrying,
            LifecycleModel::Connected => if reachable {
                ServerStatus::Up
            } else {
                ServerStatus::Down
            },
            LifecycleModel::Failed(_) => ServerStatus::Failed,
        }
    }
}

pub fn server_status(manages_server: bool, server_reachable: bool, lifecycle: &LifecycleState) -> (r:
    ServerStatus)
    ensures
        r == status_of_server(manages_server, server_reachable, lifecycle@),
{
    if !manages_server {
        return if server_reachable {
            ServerStatus::Up
        } else {
            ServerStatus::Down
        };
    }
    match lifecycle {
        LifecycleState::Starting => ServerStatus::Starting,
        LifecycleState::Retrying => ServerStatus::Retrying,
        LifecycleState::Connected => if server_reachable {
            ServerStatus::Up
        } else {
            ServerStatus::Down
        },
        LifecycleState::Failed(_) => ServerStatus::Failed,
    }
}

/// The status bar's filter note, naming the selected queue and category.
pub open spec fn filter_label_text(queue: Option<Seq<char>>, category: Option<FileCategory>) -> Option<Seq<char>> {
    match (queue, category) {
        (None, None) => None,
        (Some(q), None) => Some("Filter: "@ + q),
        (None, Some(c)) => Some("Filter: "@ + category_name(c)),
        (Some(q), Some(c)) => Some("Filter: "@ + q + " \u{b7} "@ + category_name(c)),
    }
}

pub fn filter_indicator_label(queue_name: Option<&str>, category: Option<FileCategory>) -> (r: Option<
    String,
>)
    ensures
        (match r {
            Some(s) => Some(s@),
            None => None,
        }) == filter_label_text(
            match queue_name {
                Some(q) => Some(q@),
                None => None,
            },
            category,
        ),
{
    match (queue_name, category) {
        (None, None) => None,
        (Some(q), None) => {
            let mut s = "Filter: ".to_owned();
            push_str(&mut s, q);
            Some(s)
        },
        (None, Some(c)) => {
            let mut s = "Filter: ".to_owned();
            let label = category_label(&c);
            push_str(&mut s, label.as_str());
            Some(s)
        },
        (Some(q), Some(c)) => {
            let mut s = "Filter: ".to_owned();
            push_str(&mut s, q);
            push_str(&mut s, " \u{b7} ");
            let label = category_label(&c);
            push_str(&mut s, label.as_str());
            Some(s)
        },
    }
}

} // verus!

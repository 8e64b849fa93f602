//! Key handling of the terminal client: which command a key press stands
//! for, given what is on screen, and how the help overlay's search and
//! scrolling react.
use vstd::prelude::*;
use crate::panes::{Focus, focus_next, focus_prev};
use crate::overlays::{HelpModal, ModalTab};
use crate::table::{grapheme_clusters, concat, strings_view};
use crate::text::push_char;

verus! {

#[derive(Clone, Copy, Debug, PartialEq, Eq, Structural)]
pub enum KeyCode {
    Char(char),
    Enter,
    Esc,
    Tab,
    BackTab,
    Backspace,
    Up,
    Down,
    Left,
    Right,
    PageUp,
    PageDown,
    Home,
    End,
    Other,
}

/// One key press with its modifiers (`other` is any of super, hyper, meta).
#[derive(Clone, Copy, Debug, PartialEq, Eq, Structural)]
pub struct KeyPress {
    pub code: KeyCode,
    pub shift: bool,
    pub control: bool,
    pub alt: bool,
    pub other: bool,
}

/// The queue editor's state as far as keys are concerned.
#[derive(Clone, Copy, Debug, PartialEq, Eq, Structural)]
pub struct QueueModalKeys {
    /// A text field is being edited.
    pub editing_text: bool,
    /// The download-items tab is shown.
    pub on_items_tab: bool,
}

/// What is open when a key arrives.
#[derive(Clone, Copy, Debug, PartialEq, Eq, Structural)]
pub struct KeyContext {
    pub confirmation_open: bool,
    /// The help overlay, and whether its search is being edited.
    pub help: Option<bool>,
    /// The queue editor, when open.
    pub queue_modal: Option<QueueModalKeys>,
    /// The clipboard import form and its tab.
    pub clipboard: Option<ModalTab>,
    pub download_modal_open: bool,
    pub focus: Focus,
}

/// What a key press asks the client to do.
#[derive(Clone, Copy, Debug, PartialEq, Eq, Structural)]
pub enum Command {
    Nothing,
    Quit,
    ConfirmConfirmation,
    CancelConfirmation,
    HelpClearSearch,
    HelpFinishSearch,
    HelpBackspace,
    HelpType(char),
    HelpStartSearch,
    /// Scroll down a line, or a page.
    HelpScrollDown(bool),
    HelpScrollUp(bool),
    HelpTop,
    HelpBottom,
    CloseHelp,
    QueueModalConfirmText,
    QueueModalCancelText,
    QueueModalTextBackspace,
    QueueModalTextInput(char),
    QueueModalCancel,
    QueueModalNextTab,
    QueueModalPrevTab,
    QueueModalStartTextEdit,
    QueueModalSave,
    QueueModalMoveItemDown,
    QueueModalMoveItemUp,
    QueueModalMoveDown,
    QueueModalMoveUp,
    QueueModalAdjustLeft,
    QueueModalAdjustRight,
    QueueModalToggleDay,
    ImportCancel,
    ImportNextTab,
    ImportPrevTab,
    ImportStartNow,
    ImportSaveForLater,
    ImportMoveDown,
    ImportMoveUp,
    ImportAdjustLeft,
    ImportAdjustRight,
    ImportToggleUrl,
    ImportSelectAll,
    ImportSelectNone,
    DownloadModalCancel,
    DownloadModalSave,
    DownloadModalMoveDown,
    DownloadModalMoveUp,
    DownloadModalAdjustLeft,
    DownloadModalAdjustRight,
    OpenHelp,
    SetFocus(Focus),
    OpenClipboardImport,
    RemoveCompletedDownloads,
    RequestDeleteSelectedFiles,
    RequestDeleteSelectedQueue,
    SelectNextQueue,
    SelectPrevQueue,
    OpenCreateQueueModal,
    OpenEditQueueModal,
    PauseSelectedQueue,
    ResumeSelectedQueue,
    SelectNextCategory,
    SelectPrevCategory,
    SelectNextDownload,
    SelectPrevDownload,
    ActivateSelectedDownload,
    OpenSelectedDownloadFolder,
    PauseSelected,
    ResumeSelected,
    DeleteSelected,
}

pub open spec fn is_char(k: KeyPress, c: char) -> bool {
    k.code == KeyCode::Char(c)
}

/// Exactly Control held (the terminal's Ctrl+C).
pub open spec fn is_ctrl_c(k: KeyPress) -> bool {
    k.control && !k.shift && !k.alt && !k.other && (is_char(k, 'c') || is_char(k, 'C'))
}

/// `x` on the queue list removes completed downloads.
pub open spec fn remove_completed_key(focus: Focus, code: KeyCode) -> bool {
    focus == Focus::Queues && code == KeyCode::Char('x')
}

/// Shifted `D` on the download list deletes a download with its files.
pub open spec fn delete_files_key(focus: Focus, code: KeyCode) -> bool {
    focus == Focus::Downloads && code == KeyCode::Char('D')
}

/// Lowercase `d` on the queue list deletes the queue.
pub open spec fn delete_queue_key(focus: Focus, code: KeyCode) -> bool {
    focus == Focus::Queues && code == KeyCode::Char('d')
}

pub fn is_remove_completed_key(focus: Focus, code: KeyCode) -> (r: bool)
    ensures
        r == remove_completed_key(focus, code),
{
    focus == Focus::Queues && code == KeyCode::Char('x')
}

pub fn is_delete_files_key(focus: Focus, code: KeyCode) -> (r: bool)
    ensures
        r == delete_files_key(focus, code),
{
    focus == Focus::Downloads && code == KeyCode::Char('D')
}

pub fn is_delete_queue_key(focus: Focus, code: KeyCode) -> (r: bool)
    ensures
        r == delete_queue_key(focus, code),
{
    focus == Focus::Queues && code == KeyCode::Char('d')
}

/// `char::is_control`: the Unicode control characters (category Cc).
pub open spec fn is_control_char(c: char) -> bool {
    (c as u32) <= 0x1f || (0x7f <= (c as u32) && (c as u32) <= 0x9f)
}

pub open spec fn confirmation_command(k: KeyPress) -> Command {
    match k.code {
        KeyCode::Enter => Command::ConfirmConfirmation,
        KeyCode::Char(c) => if c == 'y' || c == 'Y' {
            Command::ConfirmConfirmation
        } else if c == 'n' || c == 'N' || c == 'c' || c == 'C' {
            Command::CancelConfirmation
        } else {
            Command::Nothing
        },
        KeyCode::Esc => Command::CancelConfirmation,
        _ => Command::Nothing,
    }
}

pub open spec fn help_command(editing: bool, k: KeyPress) -> Command {
    if editing && (k.code == KeyCode::Esc || k.code == KeyCode::Enter || k.code
        == KeyCode::Backspace || k.code is Char) {
        match k.code {
            KeyCode::Esc => Command::HelpClearSearch,
            KeyCode::Enter => Command::HelpFinishSearch,
            KeyCode::Backspace => Command::HelpBackspace,
            KeyCode::Char(c) => if !is_control_char(c) && !k.control && !k.alt {
                Command::HelpType(c)
            } else {
                Command::Nothing
            },
            _ => Command::Nothing,
        }
    } else {
        match k.code {
            KeyCode::Char(c) => if c == '/' {
                Command::HelpStartSearch
            } else if c == 'j' {
                Command::HelpScrollDown(false)
            } else if c == 'k' {
                Command::HelpScrollUp(false)
            } else if c == 'q' || c == '?' {
                Command::CloseHelp
            } else {
                Command::Nothing
            },
            KeyCode::Down => Command::HelpScrollDown(false),
            KeyCode::Up => Command::HelpScrollUp(false),
            KeyCode::PageDown => Command::HelpScrollDown(true),
            KeyCode::PageUp => Command::HelpScrollUp(true),
            KeyCode::Home => Command::HelpTop,
            KeyCode::End => Command::HelpBottom,
            KeyCode::Esc => Command::CloseHelp,
            _ => Command::Nothing,
        }
    }
}

pub open spec fn queue_modal_command(editing: bool, on_items_tab: bool, k: KeyPress) -> Command {
    if editing {
        match k.code {
            KeyCode::Enter => Command::QueueModalConfirmText,
            KeyCode::Esc => Command::QueueModalCancelText,
            KeyCode::Backspace => Command::QueueModalTextBackspace,
            KeyCode::Char(c) => Command::QueueModalTextInput(c),
            _ => Command::Nothing,
        }
    } else {
        match k.code {
            KeyCode::Esc => Command::QueueModalCancel,
            KeyCode::Tab => Command::QueueModalNextTab,
            KeyCode::BackTab => Command::QueueModalPrevTab,
            KeyCode::Enter => Command::QueueModalStartTextEdit,
            KeyCode::Down => Command::QueueModalMoveDown,
            KeyCode::Up => Command::QueueModalMoveUp,
            KeyCode::Left => Command::QueueModalAdjustLeft,
            KeyCode::Right => Command::QueueModalAdjustRight,
            KeyCode::Char(c) => if c == 'c' {
                Command::QueueModalCancel
            } else if c == 's' {
                Command::QueueModalSave
            } else if c == 'J' && on_items_tab {
                Command::QueueModalMoveItemDown
            } else if c == 'K' && on_items_tab {
                Command::QueueModalMoveItemUp
            } else if c == 'j' {
                Command::QueueModalMoveDown
            } else if c == 'k' {
                Command::QueueModalMoveUp
            } else if c == 'h' {
                Command::QueueModalAdjustLeft
            } else if c == 'l' {
                Command::QueueModalAdjustRight
            } else if c == ' ' {
                Command::QueueModalToggleDay
            } else {
                Command::Nothing
            },
            _ => Command::Nothing,
        }
    }
}

pub open spec fn import_command(tab: ModalTab, k: KeyPress) -> Command {
    match k.code {
        KeyCode::Esc => Command::ImportCancel,
        KeyCode::Tab => Command::ImportNextTab,
        KeyCode::BackTab => Command::ImportPrevTab,
        KeyCode::Down => Command::ImportMoveDown,
        KeyCode::Up => Command::ImportMoveUp,
        KeyCode::Left => Command::ImportAdjustLeft,
        KeyCode::Right => Command::ImportAdjustRight,
        KeyCode::Char(c) => if c == 'c' {
            Command::ImportCancel
        } else if c == 's' {
            Command::ImportStartNow
        } else if c == 'w' {
            Command::ImportSaveForLater
        } else if c == 'j' {
            Command::ImportMoveDown
        } else if c == 'k' {
            Command::ImportMoveUp
        } else if c == 'h' {
            Command::ImportAdjustLeft
        } else if c == 'l' {
            Command::ImportAdjustRight
        } else if c == ' ' && tab == ModalTab::Urls {
            Command::ImportToggleUrl
        } else if c == 'a' && tab == ModalTab::Urls {
            Command::ImportSelectAll
        } else if c == 'n' && tab == ModalTab::Urls {
            Command::ImportSelectNone
        } else {
            Command::Nothing
        },
        _ => Command::Nothing,
    }
}

pub open spec fn download_modal_command(k: KeyPress) -> Command {
    match k.code {
        KeyCode::Esc => Command::DownloadModalCancel,
        KeyCode::Down => Command::DownloadModalMoveDown,
        KeyCode::Up => Command::DownloadModalMoveUp,
        KeyCode::Left => Command::DownloadModalAdjustLeft,
        KeyCode::Right => Command::DownloadModalAdjustRight,
        KeyCode::Char(c) => if c == 'c' {
            Command::DownloadModalCancel
        } else if c == 's' {
            Command::DownloadModalSave
        } else if c == 'j' {
            Command::DownloadModalMoveDown
        } else if c == 'k' {
            Command::DownloadModalMoveUp
        } else if c == 'h' {
            Command::DownloadModalAdjustLeft
        } else if c == 'l' {
            Command::DownloadModalAdjustRight
        } else {
            Command::Nothing
        },
        _ => Command::Nothing,
    }
}

pub open spec fn pane_command(focus: Focus, k: KeyPress) -> Command {
    match focus {
        Focus::Queues => match k.code {
            KeyCode::Down => Command::SelectNextQueue,
            KeyCode::Up => Command::SelectPrevQueue,
            KeyCode::Enter => Command::OpenEditQueueModal,
            KeyCode::Char(c) => if c == 'j' {
                Command::SelectNextQueue
            } else if c == 'k' {
                Command::SelectPrevQueue
            } else if c == 'n' {
                Command::OpenCreateQueueModal
            } else if c == 'p' {
                Command::PauseSelectedQueue
            } else if c == 'r' {
                Command::ResumeSelectedQueue
            } else {
                Command::Nothing
            },
            _ => Command::Nothing,
        },
        Focus::Categories => match k.code {
            KeyCode::Down => Command::SelectNextCategory,
            KeyCode::Up => Command::SelectPrevCategory,
            KeyCode::Char(c) => if c == 'j' {
                Command::SelectNextCategory
            } else if c == 'k' {
                Command::SelectPrevCategory
            } else {
                Command::Nothing
            },
            _ => Command::Nothing,
        },
        Focus::Downloads => match k.code {
            KeyCode::Down => Command::SelectNextDownload,
            KeyCode::Up => Command::SelectPrevDownload,
            KeyCode::Enter => Command::ActivateSelectedDownload,
            KeyCode::Char(c) => if c == 'j' {
                Command::SelectNextDownload
            } else if c == 'k' {
                Command::SelectPrevDownload
            } else if c == 'f' {
                Command::OpenSelectedDownloadFolder
            } else if c == 'p' {
                Command::PauseSelected
            } else if c == 'r' {
                Command::ResumeSelected
            } else if c == 'd' {
                Command::DeleteSelected
            } else {
                Command::Nothing
            },
            _ => Command::Nothing,
        },
    }
}

pub open spec fn main_command(focus: Focus, k: KeyPress) -> Command {
    match k.code {
        KeyCode::Char('?') => Command::OpenHelp,
        KeyCode::Esc => Command::Quit,
        KeyCode::Char('q') => Command::Quit,
        KeyCode::Char('1') => Command::SetFocus(Focus::Queues),
        KeyCode::Char('2') => Command::SetFocus(Focus::Categories),
        KeyCode::Char('3') => Command::SetFocus(Focus::Downloads),
        KeyCode::Tab => Command::SetFocus(focus_next(focus)),
        KeyCode::BackTab => Command::SetFocus(focus_prev(focus)),
        KeyCode::Char('v') => Command::OpenClipboardImport,
        _ => if remove_completed_key(focus, k.code) {
            Command::RemoveCompletedDownloads
        } else if delete_files_key(focus, k.code) {
            Command::RequestDeleteSelectedFiles
        } else if delete_queue_key(focus, k.code) {
            Command::RequestDeleteSelectedQueue
        } else {
            pane_command(focus, k)
        },
    }
}

/// The command for a key press: a confirmation takes every key first
/// (Ctrl+C there cancels); then Ctrl+C quits; then the topmost overlay
/// (help, queue editor, clipboard import, download editor) takes the key;
/// only on the main screen do global and pane keys apply.
pub open spec fn command_for(ctx: KeyContext, k: KeyPress) -> Command {
    if ctx.confirmation_open {
        confirmation_command(k)
    } else if is_ctrl_c(k) {
        Command::Quit
    } else if ctx.help is Some {
        help_command(ctx.help->0, k)
    } else if ctx.queue_modal is Some {
        queue_modal_command(ctx.queue_modal->0.editing_text, ctx.queue_modal->0.on_items_tab, k)
    } else if ctx.clipboard is Some {
        import_command(ctx.clipboard->0, k)
    } else if ctx.download_modal_open {
        download_modal_command(k)
    } else {
        main_command(ctx.focus, k)
    }
}

fn confirmation_key(k: KeyPress) -> (r: Command)
    ensures
        r == confirmation_command(k),
{
    match k.code {
        KeyCode::Enter => Command::ConfirmConfirmation,
        KeyCode::Char(c) => if c == 'y' || c == 'Y' {
            Command::ConfirmConfirmation
        } else if c == 'n' || c == 'N' || c == 'c' || c == 'C' {
            Command::CancelConfirmation
        } else {
            Command::Nothing
        },
        KeyCode::Esc => Command::CancelConfirmation,
        _ => Command::Nothing,
    }
}

fn help_key(editing: bool, k: KeyPress) -> (r: Command)
    ensures
        r == help_command(editing, k),
{
    if editing {
        match k.code {
            KeyCode::Esc => {
                return Command::HelpClearSearch;
            },
            KeyCode::Enter => {
                return Command::HelpFinishSearch;
            },
            KeyCode::Backspace => {
                return Command::HelpBackspace;
            },
            KeyCode::Char(c) => {
                let code = c as u32;
                let control = code <= 0x1f || (0x7f <= code && code <= 0x9f);
                if !control && !k.control && !k.alt {
                    return Command::HelpType(c);
                } else {
                    return Command::Nothing;
                }
            },
            _ => {},
        }
    }
    match k.code {
        KeyCode::Char(c) => if c == '/' {
            Command::HelpStartSearch
        } else if c == 'j' {
            Command::HelpScrollDown(false)
        } else if c == 'k' {
            Command::HelpScrollUp(false)
        } else if c == 'q' || c == '?' {
            Command::CloseHelp
        } else {
            Command::Nothing
        },
        KeyCode::Down => Command::HelpScrollDown(false),
        KeyCode::Up => Command::HelpScrollUp(false),
        KeyCode::PageDown => Command::HelpScrollDown(true),
        KeyCode::PageUp => Command::HelpScrollUp(true),
        KeyCode::Home => Command::HelpTop,
        KeyCode::End => Command::HelpBottom,
        KeyCode::Esc => Command::CloseHelp,
        _ => Command::Nothing,
    }
}

fn queue_modal_key(editing: bool, on_items_tab: bool, k: KeyPress) -> (r: Command)
    ensures
        r == queue_modal_command(editing, on_items_tab, k),
{
    if editing {
        return match k.code {
            KeyCode::Enter => Command::QueueModalConfirmText,
            KeyCode::Esc => Command::QueueModalCancelText,
            KeyCode::Backspace => Command::QueueModalTextBackspace,
            KeyCode::Char(c) => Command::QueueModalTextInput(c),
            _ => Command::Nothing,
        };
    }
    match k.code {
        KeyCode::Esc => Command::QueueModalCancel,
        KeyCode::Tab => Command::QueueModalNextTab,
        KeyCode::BackTab => Command::QueueModalPrevTab,
        KeyCode::Enter => Command::QueueModalStartTextEdit,
        KeyCode::Down => Command::QueueModalMoveDown,
        KeyCode::Up => Command::QueueModalMoveUp,
        KeyCode::Left => Command::QueueModalAdjustLeft,
        KeyCode::Right => Command::QueueModalAdjustRight,
        KeyCode::Char(c) => if c == 'c' {
            Command::QueueModalCancel
        } else if c == 's' {
            Command::QueueModalSave
        } else if c == 'J' && on_items_tab {
            Command::QueueModalMoveItemDown
        } else if c == 'K' && on_items_tab {
            Command::QueueModalMoveItemUp
        } else if c == 'j' {
            Command::QueueModalMoveDown
        } else if c == 'k' {
            Command::QueueModalMoveUp
        } else if c == 'h' {
            Command::QueueModalAdjustLeft
        } else if c == 'l' {
            Command::QueueModalAdjustRight
        } else if c == ' ' {
            Command::QueueModalToggleDay
        } else {
            Command::Nothing
        },
        _ => Command::Nothing,
    }
}

fn import_key(tab: ModalTab, k: KeyPress) -> (r: Command)
    ensures
        r == import_command(tab, k),
{
    match k.code {
        KeyCode::Esc => Command::ImportCancel,
        KeyCode::Tab => Command::ImportNextTab,
        KeyCode::BackTab => Command::ImportPrevTab,
        KeyCode::Down => Command::ImportMoveDown,
        KeyCode::Up => Command::ImportMoveUp,
        KeyCode::Left => Command::ImportAdjustLeft,
        KeyCode::Right => Command::ImportAdjustRight,
        KeyCode::Char(c) => if c == 'c' {
            Command::ImportCancel
        } else if c == 's' {
            Command::ImportStartNow
        } else if c == 'w' {
            Command::ImportSaveForLater
        } else if c == 'j' {
            Command::ImportMoveDown
        } else if c == 'k' {
            Command::ImportMoveUp
        } else if c == 'h' {
            Command::ImportAdjustLeft
        } else if c == 'l' {
            Command::ImportAdjustRight
        } else if c == ' ' && tab == ModalTab::Urls {
            Command::ImportToggleUrl
        } else if c == 'a' && tab == ModalTab::Urls {
            Command::ImportSelectAll
        } else if c == 'n' && tab == ModalTab::Urls {
            Command::ImportSelectNone
        } else {
            Command::Nothing
        },
        _ => Command::Nothing,
    }
}

fn download_modal_key(k: KeyPress) -> (r: Command)
    ensures
        r == download_modal_command(k),
{
    match k.code {
        KeyCode::Esc => Command::DownloadModalCancel,
        KeyCode::Down => Command::DownloadModalMoveDown,
        KeyCode::Up => Command::DownloadModalMoveUp,
        KeyCode::Left => Command::DownloadModalAdjustLeft,
        KeyCode::Right => Command::DownloadModalAdjustRight,
        KeyCode::Char(c) => if c == 'c' {
            Command::DownloadModalCancel
        } else if c == 's' {
            Command::DownloadModalSave
        } else if c == 'j' {
            Command::DownloadModalMoveDown
        } else if c == 'k' {
            Command::DownloadModalMoveUp
        } else if c == 'h' {
            Command::DownloadModalAdjustLeft
        } else if c == 'l' {
            Command::DownloadModalAdjustRight
        } else {
            Command::Nothing
        },
        _ => Command::Nothing,
    }
}

fn pane_key(focus: Focus, k: KeyPress) -> (r: Command)
    ensures
        r == pane_command(focus, k),
{
    match focus {
        Focus::Queues => match k.code {
            KeyCode::Down => Command::SelectNextQueue,
            KeyCode::Up => Command::SelectPrevQueue,
            KeyCode::Enter => Command::OpenEditQueueModal,
            KeyCode::Char(c) => if c == 'j' {
                Command::SelectNextQueue
            } else if c == 'k' {
                Command::SelectPrevQueue
            } else if c == 'n' {
                Command::OpenCreateQueueModal
            } else if c == 'p' {
                Command::PauseSelectedQueue
            } else if c == 'r' {
                Command::ResumeSelectedQueue
            } else {
                Command::Nothing
            },
            _ => Command::Nothing,
        },
        Focus::Categories => match k.code {
            KeyCode::Down => Command::SelectNextCategory,
            KeyCode::Up => Command::SelectPrevCategory,
            KeyCode::Char(c) => if c == 'j' {
                Command::SelectNextCategory
            } else if c == 'k' {
                Command::SelectPrevCategory
            } else {
                Command::Nothing
            },
            _ => Command::Nothing,
        },
        Focus::Downloads => match k.code {
            KeyCode::Down => Command::SelectNextDownload,
            KeyCode::Up => Command::SelectPrevDownload,
            KeyCode::Enter => Command::ActivateSelectedDownload,
            KeyCode::Char(c) => if c == 'j' {
                Command::SelectNextDownload
            } else if c == 'k' {
                Command::SelectPrevDownload
            } else if c == 'f' {
                Command::OpenSelectedDownloadFolder
            } else if c == 'p' {
                Command::PauseSelected
            } else if c == 'r' {
                Command::ResumeSelected
            } else if c == 'd' {
                Command::DeleteSelected
            } else {
                Command::Nothing
            },
            _ => Command::Nothing,
        },
    }
}

/// The command a key press stands for in the given context.
pub fn update(ctx: &KeyContext, key: KeyPress) -> (r: Command)
    ensures
        r == command_for(*ctx, key),
{
    if ctx.confirmation_open {
        return confirmation_key(key);
    }
    if key.control && !key.shift && !key.alt && !key.other && (key.code == KeyCode::Char('c')
        || key.code == KeyCode::Char('C')) {
        return Command::Quit;
    }
    match ctx.help {
        Some(editing) => {
            return help_key(editing, key);
        },
        None => {},
    }
    match ctx.queue_modal {
        Some(q) => {
            return queue_modal_key(q.editing_text, q.on_items_tab, key);
        },
        None => {},
    }
    match ctx.clipboard {
        Some(tab) => {
            return import_key(tab, key);
        },
        None => {},
    }
    if ctx.download_modal_open {
        return download_modal_key(key);
    }
    match key.code {
        KeyCode::Char('?') => Command::OpenHelp,
        KeyCode::Esc => Command::Quit,
        KeyCode::Char('q') => Command::Quit,
        KeyCode::Char('1') => Command::SetFocus(Focus::Queues),
        KeyCode::Char('2') => Command::SetFocus(Focus::Categories),
        KeyCode::Char('3') => Command::SetFocus(Focus::Downloads),
        KeyCode::Tab => Command::SetFocus(ctx.focus.next()),
        KeyCode::BackTab => Command::SetFocus(ctx.focus.prev()),
        KeyCode::Char('v') => Command::OpenClipboardImport,
        _ => if is_remove_completed_key(ctx.focus, key.code) {
            Command::RemoveCompletedDownloads
        } else if is_delete_files_key(ctx.focus, key.code) {
            Command::RequestDeleteSelectedFiles
        } else if is_delete_queue_key(ctx.focus, key.code) {
            Command::RequestDeleteSelectedQueue
        } else {
            pane_key(ctx.focus, key)
        },
    }
}

/// A confirmation consumes every key: it is confirmed, cancelled (Ctrl+C
/// included) or left open, and nothing else happens.
pub proof fn law_confirmation_consumes_keys(ctx: KeyContext, k: KeyPress)
    requires
        ctx.confirmation_open,
    ensures
        command_for(ctx, k) == Command::ConfirmConfirmation || command_for(ctx, k)
            == Command::CancelConfirmation || command_for(ctx, k) == Command::Nothing,
        is_ctrl_c(k) ==> command_for(ctx, k) == Command::CancelConfirmation,
{
}

/// Outside a confirmation, Ctrl+C quits from anywhere.
pub proof fn law_ctrl_c_quits(ctx: KeyContext, k: KeyPress)
    requires
        !ctx.confirmation_open,
        is_ctrl_c(k),
    ensures
        command_for(ctx, k) == Command::Quit,
{
}

/// While help is open no main-screen action runs: keys only search,
/// scroll or close it (or quit on Ctrl+C).
pub proof fn law_help_blocks_main_screen(ctx: KeyContext, k: KeyPress)
    requires
        !ctx.confirmation_open,
        ctx.help is Some,
    ensures
        ({
            let c = command_for(ctx, k);
            c == Command::Nothing || c == Command::Quit || c == Command::HelpClearSearch || c
                == Command::HelpFinishSearch || c == Command::HelpBackspace || c is HelpType || c
                == Command::HelpStartSearch || c is HelpScrollDown || c is HelpScrollUp || c
                == Command::HelpTop || c == Command::HelpBottom || c == Command::CloseHelp
        }),
{
}

/// Destructive keys act only where they belong: deleting files needs the
/// download list, deleting a queue or clearing completed downloads needs the
/// queue list, all on the main screen.
pub proof fn law_destructive_keys_are_scoped(ctx: KeyContext, k: KeyPress)
    ensures
        command_for(ctx, k) == Command::RequestDeleteSelectedFiles ==> ctx.focus == Focus::Downloads
            && k.code == KeyCode::Char('D') && !ctx.confirmation_open && ctx.help is None,
        command_for(ctx, k) == Command::RequestDeleteSelectedQueue ==> ctx.focus == Focus::Queues
            && k.code == KeyCode::Char('d') && !ctx.confirmation_open && ctx.help is None,
        command_for(ctx, k) == Command::RemoveCompletedDownloads ==> ctx.focus == Focus::Queues
            && k.code == KeyCode::Char('x'),
{
}

/// The last grapheme cluster removed (`truncate` at the start of the last
/// cluster).
pub open spec fn without_last_cluster(s: Seq<char>) -> Seq<char> {
    let gs = grapheme_clusters(s);
    if gs.len() == 0 {
        s
    } else {
        concat(gs.drop_last())
    }
}

/// The text without its last grapheme cluster (unchanged when empty).
pub fn drop_last_cluster(s: &str) -> (r: String)
    ensures
        r@ == without_last_cluster(s@),
{
    let gs = crate::table::graphemes(s);
    if gs.len() > 0 {
        let joined = crate::table::join_range(&gs, 0, gs.len() - 1);
        proof {
            assert(strings_view(gs@).subrange(0, gs@.len() - 1) =~= strings_view(gs@).drop_last());
        }
        joined
    } else {
        s.to_owned()
    }
}

pub open spec fn help_after(m: HelpModal, c: Command) -> (Seq<char>, bool, int, bool) {
    let q = m.query@;
    let max = m.max_scroll_of();
    match c {
        Command::HelpClearSearch => (Seq::empty(), false, 0, false),
        Command::HelpFinishSearch => (q, false, m.scroll as int, false),
        Command::HelpBackspace => (without_last_cluster(q), m.editing_search, 0, false),
        Command::HelpType(ch) => (q.push(ch), m.editing_search, 0, false),
        Command::HelpStartSearch => (q, true, m.scroll as int, false),
        Command::HelpScrollDown(page) => {
            let lines: int = if page { m.viewport_height as int } else { 1 };
            (q, m.editing_search, if m.scroll + lines < max { m.scroll + lines } else { max }, false)
        },
        Command::HelpScrollUp(page) => {
            let lines: int = if page { m.viewport_height as int } else { 1 };
            (q, m.editing_search, if m.scroll >= lines { m.scroll - lines } else { 0 }, false)
        },
        Command::HelpTop => (q, m.editing_search, 0, false),
        Command::HelpBottom => (q, m.editing_search, max, false),
        Command::CloseHelp => (q, m.editing_search, m.scroll as int, true),
        _ => (q, m.editing_search, m.scroll as int, false),
    }
}

/// Applies a help command to the overlay; returns whether it closes.
pub fn apply_help_command(modal: &mut HelpModal, command: Command) -> (closed: bool)
    ensures
        (final(modal).query@, final(modal).editing_search, final(modal).scroll as int, closed)
            == help_after(*old(modal), command),
        final(modal).viewport_height == old(modal).viewport_height,
        final(modal).content() == old(modal).content(),
{
    match command {
        Command::HelpClearSearch => {
            modal.query = String::new();
            modal.scroll = 0;
            modal.editing_search = false;
            false
        },
        Command::HelpFinishSearch => {
            modal.editing_search = false;
            false
        },
        Command::HelpBackspace => {
            modal.query = drop_last_cluster(modal.query.as_str());
            modal.scroll = 0;
            false
        },
        Command::HelpType(c) => {
            push_char(&mut modal.query, c);
            modal.scroll = 0;
            false
        },
        Command::HelpStartSearch => {
            modal.editing_search = true;
            false
        },
        Command::HelpScrollDown(page) => {
            let lines = if page {
                modal.viewport_height
            } else {
                1
            };
            modal.scroll_down(lines);
            false
        },
        Command::HelpScrollUp(page) => {
            let lines = if page {
                modal.viewport_height
            } else {
                1
            };
            modal.scroll_up(lines);
            false
        },
        Command::HelpTop => {
            modal.scroll = 0;
            false
        },
        Command::HelpBottom => {
            modal.scroll = modal.max_scroll();
            false
        },
        Command::CloseHelp => true,
        _ => false,
    }
}

} // verus!

use ario::clock::{Date, TimeOfDay};
use ario::keys::{
    apply_help_command, is_delete_files_key, is_delete_queue_key, is_remove_completed_key, update, Command, KeyCode,
    KeyContext, KeyPress, QueueModalKeys,
};
use ario::overlays::{HelpModal, ModalTab};
use ario::panes::Focus;
use ario::queue_editor::{
    default_once_window, minutes_to_next_step, window_starting_at, OnceWindow, QueueModal, QueueModalMode,
    QueueModalTab, QueueSaveRequest, RecurrenceKind,
};

fn key(code: KeyCode) -> KeyPress {
    KeyPress { code, shift: false, control: false, alt: false, other: false }
}

fn main_screen(focus: Focus) -> KeyContext {
    KeyContext {
        confirmation_open: false,
        help: None,
        queue_modal: None,
        clipboard: None,
        download_modal_open: false,
        focus,
    }
}

fn window() -> OnceWindow {
    OnceWindow {
        start_date: Date { days: 739_500 },
        start_time: TimeOfDay { secs: 10 * 3600, frac: 0 },
        end_date: Date { days: 739_500 },
        end_time: TimeOfDay { secs: 14 * 3600, frac: 0 },
    }
}

fn editor_keys(m: &QueueModal) -> KeyContext {
    KeyContext {
        queue_modal: Some(QueueModalKeys {
            editing_text: m.editing_text,
            on_items_tab: m.tab == QueueModalTab::DownloadItems,
        }),
        ..main_screen(Focus::Queues)
    }
}

#[test]
fn help_opens_from_every_pane_and_consumes_main_screen_actions() {
    for focus in [Focus::Queues, Focus::Categories, Focus::Downloads] {
        for close in [KeyCode::Esc, KeyCode::Char('q'), KeyCode::Char('?')] {
            // Terminals can report '?' with Shift set.
            let question = KeyPress { shift: true, ..key(KeyCode::Char('?')) };
            assert_eq!(update(&main_screen(focus), question), Command::OpenHelp);
            let help_open = KeyContext { help: Some(false), ..main_screen(focus) };
            let mut modal = HelpModal::default();
            modal.set_dimensions(100, 10);
            for code in [
                KeyCode::Char('1'),
                KeyCode::Tab,
                KeyCode::Char('n'),
                KeyCode::Char('v'),
                KeyCode::Char('d'),
                KeyCode::Char('D'),
                KeyCode::Enter,
                KeyCode::Char('j'),
            ] {
                let command = update(&help_open, key(code));
                assert!(
                    command == Command::Nothing || command == Command::HelpScrollDown(false),
                    "{code:?} gave {command:?}"
                );
                assert!(!apply_help_command(&mut modal, command));
            }
            let command = update(&help_open, key(close));
            assert_eq!(command, Command::CloseHelp);
            assert!(apply_help_command(&mut modal, command));
        }
    }
}

#[test]
fn existing_modals_block_help_and_text_editing_keeps_question_mark() {
    let mut editor = QueueModal::create(window());
    assert_eq!(update(&editor_keys(&editor), key(KeyCode::Char('?'))), Command::Nothing);
    assert_eq!(update(&editor_keys(&editor), key(KeyCode::Enter)), Command::QueueModalStartTextEdit);
    editor.start_text_edit();
    let before = editor.text_buffer.clone();
    let command = update(&editor_keys(&editor), key(KeyCode::Char('?')));
    assert_eq!(command, Command::QueueModalTextInput('?'));
    editor.text_input('?');
    assert_eq!(editor.text_buffer, format!("{before}?"));

    let clipboard = KeyContext { clipboard: Some(ModalTab::Urls), ..main_screen(Focus::Queues) };
    assert_eq!(update(&clipboard, key(KeyCode::Char('?'))), Command::Nothing);

    let download = KeyContext { download_modal_open: true, ..main_screen(Focus::Queues) };
    assert_eq!(update(&download, key(KeyCode::Char('?'))), Command::Nothing);

    let confirmation = KeyContext { confirmation_open: true, ..main_screen(Focus::Queues) };
    assert_eq!(update(&confirmation, key(KeyCode::Char('?'))), Command::Nothing);
}

#[test]
fn queue_editor_can_save_from_download_items_tab() {
    let mut editor = QueueModal::create(window());
    editor.mode = QueueModalMode::Edit { queue_id: 1 };
    editor.tab = QueueModalTab::DownloadItems;
    editor.name = "Queue".into();
    assert_eq!(update(&editor_keys(&editor), key(KeyCode::Char('s'))), Command::QueueModalSave);
    match editor.save_request() {
        Ok(QueueSaveRequest::Update { queue_id, request, ordered_ids }) => {
            assert_eq!(queue_id, 1);
            assert_eq!(request.name, "Queue");
            assert!(ordered_ids.is_empty());
        }
        other => panic!("unexpected {other:?}"),
    }
}

#[test]
fn one_time_schedule_uses_adjustable_date_and_time_fields() {
    let mut editor = QueueModal::create(window());
    editor.tab = QueueModalTab::Scheduler;
    editor.recurrence_kind = RecurrenceKind::Once;
    editor.scheduler_cursor = 2;

    let start_date = editor.once_start_date;
    assert_eq!(update(&editor_keys(&editor), key(KeyCode::Right)), Command::QueueModalAdjustRight);
    editor.adjust(true);
    assert_eq!(editor.once_start_date, Date { days: start_date.days + 1 });

    assert_eq!(update(&editor_keys(&editor), key(KeyCode::Down)), Command::QueueModalMoveDown);
    editor.move_down();
    let start_time = editor.once_start_time;
    editor.adjust(true);
    assert_eq!(editor.once_start_time, TimeOfDay { secs: start_time.secs + 300, frac: 0 });

    assert_eq!(update(&editor_keys(&editor), key(KeyCode::Enter)), Command::QueueModalStartTextEdit);
    editor.start_text_edit();
    assert!(!editor.editing_text);
}

#[test]
fn empty_name_is_refused_on_save() {
    let mut editor = QueueModal::create(window());
    editor.name = "   ".into();
    match editor.save_request() {
        Err(message) => assert_eq!(message, "name can't be empty"),
        Ok(_) => panic!("saved without a name"),
    }
}

#[test]
fn new_queue_saves_its_weekly_schedule_with_ticked_days() {
    let mut editor = QueueModal::create(window());
    editor.name = "Night".into();
    editor.weekly_days[0] = true;
    editor.weekly_days[4] = true;
    match editor.save_request() {
        Ok(QueueSaveRequest::Create(request)) => {
            assert_eq!(request.name, "Night");
            assert_eq!(request.max_concurrent_downloads, 1);
            assert_eq!(request.max_retries, 3);
            match request.recurrence {
                ario::schedule::Recurrence::Weekly { days, start_time, end_time } => {
                    assert_eq!(days, vec![ario::clock::Weekday::Mon, ario::clock::Weekday::Fri]);
                    assert_eq!(start_time, TimeOfDay { secs: 7200, frac: 0 });
                    assert_eq!(end_time, TimeOfDay { secs: 21600, frac: 0 });
                }
                other => panic!("unexpected {other:?}"),
            }
        }
        other => panic!("unexpected {other:?}"),
    }
}

#[test]
fn editor_tabs_cycle_and_prev_undoes_next() {
    let mut editor = QueueModal::create(window());
    editor.next_tab();
    assert_eq!(editor.tab, QueueModalTab::Scheduler);
    editor.next_tab();
    assert_eq!(editor.tab, QueueModalTab::Common);
    editor.mode = QueueModalMode::Edit { queue_id: 3 };
    editor.next_tab();
    editor.next_tab();
    assert_eq!(editor.tab, QueueModalTab::DownloadItems);
    editor.prev_tab();
    assert_eq!(editor.tab, QueueModalTab::Scheduler);
}

#[test]
fn default_window_starts_on_a_five_minute_mark_and_lasts_four_hours() {
    assert_eq!(minutes_to_next_step(TimeOfDay { secs: 10 * 3600 + 7 * 60, frac: 0 }), 3);
    assert_eq!(minutes_to_next_step(TimeOfDay { secs: 10 * 3600 + 10 * 60, frac: 0 }), 0);
    assert_eq!(minutes_to_next_step(TimeOfDay { secs: 10 * 3600 + 10 * 60 + 1, frac: 0 }), 5);
    let late = ario::clock::LocalDateTime {
        date: Date { days: 739_500 },
        time: TimeOfDay { secs: 22 * 3600 + 30 * 60 + 12, frac: 5 },
    };
    let w = window_starting_at(late);
    assert_eq!(w.start_time, TimeOfDay { secs: 22 * 3600 + 30 * 60, frac: 0 });
    assert_eq!(w.end_date, Date { days: 739_501 });
    assert_eq!(w.end_time, TimeOfDay { secs: 2 * 3600 + 30 * 60, frac: 0 });
    let now = 1_900_000_000_000_000_000i128;
    let d = default_once_window(now);
    assert_eq!(d.start_time.frac, 0);
    assert_eq!(d.start_time.secs % 60, 0);
}

#[test]
fn help_search_accepts_shortcut_characters_and_clears_or_keeps_filter() {
    let mut modal = HelpModal::default();
    modal.set_dimensions(100, 10);
    let press = |modal: &mut HelpModal, code: KeyCode| -> bool {
        let ctx = KeyContext { help: Some(modal.editing_search), ..main_screen(Focus::Queues) };
        apply_help_command(modal, update(&ctx, key(code)))
    };
    press(&mut modal, KeyCode::End);
    press(&mut modal, KeyCode::Char('/'));
    for c in "q?j/ké".chars() {
        press(&mut modal, KeyCode::Char(c));
    }
    assert_eq!(modal.query, "q?j/ké");
    assert_eq!(modal.scroll, 0);
    assert!(modal.editing_search);
    press(&mut modal, KeyCode::Backspace);
    assert_eq!(modal.query, "q?j/k");
    press(&mut modal, KeyCode::Enter);
    assert!(!modal.editing_search);
    assert_eq!(modal.query, "q?j/k");
    press(&mut modal, KeyCode::Char('/'));
    assert!(!press(&mut modal, KeyCode::Esc));
    assert!(!modal.editing_search);
    assert!(modal.query.is_empty());
    press(&mut modal, KeyCode::Char('/'));
    press(&mut modal, KeyCode::Char('x'));
    press(&mut modal, KeyCode::Enter);
    assert!(press(&mut modal, KeyCode::Esc));
    let reopened = HelpModal::default();
    assert!(reopened.query.is_empty());
    assert_eq!(reopened.scroll, 0);
    assert!(!reopened.editing_search);
}

#[test]
fn help_navigation_uses_viewport_and_ctrl_c_still_quits() {
    let mut modal = HelpModal::default();
    modal.set_dimensions(50, 10);
    for (code, expected) in [
        (KeyCode::PageDown, 10),
        (KeyCode::Char('j'), 11),
        (KeyCode::Up, 10),
        (KeyCode::End, 40),
        (KeyCode::Down, 40),
        (KeyCode::PageUp, 30),
        (KeyCode::Home, 0),
        (KeyCode::Char('k'), 0),
    ] {
        let ctx = KeyContext { help: Some(false), ..main_screen(Focus::Queues) };
        apply_help_command(&mut modal, update(&ctx, key(code)));
        assert_eq!(modal.scroll, expected);
    }
    let ctx = KeyContext { help: Some(false), ..main_screen(Focus::Queues) };
    apply_help_command(&mut modal, update(&ctx, key(KeyCode::Char('/'))));
    let searching = KeyContext { help: Some(modal.editing_search), ..main_screen(Focus::Queues) };
    let ctrl_c = KeyPress { control: true, ..key(KeyCode::Char('c')) };
    assert_eq!(update(&searching, ctrl_c), Command::Quit);
}

#[test]
fn remove_completed_key_is_scoped_to_queue_pane() {
    assert!(is_remove_completed_key(Focus::Queues, KeyCode::Char('x')));
    assert!(!is_remove_completed_key(Focus::Categories, KeyCode::Char('x')));
    assert!(!is_remove_completed_key(Focus::Downloads, KeyCode::Char('x')));
    assert!(!is_remove_completed_key(Focus::Queues, KeyCode::Char('X')));
}

#[test]
fn destructive_delete_key_is_shifted_and_scoped_to_downloads() {
    assert!(is_delete_files_key(Focus::Downloads, KeyCode::Char('D')));
    assert!(!is_delete_files_key(Focus::Downloads, KeyCode::Char('d')));
    assert!(!is_delete_files_key(Focus::Queues, KeyCode::Char('D')));
    assert!(!is_delete_files_key(Focus::Categories, KeyCode::Char('D')));
}

#[test]
fn queue_delete_key_is_lowercase_and_scoped_to_queues() {
    assert!(is_delete_queue_key(Focus::Queues, KeyCode::Char('d')));
    assert!(!is_delete_queue_key(Focus::Downloads, KeyCode::Char('d')));
    assert!(!is_delete_queue_key(Focus::Categories, KeyCode::Char('d')));
    assert!(!is_delete_queue_key(Focus::Queues, KeyCode::Char('D')));
}

#[test]
fn confirmation_modal_consumes_cancel_before_global_quit() {
    let ctx = KeyContext { confirmation_open: true, ..main_screen(Focus::Downloads) };
    assert_eq!(update(&ctx, key(KeyCode::Char('c'))), Command::CancelConfirmation);
    let ctrl_c = KeyPress { control: true, ..key(KeyCode::Char('c')) };
    assert_eq!(update(&ctx, ctrl_c), Command::CancelConfirmation);
    assert_eq!(update(&main_screen(Focus::Downloads), ctrl_c), Command::Quit);
}

#[test]
fn main_screen_keys_switch_focus_and_act_on_the_focused_pane() {
    assert_eq!(update(&main_screen(Focus::Queues), key(KeyCode::Char('3'))), Command::SetFocus(Focus::Downloads));
    assert_eq!(update(&main_screen(Focus::Downloads), key(KeyCode::Tab)), Command::SetFocus(Focus::Queues));
    assert_eq!(update(&main_screen(Focus::Queues), key(KeyCode::BackTab)), Command::SetFocus(Focus::Downloads));
    assert_eq!(update(&main_screen(Focus::Downloads), key(KeyCode::Char('p'))), Command::PauseSelected);
    assert_eq!(update(&main_screen(Focus::Queues), key(KeyCode::Char('p'))), Command::PauseSelectedQueue);
    assert_eq!(update(&main_screen(Focus::Queues), key(KeyCode::Char('D'))), Command::Nothing);
    assert_eq!(update(&main_screen(Focus::Downloads), key(KeyCode::Char('D'))), Command::RequestDeleteSelectedFiles);
    assert_eq!(update(&main_screen(Focus::Queues), key(KeyCode::Char('q'))), Command::Quit);
}

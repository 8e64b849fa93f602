use ario::overlays::{
    clipboard_queue_cursor, filtered_sections, keybindings, ConfirmationModal, HelpModal,
    ToastLevel, ToastStack,
};

#[test]
fn defaults_to_the_current_queue() {
    assert_eq!(clipboard_queue_cursor(3, 4, Some(0)), 2);
}

#[test]
fn all_queues_selection_defaults_to_main_queue() {
    assert_eq!(clipboard_queue_cursor(0, 4, Some(2)), 2);
}

#[test]
fn missing_main_queue_defaults_to_the_first_queue() {
    assert_eq!(clipboard_queue_cursor(0, 4, None), 0);
}

#[test]
fn empty_and_stale_queue_selections_are_safe() {
    assert_eq!(clipboard_queue_cursor(0, 0, None), 0);
    assert_eq!(clipboard_queue_cursor(5, 2, Some(1)), 1);
    assert_eq!(clipboard_queue_cursor(5, 2, None), 0);
}

#[test]
fn search_matches_keys_descriptions_and_whole_sections() {
    let catalog = keybindings();
    assert_eq!(filtered_sections("").len(), catalog.len());
    let sections = filtered_sections("cAtEgOrIeS");
    let category = sections
        .iter()
        .find(|(title, _)| *title == "Categories")
        .unwrap();
    assert_eq!(category.1, catalog[2].bindings);
    assert!(
        filtered_sections("backspace")
            .iter()
            .all(|(_, bindings)| { bindings.iter().all(|(keys, _)| *keys == "Backspace") })
    );
    assert_eq!(filtered_sections("keeping downloaded files")[0].1[0].0, "d");
    assert!(filtered_sections("nonexistent shortcut").is_empty());
}

#[test]
fn scrolling_clamps_at_boundaries_and_after_layout_changes() {
    let mut modal = HelpModal::default();
    modal.set_dimensions(100, 10);
    modal.scroll_down(usize::MAX);
    assert_eq!(modal.scroll, 90);
    modal.set_dimensions(100, 30);
    assert_eq!(modal.scroll, 70);
    modal.set_dimensions(3, 30);
    assert_eq!(modal.scroll, 0);
    modal.scroll_up(usize::MAX);
    assert_eq!(modal.scroll, 0);
}

#[test]
fn toasts_keep_the_four_newest_and_expire_after_four_seconds() {
    let mut stack = ToastStack::new();
    assert!(stack.is_empty());
    for (i, at) in [0u64, 1000, 2000, 3000, 3500].iter().enumerate() {
        stack.push(format!("t{i}"), ToastLevel::Info, *at);
    }
    let shown: Vec<&str> = stack.iter().iter().map(|t| t.message.as_str()).collect();
    assert_eq!(shown, vec!["t1", "t2", "t3", "t4"]);
    stack.prune(5000);
    let shown: Vec<&str> = stack.iter().iter().map(|t| t.message.as_str()).collect();
    assert_eq!(shown, vec!["t2", "t3", "t4"]);
    stack.prune(7500);
    assert!(stack.is_empty());
}

#[test]
fn confirmation_keeps_its_texts() {
    let modal = ConfirmationModal::new(
        "Remove queue?".into(),
        "Remove it?".into(),
        "Remove".into(),
        "Cancel".into(),
    );
    assert_eq!(modal.title, "Remove queue?");
    assert_eq!(modal.cancel_label, "Cancel");
}

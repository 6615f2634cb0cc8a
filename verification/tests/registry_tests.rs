use chat_core::conversation::FromUser;
use chat_core::errors::AppError;
use chat_core::registry::Conversations;

#[test]
fn begin_twice_fails_with_conversation_already_running() {
    let mut reg = Conversations::new();
    assert!(reg.start(7).is_ok());
    assert!(matches!(reg.start(7), Err(AppError::ConversationAlreadyRunning(7))));
    assert!(reg.contains(7));
}

#[test]
fn end_without_begin_fails_with_no_conversation_running() {
    let mut reg = Conversations::new();
    assert!(matches!(reg.end(7), Err(AppError::NoConversationRunning(7))));
}

#[test]
fn end_after_begin_succeeds_and_begin_works_again() {
    let mut reg = Conversations::new();
    assert!(reg.start(7).is_ok());
    assert!(reg.end(7).is_ok());
    assert!(!reg.contains(7));
    assert!(reg.start(7).is_ok());
    assert!(reg.contains(7));
}

#[test]
fn chats_are_independent() {
    let mut reg = Conversations::new();
    assert!(reg.start(1).is_ok());
    assert!(reg.start(2).is_ok());
    reg.get_mut(1).unwrap().add(FromUser::Myself, "only in chat one".to_string());
    assert_eq!(reg.get_mut(1).unwrap().history_len(), 1);
    assert_eq!(reg.get_mut(2).unwrap().history_len(), 0);
    assert!(reg.end(1).is_ok());
    assert!(reg.contains(2));
    assert!(!reg.contains(1));
}

#[test]
fn get_mut_of_unknown_chat_is_none() {
    let mut reg = Conversations::new();
    assert!(reg.get_mut(5).is_none());
    assert!(reg.start(5).is_ok());
    assert!(reg.get_mut(5).is_some());
}

#[test]
fn a_fresh_conversation_has_default_state() {
    let mut reg = Conversations::new();
    reg.start(3).unwrap();
    let c = reg.get_mut(3).unwrap();
    assert_eq!(c.history_len(), 0);
    assert_eq!(c.get_limit(), 100);
    assert!(c.get_last_reply().is_none());
    assert!(c.active_settings_dialog.is_none());
    assert!(c.awaiting_free_text_for.is_none());
    assert_eq!(c.settings.temperature_tenths, 8);
    assert_eq!(c.settings.bot_name, "You");
}

#[test]
fn end_returns_the_closing_edit_of_an_open_dialog() {
    let mut reg = Conversations::new();
    reg.start(9).unwrap();
    reg.get_mut(9).unwrap().open_settings_dialog(9, 55).unwrap();
    let edit = reg.end(9).unwrap().expect("the dialog was open");
    assert_eq!(edit.chat, 9);
    assert_eq!(edit.message, 55);
    assert!(edit.text.starts_with("Done editing settings"));
    assert!(!reg.contains(9));
    // without an open dialog there is nothing to close
    reg.start(9).unwrap();
    assert!(reg.end(9).unwrap().is_none());
}

#[test]
fn cleanup_closes_every_open_dialog() {
    let mut reg = Conversations::new();
    reg.start(1).unwrap();
    reg.start(2).unwrap();
    reg.start(3).unwrap();
    reg.get_mut(1).unwrap().open_settings_dialog(1, 11).unwrap();
    reg.get_mut(3).unwrap().open_settings_dialog(3, 33).unwrap();
    reg.get_mut(3).unwrap().add(FromUser::Myself, "kept".to_string());
    let edits = reg.cleanup();
    assert_eq!(edits.len(), 2);
    let mut chats: Vec<i64> = edits.iter().map(|e| e.chat).collect();
    chats.sort();
    assert_eq!(chats, vec![1, 3]);
    for e in &edits {
        assert!(e.text.starts_with("Done editing settings"));
    }
    // every dialog is closed, everything else is untouched
    assert!(reg.get_mut(1).unwrap().active_settings_dialog.is_none());
    assert!(reg.get_mut(2).unwrap().active_settings_dialog.is_none());
    assert!(reg.get_mut(3).unwrap().active_settings_dialog.is_none());
    assert_eq!(reg.get_mut(3).unwrap().history_len(), 1);
    assert!(reg.contains(1) && reg.contains(2) && reg.contains(3));
}

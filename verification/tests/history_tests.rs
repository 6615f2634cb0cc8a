use chat_core::conversation::Conversation;
use chat_core::conversation::FromUser;

#[test]
fn history_window_keeps_most_recent() {
    let mut c = Conversation::new(3);
    for i in 1..=5 {
        c.add(FromUser::User("Alice".to_string()), format!("m{}", i));
    }
    assert_eq!(c.history_len(), 3);
    assert_eq!(c.get_turn(0).text, "m3");
    assert_eq!(c.get_turn(1).text, "m4");
    assert_eq!(c.get_turn(2).text, "m5");
}

#[test]
fn history_below_limit_keeps_everything() {
    let mut c = Conversation::new(100);
    c.add(FromUser::User("Alice".to_string()), "a".to_string());
    c.add(FromUser::Myself, "b".to_string());
    assert_eq!(c.history_len(), 2);
    assert_eq!(c.get_turn(0).text, "a");
    assert!(matches!(c.get_turn(0).from, FromUser::User(_)));
    assert!(matches!(c.get_turn(1).from, FromUser::Myself));
}

#[test]
fn history_limit_one_keeps_only_newest() {
    let mut c = Conversation::new(1);
    c.add(FromUser::Myself, "first".to_string());
    c.add(FromUser::Myself, "second".to_string());
    assert_eq!(c.history_len(), 1);
    assert_eq!(c.get_turn(0).text, "second");
}

#[test]
fn zero_limit_means_unbounded() {
    let mut c = Conversation::new(0);
    for i in 0..250 {
        c.add(FromUser::Myself, format!("{}", i));
    }
    assert_eq!(c.history_len(), 250);
    assert_eq!(c.get_turn(0).text, "0");
    assert_eq!(c.get_turn(249).text, "249");
}

#[test]
fn clear_history_keeps_settings_and_dialog() {
    let mut c = Conversation::new(5);
    c.add(FromUser::Myself, "x".to_string());
    c.settings.set_bot_name("Robo".to_string());
    c.open_settings_dialog(9, 77).unwrap();
    c.clear_history();
    assert_eq!(c.history_len(), 0);
    assert_eq!(c.settings.bot_name, "Robo");
    assert!(c.active_settings_dialog.is_some());
}

use chat_core::conversation::Conversation;
use chat_core::conversation::FromUser;

#[test]
fn prompt_renders_lines_and_cue() {
    let mut c = Conversation::new(0);
    c.add(FromUser::User("Alice".to_string()), "Hi".to_string());
    c.add(FromUser::Myself, "Hello".to_string());
    assert_eq!(c.generate_prompt(), "Alice: Hi\nYou: Hello\nYou: ");
}

#[test]
fn prompt_of_empty_history_is_only_the_cue() {
    let c = Conversation::new(0);
    assert_eq!(c.generate_prompt(), "You: ");
}

#[test]
fn prompt_without_trailing_space() {
    let mut c = Conversation::new(0);
    c.settings.toggle_trailing_space();
    c.add(FromUser::User("Bob".to_string()), "hey".to_string());
    assert_eq!(c.generate_prompt(), "Bob: hey\nYou:");
}

#[test]
fn prompt_is_deterministic() {
    let build = || {
        let mut c = Conversation::new(0);
        c.add(FromUser::User("Alice".to_string()), "Hi".to_string());
        c.add(FromUser::Myself, "Hello".to_string());
        c
    };
    let a = build();
    let b = build();
    assert_eq!(a.generate_prompt(), b.generate_prompt());
    assert_eq!(a.generate_prompt(), a.generate_prompt());
}

#[test]
fn renaming_the_assistant_reaches_historical_turns() {
    let mut c = Conversation::new(0);
    c.add(FromUser::Myself, "Yo".to_string());
    c.settings.set_bot_name("Bot".to_string());
    assert_eq!(c.generate_prompt(), "Bot: Yo\nBot: ");
}

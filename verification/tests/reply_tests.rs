use chat_core::conversation::Conversation;
use chat_core::conversation::FirstReplyOutcome;
use chat_core::conversation::FromUser;
use chat_core::registry::Conversations;
use chat_core::settings::Model;

#[test]
fn begin_reply_carries_prompt_and_parameters() {
    let mut c = Conversation::new(0);
    c.add(FromUser::User("Alice".to_string()), "Hi".to_string());
    let req = c.begin_reply();
    assert_eq!(req.prompt, "Alice: Hi\nYou: ");
    assert_eq!(req.model, Model::Davinci);
    assert_eq!(req.max_tokens, 100);
    assert_eq!(req.temperature_tenths, 8);
    assert_eq!(req.stop_tokens, vec!["\n", ".", "!", "?"]);
}

#[test]
fn accepted_reply_is_trimmed_recorded_and_appended() {
    let mut c = Conversation::new(0);
    c.add(FromUser::User("Alice".to_string()), "Hi".to_string());
    match c.process_first_reply("  T1") {
        FirstReplyOutcome::Accepted(t) => assert_eq!(t, "T1"),
        FirstReplyOutcome::RetryWith(_) => panic!("no duplicate, so no retry"),
    }
    assert_eq!(c.history_len(), 2);
    assert_eq!(c.get_turn(1).text, "T1");
    assert!(matches!(c.get_turn(1).from, FromUser::Myself));
    assert_eq!(c.get_last_reply().as_deref(), Some("T1"));
}

#[test]
fn duplicate_reply_issues_one_retry_with_truncated_context() {
    let mut c = Conversation::new(0);
    c.add(FromUser::User("Alice".to_string()), "Hi".to_string());
    match c.process_first_reply("T1") {
        FirstReplyOutcome::Accepted(t) => assert_eq!(t, "T1"),
        FirstReplyOutcome::RetryWith(_) => panic!("first reply is new"),
    }
    c.add(FromUser::User("Alice".to_string()), "Hi".to_string());
    let retry = match c.process_first_reply(" T1") {
        FirstReplyOutcome::RetryWith(req) => req,
        FirstReplyOutcome::Accepted(_) => panic!("repeat of the last reply must retry"),
    };
    // the retry context is only the most recent turn, plus the cue
    assert_eq!(retry.prompt, "Alice: Hi\nYou: ");
    // the stored history is untouched while the recovery runs
    assert_eq!(c.history_len(), 3);
    let t2 = c.process_second_reply("T2");
    assert_eq!(t2, "T2");
    assert_eq!(c.history_len(), 4);
    assert_eq!(c.get_turn(3).text, "T2");
    assert_eq!(c.get_last_reply().as_deref(), Some("T2"));
}

#[test]
fn recovery_is_one_shot_even_when_second_reply_repeats() {
    let mut c = Conversation::new(0);
    c.add(FromUser::User("Alice".to_string()), "Hi".to_string());
    match c.process_first_reply("T1") {
        FirstReplyOutcome::Accepted(_) => {},
        FirstReplyOutcome::RetryWith(_) => panic!("first reply is new"),
    }
    c.add(FromUser::User("Alice".to_string()), "Hi".to_string());
    match c.process_first_reply("T1") {
        FirstReplyOutcome::RetryWith(_) => {},
        FirstReplyOutcome::Accepted(_) => panic!("repeat of the last reply must retry"),
    }
    // the second attempt repeats as well: kept as-is, no further retry
    let t = c.process_second_reply("T1");
    assert_eq!(t, "T1");
    assert_eq!(c.get_last_reply().as_deref(), Some("T1"));
    assert_eq!(c.get_turn(c.history_len() - 1).text, "T1");
}

#[test]
fn empty_trimmed_reply_never_counts_as_duplicate() {
    let mut c = Conversation::new(0);
    match c.process_first_reply("   ") {
        FirstReplyOutcome::Accepted(t) => assert_eq!(t, ""),
        FirstReplyOutcome::RetryWith(_) => panic!("empty reply is accepted"),
    }
    assert_eq!(c.get_last_reply().as_deref(), Some(""));
    // a second empty reply equals the last one, but being empty it is
    // accepted again rather than retried
    match c.process_first_reply("") {
        FirstReplyOutcome::Accepted(t) => assert_eq!(t, ""),
        FirstReplyOutcome::RetryWith(_) => panic!("empty reply is accepted"),
    }
}

#[test]
fn end_to_end_scenario() {
    let mut reg = Conversations::new();
    reg.start(42).unwrap();
    let c = reg.get_mut(42).expect("the conversation just began");
    c.add(FromUser::User("Alice".to_string()), "Hi".to_string());
    let t1 = match c.process_first_reply("T1") {
        FirstReplyOutcome::Accepted(t) => t,
        FirstReplyOutcome::RetryWith(_) => panic!("first reply is new"),
    };
    assert_eq!(t1, "T1");
    assert_eq!(c.history_len(), 2);
    assert_eq!(c.get_turn(0).text, "Hi");
    assert_eq!(c.get_turn(1).text, "T1");
    c.add(FromUser::User("Alice".to_string()), "Hi".to_string());
    let retry = match c.process_first_reply("T1") {
        FirstReplyOutcome::RetryWith(req) => req,
        FirstReplyOutcome::Accepted(_) => panic!("backend repeated itself"),
    };
    assert_eq!(retry.prompt, "Alice: Hi\nYou: ");
    let t2 = c.process_second_reply("T2");
    assert_eq!(t2, "T2");
    // the truncation dropped only the pre-retry context, not the
    // confirmed turns
    assert_eq!(c.history_len(), 4);
    assert_eq!(c.get_turn(0).text, "Hi");
    assert_eq!(c.get_turn(1).text, "T1");
    assert_eq!(c.get_turn(2).text, "Hi");
    assert_eq!(c.get_turn(3).text, "T2");
}

use chat_core::conversation::Conversation;
use chat_core::conversation::FromUser;
use chat_core::dialog::DialogControl;
use chat_core::dialog::Screen;
use chat_core::dialog::SettingKind;
use chat_core::dialog::get_temperature_editor_dialog_text;
use chat_core::dialog::get_temperature_editor_rows;
use chat_core::dialog::model_set_text;
use chat_core::dialog::parse_control;
use chat_core::dialog::temperature_set_text;
use chat_core::dialog::trailing_space_set_text;
use chat_core::errors::AppError;
use chat_core::settings::Model;
use chat_core::settings::Settings;

#[test]
fn open_after_open_fails_with_already_open() {
    let mut c = Conversation::new(0);
    assert!(c.open_settings_dialog(5, 100).is_ok());
    let second = c.open_settings_dialog(5, 101);
    assert!(matches!(second, Err(AppError::AlreadyOpen(5))));
    // the first dialog is still the open one
    assert_eq!(c.active_settings_dialog.unwrap().message, 100);
}

#[test]
fn deactivate_when_closed_is_a_no_op() {
    let mut c = Conversation::new(0);
    assert!(c.deactivate_settings_dialog().is_none());
    c.confirm_settings_dialog_closed();
    assert!(c.active_settings_dialog.is_none());
}

#[test]
fn deactivate_returns_the_done_summary() {
    let mut c = Conversation::new(0);
    c.open_settings_dialog(5, 100).unwrap();
    let edit = c.deactivate_settings_dialog().expect("a dialog was open");
    assert_eq!(edit.chat, 5);
    assert_eq!(edit.message, 100);
    assert_eq!(
        edit.text,
        "Done editing settings\n    model: Davinci\n    temperature: 0.8\n    \
         trailing space: true\n    stop tokens: \"\\n\", \".\", \"!\", \"?\"",
    );
    // the dialog stays open until the edit is confirmed, so a failed
    // transport call leaves the conversation unaffected
    assert!(c.active_settings_dialog.is_some());
    c.confirm_settings_dialog_closed();
    assert!(c.active_settings_dialog.is_none());
}

#[test]
fn summary_stop_tokens_are_quoted_and_escaped() {
    let mut c = Conversation::new(0);
    c.settings.set_stop_tokens(vec!["\n".to_string(), "a\"b".to_string(), "\\".to_string()]);
    c.open_settings_dialog(5, 100).unwrap();
    let edit = c.deactivate_settings_dialog().expect("a dialog was open");
    assert!(edit.text.ends_with("stop tokens: \"\\n\", \"a\\\"b\", \"\\\\\""));
}

#[test]
fn inbound_message_forces_the_dialog_closed() {
    let mut c = Conversation::new(0);
    c.open_settings_dialog(5, 100).unwrap();
    // what the embedding program does for every ordinary inbound
    // message, before the message is processed further: request the
    // closing edit, carry it out, then confirm the close
    let edit = c.deactivate_settings_dialog();
    assert!(edit.is_some());
    c.confirm_settings_dialog_closed();
    c.add(FromUser::User("Alice".to_string()), "Hi".to_string());
    assert!(c.active_settings_dialog.is_none());
    assert_eq!(c.history_len(), 1);
}

#[test]
fn temperature_deltas_clamp_at_two() {
    let mut s = Settings::default();
    assert_eq!(s.temperature_tenths, 8);
    let mut seen = Vec::new();
    for _ in 0..5 {
        let t = s.adjust_temperature(5);
        assert!(t <= 20);
        seen.push(t);
    }
    assert_eq!(seen, vec![13, 18, 20, 20, 20]);
    assert_eq!(chat_core::settings::temperature_text(s.temperature_tenths), "2.0");
}

#[test]
fn temperature_deltas_clamp_at_zero() {
    let mut s = Settings::default();
    for _ in 0..5 {
        s.adjust_temperature(-5);
    }
    assert_eq!(s.temperature_tenths, 0);
    assert_eq!(chat_core::settings::temperature_text(0), "0.0");
}

#[test]
fn small_temperature_steps_are_exact() {
    let mut s = Settings::default();
    assert_eq!(s.adjust_temperature(1), 9);
    assert_eq!(s.adjust_temperature(2), 11);
    assert_eq!(s.adjust_temperature(-1), 10);
    assert_eq!(s.adjust_temperature(-2), 8);
    assert_eq!(chat_core::settings::temperature_text(11), "1.1");
}

#[test]
fn control_payloads_parse_to_their_controls() {
    assert_eq!(parse_control("settings_cycle_model"), DialogControl::CycleModel);
    assert_eq!(parse_control("settings_edit_temperature"), DialogControl::EditTemperature);
    assert_eq!(
        parse_control("settings_toggle_trailing_space"),
        DialogControl::ToggleTrailingSpace,
    );
    assert_eq!(parse_control("settings_edit_stop_tokens"), DialogControl::EditStopTokens);
    assert_eq!(parse_control("settings_edit_bot_name"), DialogControl::EditBotName);
    assert_eq!(parse_control("settings_done"), DialogControl::Done);
    assert_eq!(parse_control("temp_sub_0.5"), DialogControl::TemperatureDelta(-5));
    assert_eq!(parse_control("temp_sub_0.2"), DialogControl::TemperatureDelta(-2));
    assert_eq!(parse_control("temp_sub_0.1"), DialogControl::TemperatureDelta(-1));
    assert_eq!(parse_control("temp_add_0.1"), DialogControl::TemperatureDelta(1));
    assert_eq!(parse_control("temp_add_0.2"), DialogControl::TemperatureDelta(2));
    assert_eq!(parse_control("temp_add_0.5"), DialogControl::TemperatureDelta(5));
    assert_eq!(parse_control("temp_back"), DialogControl::TemperatureBack);
    assert_eq!(parse_control("anything else"), DialogControl::Unrecognized);
    assert_eq!(parse_control(""), DialogControl::Unrecognized);
}

#[test]
fn screen_moves_between_main_and_temperature_editor() {
    let mut c = Conversation::new(0);
    c.open_settings_dialog(5, 100).unwrap();
    assert_eq!(c.active_settings_dialog.unwrap().screen, Screen::Main);
    let edit = c.enter_temperature_editor().expect("dialog is open");
    assert_eq!(edit.text, "Editing temperature\ncurrent value: 0.8");
    assert_eq!(c.active_settings_dialog.unwrap().screen, Screen::TemperatureEditor);
    let back = c.leave_temperature_editor().expect("dialog is open");
    assert_eq!(back.text, "Editing settings");
    assert_eq!(c.active_settings_dialog.unwrap().screen, Screen::Main);
}

#[test]
fn screen_moves_require_an_open_dialog() {
    let mut c = Conversation::new(0);
    assert!(c.enter_temperature_editor().is_none());
    assert!(c.leave_temperature_editor().is_none());
    assert!(c.replace_settings_dialog("text".to_string()).is_none());
}

#[test]
fn bot_name_capture_consumes_the_next_message() {
    let mut c = Conversation::new(0);
    c.begin_free_text_capture(SettingKind::BotName);
    assert!(c.offer_free_text("Robo"));
    assert_eq!(c.settings.bot_name, "Robo");
    // the capture is one-shot
    assert!(!c.offer_free_text("Other"));
    assert_eq!(c.settings.bot_name, "Robo");
}

#[test]
fn stop_token_capture_takes_a_comma_separated_list() {
    let mut c = Conversation::new(0);
    c.begin_free_text_capture(SettingKind::StopTokens);
    assert!(c.offer_free_text("a,b,,c"));
    assert_eq!(c.settings.stop_tokens, vec!["a", "b", "c"]);
}

#[test]
fn model_cycles_in_order_and_wraps() {
    let mut s = Settings::default();
    assert_eq!(s.cycle_model(), Model::Ada);
    assert_eq!(s.cycle_model(), Model::Babbage);
    assert_eq!(s.cycle_model(), Model::Curie);
    assert_eq!(s.cycle_model(), Model::Davinci);
}

#[test]
fn settings_buttons_show_current_values() {
    let s = Settings::default();
    let rows = s.get_button_rows();
    assert_eq!(rows.len(), 3);
    assert_eq!(rows[0][0].0, "model: Davinci");
    assert_eq!(rows[0][0].1, "settings_cycle_model");
    assert_eq!(rows[0][1].0, "temperature: 0.8");
    assert_eq!(rows[1][0].0, "trailing space: true");
    assert_eq!(rows[1][1].0, "stop tokens: \\n, \".\", \"!\", \"?\"");
    assert_eq!(rows[2][0].0, "bot name: You");
    assert_eq!(rows[2][1].0, "done");
    assert_eq!(rows[2][1].1, "settings_done");
}

#[test]
fn temperature_editor_buttons() {
    let rows = get_temperature_editor_rows();
    assert_eq!(rows.len(), 2);
    let labels: Vec<&str> = rows[0].iter().map(|b| b.0.as_str()).collect();
    assert_eq!(labels, vec!["-0.5", "-0.2", "-0.1", "+0.1", "+0.2", "+0.5"]);
    assert_eq!(rows[0][0].1, "temp_sub_0.5");
    assert_eq!(rows[1][0].0, "back");
    assert_eq!(rows[1][0].1, "temp_back");
    assert_eq!(get_temperature_editor_dialog_text(13), "Editing temperature\ncurrent value: 1.3");
}

#[test]
fn acknowledgment_texts() {
    assert_eq!(model_set_text("Ada"), "Set model to: Ada");
    assert_eq!(temperature_set_text(13), "Set temperature to: 1.3");
    assert_eq!(trailing_space_set_text(false), "Set trailing space to: false");
}

//! The interactive settings dialog: which screen it shows, which message
//! it occupies, and the parsing of the payloads its controls send back.
use crate::settings::spec_temperature_text;
use crate::settings::temperature_text;
use crate::text::str_eq;
use vstd::prelude::*;
use vstd::string::StrSliceExecFns;
use vstd::string::StringExecFns;

verus! {

/// Which screen the open settings dialog shows.
#[derive(Clone, Copy, Debug, PartialEq, Eq, Structural)]
pub enum Screen {
    Main,
    TemperatureEditor,
}

/// The single in-place message that currently shows the settings dialog
/// of a chat, and the screen it is on.
#[derive(Clone, Copy, Debug, PartialEq, Eq, Structural)]
pub struct DialogRef {
    pub chat: crate::ChatId,
    pub message: crate::MessageId,
    pub screen: Screen,
}

/// Which setting a one-shot free-text capture will feed: the next plain
/// message of the chat is consumed as this setting's new value.
#[derive(Clone, Copy, Debug, PartialEq, Eq, Structural)]
pub enum SettingKind {
    BotName,
    StopTokens,
}

/// A control payload of the settings dialog, decoded.
#[derive(Clone, Copy, Debug, PartialEq, Eq, Structural)]
pub enum DialogControl {
    CycleModel,
    EditTemperature,
    ToggleTrailingSpace,
    EditStopTokens,
    EditBotName,
    Done,
    /// A temperature step, in tenths.
    TemperatureDelta(i8),
    TemperatureBack,
    /// A payload no control of this dialog sends.
    Unrecognized,
}

pub const TEMP_SUB_05: &'static str = "temp_sub_0.5";

pub const TEMP_SUB_02: &'static str = "temp_sub_0.2";

pub const TEMP_SUB_01: &'static str = "temp_sub_0.1";

pub const TEMP_ADD_01: &'static str = "temp_add_0.1";

pub const TEMP_ADD_02: &'static str = "temp_add_0.2";

pub const TEMP_ADD_05: &'static str = "temp_add_0.5";

pub const TEMP_BACK: &'static str = "temp_back";

/// The control that a dialog interaction payload stands for.
pub open spec fn spec_parse_control(data: Seq<char>) -> DialogControl {
    if data == "settings_cycle_model"@ {
        DialogControl::CycleModel
    } else if data == "settings_edit_temperature"@ {
        DialogControl::EditTemperature
    } else if data == "settings_toggle_trailing_space"@ {
        DialogControl::ToggleTrailingSpace
    } else if data == "settings_edit_stop_tokens"@ {
        DialogControl::EditStopTokens
    } else if data == "settings_edit_bot_name"@ {
        DialogControl::EditBotName
    } else if data == "settings_done"@ {
        DialogControl::Done
    } else if data == "temp_sub_0.5"@ {
        DialogControl::TemperatureDelta(-5i8)
    } else if data == "temp_sub_0.2"@ {
        DialogControl::TemperatureDelta(-2i8)
    } else if data == "temp_sub_0.1"@ {
        DialogControl::TemperatureDelta(-1i8)
    } else if data == "temp_add_0.1"@ {
        DialogControl::TemperatureDelta(1i8)
    } else if data == "temp_add_0.2"@ {
        DialogControl::TemperatureDelta(2i8)
    } else if data == "temp_add_0.5"@ {
        DialogControl::TemperatureDelta(5i8)
    } else if data == "temp_back"@ {
        DialogControl::TemperatureBack
    } else {
        DialogControl::Unrecognized
    }
}

/// Decodes a dialog interaction payload into the control it stands for.
pub fn parse_control(data: &str) -> (r: DialogControl)
    ensures
        r == spec_parse_control(data@),
{
    if str_eq(data, "settings_cycle_model") {
        DialogControl::CycleModel
    } else if str_eq(data, "settings_edit_temperature") {
        DialogControl::EditTemperature
    } else if str_eq(data, "settings_toggle_trailing_space") {
        DialogControl::ToggleTrailingSpace
    } else if str_eq(data, "settings_edit_stop_tokens") {
        DialogControl::EditStopTokens
    } else if str_eq(data, "settings_edit_bot_name") {
        DialogControl::EditBotName
    } else if str_eq(data, "settings_done") {
        DialogControl::Done
    } else if str_eq(data, "temp_sub_0.5") {
        DialogControl::TemperatureDelta(-5)
    } else if str_eq(data, "temp_sub_0.2") {
        DialogControl::TemperatureDelta(-2)
    } else if str_eq(data, "temp_sub_0.1") {
        DialogControl::TemperatureDelta(-1)
    } else if str_eq(data, "temp_add_0.1") {
        DialogControl::TemperatureDelta(1)
    } else if str_eq(data, "temp_add_0.2") {
        DialogControl::TemperatureDelta(2)
    } else if str_eq(data, "temp_add_0.5") {
        DialogControl::TemperatureDelta(5)
    } else if str_eq(data, "temp_back") {
        DialogControl::TemperatureBack
    } else {
        DialogControl::Unrecognized
    }
}

/// Heading of the temperature editor screen, with the current value.
pub open spec fn spec_temperature_editor_text(t: u8) -> Seq<char> {
    "Editing temperature\ncurrent value: "@ + spec_temperature_text(t)
}

pub fn get_temperature_editor_dialog_text(t: u8) -> (r: String)
    requires
        t <= 20,
    ensures
        r@ == spec_temperature_editor_text(t),
{
    let mut s = "Editing temperature\ncurrent value: ".to_owned();
    let tt = temperature_text(t);
    s.append(tt.as_str());
    s
}

/// The labels and payloads of the temperature editor's controls: one row
/// of steps and one row with the back control.
pub open spec fn spec_temperature_editor_rows() -> Seq<Seq<(Seq<char>, Seq<char>)>> {
    seq![
        seq![
            ("-0.5"@, "temp_sub_0.5"@),
            ("-0.2"@, "temp_sub_0.2"@),
            ("-0.1"@, "temp_sub_0.1"@),
            ("+0.1"@, "temp_add_0.1"@),
            ("+0.2"@, "temp_add_0.2"@),
            ("+0.5"@, "temp_add_0.5"@),
        ],
        seq![("back"@, "temp_back"@)],
    ]
}

pub fn get_temperature_editor_rows() -> (r: Vec<Vec<(String, String)>>)
    ensures
        r@.map_values(
            |row: Vec<(String, String)>| row@.map_values(|b: (String, String)| (b.0@, b.1@)),
        ) == spec_temperature_editor_rows(),
{
    let row1: Vec<(String, String)> = vec![
        ("-0.5".to_owned(), TEMP_SUB_05.to_owned()),
        ("-0.2".to_owned(), TEMP_SUB_02.to_owned()),
        ("-0.1".to_owned(), TEMP_SUB_01.to_owned()),
        ("+0.1".to_owned(), TEMP_ADD_01.to_owned()),
        ("+0.2".to_owned(), TEMP_ADD_02.to_owned()),
        ("+0.5".to_owned(), TEMP_ADD_05.to_owned()),
    ];
    let row2: Vec<(String, String)> = vec![("back".to_owned(), TEMP_BACK.to_owned())];
    let r: Vec<Vec<(String, String)>> = vec![row1, row2];
    proof {
        assert(r@.map_values(
            |row: Vec<(String, String)>| row@.map_values(|b: (String, String)| (b.0@, b.1@)),
        ) =~~= spec_temperature_editor_rows());
    }
    r
}

/// Acknowledgment text after the model was cycled.
pub fn model_set_text(name: &str) -> (r: String)
    ensures
        r@ == "Set model to: "@ + name@,
{
    let mut s = "Set model to: ".to_owned();
    s.append(name);
    s
}

/// Acknowledgment text after the temperature was adjusted.
pub fn temperature_set_text(t: u8) -> (r: String)
    requires
        t <= 20,
    ensures
        r@ == "Set temperature to: "@ + spec_temperature_text(t),
{
    let mut s = "Set temperature to: ".to_owned();
    let tt = temperature_text(t);
    s.append(tt.as_str());
    s
}

/// Acknowledgment text after the trailing-space choice was flipped.
pub fn trailing_space_set_text(b: bool) -> (r: String)
    ensures
        r@ == "Set trailing space to: "@ + crate::settings::spec_bool_text(b),
{
    let mut s = "Set trailing space to: ".to_owned();
    s.append(crate::settings::bool_text(b));
    s
}

} // verus!

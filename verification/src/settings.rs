//! Generation settings of one conversation: the completion model, the
//! sampling temperature held in tenths, the trailing-space choice for the
//! prompt cue, the stop tokens, and the assistant's display name.
use crate::text::digit_str;
use crate::text::escaped;
use crate::text::join_strings;
use crate::text::spec_digit;
use crate::text::spec_escaped;
use crate::text::spec_join;
use crate::text::str_eq;
use vstd::prelude::*;
use vstd::string::StrSliceExecFns;
use vstd::string::StringExecFns;

verus! {

/// The completion models, in increasing order of power.
#[derive(Clone, Copy, Debug, PartialEq, Eq, Structural)]
pub enum Model {
    Ada,
    Babbage,
    Curie,
    Davinci,
}

/// The model that follows `m` in the cycle, wrapping at the end.
pub open spec fn spec_next_model(m: Model) -> Model {
    match m {
        Model::Ada => Model::Babbage,
        Model::Babbage => Model::Curie,
        Model::Curie => Model::Davinci,
        Model::Davinci => Model::Ada,
    }
}

/// The model's display name.
pub open spec fn spec_model_name(m: Model) -> Seq<char> {
    match m {
        Model::Ada => "Ada"@,
        Model::Babbage => "Babbage"@,
        Model::Curie => "Curie"@,
        Model::Davinci => "Davinci"@,
    }
}

pub fn model_name(m: Model) -> (r: &'static str)
    ensures
        r@ == spec_model_name(m),
{
    match m {
        Model::Ada => "Ada",
        Model::Babbage => "Babbage",
        Model::Curie => "Curie",
        Model::Davinci => "Davinci",
    }
}

/// The model's name on the wire of the completion backend.
pub open spec fn spec_engine_name(m: Model) -> Seq<char> {
    match m {
        Model::Ada => "ada"@,
        Model::Babbage => "babbage"@,
        Model::Curie => "curie"@,
        Model::Davinci => "davinci"@,
    }
}

pub fn engine_name(m: Model) -> (r: &'static str)
    ensures
        r@ == spec_engine_name(m),
{
    match m {
        Model::Ada => "ada",
        Model::Babbage => "babbage",
        Model::Curie => "curie",
        Model::Davinci => "davinci",
    }
}

pub open spec fn spec_bool_text(b: bool) -> Seq<char> {
    if b {
        "true"@
    } else {
        "false"@
    }
}

pub fn bool_text(b: bool) -> (r: &'static str)
    ensures
        r@ == spec_bool_text(b),
{
    if b {
        "true"
    } else {
        "false"
    }
}

/// `t + delta` pulled back into the temperature range 0 ..= 20 tenths.
pub open spec fn spec_clamped_temperature(t: int, delta: int) -> int {
    let v = t + delta;
    if v < 0 {
        0
    } else if v > 20 {
        20
    } else {
        v
    }
}

/// Temperature in tenths rendered with one decimal place, `8` as `0.8`.
pub open spec fn spec_temperature_text(t: u8) -> Seq<char> {
    spec_digit(t as int / 10) + "."@ + spec_digit(t as int % 10)
}

pub fn temperature_text(t: u8) -> (r: String)
    requires
        t <= 20,
    ensures
        r@ == spec_temperature_text(t),
{
    let mut s = digit_str(t / 10).to_owned();
    s.append(".");
    s.append(digit_str(t % 10));
    s
}

/// A stop token as the closing summary lists it: inside quotation
/// marks, its special characters as backslash escapes, so a line-break
/// token shows as `"\n"`.
pub open spec fn spec_quoted_stop_token(t: Seq<char>) -> Seq<char> {
    "\""@ + spec_escaped(t) + "\""@
}

pub fn quoted_stop_token(t: &str) -> (r: String)
    ensures
        r@ == spec_quoted_stop_token(t@),
{
    let mut s = "\"".to_owned();
    let e = escaped(t);
    s.append(e.as_str());
    s.append("\"");
    s
}

/// The stop tokens as the closing summary lists them.
pub open spec fn spec_done_stop_tokens_text(stop: Seq<Seq<char>>) -> Seq<char> {
    spec_join(stop.map_values(|t: Seq<char>| spec_quoted_stop_token(t)), ", "@)
}

/// A stop token as the stop-tokens button shows it: a line break as
/// `\n`, any other token wrapped in quotation marks, unescaped.
pub open spec fn spec_render_stop_token(t: Seq<char>) -> Seq<char> {
    if t == "\n"@ {
        "\\n"@
    } else {
        "\""@ + t + "\""@
    }
}

pub fn render_stop_token(t: &str) -> (r: String)
    ensures
        r@ == spec_render_stop_token(t@),
{
    if str_eq(t, "\n") {
        "\\n".to_owned()
    } else {
        let mut s = "\"".to_owned();
        s.append(t);
        s.append("\"");
        s
    }
}

/// The stop tokens rendered and joined for the button label.
pub open spec fn spec_stop_tokens_text(stop: Seq<Seq<char>>) -> Seq<char> {
    spec_join(stop.map_values(|t: Seq<char>| spec_render_stop_token(t)), ", "@)
}

/// The mathematical value of a [`Settings`].
pub struct SettingsModel {
    pub model: Model,
    pub temperature_tenths: u8,
    pub trailing_space_in_prompt: bool,
    pub stop_tokens: Seq<Seq<char>>,
    pub bot_name: Seq<char>,
}

/// The settings a fresh conversation starts with.
pub open spec fn spec_default_settings() -> SettingsModel {
    SettingsModel {
        model: Model::Davinci,
        temperature_tenths: 8,
        trailing_space_in_prompt: true,
        stop_tokens: seq!["\n"@, "."@, "!"@, "?"@],
        bot_name: "You"@,
    }
}

/// Generation settings of one conversation. The temperature is held in
/// tenths of the real sampling temperature, so `8` stands for 0.8; a
/// well-formed value lies in 0 ..= 20.
pub struct Settings {
    pub model: Model,
    pub temperature_tenths: u8,
    pub trailing_space_in_prompt: bool,
    pub stop_tokens: Vec<String>,
    pub bot_name: String,
}

impl View for Settings {
    type V = SettingsModel;

    open spec fn view(&self) -> SettingsModel {
        SettingsModel {
            model: self.model,
            temperature_tenths: self.temperature_tenths,
            trailing_space_in_prompt: self.trailing_space_in_prompt,
            stop_tokens: self.stop_tokens@.map_values(|t: String| t@),
            bot_name: self.bot_name@,
        }
    }
}

/// The closing summary of the settings dialog.
pub open spec fn spec_done_text(s: SettingsModel) -> Seq<char> {
    "Done editing settings\n    model: "@ + spec_model_name(s.model) + "\n    temperature: "@
        + spec_temperature_text(s.temperature_tenths) + "\n    trailing space: "@ + spec_bool_text(
        s.trailing_space_in_prompt,
    ) + "\n    stop tokens: "@ + spec_done_stop_tokens_text(s.stop_tokens)
}

/// The labels and payloads of the settings dialog's controls: three rows,
/// one pair `(label, payload)` per control.
pub open spec fn spec_button_rows(s: SettingsModel) -> Seq<Seq<(Seq<char>, Seq<char>)>> {
    seq![
        seq![
            ("model: "@ + spec_model_name(s.model), "settings_cycle_model"@),
            ("temperature: "@ + spec_temperature_text(s.temperature_tenths),
            "settings_edit_temperature"@),
        ],
        seq![
            ("trailing space: "@ + spec_bool_text(s.trailing_space_in_prompt),
            "settings_toggle_trailing_space"@),
            ("stop tokens: "@ + spec_stop_tokens_text(s.stop_tokens),
            "settings_edit_stop_tokens"@),
        ],
        seq![
            ("bot name: "@ + s.bot_name, "settings_edit_bot_name"@),
            ("done"@, "settings_done"@),
        ],
    ]
}

impl Settings {
    pub const SETTINGS_CYCLE_MODEL: &'static str = "settings_cycle_model";

    pub const SETTINGS_EDIT_TEMPERATURE: &'static str = "settings_edit_temperature";

    pub const SETTINGS_TOGGLE_TRAILING_SPACE: &'static str = "settings_toggle_trailing_space";

    pub const SETTINGS_EDIT_STOP_TOKENS: &'static str = "settings_edit_stop_tokens";

    pub const SETTINGS_EDIT_BOT_NAME: &'static str = "settings_edit_bot_name";

    pub const SETTINGS_DONE: &'static str = "settings_done";

    /// A well-formed settings value keeps its temperature in range.
    pub open spec fn wf(self) -> bool {
        self.temperature_tenths <= 20
    }

    /// Advances the model to the next in order, wrapping at the end,
    /// and returns the new model.
    pub fn cycle_model(&mut self) -> (r: Model)
        ensures
            *final(self) == (Settings { model: spec_next_model(old(self).model), ..*old(self) }),
            r == spec_next_model(old(self).model),
    {
        self.model = match self.model {
            Model::Ada => Model::Babbage,
            Model::Babbage => Model::Curie,
            Model::Curie => Model::Davinci,
            Model::Davinci => Model::Ada,
        };
        self.model
    }

    /// Moves the temperature by `delta_tenths` and clamps the result to
    /// 0 ..= 20 tenths; returns the new value.
    pub fn adjust_temperature(&mut self, delta_tenths: i8) -> (r: u8)
        ensures
            *final(self) == (Settings { temperature_tenths: r, ..*old(self) }),
            r as int == spec_clamped_temperature(
                old(self).temperature_tenths as int,
                delta_tenths as int,
            ),
            r <= 20,
    {
        let v: i32 = self.temperature_tenths as i32 + delta_tenths as i32;
        let clamped: u8 = if v < 0 {
            0
        } else if v > 20 {
            20
        } else {
            v as u8
        };
        self.temperature_tenths = clamped;
        clamped
    }

    /// Flips whether the prompt cue ends with a space; returns the new value.
    pub fn toggle_trailing_space(&mut self) -> (r: bool)
        ensures
            *final(self) == (Settings {
                trailing_space_in_prompt: !old(self).trailing_space_in_prompt,
                ..*old(self)
            }),
            r == !old(self).trailing_space_in_prompt,
    {
        self.trailing_space_in_prompt = !self.trailing_space_in_prompt;
        self.trailing_space_in_prompt
    }

    /// Renames the assistant as it appears in rendered prompts.
    pub fn set_bot_name(&mut self, name: String)
        ensures
            *final(self) == (Settings { bot_name: name, ..*old(self) }),
    {
        self.bot_name = name;
    }

    /// Replaces the stop tokens sent to the completion backend.
    pub fn set_stop_tokens(&mut self, tokens: Vec<String>)
        ensures
            *final(self) == (Settings { stop_tokens: tokens, ..*old(self) }),
    {
        self.stop_tokens = tokens;
    }

    /// Heading of the open settings dialog.
    pub fn get_message_text(&self) -> (r: String)
        ensures
            r@ == "Editing settings"@,
    {
        "Editing settings".to_owned()
    }

    /// The stop tokens rendered and joined for display.
    pub fn stop_tokens_text(&self) -> (r: String)
        ensures
            r@ == spec_stop_tokens_text(self@.stop_tokens),
    {
        let ghost stopv = self@.stop_tokens;
        let mut rendered: Vec<String> = Vec::new();
        let mut i: usize = 0;
        proof {
            assert(rendered@.map_values(|p: String| p@) =~= stopv.take(0).map_values(
                |t: Seq<char>| spec_render_stop_token(t),
            ));
        }
        while i < self.stop_tokens.len()
            invariant
                i <= self.stop_tokens@.len(),
                stopv == self@.stop_tokens,
                stopv.len() == self.stop_tokens@.len(),
                rendered@.map_values(|p: String| p@) == stopv.take(i as int).map_values(
                    |t: Seq<char>| spec_render_stop_token(t),
                ),
            decreases self.stop_tokens@.len() - i,
        {
            let ghost rendered0 = rendered@;
            let r1 = render_stop_token(self.stop_tokens[i].as_str());
            rendered.push(r1);
            proof {
                assert(stopv[i as int] == self.stop_tokens@[i as int]@);
                assert(stopv.take(i as int + 1) =~= stopv.take(i as int).push(stopv[i as int]));
                assert(stopv.take(i as int + 1).map_values(
                    |t: Seq<char>| spec_render_stop_token(t),
                ) =~= stopv.take(i as int).map_values(|t: Seq<char>| spec_render_stop_token(t)).push(
                    spec_render_stop_token(stopv[i as int]),
                ));
                assert(rendered@.map_values(|p: String| p@) =~= rendered0.map_values(
                    |p: String| p@,
                ).push(r1@));
            }
            i += 1;
        }
        proof {
            assert(stopv.take(stopv.len() as int) =~= stopv);
        }
        join_strings(&rendered, ", ")
    }

    /// The stop tokens as the closing summary lists them: each quoted
    /// and escaped, joined by commas.
    pub fn done_stop_tokens_text(&self) -> (r: String)
        ensures
            r@ == spec_done_stop_tokens_text(self@.stop_tokens),
    {
        let ghost stopv = self@.stop_tokens;
        let mut rendered: Vec<String> = Vec::new();
        let mut i: usize = 0;
        proof {
            assert(rendered@.map_values(|p: String| p@) =~= stopv.take(0).map_values(
                |t: Seq<char>| spec_quoted_stop_token(t),
            ));
        }
        while i < self.stop_tokens.len()
            invariant
                i <= self.stop_tokens@.len(),
                stopv == self@.stop_tokens,
                stopv.len() == self.stop_tokens@.len(),
                rendered@.map_values(|p: String| p@) == stopv.take(i as int).map_values(
                    |t: Seq<char>| spec_quoted_stop_token(t),
                ),
            decreases self.stop_tokens@.len() - i,
        {
            let ghost rendered0 = rendered@;
            let r1 = quoted_stop_token(self.stop_tokens[i].as_str());
            rendered.push(r1);
            proof {
                assert(stopv[i as int] == self.stop_tokens@[i as int]@);
                assert(stopv.take(i as int + 1) =~= stopv.take(i as int).push(stopv[i as int]));
                assert(stopv.take(i as int + 1).map_values(
                    |t: Seq<char>| spec_quoted_stop_token(t),
                ) =~= stopv.take(i as int).map_values(|t: Seq<char>| spec_quoted_stop_token(t)).push(
                    spec_quoted_stop_token(stopv[i as int]),
                ));
                assert(rendered@.map_values(|p: String| p@) =~= rendered0.map_values(
                    |p: String| p@,
                ).push(r1@));
            }
            i += 1;
        }
        proof {
            assert(stopv.take(stopv.len() as int) =~= stopv);
        }
        join_strings(&rendered, ", ")
    }

    /// The summary shown when the settings dialog closes.
    pub fn get_done_text(&self) -> (r: String)
        requires
            self.wf(),
        ensures
            r@ == spec_done_text(self@),
    {
        let mut s = "Done editing settings\n    model: ".to_owned();
        s.append(model_name(self.model));
        s.append("\n    temperature: ");
        let tt = temperature_text(self.temperature_tenths);
        s.append(tt.as_str());
        s.append("\n    trailing space: ");
        s.append(bool_text(self.trailing_space_in_prompt));
        s.append("\n    stop tokens: ");
        let st = self.done_stop_tokens_text();
        s.append(st.as_str());
        s
    }

    /// The labels and payloads of the settings dialog's controls, row by
    /// row, each control as `(label, payload)`.
    pub fn get_button_rows(&self) -> (r: Vec<Vec<(String, String)>>)
        requires
            self.wf(),
        ensures
            r@.map_values(
                |row: Vec<(String, String)>|
                    row@.map_values(|b: (String, String)| (b.0@, b.1@)),
            ) == spec_button_rows(self@),
    {
        let mut model_label = "model: ".to_owned();
        model_label.append(model_name(self.model));
        let mut temp_label = "temperature: ".to_owned();
        let tt = temperature_text(self.temperature_tenths);
        temp_label.append(tt.as_str());
        let mut trailing_label = "trailing space: ".to_owned();
        trailing_label.append(bool_text(self.trailing_space_in_prompt));
        let mut stop_label = "stop tokens: ".to_owned();
        let st = self.stop_tokens_text();
        stop_label.append(st.as_str());
        let mut name_label = "bot name: ".to_owned();
        name_label.append(self.bot_name.as_str());
        let row1: Vec<(String, String)> = vec![
            (model_label, Self::SETTINGS_CYCLE_MODEL.to_owned()),
            (temp_label, Self::SETTINGS_EDIT_TEMPERATURE.to_owned()),
        ];
        let row2: Vec<(String, String)> = vec![
            (trailing_label, Self::SETTINGS_TOGGLE_TRAILING_SPACE.to_owned()),
            (stop_label, Self::SETTINGS_EDIT_STOP_TOKENS.to_owned()),
        ];
        let row3: Vec<(String, String)> = vec![
            (name_label, Self::SETTINGS_EDIT_BOT_NAME.to_owned()),
            ("done".to_owned(), Self::SETTINGS_DONE.to_owned()),
        ];
        let r: Vec<Vec<(String, String)>> = vec![row1, row2, row3];
        proof {
            assert(r@.map_values(
                |row: Vec<(String, String)>|
                    row@.map_values(|b: (String, String)| (b.0@, b.1@)),
            ) =~~= spec_button_rows(self@));
        }
        r
    }
}

impl Default for Settings {
    /// A fresh conversation's settings: the strongest model, temperature
    /// 0.8, a trailing space in the prompt cue, line break and sentence
    /// punctuation as stop tokens, and the assistant shown as `You`.
    fn default() -> (r: Self)
        ensures
            r@ == spec_default_settings(),
            r.wf(),
    {
        let stop_tokens: Vec<String> = vec![
            "\n".to_owned(),
            ".".to_owned(),
            "!".to_owned(),
            "?".to_owned(),
        ];
        let r = Settings {
            model: Model::Davinci,
            temperature_tenths: 8,
            trailing_space_in_prompt: true,
            stop_tokens,
            bot_name: "You".to_owned(),
        };
        proof {
            assert(r@.stop_tokens =~= seq!["\n"@, "."@, "!"@, "?"@]);
        }
        r
    }
}

} // verus!

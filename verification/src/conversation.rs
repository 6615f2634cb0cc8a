//! One chat's conversation: the bounded turn history, the generation
//! settings, the last produced reply, the settings-dialog state, and the
//! decision steps of the reply-production protocol.
//!
//! The completion backend itself is an external collaborator. The
//! protocol is therefore split into decision steps: [`Conversation::begin_reply`]
//! says what to send, and [`Conversation::process_first_reply`] and
//! [`Conversation::process_second_reply`] take what came back and decide
//! what the conversation becomes and whether the one-shot duplicate
//! recovery must send once more. The embedding program only carries the
//! requests to the backend and hands the replies in.
use crate::dialog::DialogRef;
use crate::dialog::Screen;
use crate::dialog::SettingKind;
use crate::dialog::spec_temperature_editor_text;
use crate::errors::AppError;
use crate::settings::Settings;
use crate::settings::SettingsModel;
use crate::settings::Model;
use crate::settings::spec_default_settings;
use crate::settings::spec_done_text;
use crate::text::join_strings;
use crate::text::spec_join;
use crate::text::spec_split_commas;
use crate::text::spec_trim_start;
use crate::text::split_commas;
use crate::text::trim_start;
use std::collections::VecDeque;
use vstd::prelude::*;
use vstd::string::StrSliceExecFns;
use vstd::string::StringExecFns;

verus! {

/// Upper bound on the tokens requested from the completion backend.
pub const MAX_TOKENS: u64 = 100;

/// How many turns a conversation keeps by default.
pub const DEFAULT_CONVERSATION_LIMIT: usize = 100;

/// Who a turn came from.
#[derive(Debug)]
pub enum FromUser {
    /// A human user, carried by display name.
    User(String),
    /// The assistant itself.
    Myself,
}

/// The mathematical value of a [`FromUser`].
pub enum SpeakerModel {
    User(Seq<char>),
    Myself,
}

impl View for FromUser {
    type V = SpeakerModel;

    open spec fn view(&self) -> SpeakerModel {
        match self {
            FromUser::User(name) => SpeakerModel::User(name@),
            FromUser::Myself => SpeakerModel::Myself,
        }
    }
}

/// One message of a conversation.
#[derive(Debug)]
pub struct Turn {
    pub from: FromUser,
    pub text: String,
}

/// The mathematical value of a [`Turn`].
pub struct TurnModel {
    pub from: SpeakerModel,
    pub text: Seq<char>,
}

impl View for Turn {
    type V = TurnModel;

    open spec fn view(&self) -> TurnModel {
        TurnModel { from: self.from@, text: self.text@ }
    }
}

/// The mathematical value of a [`Conversation`].
pub struct ConversationModel {
    /// The turns in chronological order, oldest first.
    pub history: Seq<TurnModel>,
    /// Bound on the history; zero means unbounded.
    pub limit: usize,
    /// The most recently produced reply, kept for duplicate detection.
    pub last_reply: Option<Seq<char>>,
    pub settings: SettingsModel,
    /// The open settings dialog, if any.
    pub dialog: Option<DialogRef>,
    /// The pending one-shot free-text capture, if any.
    pub pending_input: Option<SettingKind>,
}

impl ConversationModel {
    /// The conversation invariant: a positive limit bounds the history,
    /// and the temperature stays in range.
    pub open spec fn wf(self) -> bool {
        &&& self.limit > 0 ==> self.history.len() <= self.limit
        &&& self.settings.temperature_tenths <= 20
    }
}

/// A fresh conversation's value: empty history, no last reply, default
/// settings, no dialog, no pending capture.
pub open spec fn spec_new_conversation(limit: usize) -> ConversationModel {
    ConversationModel {
        history: Seq::empty(),
        limit,
        last_reply: None,
        settings: spec_default_settings(),
        dialog: None,
        pending_input: None,
    }
}

/// `history` after one turn is appended: at a positive limit, a full
/// window loses its oldest turn first.
pub open spec fn spec_add_turn(history: Seq<TurnModel>, limit: usize, t: TurnModel) -> Seq<
    TurnModel,
> {
    if limit > 0 && history.len() >= limit {
        history.drop_first().push(t)
    } else {
        history.push(t)
    }
}

/// One turn as a prompt line: the speaker's display name, a colon and a
/// space, then the text. The assistant's name is resolved at render
/// time, so renaming it reaches historical turns too.
pub open spec fn spec_render_turn(t: TurnModel, bot_name: Seq<char>) -> Seq<char> {
    match t.from {
        SpeakerModel::User(name) => name + ": "@ + t.text,
        SpeakerModel::Myself => bot_name + ": "@ + t.text,
    }
}

/// The closing cue that asks the backend to continue as the assistant,
/// with or without the trailing space as the settings say.
pub open spec fn spec_prompt_cue(s: SettingsModel) -> Seq<char> {
    s.bot_name + ":"@ + if s.trailing_space_in_prompt {
        " "@
    } else {
        Seq::empty()
    }
}

/// The rendered prompt: every turn as a line, then the cue, joined with
/// line breaks. A pure function of history and settings.
pub open spec fn spec_prompt(m: ConversationModel) -> Seq<char> {
    spec_join(
        m.history.map_values(|t: TurnModel| spec_render_turn(t, m.settings.bot_name)).push(
            spec_prompt_cue(m.settings),
        ),
        "\n"@,
    )
}

/// `m` after a produced reply `t` is recorded: `t` becomes the last
/// reply and is appended to the history as an assistant turn.
pub open spec fn spec_record_reply(m: ConversationModel, t: Seq<char>) -> ConversationModel {
    ConversationModel {
        history: spec_add_turn(
            m.history,
            m.limit,
            TurnModel { from: SpeakerModel::Myself, text: t },
        ),
        last_reply: Some(t),
        ..m
    }
}

/// `m` with its history truncated to the single most recent turn: the
/// narrowed context that the one-shot recovery renders its prompt from.
/// The stored history itself is never truncated.
pub open spec fn spec_truncate_to_last(m: ConversationModel) -> ConversationModel {
    ConversationModel {
        history: if m.history.len() > 1 {
            m.history.skip(m.history.len() - 1)
        } else {
            m.history
        },
        ..m
    }
}

/// Whether a first reply triggers the one-shot recovery: trimmed, it is
/// non-empty and repeats the last produced reply.
pub open spec fn spec_is_duplicate(m: ConversationModel, raw: Seq<char>) -> bool {
    let t = spec_trim_start(raw);
    t.len() > 0 && m.last_reply == Some(t)
}

/// The conversation after the backend's first reply is handed in: a
/// duplicate leaves it untouched while the recovery runs; anything else
/// is recorded.
pub open spec fn spec_process_first(m: ConversationModel, raw: Seq<char>) -> ConversationModel {
    if spec_is_duplicate(m, raw) {
        m
    } else {
        spec_record_reply(m, spec_trim_start(raw))
    }
}

/// Everything one completion call needs: the rendered prompt and the
/// generation parameters to send along.
pub struct CompletionRequest {
    pub prompt: String,
    pub model: Model,
    pub max_tokens: u64,
    /// Sampling temperature in tenths; `8` stands for 0.8.
    pub temperature_tenths: u8,
    pub stop_tokens: Vec<String>,
}

impl CompletionRequest {
    /// The request that conversation state `m` calls for.
    pub open spec fn is_for(self, m: ConversationModel) -> bool {
        &&& self.prompt@ == spec_prompt(m)
        &&& self.model == m.settings.model
        &&& self.max_tokens == MAX_TOKENS
        &&& self.temperature_tenths == m.settings.temperature_tenths
        &&& self.stop_tokens@.map_values(|t: String| t@) == m.settings.stop_tokens
    }
}

/// What the backend's first reply led to.
pub enum FirstReplyOutcome {
    /// The reply was accepted, recorded, and appended to the history.
    Accepted(String),
    /// The reply repeated the last one: this request, rendered from the
    /// context truncated to the most recent turn, must be sent once more.
    RetryWith(CompletionRequest),
}

/// A pending in-place edit of the dialog message, for the embedding
/// program to carry out on the chat transport.
pub struct DialogEdit {
    pub chat: crate::ChatId,
    pub message: crate::MessageId,
    pub text: String,
}

/// Whether `e` is the edit that closes `c`'s dialog: it replaces the
/// dialog message with the closing summary of `c`'s settings.
pub open spec fn spec_done_edit_for(c: ConversationModel, e: DialogEdit) -> bool {
    match c.dialog {
        Some(d) => e.chat == d.chat && e.message == d.message && e.text@ == spec_done_text(
            c.settings,
        ),
        None => false,
    }
}

/// The full mutable state of one chat's conversation.
pub struct Conversation {
    /// The turns in chronological order, oldest first.
    messages: VecDeque<Turn>,
    /// Bound on the history; zero means unbounded.
    limit: usize,
    /// The most recently produced reply, kept for duplicate detection.
    last_reply: Option<String>,
    pub settings: Settings,
    /// The message currently showing this chat's settings dialog.
    pub active_settings_dialog: Option<DialogRef>,
    /// The setting the next plain message of this chat will feed.
    pub awaiting_free_text_for: Option<SettingKind>,
}

impl View for Conversation {
    type V = ConversationModel;

    closed spec fn view(&self) -> ConversationModel {
        ConversationModel {
            history: self.messages@.map_values(|t: Turn| t@),
            limit: self.limit,
            last_reply: match self.last_reply {
                Some(s) => Some(s@),
                None => None,
            },
            settings: self.settings@,
            dialog: self.active_settings_dialog,
            pending_input: self.awaiting_free_text_for,
        }
    }
}

/// One turn rendered as a prompt line.
pub fn render_turn(t: &Turn, bot_name: &str) -> (r: String)
    ensures
        r@ == spec_render_turn(t@, bot_name@),
{
    let mut s = match &t.from {
        FromUser::User(name) => name.clone(),
        FromUser::Myself => bot_name.to_owned(),
    };
    s.append(": ");
    s.append(t.text.as_str());
    s
}

/// An exact copy of a vector of strings.
fn clone_strings(v: &Vec<String>) -> (r: Vec<String>)
    ensures
        r@ == v@,
{
    let mut r: Vec<String> = Vec::new();
    let mut i: usize = 0;
    while i < v.len()
        invariant
            i <= v@.len(),
            r@ =~= v@.take(i as int),
        decreases v@.len() - i,
    {
        r.push(v[i].clone());
        proof {
            assert(v@.take(i as int + 1) =~= v@.take(i as int).push(v@[i as int]));
        }
        i += 1;
    }
    proof {
        assert(v@.take(v@.len() as int) =~= v@);
    }
    r
}

impl Conversation {
    /// The conversation invariant.
    pub open spec fn wf(self) -> bool {
        self@.wf()
    }

    /// A fresh conversation. A `limit` of zero means unbounded history.
    pub fn new(limit: usize) -> (r: Conversation)
        ensures
            r@ == spec_new_conversation(limit),
            r.wf(),
    {
        let r = Conversation {
            messages: VecDeque::new(),
            limit,
            last_reply: None,
            settings: Settings::default(),
            active_settings_dialog: None,
            awaiting_free_text_for: None,
        };
        proof {
            assert(r@.history =~= Seq::<TurnModel>::empty());
        }
        r
    }

    /// How many turns the history holds.
    pub fn history_len(&self) -> (r: usize)
        ensures
            r == self@.history.len(),
    {
        self.messages.len()
    }

    /// The history bound; zero means unbounded.
    pub fn get_limit(&self) -> (r: usize)
        ensures
            r == self@.limit,
    {
        self.limit
    }

    /// The `i`-th turn of the history, oldest first.
    pub fn get_turn(&self, i: usize) -> (r: &Turn)
        requires
            i < self@.history.len(),
        ensures
            r@ == self@.history[i as int],
    {
        &self.messages[i]
    }

    /// The most recently produced reply, if any.
    pub fn get_last_reply(&self) -> (r: &Option<String>)
        ensures
            match r {
                Some(s) => self@.last_reply == Some(s@),
                None => self@.last_reply is None,
            },
    {
        &self.last_reply
    }

    /// Appends one turn. At a positive limit a full history loses its
    /// oldest turn first, so the window keeps the most recent turns.
    pub fn add(&mut self, from: FromUser, msg: String)
        ensures
            final(self)@ == (ConversationModel {
                history: spec_add_turn(
                    old(self)@.history,
                    old(self)@.limit,
                    TurnModel { from: from@, text: msg@ },
                ),
                ..old(self)@
            }),
            old(self).wf() ==> final(self).wf(),
    {
        let ghost turnv = TurnModel { from: from@, text: msg@ };
        let ghost h0 = self.messages@.map_values(|t: Turn| t@);
        if self.limit > 0 && self.messages.len() >= self.limit {
            self.messages.pop_front();
            proof {
                assert(self.messages@.map_values(|t: Turn| t@) =~= h0.drop_first());
            }
        }
        self.messages.push_back(Turn { from, text: msg });
        proof {
            assert(self.messages@.map_values(|t: Turn| t@) =~= spec_add_turn(
                h0,
                old(self).limit,
                turnv,
            ));
        }
    }

    /// Removes every turn; settings, dialog state, and the last reply
    /// stay as they are.
    pub fn clear_history(&mut self)
        ensures
            final(self)@ == (ConversationModel { history: Seq::empty(), ..old(self)@ }),
            old(self).wf() ==> final(self).wf(),
    {
        self.messages.clear();
        proof {
            assert(self.messages@.map_values(|t: Turn| t@) =~= Seq::<TurnModel>::empty());
        }
    }

    /// Renders the prompt from the current history and settings; an
    /// identical history and settings always yield the identical prompt.
    pub fn generate_prompt(&self) -> (r: String)
        ensures
            r@ == spec_prompt(self@),
    {
        let ghost linesv = self@.history.map_values(
            |t: TurnModel| spec_render_turn(t, self@.settings.bot_name),
        );
        let mut lines: Vec<String> = Vec::new();
        let mut i: usize = 0;
        proof {
            assert(lines@.map_values(|p: String| p@) =~= linesv.take(0));
        }
        while i < self.messages.len()
            invariant
                i <= self.messages@.len(),
                linesv == self@.history.map_values(
                    |t: TurnModel| spec_render_turn(t, self@.settings.bot_name),
                ),
                linesv.len() == self.messages@.len(),
                lines@.map_values(|p: String| p@) == linesv.take(i as int),
            decreases self.messages@.len() - i,
        {
            let ghost lines0 = lines@;
            let line = render_turn(&self.messages[i], self.settings.bot_name.as_str());
            lines.push(line);
            proof {
                assert(self@.history[i as int] == self.messages@[i as int]@);
                assert(linesv.take(i as int + 1) =~= linesv.take(i as int).push(
                    linesv[i as int],
                ));
                assert(lines@.map_values(|p: String| p@) =~= lines0.map_values(
                    |p: String| p@,
                ).push(line@));
            }
            i += 1;
        }
        let cue = self.make_cue();
        lines.push(cue);
        proof {
            assert(linesv.take(linesv.len() as int) =~= linesv);
            assert(lines@.map_values(|p: String| p@) =~= linesv.push(
                spec_prompt_cue(self@.settings),
            ));
        }
        join_strings(&lines, "\n")
    }

    /// The closing cue of the prompt, for the current settings.
    fn make_cue(&self) -> (r: String)
        ensures
            r@ == spec_prompt_cue(self@.settings),
    {
        let mut cue = self.settings.bot_name.clone();
        cue.append(":");
        if self.settings.trailing_space_in_prompt {
            cue.append(" ");
        }
        proof {
            assert(cue@ =~= spec_prompt_cue(self@.settings));
        }
        cue
    }

    /// Step one of reply production: the request to send to the
    /// completion backend for the current history and settings.
    pub fn begin_reply(&self) -> (r: CompletionRequest)
        ensures
            r.is_for(self@),
    {
        CompletionRequest {
            prompt: self.generate_prompt(),
            model: self.settings.model,
            max_tokens: MAX_TOKENS,
            temperature_tenths: self.settings.temperature_tenths,
            stop_tokens: clone_strings(&self.settings.stop_tokens),
        }
    }

    /// Records a produced reply: it becomes the last reply and is
    /// appended to the history as an assistant turn.
    fn record_reply(&mut self, text: String)
        ensures
            final(self)@ == spec_record_reply(old(self)@, text@),
            old(self).wf() ==> final(self).wf(),
    {
        self.last_reply = Some(text.clone());
        self.add(FromUser::Myself, text);
    }

    /// Step two of reply production: hand in the backend's first reply.
    /// The reply is trimmed of leading whitespace. If it is then
    /// non-empty and repeats the last produced reply, nothing is
    /// recorded yet: the returned request must be sent once more — the
    /// one-shot recovery — and its prompt is rendered from the history
    /// truncated to the single most recent turn. Only that retry
    /// context is narrowed; the stored history keeps every confirmed
    /// turn. Otherwise the trimmed reply is recorded, appended as an
    /// assistant turn, and final.
    pub fn process_first_reply(&mut self, raw: &str) -> (r: FirstReplyOutcome)
        ensures
            final(self)@ == spec_process_first(old(self)@, raw@),
            match r {
                FirstReplyOutcome::Accepted(t) => !spec_is_duplicate(old(self)@, raw@) && t@
                    == spec_trim_start(raw@),
                FirstReplyOutcome::RetryWith(req) => spec_is_duplicate(old(self)@, raw@)
                    && req.is_for(spec_truncate_to_last(old(self)@)),
            },
            old(self).wf() ==> final(self).wf(),
    {
        let trimmed = trim_start(raw);
        let is_dup = match &self.last_reply {
            Some(lr) => !trimmed.as_str().is_empty() && *lr == trimmed,
            None => false,
        };
        if is_dup {
            let ghost trunc = spec_truncate_to_last(self@);
            let mut lines: Vec<String> = Vec::new();
            if self.messages.len() > 0 {
                let line = render_turn(
                    &self.messages[self.messages.len() - 1],
                    self.settings.bot_name.as_str(),
                );
                lines.push(line);
            }
            let cue = self.make_cue();
            lines.push(cue);
            proof {
                if self@.history.len() > 1 {
                    assert(trunc.history =~= seq![self@.history.last()]);
                }
                if self@.history.len() > 0 {
                    assert(self@.history.last() == self.messages@[self.messages@.len() - 1]@);
                }
                assert(lines@.map_values(|p: String| p@) =~= trunc.history.map_values(
                    |t: TurnModel| spec_render_turn(t, trunc.settings.bot_name),
                ).push(spec_prompt_cue(trunc.settings)));
            }
            let prompt = join_strings(&lines, "\n");
            let req = CompletionRequest {
                prompt,
                model: self.settings.model,
                max_tokens: MAX_TOKENS,
                temperature_tenths: self.settings.temperature_tenths,
                stop_tokens: clone_strings(&self.settings.stop_tokens),
            };
            FirstReplyOutcome::RetryWith(req)
        } else {
            self.record_reply(trimmed.clone());
            FirstReplyOutcome::Accepted(trimmed)
        }
    }

    /// Step three, only after the one-shot recovery: the backend's
    /// second reply, trimmed, is recorded and appended whether or not it
    /// repeats — the recovery is never retried.
    pub fn process_second_reply(&mut self, raw: &str) -> (r: String)
        ensures
            final(self)@ == spec_record_reply(old(self)@, spec_trim_start(raw@)),
            r@ == spec_trim_start(raw@),
            old(self).wf() ==> final(self).wf(),
    {
        let trimmed = trim_start(raw);
        self.record_reply(trimmed.clone());
        trimmed
    }

    /// Opens the settings dialog on message `message` of chat `chat`,
    /// showing the main screen. Fails with [`AppError::AlreadyOpen`]
    /// when a dialog is already open for this chat; it must be replaced
    /// or deactivated first.
    pub fn open_settings_dialog(&mut self, chat: crate::ChatId, message: crate::MessageId) -> (r:
        Result<(), AppError>)
        ensures
            match r {
                Ok(_) => old(self)@.dialog is None && final(self)@ == (ConversationModel {
                    dialog: Some(DialogRef { chat, message, screen: Screen::Main }),
                    ..old(self)@
                }),
                Err(e) => old(self)@.dialog is Some && final(self)@ == old(self)@ && (e matches
                    AppError::AlreadyOpen(c) && c == chat),
            },
    {
        match self.active_settings_dialog {
            Some(_) => Err(AppError::AlreadyOpen(chat)),
            None => {
                self.active_settings_dialog = Some(
                    DialogRef { chat, message, screen: Screen::Main },
                );
                Ok(())
            },
        }
    }

    /// Replaces the content of the open dialog message: the returned
    /// edit shows `text` on the same message, and the dialog stays open
    /// there. Valid only while a dialog is open; `None` reports a closed
    /// one.
    pub fn replace_settings_dialog(&self, text: String) -> (r: Option<DialogEdit>)
        ensures
            match r {
                Some(e) => self@.dialog matches Some(d) && e.chat == d.chat && e.message
                    == d.message && e.text == text,
                None => self@.dialog is None,
            },
    {
        match self.active_settings_dialog {
            Some(d) => Some(DialogEdit { chat: d.chat, message: d.message, text }),
            None => None,
        }
    }

    /// Asks to close the settings dialog: the returned edit replaces
    /// the dialog message with the closing summary rendered from the
    /// current settings; `None` when no dialog is open. The dialog
    /// itself stays open until the edit has been carried out on the
    /// transport and [`Conversation::confirm_settings_dialog_closed`]
    /// follows, so a failed edit leaves the conversation unaffected.
    /// The embedding program runs this pair for every ordinary inbound
    /// message before the message is processed further, so an open
    /// dialog never goes stale against fresh history.
    pub fn deactivate_settings_dialog(&self) -> (r: Option<DialogEdit>)
        requires
            self.wf(),
        ensures
            match r {
                Some(e) => self@.dialog matches Some(d) && e.chat == d.chat && e.message
                    == d.message && e.text@ == spec_done_text(self@.settings),
                None => self@.dialog is None,
            },
    {
        match self.active_settings_dialog {
            Some(dr) => Some(
                DialogEdit {
                    chat: dr.chat,
                    message: dr.message,
                    text: self.settings.get_done_text(),
                },
            ),
            None => None,
        }
    }

    /// Makes a requested close effective: the dialog is forgotten, and
    /// nothing else changes. A no-op when no dialog is open.
    pub fn confirm_settings_dialog_closed(&mut self)
        ensures
            final(self)@ == (ConversationModel { dialog: None, ..old(self)@ }),
            old(self).wf() ==> final(self).wf(),
    {
        self.active_settings_dialog = None;
    }

    /// Moves the open dialog to the temperature editor screen; the
    /// returned edit shows the editor heading with the current value.
    /// `None` reports a closed dialog, and nothing changes.
    pub fn enter_temperature_editor(&mut self) -> (r: Option<DialogEdit>)
        requires
            old(self).wf(),
        ensures
            final(self).wf(),
            match old(self)@.dialog {
                Some(d) => final(self)@ == (ConversationModel {
                    dialog: Some(DialogRef { screen: Screen::TemperatureEditor, ..d }),
                    ..old(self)@
                }) && (match r {
                    Some(e) => e.chat == d.chat && e.message == d.message && e.text@
                        == spec_temperature_editor_text(old(self)@.settings.temperature_tenths),
                    None => false,
                }),
                None => final(self)@ == old(self)@ && r is None,
            },
    {
        match self.active_settings_dialog {
            Some(d) => {
                self.active_settings_dialog = Some(
                    DialogRef { screen: Screen::TemperatureEditor, ..d },
                );
                Some(
                    DialogEdit {
                        chat: d.chat,
                        message: d.message,
                        text: crate::dialog::get_temperature_editor_dialog_text(
                            self.settings.temperature_tenths,
                        ),
                    },
                )
            },
            None => None,
        }
    }

    /// Returns the open dialog to the main screen; the returned edit
    /// shows the settings heading again. `None` reports a closed dialog,
    /// and nothing changes.
    pub fn leave_temperature_editor(&mut self) -> (r: Option<DialogEdit>)
        requires
            old(self).wf(),
        ensures
            final(self).wf(),
            match old(self)@.dialog {
                Some(d) => final(self)@ == (ConversationModel {
                    dialog: Some(DialogRef { screen: Screen::Main, ..d }),
                    ..old(self)@
                }) && (match r {
                    Some(e) => e.chat == d.chat && e.message == d.message && e.text@
                        == "Editing settings"@,
                    None => false,
                }),
                None => final(self)@ == old(self)@ && r is None,
            },
    {
        match self.active_settings_dialog {
            Some(d) => {
                self.active_settings_dialog = Some(DialogRef { screen: Screen::Main, ..d });
                Some(
                    DialogEdit {
                        chat: d.chat,
                        message: d.message,
                        text: self.settings.get_message_text(),
                    },
                )
            },
            None => None,
        }
    }

    /// Asks that the next plain message of this chat be consumed as the
    /// new value of `kind` instead of becoming conversation content.
    pub fn begin_free_text_capture(&mut self, kind: SettingKind)
        ensures
            final(self)@ == (ConversationModel { pending_input: Some(kind), ..old(self)@ }),
            old(self).wf() ==> final(self).wf(),
    {
        self.awaiting_free_text_for = Some(kind);
    }

    /// Offers a plain inbound message to the pending capture. When one
    /// is pending the text is consumed as the captured setting's new
    /// value — the assistant's display name, or the comma-separated stop
    /// tokens — the capture ends, and `true` comes back; the message is
    /// then not conversation content. With no capture pending nothing
    /// changes and `false` comes back.
    pub fn offer_free_text(&mut self, text: &str) -> (r: bool)
        ensures
            r == (old(self)@.pending_input is Some),
            old(self).wf() ==> final(self).wf(),
            match old(self)@.pending_input {
                None => final(self)@ == old(self)@,
                Some(SettingKind::BotName) => final(self)@ == (ConversationModel {
                    pending_input: None,
                    settings: SettingsModel { bot_name: text@, ..old(self)@.settings },
                    ..old(self)@
                }),
                Some(SettingKind::StopTokens) => final(self)@ == (ConversationModel {
                    pending_input: None,
                    settings: SettingsModel {
                        stop_tokens: spec_split_commas(text@),
                        ..old(self)@.settings
                    },
                    ..old(self)@
                }),
            },
    {
        match self.awaiting_free_text_for {
            None => false,
            Some(SettingKind::BotName) => {
                self.awaiting_free_text_for = None;
                self.settings.set_bot_name(text.to_owned());
                true
            },
            Some(SettingKind::StopTokens) => {
                self.awaiting_free_text_for = None;
                self.settings.set_stop_tokens(split_commas(text));
                true
            },
        }
    }
}

} // verus!

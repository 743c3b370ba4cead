//! Framework-agnostic UI state and its reducer: frontends feed [`UiEvent`]s
//! and execute the resulting [`Effect`]s.
use vstd::prelude::*;

use crate::conversation::ConversationId;
use crate::message::{ChatMessage, MessageRole};
use crate::text::{concat, push_str, string_from_chars, trim_seq, trim_str};
use crate::voice::VoiceState;

verus! {

/// One row of the conversation sidebar.
#[derive(Debug)]
pub struct ConversationSummary {
    pub id: ConversationId,
    pub title: String,
    pub updated: String,
    /// Whole days since last update (local time), for history grouping.
    pub updated_days_ago: i64,
}

impl Clone for ConversationSummary {
    fn clone(&self) -> (r: Self)
        ensures
            r == *self,
    {
        ConversationSummary {
            id: self.id,
            title: self.title.clone(),
            updated: self.updated.clone(),
            updated_days_ago: self.updated_days_ago,
        }
    }
}

/// Live view of the open conversation, including in-flight streaming text.
#[derive(Debug, Clone)]
pub struct ChatView {
    pub messages: Vec<ChatMessage>,
    pub streaming_text: String,
    pub generating: bool,
    pub last_error: Option<String>,
}

impl ChatView {
    /// The empty chat: no messages, no stream, no error.
    pub open spec fn is_empty_view(&self) -> bool {
        &&& self.messages@.len() == 0
        &&& self.streaming_text@.len() == 0
        &&& !self.generating
        &&& self.last_error is None
    }

    /// All messages plus the current partial response, for rendering.
    pub fn visible_messages(&self) -> (r: Vec<ChatMessage>)
        ensures
            r@.len() == self.messages@.len() + if self.streaming_text@.len() == 0 {
                0int
            } else {
                1int
            },
            forall|k: int| 0 <= k < self.messages@.len() ==> (#[trigger] r@[k]).same_as(self.messages@[k]),
            self.streaming_text@.len() != 0 ==> r@.last().is_plain(
                MessageRole::Assistant,
                self.streaming_text@,
            ),
    {
        let mut out: Vec<ChatMessage> = Vec::new();
        let mut i: usize = 0;
        while i < self.messages.len()
            invariant
                i <= self.messages@.len(),
                out@.len() == i,
                forall|k: int| 0 <= k < i ==> (#[trigger] out@[k]).same_as(self.messages@[k]),
            decreases self.messages.len() - i,
        {
            out.push(self.messages[i].clone());
            i = i + 1;
        }
        if !self.streaming_text.as_str().is_empty() {
            out.push(ChatMessage::assistant(self.streaming_text.clone()));
        }
        out
    }
}

impl Default for ChatView {
    fn default() -> (r: Self)
        ensures
            r.is_empty_view(),
    {
        ChatView {
            messages: Vec::new(),
            streaming_text: String::new(),
            generating: false,
            last_error: None,
        }
    }
}

/// One row of the provider list (status only — never secrets).
#[derive(Debug, Clone)]
pub struct ProviderRow {
    pub name: String,
    pub status: String,
    pub models: Vec<String>,
}

/// Provider/model selection state for the settings panel. The
/// temperature is held as the bit pattern of its `f32` value.
#[derive(Debug, Clone)]
pub struct SettingsView {
    pub providers: Vec<ProviderRow>,
    pub selected_provider: String,
    pub model: String,
    pub temperature_bits: u32,
    pub max_tokens: u32,
}

impl Default for SettingsView {
    fn default() -> (r: Self)
        ensures
            r.providers@.len() == 0,
            r.selected_provider@.len() == 0,
            r.model@.len() == 0,
            r.temperature_bits == 0,
            r.max_tokens == 0,
    {
        SettingsView {
            providers: Vec::new(),
            selected_provider: String::new(),
            model: String::new(),
            temperature_bits: 0,
            max_tokens: 0,
        }
    }
}

/// Whole application state. The [`App`] reducer mutates this.
#[derive(Debug)]
pub struct AppState {
    pub conversations: Vec<ConversationSummary>,
    pub active_id: Option<ConversationId>,
    pub chat: ChatView,
    pub input: String,
    pub voice: VoiceState,
    pub voice_enabled: bool,
    pub settings_open: bool,
    pub settings: SettingsView,
    pub tools: Vec<String>,
}

impl Default for AppState {
    fn default() -> (r: Self)
        ensures
            r.conversations@.len() == 0,
            r.active_id is None,
            r.chat.is_empty_view(),
            r.input@.len() == 0,
            r.voice == VoiceState::Idle,
            !r.voice_enabled,
            !r.settings_open,
            r.settings.providers@.len() == 0,
            r.settings.selected_provider@.len() == 0,
            r.settings.model@.len() == 0,
            r.settings.temperature_bits == 0,
            r.settings.max_tokens == 0,
            r.tools@.len() == 0,
    {
        AppState {
            conversations: Vec::new(),
            active_id: None,
            chat: ChatView::default(),
            input: String::new(),
            voice: VoiceState::Idle,
            voice_enabled: false,
            settings_open: false,
            settings: SettingsView::default(),
            tools: Vec::new(),
        }
    }
}

/// Title shown for the open conversation: the title of the first sidebar
/// row with the active id, otherwise the placeholder title.
pub open spec fn active_title_view(state: AppState) -> Seq<char> {
    match state.active_id {
        Some(id) => if exists|k: int|
            0 <= k < state.conversations@.len() && state.conversations@[k].id == id {
            let k = choose|k: int|
                0 <= k < state.conversations@.len() && state.conversations@[k].id == id && forall|
                    j: int,
                | 0 <= j < k ==> state.conversations@[j].id != id;
            state.conversations@[k].title@
        } else {
            "Nouvelle conversation"@
        },
        None => "Nouvelle conversation"@,
    }
}

impl AppState {
    pub fn active_title(&self) -> (r: &str)
        ensures
            r@ == active_title_view(*self),
    {
        match self.active_id {
            Some(id) => {
                let mut i: usize = 0;
                while i < self.conversations.len()
                    invariant
                        i <= self.conversations@.len(),
                        self.active_id == Some(id),
                        forall|j: int| 0 <= j < i ==> self.conversations@[j].id != id,
                    decreases self.conversations.len() - i,
                {
                    if self.conversations[i].id == id {
                        proof {
                            let k = choose|k: int|
                                0 <= k < self.conversations@.len() && self.conversations@[k].id
                                    == id && forall|j: int|
                                    0 <= j < k ==> self.conversations@[j].id != id;
                            assert(0 <= i < self.conversations@.len() && self.conversations@[i as int].id
                                == id && forall|j: int|
                                0 <= j < i ==> self.conversations@[j].id != id);
                            if k < i {
                                assert(self.conversations@[k].id != id);
                            }
                            if i < k {
                                assert(self.conversations@[i as int].id != id);
                            }
                        }
                        return self.conversations[i].title.as_str();
                    }
                    i = i + 1;
                }
                "Nouvelle conversation"
            },
            None => "Nouvelle conversation",
        }
    }
}

/// Events the frontend forwards to the state machine.
#[derive(Debug, Clone)]
pub enum UiEvent {
    NewConversation,
    SelectConversation(ConversationId),
    InputChanged(String),
    SendMessage,
    StreamChunk(String),
    StreamDone { content: String },
    StreamError(String),
    StopRequested,
    ToggleVoice,
    VoiceStateChanged(VoiceState),
    ToggleSettings,
    SelectProvider(String),
    SetModel(String),
    ConversationsLoaded(Vec<ConversationSummary>),
    ConversationOpened { id: ConversationId, messages: Vec<ChatMessage> },
    ToolCallStarted { name: String },
}

/// Side effects the frontend must execute (I/O lives outside the reducer).
#[derive(Debug, Clone, PartialEq)]
pub enum Effect {
    SendToAssistant(String),
    CancelGeneration,
    StartListening,
    StopVoice,
    PersistSettings,
    NoEffect,
}

/// Everything outside the chat, the input and the active id is unchanged.
pub open spec fn keeps_rest(o: AppState, n: AppState) -> bool {
    &&& n.conversations == o.conversations
    &&& n.voice == o.voice
    &&& n.voice_enabled == o.voice_enabled
    &&& n.settings_open == o.settings_open
    &&& n.settings == o.settings
    &&& n.tools == o.tools
}

/// Only the chat view changed.
pub open spec fn only_chat_changed(o: AppState, n: AppState) -> bool {
    &&& keeps_rest(o, n)
    &&& n.active_id == o.active_id
    &&& n.input == o.input
}

/// Only the chat's messages are unchanged besides the rest.
pub open spec fn chat_messages_kept(o: AppState, n: AppState) -> bool {
    n.chat.messages == o.chat.messages
}

/// Text shown in the stream when a tool starts.
pub open spec fn tool_notice(name: Seq<char>) -> Seq<char> {
    "\n⚙️ Exécution de l'outil « "@ + name + " »…\n"@
}

/// The reducer's contract: the new state and effect for each event.
pub open spec fn reduces(o: AppState, event: UiEvent, n: AppState, effect: Effect) -> bool {
    match event {
        UiEvent::NewConversation => keeps_rest(o, n) && n.active_id is None && n.chat.is_empty_view()
            && n.input@.len() == 0 && effect is NoEffect,
        UiEvent::SelectConversation(id) => keeps_rest(o, n) && n.active_id == Some(id)
            && n.chat.is_empty_view() && n.input == o.input && effect is NoEffect,
        UiEvent::InputChanged(text) => keeps_rest(o, n) && n.active_id == o.active_id && n.chat
            == o.chat && n.input == text && effect is NoEffect,
        UiEvent::SendMessage => {
            let text = trim_seq(o.input@);
            if text.len() == 0 || o.chat.generating {
                n == o && effect is NoEffect
            } else {
                &&& keeps_rest(o, n)
                &&& n.active_id == o.active_id
                &&& n.input@.len() == 0
                &&& n.chat.messages@.len() == o.chat.messages@.len() + 1
                &&& n.chat.messages@.drop_last() == o.chat.messages@
                &&& n.chat.messages@.last().is_plain(MessageRole::User, text)
                &&& n.chat.streaming_text@.len() == 0
                &&& n.chat.generating
                &&& n.chat.last_error is None
                &&& effect matches Effect::SendToAssistant(t) && t@ == text
            }
        },
        UiEvent::StreamChunk(delta) => only_chat_changed(o, n) && chat_messages_kept(o, n)
            && n.chat.streaming_text@ == o.chat.streaming_text@ + delta@ && n.chat.generating
            == o.chat.generating && n.chat.last_error == o.chat.last_error && effect is NoEffect,
        UiEvent::StreamDone { content } => {
            &&& only_chat_changed(o, n)
            &&& n.chat.streaming_text@.len() == 0
            &&& !n.chat.generating
            &&& n.chat.last_error == o.chat.last_error
            &&& (if content@.len() == 0 {
                n.chat.messages == o.chat.messages
            } else {
                &&& n.chat.messages@.len() == o.chat.messages@.len() + 1
                &&& n.chat.messages@.drop_last() == o.chat.messages@
                &&& n.chat.messages@.last().is_plain(MessageRole::Assistant, content@)
            })
            &&& effect is NoEffect
        },
        UiEvent::StreamError(message) => only_chat_changed(o, n) && chat_messages_kept(o, n)
            && !n.chat.generating && n.chat.streaming_text@.len() == 0 && n.chat.last_error
            == Some(message) && effect is NoEffect,
        UiEvent::StopRequested => only_chat_changed(o, n) && chat_messages_kept(o, n)
            && !n.chat.generating && n.chat.streaming_text == o.chat.streaming_text
            && n.chat.last_error == o.chat.last_error && effect is CancelGeneration,
        UiEvent::ToggleVoice => {
            &&& n.conversations == o.conversations && n.active_id == o.active_id && n.chat
                == o.chat && n.input == o.input
            &&& n.voice_enabled == o.voice_enabled && n.settings_open == o.settings_open
                && n.settings == o.settings && n.tools == o.tools
            &&& if o.voice == VoiceState::Idle {
                n.voice == VoiceState::Listening && effect is StartListening
            } else {
                n.voice == VoiceState::Idle && effect is StopVoice
            }
        },
        UiEvent::VoiceStateChanged(s) => n == (AppState { voice: s, ..o }) && effect is NoEffect,
        UiEvent::ToggleSettings => n == (AppState { settings_open: !o.settings_open, ..o })
            && effect is NoEffect,
        UiEvent::SelectProvider(name) => n == (AppState {
            settings: SettingsView { selected_provider: name, ..o.settings },
            ..o
        }) && effect is PersistSettings,
        UiEvent::SetModel(model) => n == (AppState {
            settings: SettingsView { model: model, ..o.settings },
            ..o
        }) && effect is PersistSettings,
        UiEvent::ConversationsLoaded(list) => n == (AppState { conversations: list, ..o })
            && effect is NoEffect,
        UiEvent::ConversationOpened { id, messages } => {
            &&& keeps_rest(o, n)
            &&& n.input == o.input
            &&& n.active_id == Some(id)
            &&& n.chat.messages == messages
            &&& n.chat.streaming_text@.len() == 0
            &&& !n.chat.generating
            &&& n.chat.last_error == o.chat.last_error
            &&& effect is NoEffect
        },
        UiEvent::ToolCallStarted { name } => only_chat_changed(o, n) && chat_messages_kept(o, n)
            && n.chat.streaming_text@ == o.chat.streaming_text@ + tool_notice(name@)
            && n.chat.generating == o.chat.generating && n.chat.last_error == o.chat.last_error
            && effect is NoEffect,
    }
}

/// Pure state machine over [`AppState`].
#[derive(Debug)]
pub struct App {
    state: AppState,
}

impl App {
    pub closed spec fn view_state(&self) -> AppState {
        self.state
    }

    /// A fresh application state.
    pub fn new() -> (r: Self)
        ensures
            r.view_state().conversations@.len() == 0,
            r.view_state().active_id is None,
            r.view_state().chat.is_empty_view(),
            r.view_state().input@.len() == 0,
            r.view_state().voice == VoiceState::Idle,
            !r.view_state().voice_enabled,
            !r.view_state().settings_open,
            r.view_state().settings.providers@.len() == 0,
            r.view_state().settings.selected_provider@.len() == 0,
            r.view_state().settings.model@.len() == 0,
            r.view_state().settings.temperature_bits == 0,
            r.view_state().settings.max_tokens == 0,
            r.view_state().tools@.len() == 0,
    {
        App { state: AppState::default() }
    }

    pub fn state(&self) -> (r: &AppState)
        ensures
            *r == self.view_state(),
    {
        &self.state
    }

    /// Applies one event and returns the effect to perform.
    pub fn update(&mut self, event: UiEvent) -> (effect: Effect)
        ensures
            reduces(old(self).view_state(), event, final(self).view_state(), effect),
    {
        match event {
            UiEvent::NewConversation => {
                self.state.active_id = None;
                self.state.chat = ChatView::default();
                self.state.input = String::new();
                Effect::NoEffect
            },
            UiEvent::SelectConversation(id) => {
                self.state.active_id = Some(id);
                self.state.chat = ChatView::default();
                Effect::NoEffect
            },
            UiEvent::InputChanged(text) => {
                self.state.input = text;
                Effect::NoEffect
            },
            UiEvent::SendMessage => {
                let text = trim_str(self.state.input.as_str());
                if text.as_str().is_empty() || self.state.chat.generating {
                    return Effect::NoEffect;
                }
                self.state.input = String::new();
                let ghost before = self.state.chat.messages@;
                self.state.chat.messages.push(ChatMessage::user(text.clone()));
                assert(self.state.chat.messages@.drop_last() =~= before);
                self.state.chat.streaming_text = String::new();
                self.state.chat.generating = true;
                self.state.chat.last_error = None;
                Effect::SendToAssistant(text)
            },
            UiEvent::StreamChunk(delta) => {
                self.state.chat.streaming_text = concat(
                    self.state.chat.streaming_text.as_str(),
                    delta.as_str(),
                );
                Effect::NoEffect
            },
            UiEvent::StreamDone { content } => {
                self.state.chat.streaming_text = String::new();
                if !content.as_str().is_empty() {
                    let ghost before = self.state.chat.messages@;
                    self.state.chat.messages.push(ChatMessage::assistant(content));
                    assert(self.state.chat.messages@.drop_last() =~= before);
                }
                self.state.chat.generating = false;
                Effect::NoEffect
            },
            UiEvent::StreamError(message) => {
                self.state.chat.generating = false;
                self.state.chat.streaming_text = String::new();
                self.state.chat.last_error = Some(message);
                Effect::NoEffect
            },
            UiEvent::StopRequested => {
                self.state.chat.generating = false;
                Effect::CancelGeneration
            },
            UiEvent::ToggleVoice => {
                if self.state.voice == VoiceState::Idle {
                    self.state.voice = VoiceState::Listening;
                    Effect::StartListening
                } else {
                    self.state.voice = VoiceState::Idle;
                    Effect::StopVoice
                }
            },
            UiEvent::VoiceStateChanged(s) => {
                self.state.voice = s;
                Effect::NoEffect
            },
            UiEvent::ToggleSettings => {
                self.state.settings_open = !self.state.settings_open;
                Effect::NoEffect
            },
            UiEvent::SelectProvider(name) => {
                self.state.settings.selected_provider = name;
                Effect::PersistSettings
            },
            UiEvent::SetModel(model) => {
                self.state.settings.model = model;
                Effect::PersistSettings
            },
            UiEvent::ConversationsLoaded(list) => {
                self.state.conversations = list;
                Effect::NoEffect
            },
            UiEvent::ConversationOpened { id, messages } => {
                self.state.active_id = Some(id);
                self.state.chat.messages = messages;
                self.state.chat.streaming_text = String::new();
                self.state.chat.generating = false;
                Effect::NoEffect
            },
            UiEvent::ToolCallStarted { name } => {
                let mut text: Vec<char> = crate::text::chars_of(
                    self.state.chat.streaming_text.as_str(),
                );
                push_str(&mut text, "\n⚙️ Exécution de l'outil « ");
                push_str(&mut text, name.as_str());
                push_str(&mut text, " »…\n");
                assert(text@ =~= self.state.chat.streaming_text@ + tool_notice(name@));
                self.state.chat.streaming_text = string_from_chars(&text);
                Effect::NoEffect
            },
        }
    }
}

/// A message is sent only when the trimmed input is non-empty and no
/// answer is being generated; sending always starts a generation, and a
/// second send during it changes nothing.
pub proof fn law_no_send_while_generating(o: AppState, n: AppState, effect: Effect)
    requires
        reduces(o, UiEvent::SendMessage, n, effect),
    ensures
        effect is SendToAssistant ==> !o.chat.generating && n.chat.generating,
        o.chat.generating ==> n == o && effect is NoEffect,
{
}

/// A finished stream always ends the generation and clears the partial text.
pub proof fn law_stream_end_stops_generation(o: AppState, content: String, n: AppState, effect: Effect)
    requires
        reduces(o, UiEvent::StreamDone { content }, n, effect),
    ensures
        !n.chat.generating,
        n.chat.streaming_text@.len() == 0,
{
}

/// Toggling the voice twice from idle comes back to idle, through listening.
pub proof fn law_voice_toggle_cycles(
    s0: AppState,
    s1: AppState,
    e1: Effect,
    s2: AppState,
    e2: Effect,
)
    requires
        s0.voice == VoiceState::Idle,
        reduces(s0, UiEvent::ToggleVoice, s1, e1),
        reduces(s1, UiEvent::ToggleVoice, s2, e2),
    ensures
        s1.voice == VoiceState::Listening,
        e1 is StartListening,
        s2.voice == VoiceState::Idle,
        e2 is StopVoice,
{
}

} // verus!

//! The input area: what it shows, and what its buttons and keys do.

use vstd::prelude::*;

use crate::chat_state::{
    effect_views, AppView, ChatApp, ChatEffect, ChatView, PolicyView, SessionView, ToolPolicy,
};
use crate::input::{input_effects, input_error, input_handled, length_notice, MAX_MESSAGE_LENGTH};
use crate::numbers::decimal;
use crate::text::{copy_opt, is_blank, opt_text, trim, trimmed};

verus! {

/// The button beside "Send".
#[derive(Clone, Copy, Debug, PartialEq, Eq, Structural)]
pub enum RunButton {
    /// A run is going on and can be stopped.
    Stop,
    /// The session is idle with a conversation that can be continued.
    Continue,
    Nothing,
}

/// What the input area shows of the selected session.
pub struct InputBar {
    /// The notice of a text that is too long.
    pub notice: Option<String>,
    pub image_attached: bool,
    pub attach_tooltip: &'static str,
    /// The label of the agent selector.
    pub agent_label: String,
    pub run_button: RunButton,
}

/// The notice of a text that takes `len` bytes.
pub open spec fn notice_words(len: usize) -> Option<Seq<char>> {
    if len > MAX_MESSAGE_LENGTH {
        Some(
            "Message too long (max "@ + decimal(MAX_MESSAGE_LENGTH as nat)
                + " characters, current: "@ + decimal(len as nat) + ")"@,
        )
    } else {
        None
    }
}

/// The button beside "Send" in a chat.
pub open spec fn run_button_of(chat: ChatView) -> RunButton {
    if chat.is_generating {
        RunButton::Stop
    } else if chat.messages.len() > 0 {
        RunButton::Continue
    } else {
        RunButton::Nothing
    }
}

/// The label of the agent selector.
pub open spec fn agent_words(agent: Option<Seq<char>>) -> Seq<char> {
    match agent {
        Some(name) => name,
        None => "Auto"@,
    }
}

/// Whether a bar shows a session.
pub open spec fn shows(bar: InputBar, s: SessionView) -> bool {
    &&& opt_text(bar.notice) == notice_words(
        vstd::utf8::encode_utf8(s.chat.input_text).len() as usize,
    )
    &&& bar.image_attached == (s.chat.pending_image is Some)
    &&& bar.attach_tooltip@ == (if s.chat.pending_image is Some {
        "Image attached to the next message - click to replace"@
    } else {
        "Attach image (from clipboard, or pick a file)"@
    })
    &&& bar.agent_label@ == agent_words(s.selected_agent)
    &&& bar.run_button == run_button_of(s.chat)
}

/// The application with another input text in the selected session.
pub open spec fn with_input(app: AppView, text: Seq<char>) -> AppView {
    match app.selected() {
        Some(k) => app.with_chat(k, ChatView { input_text: text, ..app.sessions[k].chat }),
        None => app,
    }
}

/// The text of the input box in the selected session.
pub open spec fn input_of(app: AppView) -> Seq<char> {
    match app.selected() {
        Some(k) => app.sessions[k].chat.input_text,
        None => Seq::empty(),
    }
}

/// Whether a text in the box is sent: it holds something, a session is
/// selected, and the message is accepted.
pub open spec fn accepted(app: AppView, text: Seq<char>) -> bool {
    trim(text).len() > 0 && app.selected() is Some && input_error(trim(text)) is None
}

/// The application after "Send": an accepted message leaves the box empty.
pub open spec fn send_pressed(
    app: AppView,
    agent_prompt: Seq<char>,
    tool_policy: PolicyView,
    timestamp: Seq<char>,
) -> AppView {
    let text = trim(input_of(app));
    if text.len() == 0 {
        app
    } else {
        let sent = input_handled(app, text, agent_prompt, tool_policy, timestamp);
        if accepted(app, input_of(app)) {
            with_input(sent, Seq::empty())
        } else {
            sent
        }
    }
}

/// The application after a frame in which the box held `text`. With the
/// shortcut the text is sent. What is left in the box is kept: nothing where the
/// message was accepted.
pub open spec fn box_edited(
    app: AppView,
    text: Seq<char>,
    shortcut: bool,
    agent_prompt: Seq<char>,
    tool_policy: PolicyView,
    timestamp: Seq<char>,
) -> AppView {
    if shortcut && trim(text).len() > 0 {
        with_input(
            input_handled(app, trim(text), agent_prompt, tool_policy, timestamp),
            if accepted(app, text) {
                Seq::empty()
            } else {
                text
            },
        )
    } else {
        with_input(app, text)
    }
}

impl ChatApp {
    /// What the input area shows; nothing without a session.
    pub fn input_bar(&self) -> (r: Option<InputBar>)
        ensures
            match r {
                Some(bar) => self@.selected() matches Some(k) && shows(bar, self@.sessions[k]),
                None => self@.selected() is None,
            },
    {
        match self.find_selected() {
            Some(k) => {
                let s = &self.sessions[k];
                let image_attached = s.chat.pending_image.is_some();
                Some(
                    InputBar {
                        notice: length_notice(s.chat.input_text.as_str().len()),
                        image_attached,
                        attach_tooltip: if image_attached {
                            "Image attached to the next message - click to replace"
                        } else {
                            "Attach image (from clipboard, or pick a file)"
                        },
                        agent_label: match copy_opt(&s.selected_agent) {
                            Some(name) => name,
                            None => "Auto".to_owned(),
                        },
                        run_button: if s.chat.is_generating {
                            RunButton::Stop
                        } else if s.chat.messages.len() > 0 {
                            RunButton::Continue
                        } else {
                            RunButton::Nothing
                        },
                    },
                )
            },
            None => None,
        }
    }

    /// Put a text into the box of the selected session.
    pub fn set_input(&mut self, text: String)
        ensures
            final(self)@ == with_input(old(self)@, text@),
    {
        if let Some(k) = self.find_selected() {
            self.sessions[k].chat.input_text = text;
            assert(self@.sessions =~= old(self)@.sessions.update(k as int, self.sessions@[k as int]@));
            assert(self@ =~= old(self)@.with_chat(k as int, self.sessions@[k as int].chat@));
        }
    }

    /// The "Send" button.
    pub fn press_send(
        &mut self,
        agent_prompt: String,
        tool_policy: ToolPolicy,
        timestamp: &str,
        effects: &mut Vec<ChatEffect>,
    )
        ensures
            final(self)@ == send_pressed(
                old(self)@,
                agent_prompt@,
                tool_policy@,
                timestamp@,
            ),
            effect_views(final(effects)@) == effect_views(old(effects)@) + (if trim(
                input_of(old(self)@),
            ).len() > 0 {
                input_effects(
                    old(self)@,
                    trim(input_of(old(self)@)),
                    agent_prompt@,
                    tool_policy@,
                    timestamp@,
                )
            } else {
                Seq::empty()
            }),
    {
        let text = self.input_text_snapshot();
        let input = trimmed(text.as_str());
        if input.as_str().is_empty() {
            assert(effect_views(effects@) + Seq::empty() =~= effect_views(effects@));
            return;
        }
        if self.handle_send_input(input.as_str(), agent_prompt, tool_policy, timestamp, effects) {
            let empty = String::new();
            assert(empty@ =~= Seq::<char>::empty());
            self.set_input(empty);
        }
    }

    /// A frame of the text box: `text` is what it holds, and `shortcut` whether
    /// the keys that send it were pressed while it had the focus.
    pub fn edit_box(
        &mut self,
        text: String,
        shortcut: bool,
        agent_prompt: String,
        tool_policy: ToolPolicy,
        timestamp: &str,
        effects: &mut Vec<ChatEffect>,
    )
        ensures
            final(self)@ == box_edited(
                old(self)@,
                text@,
                shortcut,
                agent_prompt@,
                tool_policy@,
                timestamp@,
            ),
            effect_views(final(effects)@) == effect_views(old(effects)@) + (if shortcut && trim(
                text@,
            ).len() > 0 {
                input_effects(
                    old(self)@,
                    trim(text@),
                    agent_prompt@,
                    tool_policy@,
                    timestamp@,
                )
            } else {
                Seq::empty()
            }),
    {
        if shortcut && !is_blank(text.as_str()) {
            let input = trimmed(text.as_str());
            if self.handle_send_input(
                input.as_str(),
                agent_prompt,
                tool_policy,
                timestamp,
                effects,
            ) {
                let empty = String::new();
                assert(empty@ =~= Seq::<char>::empty());
                self.set_input(empty);
            } else {
                self.set_input(text);
            }
        } else {
            assert(effect_views(effects@) + Seq::empty() =~= effect_views(effects@));
            self.set_input(text);
        }
    }

    /// Choose the agent of the selected session; none stands for "Auto".
    pub fn choose_agent(&mut self, agent: Option<String>)
        ensures
            final(self)@ == (match old(self)@.selected() {
                Some(k) => old(self)@.with_session(
                    k,
                    SessionView {
                        selected_agent: opt_text(agent),
                        ..old(self)@.sessions[k]
                    },
                ),
                None => old(self)@,
            }),
    {
        if let Some(k) = self.find_selected() {
            self.sessions[k].selected_agent = agent;
            assert(self@.sessions =~= old(self)@.sessions.update(k as int, self.sessions@[k as int]@));
        }
    }
}

// ---------------------------------------------------------------------------
// Laws
// ---------------------------------------------------------------------------

/// Blank text in the box starts nothing: neither the button nor the shortcut
/// changes more than the box itself.
pub proof fn blank_text_sends_nothing(
    app: AppView,
    text: Seq<char>,
    agent_prompt: Seq<char>,
    tool_policy: PolicyView,
    timestamp: Seq<char>,
)
    requires
        trim(text).len() == 0,
    ensures
        box_edited(app, text, true, agent_prompt, tool_policy, timestamp) == with_input(app, text),
        input_of(app) == text ==> send_pressed(app, agent_prompt, tool_policy, timestamp) == app,
{
}

} // verus!

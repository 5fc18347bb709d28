//! Sending messages: validation, the queue behind a running turn, starting and
//! stopping runs.

use vstd::prelude::*;
use vstd::utf8::encode_utf8;

use crate::chat_state::{
    ask, effect_views, opt_image, queue_views, session_at, AppStatus, AppView, ChatApp, ChatEffect,
    ChatView, EffectView, ImageView, PendingImage, PolicyView, QueuedMessage, QueuedView,
    SessionView, StatusView, ToolPolicy,
};
use crate::images::{data_uri, image_data_uri, image_text, pending_image_b64};
use crate::numbers::{count_text, decimal};
use crate::text::{copy_opt, is_blank, opt_text, trim, trimmed};
use crate::types::{ChatMessage, MessageKind, MessageView};

verus! {

/// The longest message that is accepted, in bytes.
pub const MAX_MESSAGE_LENGTH: usize = 4000;

// ---------------------------------------------------------------------------
// Validation
// ---------------------------------------------------------------------------

/// What is wrong with a message, if anything.
pub open spec fn input_error(text: Seq<char>) -> Option<Seq<char>> {
    if trim(text).len() == 0 {
        Some("Message cannot be empty"@)
    } else if encode_utf8(text).len() > MAX_MESSAGE_LENGTH {
        Some("Message too long (max "@ + decimal(MAX_MESSAGE_LENGTH as nat) + " characters)"@)
    } else {
        None
    }
}

/// Check a message before it is sent: it must hold something besides white
/// space and take at most 4000 bytes.
pub fn validate_input(text: &str) -> (r: Result<(), String>)
    ensures
        match r {
            Ok(_) => input_error(text@) is None,
            Err(e) => input_error(text@) == Some(e@),
        },
{
    if is_blank(text) {
        return Err("Message cannot be empty".to_owned());
    }
    let size: usize = text.as_bytes().len();
    if size > MAX_MESSAGE_LENGTH {
        let mut e = "Message too long (max ".to_owned();
        e.append(count_text(MAX_MESSAGE_LENGTH).as_str());
        e.append(" characters)");
        return Err(e);
    }
    Ok(())
}

/// The notice above the input box where its text is too long.
pub fn length_notice(input_len: usize) -> (r: Option<String>)
    ensures
        opt_text(r) == (if input_len > MAX_MESSAGE_LENGTH {
            Some(
                "Message too long (max "@ + decimal(MAX_MESSAGE_LENGTH as nat)
                    + " characters, current: "@ + decimal(input_len as nat) + ")"@,
            )
        } else {
            None
        }),
{
    if input_len > MAX_MESSAGE_LENGTH {
        let mut m = "Message too long (max ".to_owned();
        m.append(count_text(MAX_MESSAGE_LENGTH).as_str());
        m.append(" characters, current: ");
        m.append(count_text(input_len).as_str());
        m.append(")");
        Some(m)
    } else {
        None
    }
}

// ---------------------------------------------------------------------------
// Starting a run
// ---------------------------------------------------------------------------

/// The message of the user with the given text.
pub open spec fn user_message(
    text: Seq<char>,
    timestamp: Seq<char>,
    image: Option<Seq<char>>,
) -> MessageView {
    MessageView { kind: MessageKind::Normal, role: "user"@, content: text, timestamp, image }
}

/// A run of an agent that is to be started in a session.
#[verifier::ext_equal]
pub struct RunView {
    pub text: Seq<char>,
    pub image: Option<ImageView>,
    pub agent_prompt: Seq<char>,
    pub tool_policy: PolicyView,
    /// Whether the message is shown already.
    pub already_displayed: bool,
    pub timestamp: Seq<char>,
}

/// The chat in which a run starts.
pub open spec fn chat_started(chat: ChatView, run: RunView) -> ChatView {
    ChatView {
        is_generating: true,
        pending_error: None,
        messages: if run.already_displayed {
            chat.messages
        } else {
            chat.messages.push(user_message(run.text, run.timestamp, image_text(run.image)))
        },
        ..chat
    }
}

/// The application in which a run starts.
pub open spec fn run_started(app: AppView, sid: Seq<char>, run: RunView) -> AppView {
    let next = AppView { status: StatusView::Generating, ..app };
    match app.find(sid) {
        Some(k) => next.with_chat(k, chat_started(app.sessions[k].chat, run)),
        None => next,
    }
}

/// What starting a run asks for: the old run is cancelled, and the new one
/// started where its events can be received.
pub open spec fn run_effects(app: AppView, sid: Seq<char>, run: RunView) -> Seq<EffectView> {
    match app.find(sid) {
        Some(_) => if app.event_channel {
            seq![
                EffectView::CancelPipeline { session_id: sid },
                EffectView::StartPipeline {
                    session_id: sid,
                    text: run.text,
                    agent_prompt: run.agent_prompt,
                    tool_policy: run.tool_policy,
                    image_data_uri: data_uri(image_text(run.image)),
                    n_ctx: app.remote_n_ctx,
                    reasoning_effort: app.reasoning_effort,
                },
            ]
        } else {
            seq![EffectView::CancelPipeline { session_id: sid }]
        },
        None => Seq::empty(),
    }
}

impl QueuedView {
    /// The run of a queued message, which is shown since it was queued.
    pub open spec fn run(self, timestamp: Seq<char>) -> RunView {
        RunView {
            text: self.text,
            image: self.image,
            agent_prompt: self.agent_prompt,
            tool_policy: self.tool_policy,
            already_displayed: true,
            timestamp,
        }
    }
}

/// The application after the next queued message of a session was taken up.
pub open spec fn drained(app: AppView, sid: Seq<char>, timestamp: Seq<char>) -> AppView {
    match app.find(sid) {
        Some(k) => {
            let chat = app.sessions[k].chat;
            if chat.queued_messages.len() == 0 {
                app
            } else {
                run_started(
                    app.with_chat(
                        k,
                        ChatView { queued_messages: chat.queued_messages.drop_first(), ..chat },
                    ),
                    sid,
                    chat.queued_messages[0].run(timestamp),
                )
            }
        },
        None => app,
    }
}

/// What taking up the next queued message asks for.
pub open spec fn drain_effects(app: AppView, sid: Seq<char>, timestamp: Seq<char>) -> Seq<
    EffectView,
> {
    match app.find(sid) {
        Some(k) => {
            let chat = app.sessions[k].chat;
            if chat.queued_messages.len() == 0 {
                Seq::empty()
            } else {
                run_effects(app, sid, chat.queued_messages[0].run(timestamp))
            }
        },
        None => Seq::empty(),
    }
}

/// A change of a session that keeps the ids keeps every session where it was.
pub proof fn lemma_same_ids(a: Seq<SessionView>, b: Seq<SessionView>, id: Seq<char>, from: int)
    requires
        a.len() == b.len(),
        forall|i: int| 0 <= i < a.len() ==> (#[trigger] a[i]).id == b[i].id,
    ensures
        session_at(a, id, from) == session_at(b, id, from),
    decreases a.len() - from,
{
    if 0 <= from < a.len() {
        assert(a[from].id == b[from].id);
        lemma_same_ids(a, b, id, from + 1);
    }
}

/// Putting another chat into a session keeps every session where it was.
pub proof fn lemma_with_chat(app: AppView, k: int, chat: ChatView, id: Seq<char>)
    requires
        0 <= k < app.sessions.len(),
    ensures
        app.with_chat(k, chat).find(id) == app.find(id),
{
    lemma_same_ids(app.with_chat(k, chat).sessions, app.sessions, id, 0);
}

impl ChatApp {
    /// Start a fresh pipeline run for `text` in the given session. Requests to
    /// the surroundings are added to `effects`.
    pub fn start_pipeline_for_session(
        &mut self,
        sid: &str,
        text: &str,
        image: &Option<PendingImage>,
        agent_prompt: String,
        tool_policy: ToolPolicy,
        already_displayed: bool,
        timestamp: &str,
        effects: &mut Vec<ChatEffect>,
    )
        ensures
            ({
                let run = RunView {
                    text: text@,
                    image: opt_image(*image),
                    agent_prompt: agent_prompt@,
                    tool_policy: tool_policy@,
                    already_displayed,
                    timestamp: timestamp@,
                };
                &&& final(self)@ == run_started(old(self)@, sid@, run)
                &&& effect_views(final(effects)@) == effect_views(old(effects)@) + run_effects(
                    old(self)@,
                    sid@,
                    run,
                )
            }),
    {
        let ghost run = RunView {
            text: text@,
            image: opt_image(*image),
            agent_prompt: agent_prompt@,
            tool_policy: tool_policy@,
            already_displayed,
            timestamp: timestamp@,
        };
        let ghost before = effect_views(effects@);
        let b64 = pending_image_b64(image);
        let uri = image_data_uri(&b64);
        self.status = AppStatus::Generating;
        match self.find_session(sid) {
            Some(k) => {
                let ghost chat = self.sessions@[k as int].chat@;
                let ghost others = self@;
                assert(others.find(sid@) == old(self)@.find(sid@));
                self.sessions[k].chat.is_generating = true;
                self.sessions[k].chat.pending_error = None;
                if !already_displayed {
                    let m = ChatMessage {
                        kind: MessageKind::Normal,
                        role: "user".to_owned(),
                        content: text.to_owned(),
                        timestamp: timestamp.to_owned(),
                        image: b64,
                    };
                    self.sessions[k].chat.messages.push(m);
                    assert(self.sessions@[k as int].chat@.messages =~= chat.messages.push(m@));
                }
                assert(self.sessions@[k as int].chat@ =~= chat_started(chat, run));
                assert(self@.sessions =~= others.sessions.update(
                    k as int,
                    self.sessions@[k as int]@,
                ));
                assert(self@ =~= others.with_chat(k as int, chat_started(chat, run)));
                ask(effects, ChatEffect::CancelPipeline { session_id: sid.to_owned() });
                if self.event_channel {
                    ask(
                        effects,
                        ChatEffect::StartPipeline {
                            session_id: sid.to_owned(),
                            text: text.to_owned(),
                            agent_prompt,
                            tool_policy,
                            image_data_uri: uri,
                            n_ctx: self.remote_n_ctx,
                            reasoning_effort: self.reasoning_effort,
                        },
                    );
                }
                assert(effect_views(effects@) =~= before + run_effects(old(self)@, sid@, run));
            },
            None => {
                assert(self@.find(sid@) == old(self)@.find(sid@));
                assert(effect_views(effects@) =~= before + run_effects(old(self)@, sid@, run));
            },
        }
    }

    /// After a run finished, process the next queued message (if any).
    pub fn drain_next_queued_message(
        &mut self,
        sid: &str,
        timestamp: &str,
        effects: &mut Vec<ChatEffect>,
    )
        ensures
            final(self)@ == drained(old(self)@, sid@, timestamp@),
            effect_views(final(effects)@) == effect_views(old(effects)@) + drain_effects(
                old(self)@,
                sid@,
                timestamp@,
            ),
    {
        let ghost start = self@;
        let ghost before = effect_views(effects@);
        match self.find_session(sid) {
            Some(k) => {
                let ghost chat = self.sessions@[k as int].chat@;
                if self.sessions[k].chat.queued_messages.len() == 0 {
                    assert(before + Seq::<EffectView>::empty() =~= before);
                    return;
                }
                let ghost queue = self.sessions@[k as int].chat.queued_messages@;
                let next = self.sessions[k].chat.queued_messages.remove(0);
                let ghost rest = ChatView {
                    queued_messages: chat.queued_messages.drop_first(),
                    ..chat
                };
                assert(queue_views(queue.remove(0)) =~= queue_views(queue).drop_first());
                assert(self.sessions@[k as int].chat@ =~= rest);
                assert(self@.sessions =~= start.sessions.update(
                    k as int,
                    self.sessions@[k as int]@,
                ));
                assert(self@ =~= start.with_chat(k as int, rest));
                proof {
                    lemma_with_chat(start, k as int, rest, sid@);
                }
                let QueuedMessage { text, image, agent_prompt, tool_policy } = next;
                self.start_pipeline_for_session(
                    sid,
                    text.as_str(),
                    &image,
                    agent_prompt,
                    tool_policy,
                    true,
                    timestamp,
                    effects,
                );
            },
            None => {
                assert(before + Seq::<EffectView>::empty() =~= before);
            },
        }
    }
}

// ---------------------------------------------------------------------------
// Sending
// ---------------------------------------------------------------------------

/// The chat with an error to show.
pub open spec fn with_error(app: AppView, sid: Seq<char>, e: Seq<char>) -> AppView {
    match app.find(sid) {
        Some(k) => app.with_chat(
            k,
            ChatView { pending_error: Some(e), ..app.sessions[k].chat },
        ),
        None => app,
    }
}

/// The run of a text that is sent in a session; it takes the waiting image along.
pub open spec fn typed_run(
    chat: ChatView,
    text: Seq<char>,
    agent_prompt: Seq<char>,
    tool_policy: PolicyView,
    timestamp: Seq<char>,
) -> RunView {
    RunView {
        text,
        image: chat.pending_image,
        agent_prompt,
        tool_policy,
        already_displayed: false,
        timestamp,
    }
}

/// The application after an accepted text was sent in an idle session.
pub open spec fn text_sent(
    app: AppView,
    sid: Seq<char>,
    text: Seq<char>,
    agent_prompt: Seq<char>,
    tool_policy: PolicyView,
    timestamp: Seq<char>,
) -> AppView {
    match app.find(sid) {
        Some(k) => {
            let chat = app.sessions[k].chat;
            run_started(
                app.with_chat(k, ChatView { pending_image: None, ..chat }),
                sid,
                typed_run(chat, text, agent_prompt, tool_policy, timestamp),
            )
        },
        None => app,
    }
}

/// What sending an accepted text in an idle session asks for.
pub open spec fn text_effects(
    app: AppView,
    sid: Seq<char>,
    text: Seq<char>,
    agent_prompt: Seq<char>,
    tool_policy: PolicyView,
    timestamp: Seq<char>,
) -> Seq<EffectView> {
    match app.find(sid) {
        Some(k) => run_effects(
            app,
            sid,
            typed_run(app.sessions[k].chat, text, agent_prompt, tool_policy, timestamp),
        ),
        None => Seq::empty(),
    }
}

/// The application after what stands in a session's input box was sent.
pub open spec fn sent(
    app: AppView,
    sid: Seq<char>,
    agent_prompt: Seq<char>,
    tool_policy: PolicyView,
    timestamp: Seq<char>,
) -> AppView {
    match app.find(sid) {
        Some(k) => {
            let text = trim(app.sessions[k].chat.input_text);
            match input_error(text) {
                Some(e) => with_error(app, sid, e),
                None => text_sent(app, sid, text, agent_prompt, tool_policy, timestamp),
            }
        },
        None => app,
    }
}

/// What sending the input box asks for.
pub open spec fn send_effects(
    app: AppView,
    sid: Seq<char>,
    agent_prompt: Seq<char>,
    tool_policy: PolicyView,
    timestamp: Seq<char>,
) -> Seq<EffectView> {
    match app.find(sid) {
        Some(k) => {
            let text = trim(app.sessions[k].chat.input_text);
            match input_error(text) {
                Some(_) => Seq::empty(),
                None => text_effects(app, sid, text, agent_prompt, tool_policy, timestamp),
            }
        },
        None => Seq::empty(),
    }
}

/// The chat with a message queued behind the running turn: it is shown at
/// once, and takes the waiting image along.
pub open spec fn chat_queued(
    chat: ChatView,
    input: Seq<char>,
    agent_prompt: Seq<char>,
    tool_policy: PolicyView,
    timestamp: Seq<char>,
) -> ChatView {
    ChatView {
        messages: chat.messages.push(
            user_message(input, timestamp, image_text(chat.pending_image)),
        ),
        input_text: Seq::empty(),
        queued_messages: chat.queued_messages.push(
            QueuedView { text: input, image: chat.pending_image, agent_prompt, tool_policy },
        ),
        pending_image: None,
        ..chat
    }
}

/// The notice that a message was queued as the last of `waiting`.
pub open spec fn queued_notice(waiting: nat) -> Seq<char> {
    "Queued — will run after the current task ("@ + decimal(waiting) + " waiting)"@
}

/// The application after the user sent `input`.
pub open spec fn input_handled(
    app: AppView,
    input: Seq<char>,
    agent_prompt: Seq<char>,
    tool_policy: PolicyView,
    timestamp: Seq<char>,
) -> AppView {
    match app.selected_session_id {
        Some(sid) => match input_error(input) {
            Some(e) => with_error(app, sid, e),
            None => match app.find(sid) {
                Some(k) => if app.sessions[k].chat.is_generating {
                    app.with_chat(
                        k,
                        chat_queued(
                            app.sessions[k].chat,
                            input,
                            agent_prompt,
                            tool_policy,
                            timestamp,
                        ),
                    )
                } else {
                    text_sent(app, sid, trim(input), agent_prompt, tool_policy, timestamp)
                },
                None => app,
            },
        },
        None => app,
    }
}

/// What the user's sending of `input` asks for.
pub open spec fn input_effects(
    app: AppView,
    input: Seq<char>,
    agent_prompt: Seq<char>,
    tool_policy: PolicyView,
    timestamp: Seq<char>,
) -> Seq<EffectView> {
    match app.selected_session_id {
        Some(sid) => match input_error(input) {
            Some(_) => Seq::empty(),
            None => match app.find(sid) {
                Some(k) => if app.sessions[k].chat.is_generating {
                    seq![
                        EffectView::Notify {
                            session_id: sid,
                            text: queued_notice(app.sessions[k].chat.queued_messages.len() + 1),
                            success: true,
                        },
                    ]
                } else {
                    text_effects(app, sid, trim(input), agent_prompt, tool_policy, timestamp)
                },
                None => Seq::empty(),
            },
        },
        None => Seq::empty(),
    }
}

fn queued_text(waiting: usize) -> (r: String)
    ensures
        r@ == queued_notice(waiting as nat),
{
    let mut m = "Queued — will run after the current task (".to_owned();
    m.append(count_text(waiting).as_str());
    m.append(" waiting)");
    m
}

impl ChatApp {
    fn show_error(&mut self, sid: &str, e: String)
        ensures
            final(self)@ == with_error(old(self)@, sid@, e@),
    {
        if let Some(k) = self.find_session(sid) {
            let ghost start = self@;
            self.sessions[k].chat.pending_error = Some(e);
            assert(self@.sessions =~= start.sessions.update(k as int, self.sessions@[k as int]@));
            assert(self@ =~= start.with_chat(k as int, self.sessions@[k as int].chat@));
        }
    }

    /// Send an accepted text in an idle session.
    fn send_text(
        &mut self,
        sid: &str,
        text: &str,
        agent_prompt: String,
        tool_policy: ToolPolicy,
        timestamp: &str,
        effects: &mut Vec<ChatEffect>,
    )
        ensures
            final(self)@ == text_sent(
                old(self)@,
                sid@,
                text@,
                agent_prompt@,
                tool_policy@,
                timestamp@,
            ),
            effect_views(final(effects)@) == effect_views(old(effects)@) + text_effects(
                old(self)@,
                sid@,
                text@,
                agent_prompt@,
                tool_policy@,
                timestamp@,
            ),
    {
        let ghost start = self@;
        let ghost before = effect_views(effects@);
        match self.find_session(sid) {
            Some(k) => {
                let ghost chat = self.sessions@[k as int].chat@;
                let image = self.sessions[k].chat.pending_image.take();
                let ghost taken = ChatView { pending_image: None, ..chat };
                assert(self.sessions@[k as int].chat@ =~= taken);
                assert(self@.sessions =~= start.sessions.update(
                    k as int,
                    self.sessions@[k as int]@,
                ));
                assert(self@ =~= start.with_chat(k as int, taken));
                proof {
                    lemma_with_chat(start, k as int, taken, sid@);
                }
                self.start_pipeline_for_session(
                    sid,
                    text,
                    &image,
                    agent_prompt,
                    tool_policy,
                    false,
                    timestamp,
                    effects,
                );
            },
            None => {
                assert(before + Seq::<EffectView>::empty() =~= before);
            },
        }
    }

    /// Send what stands in the session's input box.
    pub fn send_message_to_session(
        &mut self,
        sid: &str,
        agent_prompt: String,
        tool_policy: ToolPolicy,
        timestamp: &str,
        effects: &mut Vec<ChatEffect>,
    )
        ensures
            final(self)@ == sent(old(self)@, sid@, agent_prompt@, tool_policy@, timestamp@),
            effect_views(final(effects)@) == effect_views(old(effects)@) + send_effects(
                old(self)@,
                sid@,
                agent_prompt@,
                tool_policy@,
                timestamp@,
            ),
    {
        let ghost before = effect_views(effects@);
        match self.find_session(sid) {
            Some(k) => {
                let input = trimmed(self.sessions[k].chat.input_text.as_str());
                match validate_input(input.as_str()) {
                    Err(e) => {
                        self.show_error(sid, e);
                        assert(before + Seq::<EffectView>::empty() =~= before);
                    },
                    Ok(_) => {
                        self.send_text(
                            sid,
                            input.as_str(),
                            agent_prompt,
                            tool_policy,
                            timestamp,
                            effects,
                        );
                    },
                }
            },
            None => {
                assert(before + Seq::<EffectView>::empty() =~= before);
            },
        }
    }

    /// Attempt to send `input` as a new user message: immediately when the
    /// session is idle, or queued behind the running turn while generating.
    /// `agent_prompt` and `tool_policy` are those of the session's agent.
    /// Returns `true` when the message was accepted (so callers can clear
    /// the input box), `false` when validation failed or nothing happened.
    /// Space at the ends of a message that is sent at once is dropped.
    pub fn handle_send_input(
        &mut self,
        input: &str,
        agent_prompt: String,
        tool_policy: ToolPolicy,
        timestamp: &str,
        effects: &mut Vec<ChatEffect>,
    ) -> (r: bool)
        ensures
            r == (old(self)@.selected() is Some && input_error(input@) is None),
            final(self)@ == input_handled(
                old(self)@,
                input@,
                agent_prompt@,
                tool_policy@,
                timestamp@,
            ),
            effect_views(final(effects)@) == effect_views(old(effects)@) + input_effects(
                old(self)@,
                input@,
                agent_prompt@,
                tool_policy@,
                timestamp@,
            ),
    {
        let ghost start = self@;
        let ghost before = effect_views(effects@);
        assert(before + Seq::<EffectView>::empty() =~= before);
        let sid = match copy_opt(&self.selected_session_id) {
            Some(sid) => sid,
            None => return false,
        };
        if let Err(e) = validate_input(input) {
            self.show_error(sid.as_str(), e);
            return false;
        }
        match self.find_session(sid.as_str()) {
            Some(k) => {
                let ghost chat = self.sessions@[k as int].chat@;
                if self.sessions[k].chat.is_generating {
                    let image = self.sessions[k].chat.pending_image.take();
                    let m = ChatMessage {
                        kind: MessageKind::Normal,
                        role: "user".to_owned(),
                        content: input.to_owned(),
                        timestamp: timestamp.to_owned(),
                        image: pending_image_b64(&image),
                    };
                    self.sessions[k].chat.messages.push(m);
                    assert(self.sessions@[k as int].chat@.messages =~= chat.messages.push(m@));
                    self.sessions[k].chat.input_text = String::new();
                    let q = QueuedMessage {
                        text: input.to_owned(),
                        image,
                        agent_prompt,
                        tool_policy,
                    };
                    self.sessions[k].chat.queued_messages.push(q);
                    assert(self.sessions@[k as int].chat@.queued_messages
                        =~= chat.queued_messages.push(q@));
                    let waiting: usize = self.sessions[k].chat.queued_messages.len();
                    let ghost now = chat_queued(
                        chat,
                        input@,
                        agent_prompt@,
                        tool_policy@,
                        timestamp@,
                    );
                    assert(self.sessions@[k as int].chat@ =~= now);
                    assert(self@.sessions =~= start.sessions.update(
                        k as int,
                        self.sessions@[k as int]@,
                    ));
                    assert(self@ =~= start.with_chat(k as int, now));
                    ask(
                        effects,
                        ChatEffect::Notify {
                            session_id: sid,
                            text: queued_text(waiting),
                            success: true,
                        },
                    );
                    assert(effect_views(effects@) =~= before + input_effects(
                        start,
                        input@,
                        agent_prompt@,
                        tool_policy@,
                        timestamp@,
                    ));
                } else {
                    self.send_text(
                        sid.as_str(),
                        trimmed(input).as_str(),
                        agent_prompt,
                        tool_policy,
                        timestamp,
                        effects,
                    );
                }
                true
            },
            None => false,
        }
    }

    /// Continue the current session's conversation with an explicit resume
    /// note; nothing happens while a run is in progress.
    pub fn continue_generation_note(
        &mut self,
        note: &str,
        agent_prompt: String,
        tool_policy: ToolPolicy,
        timestamp: &str,
        effects: &mut Vec<ChatEffect>,
    )
        ensures
            ({
                let run = RunView {
                    text: note@,
                    image: None,
                    agent_prompt: agent_prompt@,
                    tool_policy: tool_policy@,
                    already_displayed: false,
                    timestamp: timestamp@,
                };
                match old(self)@.selected_session_id {
                    Some(sid) => if old(self)@.selected() matches Some(k) && old(
                        self,
                    )@.sessions[k].chat.is_generating {
                        final(self)@ == old(self)@ && effect_views(final(effects)@)
                            == effect_views(old(effects)@)
                    } else {
                        final(self)@ == run_started(old(self)@, sid, run) && effect_views(
                            final(effects)@,
                        ) == effect_views(old(effects)@) + run_effects(old(self)@, sid, run)
                    },
                    None => final(self)@ == old(self)@ && effect_views(final(effects)@)
                        == effect_views(old(effects)@),
                }
            }),
    {
        let sid = match copy_opt(&self.selected_session_id) {
            Some(sid) => sid,
            None => return,
        };
        if let Some(k) = self.find_session(sid.as_str()) {
            if self.sessions[k].chat.is_generating {
                return;
            }
        }
        self.start_pipeline_for_session(
            sid.as_str(),
            note,
            &None,
            agent_prompt,
            tool_policy,
            false,
            timestamp,
            effects,
        );
    }

    /// Snapshot the selected session's input text (empty string if no session).
    pub fn input_text_snapshot(&self) -> (r: String)
        ensures
            r@ == (match self@.selected() {
                Some(k) => self@.sessions[k].chat.input_text,
                None => Seq::empty(),
            }),
    {
        match self.find_selected() {
            Some(k) => self.sessions[k].chat.input_text.clone(),
            None => String::new(),
        }
    }
}

/// The note with which a conversation is continued.
pub fn continue_note() -> (r: &'static str)
    ensures
        r@ == "Continue from where you left off."@,
{
    "Continue from where you left off."
}

// ---------------------------------------------------------------------------
// Ending a run
// ---------------------------------------------------------------------------

/// The application after the user stopped the selected session's run.
pub open spec fn stopped(app: AppView) -> AppView {
    match app.selected() {
        Some(k) => app.with_chat(
            k,
            ChatView { is_generating: false, pending_error: None, ..app.sessions[k].chat },
        ),
        None => app,
    }
}

/// What stopping asks for: the run is cancelled, what it streamed is kept, and
/// the session is saved.
pub open spec fn stop_effects(app: AppView) -> Seq<EffectView> {
    match app.selected_session_id {
        Some(sid) => match app.find(sid) {
            Some(_) => seq![
                EffectView::CancelPipeline { session_id: sid },
                EffectView::CommitStream { session_id: sid },
                EffectView::SaveSession { session_id: sid },
            ],
            None => seq![EffectView::SaveSession { session_id: sid }],
        },
        None => Seq::empty(),
    }
}

/// The application after a run was found finished that never said so.
pub open spec fn finalized(app: AppView, sid: Seq<char>) -> AppView {
    let next = match app.find(sid) {
        Some(k) => app.with_chat(
            k,
            ChatView {
                is_generating: false,
                current_thinking: Seq::empty(),
                status: StatusView::Ready,
                ..app.sessions[k].chat
            },
        ),
        None => app,
    };
    AppView {
        status: if app.is_selected(sid) {
            StatusView::Ready
        } else {
            app.status
        },
        ..next
    }
}

/// What is asked for when a run is found finished, apart from the queue.
pub open spec fn finalize_effects(app: AppView, sid: Seq<char>) -> Seq<EffectView> {
    match app.find(sid) {
        Some(_) => seq![
            EffectView::CommitStream { session_id: sid },
            EffectView::RefreshTokenGauge { session_id: sid, n_ctx: app.remote_n_ctx },
            EffectView::SaveSession { session_id: sid },
        ],
        None => seq![EffectView::SaveSession { session_id: sid }],
    }
}

/// The application after the first `n` of some sessions were finalized and
/// took up their next message.
pub open spec fn swept(app: AppView, ids: Seq<Seq<char>>, timestamp: Seq<char>, n: int) -> AppView
    decreases n,
{
    if n <= 0 {
        app
    } else {
        drained(finalized(swept(app, ids, timestamp, n - 1), ids[n - 1]), ids[n - 1], timestamp)
    }
}

/// What finalizing the first `n` of some sessions asks for.
pub open spec fn sweep_effects(
    app: AppView,
    ids: Seq<Seq<char>>,
    timestamp: Seq<char>,
    n: int,
) -> Seq<EffectView>
    decreases n,
{
    if n <= 0 {
        Seq::empty()
    } else {
        let now = swept(app, ids, timestamp, n - 1);
        sweep_effects(app, ids, timestamp, n - 1) + finalize_effects(now, ids[n - 1])
            + drain_effects(finalized(now, ids[n - 1]), ids[n - 1], timestamp)
    }
}

/// The ids of those of the first `n` sessions that are still marked as
/// generating though their task is done.
pub open spec fn stuck_ids(sessions: Seq<SessionView>, done: Seq<bool>, n: int) -> Seq<Seq<char>>
    decreases n,
{
    if n <= 0 {
        Seq::empty()
    } else if sessions[n - 1].chat.is_generating && done[n - 1] {
        stuck_ids(sessions, done, n - 1).push(sessions[n - 1].id)
    } else {
        stuck_ids(sessions, done, n - 1)
    }
}

impl ChatApp {
    /// Stop the selected session's run.
    pub fn stop_generation(&mut self, effects: &mut Vec<ChatEffect>)
        ensures
            final(self)@ == stopped(old(self)@),
            effect_views(final(effects)@) == effect_views(old(effects)@) + stop_effects(
                old(self)@,
            ),
    {
        let ghost start = self@;
        let ghost before = effect_views(effects@);
        if let Some(sid) = copy_opt(&self.selected_session_id) {
            if let Some(k) = self.find_session(sid.as_str()) {
                ask(effects, ChatEffect::CancelPipeline { session_id: sid.clone() });
                self.sessions[k].chat.is_generating = false;
                self.sessions[k].chat.pending_error = None;
                ask(effects, ChatEffect::CommitStream { session_id: sid.clone() });
                assert(self@.sessions =~= start.sessions.update(
                    k as int,
                    self.sessions@[k as int]@,
                ));
                assert(self@ =~= start.with_chat(k as int, self.sessions@[k as int].chat@));
            }
            ask(effects, ChatEffect::SaveSession { session_id: sid });
        }
        assert(effect_views(effects@) =~= before + stop_effects(start));
    }

    fn finalize(&mut self, sid: &str, effects: &mut Vec<ChatEffect>)
        ensures
            final(self)@ == finalized(old(self)@, sid@),
            effect_views(final(effects)@) == effect_views(old(effects)@) + finalize_effects(
                old(self)@,
                sid@,
            ),
    {
        let ghost start = self@;
        let ghost before = effect_views(effects@);
        let selected = self.is_selected(sid);
        if let Some(k) = self.find_session(sid) {
            ask(effects, ChatEffect::CommitStream { session_id: sid.to_owned() });
            self.sessions[k].chat.is_generating = false;
            self.sessions[k].chat.current_thinking = String::new();
            self.sessions[k].chat.status = AppStatus::Ready;
            assert(self.sessions@[k as int].chat@ =~= ChatView {
                is_generating: false,
                current_thinking: Seq::empty(),
                status: StatusView::Ready,
                ..start.sessions[k as int].chat
            });
            assert(self@.sessions =~= start.sessions.update(k as int, self.sessions@[k as int]@));
            assert(self@ =~= start.with_chat(k as int, self.sessions@[k as int].chat@));
            ask(
                effects,
                ChatEffect::RefreshTokenGauge {
                    session_id: sid.to_owned(),
                    n_ctx: self.remote_n_ctx,
                },
            );
        }
        if selected {
            self.status = AppStatus::Ready;
        }
        ask(effects, ChatEffect::SaveSession { session_id: sid.to_owned() });
        assert(effect_views(effects@) =~= before + finalize_effects(start, sid@));
        assert(self@ =~= finalized(start, sid@));
    }

    /// Defensive sweep: for any session that is still flagged as generating
    /// while its pipeline task is already finished (`done`, by the session's
    /// position), clear the generating state, commit any partial stream, and
    /// let the queue flow.
    pub fn sweep_finished_pipelines(
        &mut self,
        done: &Vec<bool>,
        timestamp: &str,
        effects: &mut Vec<ChatEffect>,
    )
        requires
            done@.len() == old(self)@.sessions.len(),
        ensures
            ({
                let ids = stuck_ids(old(self)@.sessions, done@, done@.len() as int);
                &&& final(self)@ == swept(old(self)@, ids, timestamp@, ids.len() as int)
                &&& effect_views(final(effects)@) == effect_views(old(effects)@) + sweep_effects(
                    old(self)@,
                    ids,
                    timestamp@,
                    ids.len() as int,
                )
            }),
    {
        let ghost start = self@;
        let ghost before = effect_views(effects@);
        let mut stuck: Vec<String> = Vec::new();
        let mut i: usize = 0;
        assert(crate::text::texts(stuck@) =~= stuck_ids(start.sessions, done@, 0));
        while i < done.len()
            invariant
                i <= done@.len(),
                done@.len() == self.sessions@.len(),
                start == self@,
                crate::text::texts(stuck@) == stuck_ids(start.sessions, done@, i as int),
            decreases done.len() - i,
        {
            if self.sessions[i].chat.is_generating && done[i] {
                let ghost old_stuck = stuck@;
                stuck.push(self.sessions[i].id.clone());
                assert(crate::text::texts(stuck@) =~= crate::text::texts(old_stuck).push(
                    start.sessions[i as int].id,
                ));
            }
            i += 1;
        }
        let ghost ids = crate::text::texts(stuck@);
        let mut i: usize = 0;
        assert(before + sweep_effects(start, ids, timestamp@, 0) =~= before);
        while i < stuck.len()
            invariant
                i <= stuck@.len(),
                ids == crate::text::texts(stuck@),
                self@ == swept(start, ids, timestamp@, i as int),
                effect_views(effects@) == before + sweep_effects(
                    start,
                    ids,
                    timestamp@,
                    i as int,
                ),
            decreases stuck.len() - i,
        {
            let ghost now = self@;
            let ghost asked = sweep_effects(start, ids, timestamp@, i as int);
            self.finalize(stuck[i].as_str(), effects);
            self.drain_next_queued_message(stuck[i].as_str(), timestamp, effects);
            proof {
                let id = ids[i as int];
                let f = finalize_effects(now, id);
                let d = drain_effects(finalized(now, id), id, timestamp@);
                assert(before + asked + f + d =~= before + (asked + f + d));
            }
            i += 1;
        }
    }
}

// ---------------------------------------------------------------------------
// Laws
// ---------------------------------------------------------------------------

/// A message that is refused leaves the chat as it was, but for the error, and
/// asks for nothing.
pub proof fn a_refused_message_changes_only_the_error(
    app: AppView,
    input: Seq<char>,
    agent_prompt: Seq<char>,
    tool_policy: PolicyView,
    timestamp: Seq<char>,
    k: int,
)
    requires
        input_error(input) is Some,
        app.selected() == Some(k),
    ensures
        ({
            let after = input_handled(app, input, agent_prompt, tool_policy, timestamp);
            &&& after == app.with_chat(
                k,
                ChatView { pending_error: input_error(input), ..app.sessions[k].chat },
            )
            &&& input_effects(app, input, agent_prompt, tool_policy, timestamp) == Seq::<
                EffectView,
            >::empty()
        }),
{
}

/// An accepted message that is sent while its session is idle starts a run with
/// that message, whatever stands in the input box.
pub proof fn an_accepted_message_starts_a_run(
    app: AppView,
    input: Seq<char>,
    agent_prompt: Seq<char>,
    tool_policy: PolicyView,
    timestamp: Seq<char>,
    k: int,
)
    requires
        input_error(input) is None,
        app.selected() == Some(k),
        0 <= k < app.sessions.len(),
        !app.sessions[k].chat.is_generating,
        app.event_channel,
    ensures
        ({
            let before = app.sessions[k].chat;
            let after = input_handled(app, input, agent_prompt, tool_policy, timestamp);
            let chat = after.sessions[k].chat;
            let asked = input_effects(app, input, agent_prompt, tool_policy, timestamp);
            &&& after.status == StatusView::Generating
            &&& chat.is_generating
            &&& chat.messages == before.messages.push(
                user_message(trim(input), timestamp, image_text(before.pending_image)),
            )
            &&& chat.pending_image is None
            &&& asked.last() is StartPipeline
            &&& asked.last()->StartPipeline_text == trim(input)
        }),
{
    let sid = app.selected_session_id->Some_0;
    let taken = ChatView { pending_image: None, ..app.sessions[k].chat };
    lemma_with_chat(app, k, taken, sid);
}

/// A message sent while a run is in progress is shown at once, waits last in
/// the queue, and starts no run.
pub proof fn a_message_during_a_run_waits(
    app: AppView,
    input: Seq<char>,
    agent_prompt: Seq<char>,
    tool_policy: PolicyView,
    timestamp: Seq<char>,
    k: int,
)
    requires
        input_error(input) is None,
        app.selected() == Some(k),
        0 <= k < app.sessions.len(),
        app.sessions[k].chat.is_generating,
    ensures
        ({
            let before = app.sessions[k].chat;
            let after = input_handled(app, input, agent_prompt, tool_policy, timestamp);
            let chat = after.sessions[k].chat;
            &&& after.status == app.status
            &&& chat.is_generating
            &&& chat.messages.len() == before.messages.len() + 1
            &&& chat.messages.last().content == input
            &&& chat.queued_messages.drop_last() == before.queued_messages
            &&& chat.queued_messages.last().text == input
            &&& chat.queued_messages.last().image == before.pending_image
            &&& chat.pending_image is None
        }),
{
    let before = app.sessions[k].chat;
    let now = chat_queued(before, input, agent_prompt, tool_policy, timestamp);
    assert(now.queued_messages.drop_last() =~= before.queued_messages);
}

/// The queue is taken up in the order in which it was filled: draining starts
/// the first message, and leaves the others as they were. The message is not
/// shown a second time.
pub proof fn the_queue_is_first_in_first_out(
    app: AppView,
    sid: Seq<char>,
    timestamp: Seq<char>,
    k: int,
)
    requires
        app.find(sid) == Some(k),
        0 <= k < app.sessions.len(),
        app.sessions[k].chat.queued_messages.len() > 0,
        app.event_channel,
    ensures
        ({
            let before = app.sessions[k].chat;
            let after = drained(app, sid, timestamp).sessions[k].chat;
            &&& after.queued_messages == before.queued_messages.drop_first()
            &&& after.messages == before.messages
            &&& after.is_generating
            &&& drain_effects(app, sid, timestamp).last() == EffectView::StartPipeline {
                session_id: sid,
                text: before.queued_messages[0].text,
                agent_prompt: before.queued_messages[0].agent_prompt,
                tool_policy: before.queued_messages[0].tool_policy,
                image_data_uri: data_uri(image_text(before.queued_messages[0].image)),
                n_ctx: app.remote_n_ctx,
                reasoning_effort: app.reasoning_effort,
            }
        }),
{
    let before = app.sessions[k].chat;
    let rest = ChatView { queued_messages: before.queued_messages.drop_first(), ..before };
    lemma_with_chat(app, k, rest, sid);
}

/// With an empty queue, draining does nothing.
pub proof fn draining_an_empty_queue_does_nothing(
    app: AppView,
    sid: Seq<char>,
    timestamp: Seq<char>,
)
    requires
        app.find(sid) matches Some(k) ==> app.sessions[k].chat.queued_messages.len() == 0,
    ensures
        drained(app, sid, timestamp) == app,
        drain_effects(app, sid, timestamp) == Seq::<EffectView>::empty(),
{
}

} // verus!

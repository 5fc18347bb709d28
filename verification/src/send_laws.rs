//! What sending a message does: which messages are accepted, what an accepted one
//! starts or queues, and how runs are stopped and swept up.

use vstd::prelude::*;
use vstd::utf8::encode_utf8;

use crate::chat_state::{
    AppView, ChatView, EffectView, PolicyView, QueuedView, SessionView, StatusView,
};
use crate::images::base64_text;
use crate::input::{
    drain_effects, drained, finalize_effects, finalized, input_effects, input_error, input_handled,
    lemma_with_chat, run_effects, run_started, send_effects, sent, stop_effects, stopped, stuck_ids,
    sweep_effects, swept, RunView,
};
use crate::input_bar::{box_edited, input_of, send_pressed, shows, with_input, InputBar, RunButton};
use crate::numbers::decimal;
use crate::sessions_actions::ids_are_distinct;
use crate::stream_laws::{
    absent, lemma_absent, lemma_stands, only_at, sessions_only_at, stands_at, start_of, uri_of,
};
use crate::text::{opt_text, trim};
use crate::types::{MessageKind, MessageView};

verus! {

/// Whether the session at `k` is the selected one.
pub open spec fn selected_at(app: AppView, k: int) -> bool {
    app.selected_session_id is Some && stands_at(app, app.selected_session_id->Some_0, k)
}

/// Whether a message can be sent: it holds something besides white space and
/// takes at most 4000 bytes.
pub open spec fn can_be_sent(text: Seq<char>) -> bool {
    trim(text).len() > 0 && encode_utf8(text).len() <= 4000
}

/// The base64 text of an image, where there is one.
pub open spec fn shown_image(image: Option<crate::chat_state::ImageView>) -> Option<Seq<char>> {
    match image {
        Some(i) => Some(base64_text(i.bytes)),
        None => None,
    }
}

/// A blank message is refused as empty, one of more than 4000 bytes as too long;
/// every other message is accepted.
pub proof fn which_messages_are_accepted(text: Seq<char>)
    ensures
        input_error(text) is None <==> can_be_sent(text),
        trim(text).len() == 0 ==> input_error(text) == Some("Message cannot be empty"@),
        trim(text).len() > 0 && encode_utf8(text).len() > 4000 ==> input_error(text) == Some(
            "Message too long (max "@ + decimal(4000) + " characters)"@,
        ),
{
}

/// A run that starts marks its session and the application as generating, clears
/// the last error, and shows the message of the user unless it is shown already.
/// It cancels the run before it, and is started with the text, the prompt, the
/// policy and the image that were given, where its events can be received.
pub proof fn a_run_starts_with_what_was_given(app: AppView, sid: Seq<char>, run: RunView, k: int)
    requires
        stands_at(app, sid, k),
    ensures
        ({
            let before = app.sessions[k].chat;
            let after = run_started(app, sid, run);
            let asked = run_effects(app, sid, run);
            &&& after == (AppView {
                sessions: after.sessions,
                status: StatusView::Generating,
                ..app
            })
            &&& sessions_only_at(
                app,
                after,
                k,
                SessionView {
                    chat: ChatView {
                        is_generating: true,
                        pending_error: None,
                        messages: after.sessions[k].chat.messages,
                        ..before
                    },
                    ..app.sessions[k]
                },
            )
            &&& run.already_displayed ==> after.sessions[k].chat.messages == before.messages
            &&& !run.already_displayed ==> after.sessions[k].chat.messages == before.messages.push(
                MessageView {
                    kind: MessageKind::Normal,
                    role: "user"@,
                    content: run.text,
                    timestamp: run.timestamp,
                    image: shown_image(run.image),
                },
            )
            &&& asked[0] == (EffectView::CancelPipeline { session_id: sid })
            &&& !app.event_channel ==> asked.len() == 1
            &&& app.event_channel ==> asked.len() == 2 && asked[1] == (EffectView::StartPipeline {
                session_id: sid,
                text: run.text,
                agent_prompt: run.agent_prompt,
                tool_policy: run.tool_policy,
                image_data_uri: uri_of(run.image),
                n_ctx: app.remote_n_ctx,
                reasoning_effort: app.reasoning_effort,
            })
        }),
{
    lemma_stands(app, sid, k);
}

/// An accepted message that is sent while its session is idle is shown and starts
/// a run at once: with the message, the prompt and the policy that were given, and
/// with the waiting image, which then no longer waits.
pub proof fn an_accepted_message_runs_at_once(
    app: AppView,
    input: Seq<char>,
    agent_prompt: Seq<char>,
    tool_policy: PolicyView,
    timestamp: Seq<char>,
    k: int,
)
    requires
        selected_at(app, k),
        can_be_sent(input),
        !app.sessions[k].chat.is_generating,
        app.event_channel,
    ensures
        ({
            let sid = app.selected_session_id->Some_0;
            let before = app.sessions[k].chat;
            let after = input_handled(app, input, agent_prompt, tool_policy, timestamp);
            &&& input_effects(app, input, agent_prompt, tool_policy, timestamp) == seq![
                EffectView::CancelPipeline { session_id: sid },
                EffectView::StartPipeline {
                    session_id: sid,
                    text: trim(input),
                    agent_prompt,
                    tool_policy,
                    image_data_uri: uri_of(before.pending_image),
                    n_ctx: app.remote_n_ctx,
                    reasoning_effort: app.reasoning_effort,
                },
            ]
            &&& after == (AppView {
                sessions: after.sessions,
                status: StatusView::Generating,
                ..app
            })
            &&& sessions_only_at(
                app,
                after,
                k,
                SessionView {
                    chat: ChatView {
                        is_generating: true,
                        pending_error: None,
                        pending_image: None,
                        messages: before.messages.push(
                            MessageView {
                                kind: MessageKind::Normal,
                                role: "user"@,
                                content: trim(input),
                                timestamp,
                                image: shown_image(before.pending_image),
                            },
                        ),
                        ..before
                    },
                    ..app.sessions[k]
                },
            )
        }),
{
    let sid = app.selected_session_id->Some_0;
    lemma_stands(app, sid, k);
    which_messages_are_accepted(input);
    let taken = ChatView { pending_image: None, ..app.sessions[k].chat };
    lemma_with_chat(app, k, taken, sid);
}

/// Without a channel for its events no run is started, though the message is
/// shown.
pub proof fn without_a_channel_no_run_starts(
    app: AppView,
    input: Seq<char>,
    agent_prompt: Seq<char>,
    tool_policy: PolicyView,
    timestamp: Seq<char>,
    k: int,
)
    requires
        selected_at(app, k),
        can_be_sent(input),
        !app.sessions[k].chat.is_generating,
        !app.event_channel,
    ensures
        input_effects(app, input, agent_prompt, tool_policy, timestamp) == seq![
            EffectView::CancelPipeline { session_id: app.selected_session_id->Some_0 },
        ],
{
    let sid = app.selected_session_id->Some_0;
    lemma_stands(app, sid, k);
    which_messages_are_accepted(input);
}

/// An accepted message that is sent during a run is shown at once and waits last
/// in the queue, with the prompt and the policy that were given and the waiting
/// image; the box is emptied, the user is told how many wait, and no run is
/// started or cancelled.
pub proof fn an_accepted_message_waits_behind_a_run(
    app: AppView,
    input: Seq<char>,
    agent_prompt: Seq<char>,
    tool_policy: PolicyView,
    timestamp: Seq<char>,
    k: int,
)
    requires
        selected_at(app, k),
        can_be_sent(input),
        app.sessions[k].chat.is_generating,
    ensures
        ({
            let before = app.sessions[k].chat;
            let after = input_handled(app, input, agent_prompt, tool_policy, timestamp);
            &&& input_effects(app, input, agent_prompt, tool_policy, timestamp) == seq![
                EffectView::Notify {
                    session_id: app.selected_session_id->Some_0,
                    text: "Queued — will run after the current task ("@ + decimal(
                        before.queued_messages.len() + 1,
                    ) + " waiting)"@,
                    success: true,
                },
            ]
            &&& only_at(
                app,
                after,
                k,
                SessionView {
                    chat: ChatView {
                        messages: before.messages.push(
                            MessageView {
                                kind: MessageKind::Normal,
                                role: "user"@,
                                content: input,
                                timestamp,
                                image: shown_image(before.pending_image),
                            },
                        ),
                        input_text: Seq::empty(),
                        queued_messages: before.queued_messages.push(
                            QueuedView {
                                text: input,
                                image: before.pending_image,
                                agent_prompt,
                                tool_policy,
                            },
                        ),
                        pending_image: None,
                        ..before
                    },
                    ..app.sessions[k]
                },
            )
        }),
{
    lemma_stands(app, app.selected_session_id->Some_0, k);
    which_messages_are_accepted(input);
}

/// A refused message leaves an error in its chat that says why, and changes
/// nothing else; nothing is asked for.
pub proof fn a_refused_message_says_why(
    app: AppView,
    input: Seq<char>,
    agent_prompt: Seq<char>,
    tool_policy: PolicyView,
    timestamp: Seq<char>,
    k: int,
)
    requires
        selected_at(app, k),
        !can_be_sent(input),
    ensures
        input_effects(app, input, agent_prompt, tool_policy, timestamp).len() == 0,
        only_at(
            app,
            input_handled(app, input, agent_prompt, tool_policy, timestamp),
            k,
            SessionView {
                chat: ChatView {
                    pending_error: Some(
                        if trim(input).len() == 0 {
                            "Message cannot be empty"@
                        } else {
                            "Message too long (max "@ + decimal(4000) + " characters)"@
                        },
                    ),
                    ..app.sessions[k].chat
                },
                ..app.sessions[k]
            },
        ),
{
    lemma_stands(app, app.selected_session_id->Some_0, k);
    which_messages_are_accepted(input);
}

/// Without a session to send it in, a message changes nothing.
pub proof fn without_a_session_nothing_is_sent(
    app: AppView,
    input: Seq<char>,
    agent_prompt: Seq<char>,
    tool_policy: PolicyView,
    timestamp: Seq<char>,
)
    requires
        app.selected_session_id matches Some(sid) ==> absent(app, sid),
    ensures
        input_handled(app, input, agent_prompt, tool_policy, timestamp) == app,
        input_effects(app, input, agent_prompt, tool_policy, timestamp).len() == 0,
{
    if let Some(sid) = app.selected_session_id {
        lemma_absent(app, sid);
    }
}

/// Sending the box of the selected, idle session is sending what stands in it.
pub proof fn sending_the_box_sends_its_text(
    app: AppView,
    agent_prompt: Seq<char>,
    tool_policy: PolicyView,
    timestamp: Seq<char>,
    k: int,
)
    requires
        selected_at(app, k),
        !app.sessions[k].chat.is_generating,
    ensures
        ({
            let sid = app.selected_session_id->Some_0;
            let text = trim(app.sessions[k].chat.input_text);
            &&& sent(app, sid, agent_prompt, tool_policy, timestamp) == input_handled(
                app,
                text,
                agent_prompt,
                tool_policy,
                timestamp,
            )
            &&& send_effects(app, sid, agent_prompt, tool_policy, timestamp) == input_effects(
                app,
                text,
                agent_prompt,
                tool_policy,
                timestamp,
            )
        }),
{
    lemma_stands(app, app.selected_session_id->Some_0, k);
    lemma_trimmed_twice(app.sessions[k].chat.input_text);
}

/// A session that is not there is sent nothing.
pub proof fn sending_to_no_session_does_nothing(
    app: AppView,
    sid: Seq<char>,
    agent_prompt: Seq<char>,
    tool_policy: PolicyView,
    timestamp: Seq<char>,
)
    requires
        absent(app, sid),
    ensures
        sent(app, sid, agent_prompt, tool_policy, timestamp) == app,
        send_effects(app, sid, agent_prompt, tool_policy, timestamp).len() == 0,
{
    lemma_absent(app, sid);
}

/// Taking up the queue starts the run of its first message, with all that waited
/// with it, and leaves the rest of the queue in its order.
pub proof fn the_first_in_the_queue_runs_next(
    app: AppView,
    sid: Seq<char>,
    timestamp: Seq<char>,
    k: int,
)
    requires
        stands_at(app, sid, k),
        app.sessions[k].chat.queued_messages.len() > 0,
        app.event_channel,
    ensures
        ({
            let before = app.sessions[k].chat;
            let after = drained(app, sid, timestamp);
            &&& drain_effects(app, sid, timestamp) == seq![
                EffectView::CancelPipeline { session_id: sid },
                start_of(app, sid, before.queued_messages[0]),
            ]
            &&& after == (AppView {
                sessions: after.sessions,
                status: StatusView::Generating,
                ..app
            })
            &&& sessions_only_at(
                app,
                after,
                k,
                SessionView {
                    chat: ChatView {
                        is_generating: true,
                        pending_error: None,
                        queued_messages: before.queued_messages.drop_first(),
                        ..before
                    },
                    ..app.sessions[k]
                },
            )
        }),
{
    lemma_stands(app, sid, k);
    let chat = app.sessions[k].chat;
    let rest = ChatView { queued_messages: chat.queued_messages.drop_first(), ..chat };
    lemma_with_chat(app, k, rest, sid);
}

// ---------------------------------------------------------------------------
// The input area
// ---------------------------------------------------------------------------

/// The input area shows what the session is about: a notice for a text of more
/// than 4000 bytes, whether an image waits, the session's agent, and the button
/// that stops a run or continues a conversation.
pub proof fn the_input_area_shows_its_session(bar: InputBar, s: SessionView)
    requires
        shows(bar, s),
        encode_utf8(s.chat.input_text).len() <= usize::MAX,
    ensures
        opt_text(bar.notice) == (if encode_utf8(s.chat.input_text).len() > 4000 {
            Some(
                "Message too long (max "@ + decimal(4000) + " characters, current: "@ + decimal(
                    encode_utf8(s.chat.input_text).len(),
                ) + ")"@,
            )
        } else {
            None
        }),
        bar.image_attached <==> s.chat.pending_image is Some,
        s.chat.pending_image is Some ==> bar.attach_tooltip@
            == "Image attached to the next message - click to replace"@,
        s.chat.pending_image is None ==> bar.attach_tooltip@
            == "Attach image (from clipboard, or pick a file)"@,
        s.selected_agent matches Some(a) ==> bar.agent_label@ == a,
        s.selected_agent is None ==> bar.agent_label@ == "Auto"@,
        bar.run_button == RunButton::Stop <==> s.chat.is_generating,
        bar.run_button == RunButton::Continue <==> !s.chat.is_generating && s.chat.messages.len()
            > 0,
{
}

/// A text that is put into the box of the selected session stands there, and
/// nothing else changes.
pub proof fn the_box_holds_what_is_put_into_it(app: AppView, text: Seq<char>, k: int)
    requires
        selected_at(app, k),
    ensures
        input_of(with_input(app, text)) == text,
        only_at(
            app,
            with_input(app, text),
            k,
            SessionView {
                chat: ChatView { input_text: text, ..app.sessions[k].chat },
                ..app.sessions[k]
            },
        ),
{
    let sid = app.selected_session_id->Some_0;
    lemma_stands(app, sid, k);
    lemma_with_chat(app, k, ChatView { input_text: text, ..app.sessions[k].chat }, sid);
}

/// "Send" sends what stands in the box, without space at its ends. The box is
/// empty once the message was accepted, and keeps its text where it was refused
/// or there is nothing to send.
pub proof fn the_send_button_sends_the_box(
    app: AppView,
    agent_prompt: Seq<char>,
    tool_policy: PolicyView,
    timestamp: Seq<char>,
    k: int,
)
    requires
        selected_at(app, k),
    ensures
        ({
            let text = trim(app.sessions[k].chat.input_text);
            let after = send_pressed(app, agent_prompt, tool_policy, timestamp);
            let handled = input_handled(app, text, agent_prompt, tool_policy, timestamp);
            &&& text.len() == 0 ==> after == app
            &&& text.len() > 0 && can_be_sent(text) ==> only_at(
                handled,
                after,
                k,
                SessionView {
                    chat: ChatView { input_text: Seq::empty(), ..handled.sessions[k].chat },
                    ..handled.sessions[k]
                },
            )
            &&& text.len() > 0 && !can_be_sent(text) ==> after == handled
                && after.sessions[k].chat.input_text == app.sessions[k].chat.input_text
        }),
{
    let sid = app.selected_session_id->Some_0;
    lemma_stands(app, sid, k);
    let text = trim(app.sessions[k].chat.input_text);
    which_messages_are_accepted(text);
    let handled = input_handled(app, text, agent_prompt, tool_policy, timestamp);
    lemma_input_keeps_ids(app, text, agent_prompt, tool_policy, timestamp, k);
    if text.len() > 0 && can_be_sent(text) {
        lemma_trimmed_twice(app.sessions[k].chat.input_text);
    }
}

proof fn lemma_input_keeps_ids(
    app: AppView,
    input: Seq<char>,
    agent_prompt: Seq<char>,
    tool_policy: PolicyView,
    timestamp: Seq<char>,
    k: int,
)
    requires
        selected_at(app, k),
    ensures
        selected_at(input_handled(app, input, agent_prompt, tool_policy, timestamp), k),
        input_handled(app, input, agent_prompt, tool_policy, timestamp).selected() == Some(k),
{
    let sid = app.selected_session_id->Some_0;
    lemma_stands(app, sid, k);
    let handled = input_handled(app, input, agent_prompt, tool_policy, timestamp);
    let taken = ChatView { pending_image: None, ..app.sessions[k].chat };
    lemma_with_chat(app, k, taken, sid);
    assert(forall|i: int|
        0 <= i < app.sessions.len() ==> (#[trigger] handled.sessions[i]).id == app.sessions[i].id);
    lemma_stands(handled, sid, k);
}

proof fn lemma_trimmed_twice(s: Seq<char>)
    ensures
        trim(trim(s)) == trim(s),
{
    crate::text_laws::trimming_twice_is_trimming_once(s);
}

/// The shortcut sends what was typed in this frame, and leaves the box empty where
/// the message was accepted; a refused text stays in the box. Without the shortcut
/// the box just holds what was typed.
pub proof fn the_shortcut_sends_what_was_typed(
    app: AppView,
    text: Seq<char>,
    agent_prompt: Seq<char>,
    tool_policy: PolicyView,
    timestamp: Seq<char>,
    k: int,
)
    requires
        selected_at(app, k),
    ensures
        ({
            let after = box_edited(app, text, true, agent_prompt, tool_policy, timestamp);
            let handled = input_handled(app, trim(text), agent_prompt, tool_policy, timestamp);
            &&& trim(text).len() > 0 ==> only_at(
                handled,
                after,
                k,
                SessionView {
                    chat: ChatView {
                        input_text: if can_be_sent(trim(text)) {
                            Seq::empty()
                        } else {
                            text
                        },
                        ..handled.sessions[k].chat
                    },
                    ..handled.sessions[k]
                },
            )
            &&& trim(text).len() == 0 ==> after == with_input(app, text)
        }),
        box_edited(app, text, false, agent_prompt, tool_policy, timestamp) == with_input(app, text),
{
    let sid = app.selected_session_id->Some_0;
    lemma_stands(app, sid, k);
    which_messages_are_accepted(trim(text));
    lemma_trimmed_twice(text);
    lemma_input_keeps_ids(app, trim(text), agent_prompt, tool_policy, timestamp, k);
}

// ---------------------------------------------------------------------------
// Stopping and sweeping
// ---------------------------------------------------------------------------

/// Stopping cancels the run of the selected session, turns what was streamed into
/// a message and saves the session; it no longer generates and shows no error. The
/// queue stays as it is.
pub proof fn a_stop_ends_the_selected_run(app: AppView, k: int)
    requires
        selected_at(app, k),
    ensures
        ({
            let sid = app.selected_session_id->Some_0;
            &&& stop_effects(app) == seq![
                EffectView::CancelPipeline { session_id: sid },
                EffectView::CommitStream { session_id: sid },
                EffectView::SaveSession { session_id: sid },
            ]
            &&& only_at(
                app,
                stopped(app),
                k,
                SessionView {
                    chat: ChatView {
                        is_generating: false,
                        pending_error: None,
                        ..app.sessions[k].chat
                    },
                    ..app.sessions[k]
                },
            )
        }),
{
    lemma_stands(app, app.selected_session_id->Some_0, k);
}

/// A run that ended without saying so is brought to its end: its text becomes a
/// message, the gauge is counted anew, and the session is saved and ready.
pub proof fn a_lost_run_is_brought_to_its_end(app: AppView, sid: Seq<char>, k: int)
    requires
        stands_at(app, sid, k),
    ensures
        ({
            let after = finalized(app, sid);
            &&& finalize_effects(app, sid) == seq![
                EffectView::CommitStream { session_id: sid },
                EffectView::RefreshTokenGauge { session_id: sid, n_ctx: app.remote_n_ctx },
                EffectView::SaveSession { session_id: sid },
            ]
            &&& after == (AppView {
                sessions: after.sessions,
                status: if app.selected_session_id == Some(sid) {
                    StatusView::Ready
                } else {
                    app.status
                },
                ..app
            })
            &&& sessions_only_at(
                app,
                after,
                k,
                SessionView {
                    chat: ChatView {
                        is_generating: false,
                        current_thinking: Seq::empty(),
                        status: StatusView::Ready,
                        ..app.sessions[k].chat
                    },
                    ..app.sessions[k]
                },
            )
        }),
{
    lemma_stands(app, sid, k);
}

/// Whether the session at `i` generates though its run is done.
pub open spec fn stuck(sessions: Seq<SessionView>, done: Seq<bool>, i: int) -> bool {
    sessions[i].chat.is_generating && done[i]
}

/// The sessions to sweep are exactly those that generate though their run is
/// done.
pub proof fn only_stuck_sessions_are_swept(
    sessions: Seq<SessionView>,
    done: Seq<bool>,
    n: int,
    id: Seq<char>,
)
    requires
        0 <= n <= sessions.len(),
        done.len() == sessions.len(),
    ensures
        stuck_ids(sessions, done, n).contains(id) <==> exists|i: int|
            0 <= i < n && (#[trigger] sessions[i]).id == id && stuck(sessions, done, i),
    decreases n,
{
    if n > 0 {
        only_stuck_sessions_are_swept(sessions, done, n - 1, id);
        let before = stuck_ids(sessions, done, n - 1);
        let now = stuck_ids(sessions, done, n);
        if before.contains(id) {
            let m = choose|m: int| 0 <= m < before.len() && before[m] == id;
            assert(now[m] == id);
        }
        if stuck(sessions, done, n - 1) {
            assert(now[now.len() - 1] == sessions[n - 1].id);
        }
        if now.contains(id) && !before.contains(id) {
            let m = choose|m: int| 0 <= m < now.len() && now[m] == id;
            if m < before.len() {
                assert(before[m] == id);
            }
            assert(sessions[n - 1].id == id);
        }
    }
}

/// What a swept session's chat is: at rest, or with the first waiting message's
/// run in progress.
pub open spec fn chat_swept(before: ChatView) -> ChatView {
    let rest = ChatView {
        is_generating: false,
        current_thinking: Seq::empty(),
        status: StatusView::Ready,
        ..before
    };
    if before.queued_messages.len() == 0 {
        rest
    } else {
        ChatView {
            is_generating: true,
            pending_error: None,
            queued_messages: before.queued_messages.drop_first(),
            ..rest
        }
    }
}

proof fn lemma_sweep_one(app: AppView, sid: Seq<char>, timestamp: Seq<char>, k: int)
    requires
        stands_at(app, sid, k),
    ensures
        sessions_only_at(
            app,
            drained(finalized(app, sid), sid, timestamp),
            k,
            SessionView { chat: chat_swept(app.sessions[k].chat), ..app.sessions[k] },
        ),
{
    a_lost_run_is_brought_to_its_end(app, sid, k);
    let mid = finalized(app, sid);
    assert(stands_at(mid, sid, k));
    lemma_stands(mid, sid, k);
    let chat = mid.sessions[k].chat;
    let rest = ChatView { queued_messages: chat.queued_messages.drop_first(), ..chat };
    lemma_with_chat(mid, k, rest, sid);
    let after = drained(mid, sid, timestamp);
    assert(after.sessions[k].chat =~= chat_swept(app.sessions[k].chat));
    assert forall|i: int| 0 <= i < app.sessions.len() && i != k implies #[trigger] after.sessions[i]
        == app.sessions[i] by {
        assert(mid.sessions[i] == app.sessions[i]);
    }
}

/// Sweeping changes only the sessions to sweep: each of them is at rest then, or
/// runs the first message that waited; every other session stays as it was.
pub proof fn a_sweep_touches_only_stuck_sessions(
    app: AppView,
    ids: Seq<Seq<char>>,
    timestamp: Seq<char>,
    n: int,
    k: int,
)
    requires
        ids_are_distinct(app.sessions),
        0 <= n <= ids.len(),
        forall|i: int, j: int| 0 <= i < j < ids.len() ==> ids[i] != ids[j],
        forall|i: int| 0 <= i < ids.len() ==> !absent(app, #[trigger] ids[i]),
        0 <= k < app.sessions.len(),
    ensures
        swept(app, ids, timestamp, n).sessions.len() == app.sessions.len(),
        swept(app, ids, timestamp, n).sessions[k] == (if ids.take(n).contains(
            app.sessions[k].id,
        ) {
            SessionView { chat: chat_swept(app.sessions[k].chat), ..app.sessions[k] }
        } else {
            app.sessions[k]
        }),
    decreases n,
{
    if n > 0 {
        let sid = ids[n - 1];
        let now = swept(app, ids, timestamp, n - 1);
        let m = choose|m: int| 0 <= m < app.sessions.len() && (#[trigger] app.sessions[m]).id == sid;
        a_sweep_touches_only_stuck_sessions(app, ids, timestamp, n - 1, k);
        a_sweep_touches_only_stuck_sessions(app, ids, timestamp, n - 1, m);
        assert forall|i: int| 0 <= i < app.sessions.len() implies (#[trigger] now.sessions[i]).id
            == app.sessions[i].id by {
            a_sweep_touches_only_stuck_sessions(app, ids, timestamp, n - 1, i);
        }
        assert(!ids.take(n - 1).contains(sid)) by {
            if ids.take(n - 1).contains(sid) {
                let some = ids.take(n - 1);
                let j = choose|j: int| 0 <= j < some.len() && some[j] == sid;
                assert(ids[j] == ids[n - 1]);
            }
        }
        assert(now.sessions[m] == app.sessions[m]);
        assert(stands_at(now, sid, m)) by {
            assert forall|i: int| 0 <= i < m implies (#[trigger] now.sessions[i]).id != sid by {
                assert(app.sessions[i].id != app.sessions[m].id);
            }
        }
        lemma_sweep_one(now, sid, timestamp, m);
        let id = app.sessions[k].id;
        if k == m {
            assert(ids.take(n)[n - 1] == id);
        } else {
            assert(id != sid) by {
                if k < m {
                    assert(app.sessions[k].id != app.sessions[m].id);
                } else {
                    assert(app.sessions[m].id != app.sessions[k].id);
                }
            }
            let some = ids.take(n);
            let fewer = ids.take(n - 1);
            if some.contains(id) {
                let j = choose|j: int| 0 <= j < some.len() && some[j] == id;
                assert(fewer[j] == id);
            }
            if fewer.contains(id) {
                let j = choose|j: int| 0 <= j < fewer.len() && fewer[j] == id;
                assert(some[j] == id);
            }
        }
    }
}

/// Sweeping asks, session by session, to commit what was streamed, to count its
/// tokens and to save it; then the first waiting message is started, as it would
/// be at any end of a run.
pub proof fn a_sweep_saves_every_stuck_session(
    app: AppView,
    ids: Seq<Seq<char>>,
    timestamp: Seq<char>,
    n: int,
    j: int,
)
    requires
        0 <= j < n <= ids.len(),
    ensures
        sweep_effects(app, ids, timestamp, n).contains(
            EffectView::SaveSession { session_id: ids[j] },
        ),
        ({
            let then = finalized(swept(app, ids, timestamp, j), ids[j]);
            forall|e: EffectView|
                drain_effects(then, ids[j], timestamp).contains(e) ==> #[trigger] sweep_effects(
                    app,
                    ids,
                    timestamp,
                    n,
                ).contains(e)
        }),
    decreases n,
{
    let all = sweep_effects(app, ids, timestamp, n);
    let before = sweep_effects(app, ids, timestamp, n - 1);
    let now = swept(app, ids, timestamp, n - 1);
    let fin = finalize_effects(now, ids[n - 1]);
    let drain = drain_effects(finalized(now, ids[n - 1]), ids[n - 1], timestamp);
    assert(all == before + fin + drain);
    if j < n - 1 {
        a_sweep_saves_every_stuck_session(app, ids, timestamp, n - 1, j);
        assert forall|e: EffectView| before.contains(e) implies #[trigger] all.contains(e) by {
            let m = choose|m: int| 0 <= m < before.len() && before[m] == e;
            assert(all[m] == e);
        }
    } else {
        let last = fin.len() - 1;
        assert(fin[last] == (EffectView::SaveSession { session_id: ids[j] }));
        assert(all[before.len() + last] == fin[last]);
        assert forall|e: EffectView| drain.contains(e) implies #[trigger] all.contains(e) by {
            let m = choose|m: int| 0 <= m < drain.len() && drain[m] == e;
            assert(all[before.len() + fin.len() + m] == e);
        }
    }
}

} // verus!

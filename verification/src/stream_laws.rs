//! What each event of a run does to its session, and what it asks for.

use vstd::prelude::*;

use crate::chat_state::{
    lemma_session_at, session_at, ActiveToolView, AppView, ChatView, EffectView, PromptProgress,
    QueuedMessage, QueuedView, SessionView, StatusView,
};
use crate::event_handler::{
    event_effects, handled, session_after, session_effects, tool_at, tools_without, AppEvent,
};
use crate::images::base64_text;
use crate::improvements::{merged, suggestion_views, ImprovementSuggestion, PanelView};
use crate::input::{lemma_same_ids, lemma_with_chat};
use crate::numbers::decimal;
use crate::text::{opt_text, trim};
use crate::types::MessageKind;

verus! {

// ---------------------------------------------------------------------------
// Words of the laws
// ---------------------------------------------------------------------------

/// Whether the session with this id is the one at `k`, and none before it.
pub open spec fn stands_at(app: AppView, sid: Seq<char>, k: int) -> bool {
    &&& 0 <= k < app.sessions.len()
    &&& app.sessions[k].id == sid
    &&& forall|i: int| 0 <= i < k ==> (#[trigger] app.sessions[i]).id != sid
}

/// Whether no session has this id.
pub open spec fn absent(app: AppView, sid: Seq<char>) -> bool {
    forall|i: int| 0 <= i < app.sessions.len() ==> (#[trigger] app.sessions[i]).id != sid
}

/// Whether `b` holds what `a` holds, but for the session at `k`, which is `s`.
pub open spec fn only_at(a: AppView, b: AppView, k: int, s: SessionView) -> bool {
    &&& b == (AppView { sessions: b.sessions, ..a })
    &&& sessions_only_at(a, b, k, s)
}

/// Whether `b` has the sessions of `a`, but for the one at `k`, which is `s`.
pub open spec fn sessions_only_at(a: AppView, b: AppView, k: int, s: SessionView) -> bool {
    &&& b.sessions.len() == a.sessions.len()
    &&& b.sessions[k] == s
    &&& forall|i: int|
        0 <= i < a.sessions.len() && i != k ==> #[trigger] b.sessions[i] == a.sessions[i]
}

/// The data URI of the waiting image, where there is one.
pub open spec fn uri_of(image: Option<crate::chat_state::ImageView>) -> Option<Seq<char>> {
    match image {
        Some(i) => Some("data:image/png;base64,"@ + base64_text(i.bytes)),
        None => None,
    }
}

/// The request that starts a waiting message's run in a session.
pub open spec fn start_of(app: AppView, sid: Seq<char>, m: QueuedView) -> EffectView {
    EffectView::StartPipeline {
        session_id: sid,
        text: m.text,
        agent_prompt: m.agent_prompt,
        tool_policy: m.tool_policy,
        image_data_uri: uri_of(m.image),
        n_ctx: app.remote_n_ctx,
        reasoning_effort: app.reasoning_effort,
    }
}

/// Whether no running tool call has this id.
pub open spec fn not_running(tools: Seq<ActiveToolView>, call_id: Seq<char>) -> bool {
    forall|i: int| 0 <= i < tools.len() ==> (#[trigger] tools[i]).call_id != call_id
}

/// Whether the running tool call at `i` is the first with this id.
pub open spec fn runs_at(tools: Seq<ActiveToolView>, call_id: Seq<char>, i: int) -> bool {
    &&& 0 <= i < tools.len()
    &&& tools[i].call_id == call_id
    &&& forall|j: int| 0 <= j < i ==> (#[trigger] tools[j]).call_id != call_id
}

/// A session that stands at `k` is found there.
pub proof fn lemma_stands(app: AppView, sid: Seq<char>, k: int)
    requires
        stands_at(app, sid, k),
    ensures
        app.find(sid) == Some(k),
{
    lemma_first_session(app, sid, k, 0);
}

proof fn lemma_first_session(app: AppView, sid: Seq<char>, k: int, from: int)
    requires
        stands_at(app, sid, k),
        0 <= from <= k,
    ensures
        session_at(app.sessions, sid, from) == Some(k),
    decreases k - from,
{
    if from < k {
        lemma_first_session(app, sid, k, from + 1);
    }
}

/// An absent session is not found.
pub proof fn lemma_absent(app: AppView, sid: Seq<char>)
    requires
        absent(app, sid),
    ensures
        app.find(sid) is None,
{
    lemma_session_at(app.sessions, sid, 0);
}

proof fn lemma_runs(tools: Seq<ActiveToolView>, call_id: Seq<char>, i: int, from: int)
    requires
        runs_at(tools, call_id, i),
        0 <= from <= i,
    ensures
        tool_at(tools, call_id, from) == Some(i),
    decreases i - from,
{
    if from < i {
        lemma_runs(tools, call_id, i, from + 1);
    }
}

proof fn lemma_not_running(tools: Seq<ActiveToolView>, call_id: Seq<char>, from: int)
    requires
        not_running(tools, call_id),
        0 <= from,
    ensures
        tool_at(tools, call_id, from) is None,
    decreases tools.len() - from,
{
    if from < tools.len() {
        lemma_not_running(tools, call_id, from + 1);
    }
}

/// The running tool calls with another id, in their order.
pub open spec fn others(tools: Seq<ActiveToolView>, call_id: Seq<char>) -> Seq<ActiveToolView> {
    tools.filter(|t: ActiveToolView| t.call_id != call_id)
}

proof fn lemma_others(tools: Seq<ActiveToolView>, call_id: Seq<char>)
    ensures
        tools_without(tools, call_id) == others(tools, call_id),
    decreases tools.len(),
{
    reveal(Seq::filter);
    if tools.len() > 0 {
        lemma_others(tools.drop_last(), call_id);
    }
}

// ---------------------------------------------------------------------------
// The streamed answer
// ---------------------------------------------------------------------------

/// Streamed text goes to the answer of its session and to nothing else: it is
/// appended to the stream, and never to the thinking.
pub proof fn streamed_text_goes_to_the_answer(
    app: AppView,
    session_id: String,
    content: String,
    now_ms: u64,
    timestamp: Seq<char>,
    k: int,
)
    requires
        stands_at(app, session_id@, k),
    ensures
        ({
            let e = AppEvent::StreamChunk { session_id, content };
            let asked = event_effects(app, e.session(), e@, now_ms, timestamp);
            &&& asked.contains(
                EffectView::StreamChunk { session_id: session_id@, content: content@ },
            )
            &&& forall|i: int|
                0 <= i < asked.len() ==> !((#[trigger] asked[i]) is StreamThinkingChunk)
            &&& asked == seq![
                EffectView::StreamChunk { session_id: session_id@, content: content@ },
                EffectView::UpdateLiveEstimates {
                    session_id: session_id@,
                    n_ctx: app.remote_n_ctx,
                },
            ]
            &&& handled(app, e.session(), e@, now_ms, timestamp) == app
        }),
{
    reveal(event_effects);
    reveal(session_effects);
    reveal(session_after);
    reveal(handled);
    lemma_stands(app, session_id@, k);
    let e = AppEvent::StreamChunk { session_id, content };
    let asked = event_effects(app, e.session(), e@, now_ms, timestamp);
    assert(asked[0] == (EffectView::StreamChunk { session_id: session_id@, content: content@ }));
    assert(handled(app, e.session(), e@, now_ms, timestamp).sessions =~= app.sessions);
}

/// Streamed thinking goes to the thinking of its session and to nothing else.
pub proof fn streamed_thinking_goes_to_the_thinking(
    app: AppView,
    session_id: String,
    content: String,
    now_ms: u64,
    timestamp: Seq<char>,
    k: int,
)
    requires
        stands_at(app, session_id@, k),
    ensures
        ({
            let e = AppEvent::StreamThinkingChunk { session_id, content };
            let asked = event_effects(app, e.session(), e@, now_ms, timestamp);
            &&& asked.contains(
                EffectView::StreamThinkingChunk { session_id: session_id@, content: content@ },
            )
            &&& forall|i: int| 0 <= i < asked.len() ==> !((#[trigger] asked[i]) is StreamChunk)
            &&& asked == seq![
                EffectView::StreamThinkingChunk { session_id: session_id@, content: content@ },
                EffectView::UpdateLiveEstimates {
                    session_id: session_id@,
                    n_ctx: app.remote_n_ctx,
                },
            ]
            &&& handled(app, e.session(), e@, now_ms, timestamp) == app
        }),
{
    reveal(event_effects);
    reveal(session_effects);
    reveal(session_after);
    reveal(handled);
    lemma_stands(app, session_id@, k);
    let e = AppEvent::StreamThinkingChunk { session_id, content };
    let asked = event_effects(app, e.session(), e@, now_ms, timestamp);
    assert(asked[0] == (EffectView::StreamThinkingChunk {
        session_id: session_id@,
        content: content@,
    }));
    assert(handled(app, e.session(), e@, now_ms, timestamp).sessions =~= app.sessions);
}

/// Thinking that ended becomes a message of its own, of the thinking kind, and is
/// no longer shown as being thought; the streamed text stays where it is. Without
/// any thinking nothing is added.
pub proof fn ended_thinking_becomes_a_message(
    app: AppView,
    session_id: String,
    now_ms: u64,
    timestamp: Seq<char>,
    k: int,
)
    requires
        stands_at(app, session_id@, k),
    ensures
        ({
            let e = AppEvent::StreamThinkingComplete { session_id };
            let before = app.sessions[k].chat;
            let asked = event_effects(app, e.session(), e@, now_ms, timestamp);
            &&& before.current_thinking.len() > 0 ==> asked == seq![
                EffectView::PushMessage {
                    session_id: session_id@,
                    kind: MessageKind::Thinking,
                    role: "assistant"@,
                    content: before.current_thinking,
                },
            ]
            &&& before.current_thinking.len() == 0 ==> asked.len() == 0
            &&& only_at(
                app,
                handled(app, e.session(), e@, now_ms, timestamp),
                k,
                SessionView {
                    chat: ChatView { current_thinking: Seq::empty(), ..before },
                    ..app.sessions[k]
                },
            )
        }),
{
    reveal(event_effects);
    reveal(session_effects);
    reveal(session_after);
    reveal(handled);
    lemma_stands(app, session_id@, k);
}

/// The reported progress is shown, and its speed where the report has one.
pub proof fn reported_progress_is_shown(
    app: AppView,
    session_id: String,
    progress: PromptProgress,
    has_speed: bool,
    now_ms: u64,
    timestamp: Seq<char>,
    k: int,
)
    requires
        stands_at(app, session_id@, k),
    ensures
        ({
            let e = AppEvent::StreamPromptProgress { session_id, progress, has_speed };
            let asked = event_effects(app, e.session(), e@, now_ms, timestamp);
            &&& has_speed ==> asked == seq![
                EffectView::ShowPromptSpeed { session_id: session_id@ },
            ]
            &&& !has_speed ==> asked.len() == 0
            &&& only_at(
                app,
                handled(app, e.session(), e@, now_ms, timestamp),
                k,
                SessionView {
                    chat: ChatView {
                        prompt_progress: Some(progress),
                        ..app.sessions[k].chat
                    },
                    ..app.sessions[k]
                },
            )
        }),
{
    reveal(event_effects);
    reveal(session_effects);
    reveal(session_after);
    reveal(handled);
    lemma_stands(app, session_id@, k);
}

/// A tool round that ended turns what was streamed into a message and goes on:
/// the run keeps generating, with its tools and its thinking. The gauge shows
/// what the server reports, and is counted anew where it reports nothing.
pub proof fn a_round_is_committed_and_the_run_goes_on(
    app: AppView,
    session_id: String,
    total_tokens: Option<u64>,
    now_ms: u64,
    timestamp: Seq<char>,
    k: int,
)
    requires
        stands_at(app, session_id@, k),
    ensures
        ({
            let e = AppEvent::StreamRoundComplete { session_id, total_tokens };
            let before = app.sessions[k].chat;
            let after = handled(app, e.session(), e@, now_ms, timestamp);
            let asked = event_effects(app, e.session(), e@, now_ms, timestamp);
            &&& asked.len() == 2
            &&& asked[0] == (EffectView::CommitStream { session_id: session_id@ })
            &&& total_tokens is Some ==> asked[1] == (EffectView::ShowUsage {
                session_id: session_id@,
                n_ctx: app.remote_n_ctx,
            })
            &&& total_tokens is None ==> asked[1] == (EffectView::RefreshTokenGauge {
                session_id: session_id@,
                n_ctx: app.remote_n_ctx,
            })
            &&& after == (AppView { sessions: after.sessions, usage_dirty: true, ..app })
            &&& sessions_only_at(
                app,
                after,
                k,
                SessionView {
                    chat: ChatView {
                        prompt_progress: None,
                        token_count: match total_tokens {
                            Some(n) => n,
                            None => before.token_count,
                        },
                        ..before
                    },
                    ..app.sessions[k]
                },
            )
        }),
{
    reveal(event_effects);
    reveal(session_effects);
    reveal(session_after);
    reveal(handled);
    lemma_stands(app, session_id@, k);
}

/// What a session's chat is once its run has ended well.
pub open spec fn chat_at_rest(before: ChatView, total_tokens: Option<u64>) -> ChatView {
    ChatView {
        prompt_progress: None,
        is_generating: false,
        current_thinking: Seq::empty(),
        active_tools: Seq::empty(),
        status: StatusView::Ready,
        token_count: match total_tokens {
            Some(n) => n,
            None => before.token_count,
        },
        ..before
    }
}

/// A run that ended well, with nothing waiting behind it, leaves its session
/// ready, and the application too where the session is selected. Its text
/// becomes a message: what was streamed, or the text of the end where nothing
/// was streamed. Then the gauge follows, and the session is saved.
pub proof fn a_completed_run_leaves_its_answer(
    app: AppView,
    session_id: String,
    content: String,
    total_tokens: Option<u64>,
    now_ms: u64,
    timestamp: Seq<char>,
    k: int,
)
    requires
        stands_at(app, session_id@, k),
        app.sessions[k].chat.queued_messages.len() == 0,
    ensures
        ({
            let e = AppEvent::StreamComplete { session_id, content, total_tokens };
            let before = app.sessions[k].chat;
            let after = handled(app, e.session(), e@, now_ms, timestamp);
            let asked = event_effects(app, e.session(), e@, now_ms, timestamp);
            &&& asked.len() == 3
            &&& before.stream_buffer.len() == 0 && trim(content@).len() > 0 ==> asked[0] == (
            EffectView::AppendMessage {
                session_id: session_id@,
                role: "assistant"@,
                content: content@,
            })
            &&& before.stream_buffer.len() > 0 || trim(content@).len() == 0 ==> asked[0] == (
            EffectView::CommitStream { session_id: session_id@ })
            &&& total_tokens is Some ==> asked[1] == (EffectView::ShowUsage {
                session_id: session_id@,
                n_ctx: app.remote_n_ctx,
            })
            &&& total_tokens is None ==> asked[1] == (EffectView::RefreshTokenGauge {
                session_id: session_id@,
                n_ctx: app.remote_n_ctx,
            })
            &&& asked[2] == (EffectView::SaveSession { session_id: session_id@ })
            &&& after == (AppView {
                sessions: after.sessions,
                usage_dirty: true,
                status: if app.selected_session_id == Some(session_id@) {
                    StatusView::Ready
                } else {
                    app.status
                },
                ..app
            })
            &&& sessions_only_at(
                app,
                after,
                k,
                SessionView { chat: chat_at_rest(before, total_tokens), ..app.sessions[k] },
            )
        }),
{
    reveal(event_effects);
    reveal(session_effects);
    reveal(session_after);
    reveal(handled);
    lemma_stands(app, session_id@, k);
    let e = AppEvent::StreamComplete { session_id, content, total_tokens };
    let next = session_after(app, session_id@, e@, now_ms);
    lemma_same_ids(next.sessions, app.sessions, session_id@, 0);
}

/// A run that ended well with a message waiting behind it is followed at once by
/// that message's run: with its text, its prompt, its policy and its image. The
/// rest of the queue waits on, in its order, and the message is not shown twice.
pub proof fn a_completed_run_is_followed_by_the_queue(
    app: AppView,
    session_id: String,
    content: String,
    total_tokens: Option<u64>,
    now_ms: u64,
    timestamp: Seq<char>,
    k: int,
)
    requires
        stands_at(app, session_id@, k),
        app.sessions[k].chat.queued_messages.len() > 0,
        app.event_channel,
    ensures
        ({
            let e = AppEvent::StreamComplete { session_id, content, total_tokens };
            let before = app.sessions[k].chat;
            let after = handled(app, e.session(), e@, now_ms, timestamp);
            let asked = event_effects(app, e.session(), e@, now_ms, timestamp);
            &&& asked.len() == 5
            &&& asked[2] == (EffectView::SaveSession { session_id: session_id@ })
            &&& asked[3] == (EffectView::CancelPipeline { session_id: session_id@ })
            &&& asked[4] == start_of(app, session_id@, before.queued_messages[0])
            &&& after == (AppView {
                sessions: after.sessions,
                usage_dirty: true,
                status: StatusView::Generating,
                ..app
            })
            &&& sessions_only_at(
                app,
                after,
                k,
                SessionView {
                    chat: ChatView {
                        is_generating: true,
                        pending_error: None,
                        queued_messages: before.queued_messages.drop_first(),
                        ..chat_at_rest(before, total_tokens)
                    },
                    ..app.sessions[k]
                },
            )
        }),
{
    reveal(event_effects);
    reveal(session_effects);
    reveal(session_after);
    reveal(handled);
    lemma_stands(app, session_id@, k);
    let e = AppEvent::StreamComplete { session_id, content, total_tokens };
    let next = session_after(app, session_id@, e@, now_ms);
    lemma_same_ids(next.sessions, app.sessions, session_id@, 0);
    let chat = next.sessions[k].chat;
    let rest = ChatView { queued_messages: chat.queued_messages.drop_first(), ..chat };
    lemma_with_chat(next, k, rest, session_id@);
}

/// What a session's chat is once its run has failed.
pub open spec fn chat_after_failure(before: ChatView, error: Seq<char>) -> ChatView {
    ChatView {
        prompt_progress: None,
        is_generating: false,
        active_tools: Seq::empty(),
        status: StatusView::Error(error),
        ..before
    }
}

/// A run that failed says so at the end of its text, which becomes a message; the
/// session shows the error, and the application too where the session is
/// selected. What was done is saved. Nothing that waits is started where the user
/// cancelled the run, or where nothing waits.
pub proof fn a_failed_run_says_so(
    app: AppView,
    session_id: String,
    error: String,
    now_ms: u64,
    timestamp: Seq<char>,
    k: int,
)
    requires
        stands_at(app, session_id@, k),
        app.sessions[k].chat.queued_messages.len() == 0 || error@ == "Cancelled"@,
    ensures
        ({
            let e = AppEvent::StreamError { session_id, error };
            let before = app.sessions[k].chat;
            let after = handled(app, e.session(), e@, now_ms, timestamp);
            &&& event_effects(app, e.session(), e@, now_ms, timestamp) == seq![
                EffectView::StreamChunk {
                    session_id: session_id@,
                    content: "\n\nStream error: "@ + error@,
                },
                EffectView::CommitStream { session_id: session_id@ },
                EffectView::SaveSession { session_id: session_id@ },
            ]
            &&& after == (AppView {
                sessions: after.sessions,
                status: if app.selected_session_id == Some(session_id@) {
                    StatusView::Error(error@)
                } else {
                    app.status
                },
                ..app
            })
            &&& sessions_only_at(
                app,
                after,
                k,
                SessionView { chat: chat_after_failure(before, error@), ..app.sessions[k] },
            )
        }),
{
    reveal(event_effects);
    reveal(session_effects);
    reveal(session_after);
    reveal(handled);
    lemma_stands(app, session_id@, k);
    let e = AppEvent::StreamError { session_id, error };
    let next = session_after(app, session_id@, e@, now_ms);
    lemma_same_ids(next.sessions, app.sessions, session_id@, 0);
}

/// A run that failed otherwise is followed by the first waiting message.
pub proof fn a_failed_run_is_followed_by_the_queue(
    app: AppView,
    session_id: String,
    error: String,
    now_ms: u64,
    timestamp: Seq<char>,
    k: int,
)
    requires
        stands_at(app, session_id@, k),
        app.sessions[k].chat.queued_messages.len() > 0,
        error@ != "Cancelled"@,
        app.event_channel,
    ensures
        ({
            let e = AppEvent::StreamError { session_id, error };
            let before = app.sessions[k].chat;
            let after = handled(app, e.session(), e@, now_ms, timestamp);
            &&& event_effects(app, e.session(), e@, now_ms, timestamp) == seq![
                EffectView::StreamChunk {
                    session_id: session_id@,
                    content: "\n\nStream error: "@ + error@,
                },
                EffectView::CommitStream { session_id: session_id@ },
                EffectView::SaveSession { session_id: session_id@ },
                EffectView::CancelPipeline { session_id: session_id@ },
                start_of(app, session_id@, before.queued_messages[0]),
            ]
            &&& after == (AppView {
                sessions: after.sessions,
                status: StatusView::Generating,
                ..app
            })
            &&& sessions_only_at(
                app,
                after,
                k,
                SessionView {
                    chat: ChatView {
                        is_generating: true,
                        pending_error: None,
                        queued_messages: before.queued_messages.drop_first(),
                        ..chat_after_failure(before, error@)
                    },
                    ..app.sessions[k]
                },
            )
        }),
{
    reveal(event_effects);
    reveal(session_effects);
    reveal(session_after);
    reveal(handled);
    lemma_stands(app, session_id@, k);
    let e = AppEvent::StreamError { session_id, error };
    let next = session_after(app, session_id@, e@, now_ms);
    lemma_same_ids(next.sessions, app.sessions, session_id@, 0);
    let chat = next.sessions[k].chat;
    let rest = ChatView { queued_messages: chat.queued_messages.drop_first(), ..chat };
    lemma_with_chat(next, k, rest, session_id@);
}

// ---------------------------------------------------------------------------
// Tool calls
// ---------------------------------------------------------------------------

/// A tool call that starts opens a card behind the others, with its name, its
/// arguments and the time; a call that is running already opens none. Nothing is
/// asked for.
pub proof fn a_started_call_opens_a_card(
    app: AppView,
    session_id: String,
    tool_name: String,
    call_id: String,
    args_preview: String,
    now_ms: u64,
    timestamp: Seq<char>,
    k: int,
)
    requires
        stands_at(app, session_id@, k),
    ensures
        ({
            let e = AppEvent::ToolCallStart { session_id, tool_name, call_id, args_preview };
            let before = app.sessions[k].chat;
            let after = handled(app, e.session(), e@, now_ms, timestamp);
            &&& event_effects(app, e.session(), e@, now_ms, timestamp).len() == 0
            &&& not_running(before.active_tools, call_id@) ==> only_at(
                app,
                after,
                k,
                SessionView {
                    chat: ChatView {
                        active_tools: before.active_tools.push(
                            ActiveToolView {
                                tool_name: tool_name@,
                                call_id: call_id@,
                                args_preview: args_preview@,
                                started_ms: now_ms,
                                live_output: Seq::empty(),
                            },
                        ),
                        ..before
                    },
                    ..app.sessions[k]
                },
            )
            &&& !not_running(before.active_tools, call_id@) ==> after == app
        }),
{
    reveal(event_effects);
    reveal(session_effects);
    reveal(session_after);
    reveal(handled);
    lemma_stands(app, session_id@, k);
    let e = AppEvent::ToolCallStart { session_id, tool_name, call_id, args_preview };
    let tools = app.sessions[k].chat.active_tools;
    if not_running(tools, call_id@) {
        lemma_not_running(tools, call_id@, 0);
    } else {
        let i = lemma_first_running(tools, call_id@);
        lemma_runs(tools, call_id@, i, 0);
        assert(handled(app, e.session(), e@, now_ms, timestamp).sessions =~= app.sessions);
    }
}

proof fn lemma_first_running(tools: Seq<ActiveToolView>, call_id: Seq<char>) -> (i: int)
    requires
        !not_running(tools, call_id),
    ensures
        runs_at(tools, call_id, i),
    decreases tools.len(),
{
    let rest = tools.drop_last();
    if not_running(rest, call_id) {
        let i = tools.len() - 1;
        let m = choose|m: int|
            0 <= m < tools.len() && (#[trigger] tools[m]).call_id == call_id;
        if m < i {
            assert(rest[m] == tools[m]);
        }
        assert forall|j: int| 0 <= j < i implies (#[trigger] tools[j]).call_id != call_id by {
            assert(rest[j] == tools[j]);
        }
        i
    } else {
        let i = lemma_first_running(rest, call_id);
        assert forall|j: int| 0 <= j < i implies (#[trigger] tools[j]).call_id != call_id by {
            assert(rest[j] == tools[j]);
        }
        i
    }
}

/// The live output of a call is what was reported last; its card shows that and
/// keeps the rest, and the other cards stay. The output of a call that is not
/// running is dropped.
pub proof fn live_output_replaces_the_last(
    app: AppView,
    session_id: String,
    tool_name: String,
    call_id: String,
    text: String,
    now_ms: u64,
    timestamp: Seq<char>,
    k: int,
    i: int,
)
    requires
        stands_at(app, session_id@, k),
    ensures
        ({
            let e = AppEvent::ToolCallProgress { session_id, tool_name, call_id, text };
            let before = app.sessions[k].chat;
            let after = handled(app, e.session(), e@, now_ms, timestamp);
            &&& event_effects(app, e.session(), e@, now_ms, timestamp).len() == 0
            &&& runs_at(before.active_tools, call_id@, i) ==> only_at(
                app,
                after,
                k,
                SessionView {
                    chat: ChatView {
                        active_tools: before.active_tools.update(
                            i,
                            ActiveToolView { live_output: text@, ..before.active_tools[i] },
                        ),
                        ..before
                    },
                    ..app.sessions[k]
                },
            )
            &&& not_running(before.active_tools, call_id@) ==> after == app
        }),
{
    reveal(event_effects);
    reveal(session_effects);
    reveal(session_after);
    reveal(handled);
    lemma_stands(app, session_id@, k);
    let e = AppEvent::ToolCallProgress { session_id, tool_name, call_id, text };
    let tools = app.sessions[k].chat.active_tools;
    if runs_at(tools, call_id@, i) {
        lemma_runs(tools, call_id@, i, 0);
    }
    if not_running(tools, call_id@) {
        lemma_not_running(tools, call_id@, 0);
        assert(handled(app, e.session(), e@, now_ms, timestamp).sessions =~= app.sessions);
    }
}

/// The message that a completed call leaves, given its card: what it was called
/// with, its id, its result and how long it took.
pub open spec fn left_by_call(
    tool_name: Seq<char>,
    call_id: Seq<char>,
    result: Seq<char>,
    fallback_header: Seq<char>,
    card: Option<ActiveToolView>,
    now_ms: u64,
) -> Seq<char> {
    let header = match card {
        Some(c) if c.args_preview.len() > 0 => "🔧 "@ + tool_name + ": "@ + c.args_preview,
        _ => fallback_header,
    };
    let body = header + "||"@ + call_id + "||"@ + result;
    match card {
        Some(c) if now_ms > c.started_ms => body + "||"@ + decimal((now_ms - c.started_ms) as nat),
        _ => body,
    }
}

/// The message that a failed call leaves, given its card.
pub open spec fn left_by_failure(
    tool_name: Seq<char>,
    call_id: Seq<char>,
    error: Seq<char>,
    card: Option<ActiveToolView>,
    now_ms: u64,
) -> Seq<char> {
    let header = match card {
        Some(c) if c.args_preview.len() > 0 => "✗ "@ + tool_name + ": "@ + c.args_preview + " — "@
            + error,
        _ => "Tool '"@ + tool_name + "' error: "@ + error,
    };
    let body = header + "||"@ + call_id + "||"@ + error + "||"@;
    match card {
        Some(c) if now_ms > c.started_ms => body + decimal((now_ms - c.started_ms) as nat),
        _ => body,
    }
}

/// Whether `card` is that of the running call with this id.
pub open spec fn card_of(
    tools: Seq<ActiveToolView>,
    call_id: Seq<char>,
    card: Option<ActiveToolView>,
    i: int,
) -> bool {
    match card {
        Some(c) => runs_at(tools, call_id, i) && c == tools[i],
        None => not_running(tools, call_id),
    }
}

/// A completed call leaves a tool message with its result, and its card is
/// closed; the cards of other calls stay, in their order.
pub proof fn a_completed_call_leaves_its_result(
    app: AppView,
    session_id: String,
    tool_name: String,
    call_id: String,
    result: String,
    fallback_header: String,
    now_ms: u64,
    timestamp: Seq<char>,
    k: int,
    card: Option<ActiveToolView>,
    i: int,
)
    requires
        stands_at(app, session_id@, k),
        card_of(app.sessions[k].chat.active_tools, call_id@, card, i),
    ensures
        ({
            let e = AppEvent::ToolCallComplete {
                session_id,
                tool_name,
                call_id,
                result,
                fallback_header,
            };
            let before = app.sessions[k].chat;
            let after = handled(app, e.session(), e@, now_ms, timestamp);
            &&& event_effects(app, e.session(), e@, now_ms, timestamp) == seq![
                EffectView::PushMessage {
                    session_id: session_id@,
                    kind: MessageKind::Tool,
                    role: "tool"@,
                    content: left_by_call(
                        tool_name@,
                        call_id@,
                        result@,
                        fallback_header@,
                        card,
                        now_ms,
                    ),
                },
            ]
            &&& only_at(
                app,
                after,
                k,
                SessionView {
                    chat: ChatView {
                        active_tools: others(before.active_tools, call_id@),
                        ..before
                    },
                    ..app.sessions[k]
                },
            )
        }),
{
    reveal(event_effects);
    reveal(session_effects);
    reveal(session_after);
    reveal(handled);
    lemma_stands(app, session_id@, k);
    let tools = app.sessions[k].chat.active_tools;
    lemma_others(tools, call_id@);
    match card {
        Some(_) => lemma_runs(tools, call_id@, i, 0),
        None => lemma_not_running(tools, call_id@, 0),
    }
    let e = AppEvent::ToolCallComplete { session_id, tool_name, call_id, result, fallback_header };
    let asked = event_effects(app, e.session(), e@, now_ms, timestamp);
    assert(asked.len() == 1);
    assert(asked[0]->PushMessage_content =~= left_by_call(
        tool_name@,
        call_id@,
        result@,
        fallback_header@,
        card,
        now_ms,
    ));
}

/// A failed call leaves a tool message with its error, and its card is closed;
/// the cards of other calls stay, in their order.
pub proof fn a_failed_call_leaves_its_error(
    app: AppView,
    session_id: String,
    tool_name: String,
    call_id: String,
    error: String,
    now_ms: u64,
    timestamp: Seq<char>,
    k: int,
    card: Option<ActiveToolView>,
    i: int,
)
    requires
        stands_at(app, session_id@, k),
        card_of(app.sessions[k].chat.active_tools, call_id@, card, i),
    ensures
        ({
            let e = AppEvent::ToolCallError { session_id, tool_name, call_id, error };
            let before = app.sessions[k].chat;
            let after = handled(app, e.session(), e@, now_ms, timestamp);
            &&& event_effects(app, e.session(), e@, now_ms, timestamp) == seq![
                EffectView::PushMessage {
                    session_id: session_id@,
                    kind: MessageKind::Tool,
                    role: "tool"@,
                    content: left_by_failure(tool_name@, call_id@, error@, card, now_ms),
                },
            ]
            &&& only_at(
                app,
                after,
                k,
                SessionView {
                    chat: ChatView {
                        active_tools: others(before.active_tools, call_id@),
                        ..before
                    },
                    ..app.sessions[k]
                },
            )
        }),
{
    reveal(event_effects);
    reveal(session_effects);
    reveal(session_after);
    reveal(handled);
    lemma_stands(app, session_id@, k);
    let tools = app.sessions[k].chat.active_tools;
    lemma_others(tools, call_id@);
    match card {
        Some(_) => lemma_runs(tools, call_id@, i, 0),
        None => lemma_not_running(tools, call_id@, 0),
    }
    let e = AppEvent::ToolCallError { session_id, tool_name, call_id, error };
    let asked = event_effects(app, e.session(), e@, now_ms, timestamp);
    assert(asked.len() == 1);
    assert(asked[0]->PushMessage_content =~= left_by_failure(
        tool_name@,
        call_id@,
        error@,
        card,
        now_ms,
    ));
}

// ---------------------------------------------------------------------------
// Handoffs, suggestions, restarts, late messages
// ---------------------------------------------------------------------------

/// A handoff gives the session to the agent it goes to, keeps that with the
/// session, and says in the chat from whom, to whom and with which task.
pub proof fn a_handoff_gives_the_session_to_its_target(
    app: AppView,
    session_id: String,
    from: String,
    to: String,
    task: String,
    now_ms: u64,
    timestamp: Seq<char>,
    k: int,
)
    requires
        stands_at(app, session_id@, k),
    ensures
        ({
            let e = AppEvent::AgentHandoff { session_id, from, to, task };
            &&& event_effects(app, e.session(), e@, now_ms, timestamp) == seq![
                EffectView::SetSessionMeta { session_id: session_id@ },
                EffectView::PushMessage {
                    session_id: session_id@,
                    kind: MessageKind::Normal,
                    role: "system"@,
                    content: "🔀 Handoff: "@ + from@ + " → "@ + to@ + " — "@ + task@,
                },
            ]
            &&& only_at(
                app,
                handled(app, e.session(), e@, now_ms, timestamp),
                k,
                SessionView { selected_agent: Some(to@), ..app.sessions[k] },
            )
        }),
{
    reveal(event_effects);
    reveal(session_effects);
    reveal(session_after);
    reveal(handled);
    lemma_stands(app, session_id@, k);
}

/// Suggestions go to the review panel, which opens; no session changes, and
/// nothing is asked for.
pub proof fn suggestions_open_the_review(
    app: AppView,
    session_id: String,
    agent_name: String,
    suggestions: Vec<ImprovementSuggestion>,
    now_ms: u64,
    timestamp: Seq<char>,
)
    ensures
        ({
            let e = AppEvent::ImprovementSuggested { session_id, agent_name, suggestions };
            &&& event_effects(app, e.session(), e@, now_ms, timestamp).len() == 0
            &&& handled(app, e.session(), e@, now_ms, timestamp) == (AppView {
                improvements_panel: PanelView {
                    pending: merged(
                        app.improvements_panel.pending,
                        suggestion_views(suggestions@),
                    ),
                    show_panel: true,
                    message: app.improvements_panel.message,
                },
                ..app
            })
        }),
{
    reveal(event_effects);
    reveal(session_effects);
    reveal(handled);
}

/// A warning and a new context size change nothing and ask for nothing; a changed
/// MCP configuration is read again, and changes nothing by itself.
pub proof fn notes_change_nothing(
    app: AppView,
    session_id: String,
    tool_name: String,
    warning: String,
    n_ctx: u32,
    now_ms: u64,
    timestamp: Seq<char>,
)
    ensures
        ({
            let e = AppEvent::ToolCallWarning { session_id, tool_name, warning };
            &&& handled(app, e.session(), e@, now_ms, timestamp) == app
            &&& event_effects(app, e.session(), e@, now_ms, timestamp).len() == 0
        }),
        ({
            let e = AppEvent::NCtxUpdated { session_id, n_ctx };
            &&& handled(app, e.session(), e@, now_ms, timestamp) == app
            &&& event_effects(app, e.session(), e@, now_ms, timestamp).len() == 0
        }),
        ({
            let e = AppEvent::McpConfigChanged { session_id };
            &&& handled(app, e.session(), e@, now_ms, timestamp) == app
            &&& event_effects(app, e.session(), e@, now_ms, timestamp) == seq![
                EffectView::ReloadMcpServers,
            ]
        }),
{
    reveal(event_effects);
    reveal(session_effects);
    reveal(session_after);
    reveal(handled);
    lemma_session_at(app.sessions, session_id@, 0);
    let e = AppEvent::ToolCallWarning { session_id, tool_name, warning };
    assert(handled(app, e.session(), e@, now_ms, timestamp).sessions =~= app.sessions);
    let e = AppEvent::NCtxUpdated { session_id, n_ctx };
    assert(handled(app, e.session(), e@, now_ms, timestamp).sessions =~= app.sessions);
    let e = AppEvent::McpConfigChanged { session_id };
    assert(handled(app, e.session(), e@, now_ms, timestamp).sessions =~= app.sessions);
}

/// A restart first saves the session, then says in its chat why, and only then
/// starts the program again, by the path that was given.
pub proof fn a_restart_saves_first(
    app: AppView,
    session_id: String,
    reason: String,
    exe_path: Option<String>,
    now_ms: u64,
    timestamp: Seq<char>,
    k: int,
)
    requires
        stands_at(app, session_id@, k),
    ensures
        ({
            let e = AppEvent::RestartRequested { session_id, reason, exe_path };
            &&& event_effects(app, e.session(), e@, now_ms, timestamp) == seq![
                EffectView::SaveSession { session_id: session_id@ },
                EffectView::PushMessage {
                    session_id: session_id@,
                    kind: MessageKind::Normal,
                    role: "system"@,
                    content: "🔁 Restart: "@ + reason@,
                },
                EffectView::Restart { reason: reason@, exe_path: opt_text(exe_path) },
            ]
            &&& handled(app, e.session(), e@, now_ms, timestamp) == app
        }),
{
    reveal(event_effects);
    reveal(session_effects);
    reveal(session_after);
    reveal(handled);
    lemma_stands(app, session_id@, k);
    let e = AppEvent::RestartRequested { session_id, reason, exe_path };
    assert(handled(app, e.session(), e@, now_ms, timestamp).sessions =~= app.sessions);
}

/// A message that came too late for its run starts a run of its own, with its
/// text, its prompt, its policy and its image, and is not shown a second time;
/// where another run is in progress it waits last in the queue.
pub proof fn a_late_message_is_not_lost(
    app: AppView,
    session_id: String,
    message: QueuedMessage,
    now_ms: u64,
    timestamp: Seq<char>,
    k: int,
)
    requires
        stands_at(app, session_id@, k),
        app.event_channel,
    ensures
        ({
            let e = AppEvent::UserMessageDrained { session_id, message };
            let before = app.sessions[k].chat;
            let after = handled(app, e.session(), e@, now_ms, timestamp);
            let asked = event_effects(app, e.session(), e@, now_ms, timestamp);
            &&& before.is_generating ==> {
                &&& asked.len() == 0
                &&& only_at(
                    app,
                    after,
                    k,
                    SessionView {
                        chat: ChatView {
                            queued_messages: before.queued_messages.push(message@),
                            ..before
                        },
                        ..app.sessions[k]
                    },
                )
            }
            &&& !before.is_generating ==> {
                &&& asked == seq![
                    EffectView::CancelPipeline { session_id: session_id@ },
                    start_of(app, session_id@, message@),
                ]
                &&& after == (AppView {
                    sessions: after.sessions,
                    status: StatusView::Generating,
                    ..app
                })
                &&& sessions_only_at(
                    app,
                    after,
                    k,
                    SessionView {
                        chat: ChatView { is_generating: true, pending_error: None, ..before },
                        ..app.sessions[k]
                    },
                )
            }
        }),
{
    reveal(event_effects);
    reveal(session_effects);
    reveal(session_after);
    reveal(handled);
    lemma_stands(app, session_id@, k);
}

/// An event of a session that is gone changes no session and adds nothing to any
/// chat; at the end of a run the session is still to be saved.
pub proof fn an_event_without_a_session_changes_none(
    app: AppView,
    e: AppEvent,
    now_ms: u64,
    timestamp: Seq<char>,
)
    requires
        absent(app, e.session()),
    ensures
        handled(app, e.session(), e@, now_ms, timestamp).sessions == app.sessions,
        forall|i: int|
            0 <= i < event_effects(app, e.session(), e@, now_ms, timestamp).len() ==> {
                let asked = #[trigger] event_effects(app, e.session(), e@, now_ms, timestamp)[i];
                asked == (EffectView::SaveSession { session_id: e.session() })
                    || asked is ReloadMcpServers || asked is Restart
            },
{
    reveal(event_effects);
    reveal(session_effects);
    reveal(session_after);
    reveal(handled);
    lemma_absent(app, e.session());
}

} // verus!

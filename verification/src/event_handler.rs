//! What the interface does on the events of a run: streamed text, tool calls,
//! handoffs, suggestions, restarts and late messages.

use vstd::prelude::*;

use crate::chat_state::{
    ask, effect_views, tool_views, ActiveTool, ActiveToolView, AppStatus, AppView, ChatApp,
    ChatEffect, ChatView, EffectView, PromptProgress, QueuedMessage, QueuedView, SessionView,
    StatusView,
};
use crate::improvements::{
    merged, suggestion_views, ImprovementSuggestion, PanelView, SuggestionView,
};
use crate::input::{drain_effects, drained, run_effects, run_started};
use crate::numbers::{decimal, decimal_text};
use crate::text::{is_blank, opt_text, same_text, trim};
use crate::types::MessageKind;

verus! {

// ---------------------------------------------------------------------------
// Tool messages
// ---------------------------------------------------------------------------

/// The first running tool call with this id, from `from` on.
pub open spec fn tool_at(tools: Seq<ActiveToolView>, call_id: Seq<char>, from: int) -> Option<int>
    decreases tools.len() - from,
{
    if from < 0 || from >= tools.len() {
        None
    } else if tools[from].call_id == call_id {
        Some(from)
    } else {
        tool_at(tools, call_id, from + 1)
    }
}

/// The running tool calls without those with this id.
pub open spec fn tools_without(tools: Seq<ActiveToolView>, call_id: Seq<char>) -> Seq<
    ActiveToolView,
>
    decreases tools.len(),
{
    if tools.len() == 0 {
        Seq::empty()
    } else {
        let before = tools_without(tools.drop_last(), call_id);
        if tools.last().call_id == call_id {
            before
        } else {
            before.push(tools.last())
        }
    }
}

/// The time since a call started.
pub open spec fn elapsed(started_ms: u64, now_ms: u64) -> u64 {
    if now_ms >= started_ms {
        (now_ms - started_ms) as u64
    } else {
        0
    }
}

/// The argument preview and the duration of a call that ends now; an unknown
/// call has neither.
pub open spec fn call_record(tools: Seq<ActiveToolView>, call_id: Seq<char>, now_ms: u64) -> (
    Seq<char>,
    u64,
) {
    match tool_at(tools, call_id, 0) {
        Some(i) => (tools[i].args_preview, elapsed(tools[i].started_ms, now_ms)),
        None => (Seq::empty(), 0),
    }
}

/// The message of a completed tool call: header, call id, result and, where
/// it is known, the duration.
pub open spec fn complete_message(
    tool_name: Seq<char>,
    call_id: Seq<char>,
    result: Seq<char>,
    fallback_header: Seq<char>,
    record: (Seq<char>, u64),
) -> Seq<char> {
    let header = if record.0.len() == 0 {
        fallback_header
    } else {
        "🔧 "@ + tool_name + ": "@ + record.0
    };
    if record.1 > 0 {
        header + "||"@ + call_id + "||"@ + result + "||"@ + decimal(record.1 as nat)
    } else {
        header + "||"@ + call_id + "||"@ + result
    }
}

/// The message of a failed tool call.
pub open spec fn error_message(
    tool_name: Seq<char>,
    call_id: Seq<char>,
    error: Seq<char>,
    record: (Seq<char>, u64),
) -> Seq<char> {
    let header = if record.0.len() == 0 {
        "Tool '"@ + tool_name + "' error: "@ + error
    } else {
        "✗ "@ + tool_name + ": "@ + record.0 + " — "@ + error
    };
    if record.1 > 0 {
        header + "||"@ + call_id + "||"@ + error + "||"@ + decimal(record.1 as nat)
    } else {
        header + "||"@ + call_id + "||"@ + error + "||"@
    }
}

fn find_tool(tools: &Vec<ActiveTool>, call_id: &str) -> (r: Option<usize>)
    ensures
        match r {
            Some(i) => tool_at(tool_views(tools@), call_id@, 0) == Some(i as int) && i
                < tools@.len(),
            None => tool_at(tool_views(tools@), call_id@, 0) is None,
        },
{
    let mut i: usize = 0;
    while i < tools.len()
        invariant
            i <= tools@.len(),
            tool_at(tool_views(tools@), call_id@, 0) == tool_at(
                tool_views(tools@),
                call_id@,
                i as int,
            ),
        decreases tools.len() - i,
    {
        if same_text(tools[i].call_id.as_str(), call_id) {
            return Some(i);
        }
        i += 1;
    }
    None
}

fn drop_tool(tools: &mut Vec<ActiveTool>, call_id: &str)
    ensures
        tool_views(final(tools)@) == tools_without(tool_views(old(tools)@), call_id@),
{
    let ghost all = tool_views(tools@);
    let n: usize = tools.len();
    let mut i: usize = 0;
    let mut j: usize = 0;
    assert(tools_without(all.take(0), call_id@) + all.skip(0) =~= all);
    while i < n
        invariant
            i <= n,
            n == all.len(),
            tool_views(tools@) == tools_without(all.take(i as int), call_id@) + all.skip(i as int),
            j == tools_without(all.take(i as int), call_id@).len(),
            j <= i,
        decreases n - i,
    {
        let ghost kept = tools_without(all.take(i as int), call_id@);
        let ghost before = tool_views(tools@);
        assert(before.len() == tools@.len());
        assert(before[j as int] == all[i as int]);
        assert(all.take(i + 1).drop_last() =~= all.take(i as int));
        if same_text(tools[j].call_id.as_str(), call_id) {
            tools.remove(j);
            assert(tool_views(tools@) =~= before.remove(j as int));
            assert(tool_views(tools@) =~= kept + all.skip(i + 1));
        } else {
            assert(kept + all.skip(i as int) =~= kept.push(all[i as int]) + all.skip(i + 1));
            j += 1;
        }
        i += 1;
    }
    assert(all.take(n as int) =~= all);
    assert(all.skip(n as int) =~= Seq::empty());
    assert(tool_views(tools@) =~= tools_without(all, call_id@));
}

fn take_record(tools: &mut Vec<ActiveTool>, call_id: &str, now_ms: u64) -> (r: (String, u64))
    ensures
        (r.0@, r.1) == call_record(tool_views(old(tools)@), call_id@, now_ms),
        tool_views(final(tools)@) == tools_without(tool_views(old(tools)@), call_id@),
{
    let record = match find_tool(tools, call_id) {
        Some(i) => {
            let started: u64 = tools[i].started_ms;
            let ms: u64 = if now_ms >= started {
                now_ms - started
            } else {
                0
            };
            (tools[i].args_preview.clone(), ms)
        },
        None => (String::new(), 0),
    };
    drop_tool(tools, call_id);
    record
}

/// The message of a completed tool call.
pub fn tool_complete_message(
    tool_name: &str,
    call_id: &str,
    result: &str,
    fallback_header: &str,
    args_preview: &str,
    duration_ms: u64,
) -> (r: String)
    ensures
        r@ == complete_message(
            tool_name@,
            call_id@,
            result@,
            fallback_header@,
            (args_preview@, duration_ms),
        ),
{
    let mut out = if args_preview.is_empty() {
        fallback_header.to_owned()
    } else {
        let mut h = "🔧 ".to_owned();
        h.append(tool_name);
        h.append(": ");
        h.append(args_preview);
        h
    };
    out.append("||");
    out.append(call_id);
    out.append("||");
    out.append(result);
    if duration_ms > 0 {
        out.append("||");
        out.append(decimal_text(duration_ms).as_str());
    }
    out
}

/// The message of a failed tool call.
pub fn tool_error_message(
    tool_name: &str,
    call_id: &str,
    error: &str,
    args_preview: &str,
    duration_ms: u64,
) -> (r: String)
    ensures
        r@ == error_message(tool_name@, call_id@, error@, (args_preview@, duration_ms)),
{
    let mut out = if args_preview.is_empty() {
        let mut h = "Tool '".to_owned();
        h.append(tool_name);
        h.append("' error: ");
        h.append(error);
        h
    } else {
        let mut h = "✗ ".to_owned();
        h.append(tool_name);
        h.append(": ");
        h.append(args_preview);
        h.append(" — ");
        h.append(error);
        h
    };
    out.append("||");
    out.append(call_id);
    out.append("||");
    out.append(error);
    out.append("||");
    if duration_ms > 0 {
        out.append(decimal_text(duration_ms).as_str());
    }
    out
}

// ---------------------------------------------------------------------------
// Events
// ---------------------------------------------------------------------------

/// An event of a run, with the session it belongs to.
pub enum AppEvent {
    StreamChunk { session_id: String, content: String },
    StreamPromptProgress { session_id: String, progress: PromptProgress, has_speed: bool },
    /// A tool round ended; the server may report the tokens used.
    StreamRoundComplete { session_id: String, total_tokens: Option<u64> },
    /// The run ended; the server may report the tokens used.
    StreamComplete { session_id: String, content: String, total_tokens: Option<u64> },
    StreamError { session_id: String, error: String },
    StreamThinkingChunk { session_id: String, content: String },
    StreamThinkingComplete { session_id: String },
    ToolCallWarning { session_id: String, tool_name: String, warning: String },
    ToolCallStart { session_id: String, tool_name: String, call_id: String, args_preview: String },
    ToolCallProgress { session_id: String, tool_name: String, call_id: String, text: String },
    /// A tool call ended; `fallback_header` heads its message where the call
    /// has no argument preview.
    ToolCallComplete {
        session_id: String,
        tool_name: String,
        call_id: String,
        result: String,
        fallback_header: String,
    },
    ToolCallError { session_id: String, tool_name: String, call_id: String, error: String },
    NCtxUpdated { session_id: String, n_ctx: u32 },
    AgentHandoff { session_id: String, from: String, to: String, task: String },
    ImprovementSuggested {
        session_id: String,
        agent_name: String,
        suggestions: Vec<ImprovementSuggestion>,
    },
    McpConfigChanged { session_id: String },
    RestartRequested { session_id: String, reason: String, exe_path: Option<String> },
    /// A message sent during a run came too late for it.
    UserMessageDrained { session_id: String, message: QueuedMessage },
}

/// What an event says.
#[verifier::ext_equal]
pub enum EventView {
    StreamChunk { content: Seq<char> },
    StreamPromptProgress { progress: PromptProgress, has_speed: bool },
    StreamRoundComplete { total_tokens: Option<u64> },
    StreamComplete { content: Seq<char>, total_tokens: Option<u64> },
    StreamError { error: Seq<char> },
    StreamThinkingChunk { content: Seq<char> },
    StreamThinkingComplete,
    ToolCallWarning,
    ToolCallStart { tool_name: Seq<char>, call_id: Seq<char>, args_preview: Seq<char> },
    ToolCallProgress { call_id: Seq<char>, text: Seq<char> },
    ToolCallComplete {
        tool_name: Seq<char>,
        call_id: Seq<char>,
        result: Seq<char>,
        fallback_header: Seq<char>,
    },
    ToolCallError { tool_name: Seq<char>, call_id: Seq<char>, error: Seq<char> },
    NCtxUpdated,
    AgentHandoff { from: Seq<char>, to: Seq<char>, task: Seq<char> },
    ImprovementSuggested { suggestions: Seq<SuggestionView> },
    McpConfigChanged,
    RestartRequested { reason: Seq<char>, exe_path: Option<Seq<char>> },
    UserMessageDrained { message: QueuedView },
}

impl View for AppEvent {
    type V = EventView;

    open spec fn view(&self) -> EventView {
        match *self {
            AppEvent::StreamChunk { session_id, content } => EventView::StreamChunk {
                content: content@,
            },
            AppEvent::StreamPromptProgress { session_id, progress, has_speed } =>
                EventView::StreamPromptProgress { progress, has_speed },
            AppEvent::StreamRoundComplete { session_id, total_tokens } =>
                EventView::StreamRoundComplete { total_tokens },
            AppEvent::StreamComplete { session_id, content, total_tokens } =>
                EventView::StreamComplete { content: content@, total_tokens },
            AppEvent::StreamError { session_id, error } => EventView::StreamError { error: error@ },
            AppEvent::StreamThinkingChunk { session_id, content } =>
                EventView::StreamThinkingChunk { content: content@ },
            AppEvent::StreamThinkingComplete { session_id } => EventView::StreamThinkingComplete,
            AppEvent::ToolCallWarning { session_id, tool_name, warning } =>
                EventView::ToolCallWarning,
            AppEvent::ToolCallStart { session_id, tool_name, call_id, args_preview } =>
                EventView::ToolCallStart {
                tool_name: tool_name@,
                call_id: call_id@,
                args_preview: args_preview@,
            },
            AppEvent::ToolCallProgress { session_id, tool_name, call_id, text } =>
                EventView::ToolCallProgress { call_id: call_id@, text: text@ },
            AppEvent::ToolCallComplete {
                session_id,
                tool_name,
                call_id,
                result,
                fallback_header,
            } => EventView::ToolCallComplete {
                tool_name: tool_name@,
                call_id: call_id@,
                result: result@,
                fallback_header: fallback_header@,
            },
            AppEvent::ToolCallError { session_id, tool_name, call_id, error } =>
                EventView::ToolCallError {
                tool_name: tool_name@,
                call_id: call_id@,
                error: error@,
            },
            AppEvent::NCtxUpdated { session_id, n_ctx } => EventView::NCtxUpdated,
            AppEvent::AgentHandoff { session_id, from, to, task } => EventView::AgentHandoff {
                from: from@,
                to: to@,
                task: task@,
            },
            AppEvent::ImprovementSuggested { session_id, agent_name, suggestions } =>
                EventView::ImprovementSuggested { suggestions: suggestion_views(suggestions@) },
            AppEvent::McpConfigChanged { session_id } => EventView::McpConfigChanged,
            AppEvent::RestartRequested { session_id, reason, exe_path } =>
                EventView::RestartRequested { reason: reason@, exe_path: opt_text(exe_path) },
            AppEvent::UserMessageDrained { session_id, message } => EventView::UserMessageDrained {
                message: message@,
            },
        }
    }
}

impl AppEvent {
    /// The session that the event belongs to.
    pub open spec fn session(self) -> Seq<char> {
        match self {
            AppEvent::StreamChunk { session_id, .. } => session_id@,
            AppEvent::StreamPromptProgress { session_id, .. } => session_id@,
            AppEvent::StreamRoundComplete { session_id, .. } => session_id@,
            AppEvent::StreamComplete { session_id, .. } => session_id@,
            AppEvent::StreamError { session_id, .. } => session_id@,
            AppEvent::StreamThinkingChunk { session_id, .. } => session_id@,
            AppEvent::StreamThinkingComplete { session_id } => session_id@,
            AppEvent::ToolCallWarning { session_id, .. } => session_id@,
            AppEvent::ToolCallStart { session_id, .. } => session_id@,
            AppEvent::ToolCallProgress { session_id, .. } => session_id@,
            AppEvent::ToolCallComplete { session_id, .. } => session_id@,
            AppEvent::ToolCallError { session_id, .. } => session_id@,
            AppEvent::NCtxUpdated { session_id, .. } => session_id@,
            AppEvent::AgentHandoff { session_id, .. } => session_id@,
            AppEvent::ImprovementSuggested { session_id, .. } => session_id@,
            AppEvent::McpConfigChanged { session_id } => session_id@,
            AppEvent::RestartRequested { session_id, .. } => session_id@,
            AppEvent::UserMessageDrained { session_id, .. } => session_id@,
        }
    }

    /// The session that the event belongs to.
    pub fn session_id(&self) -> (r: &String)
        ensures
            r@ == self.session(),
    {
        match self {
            AppEvent::StreamChunk { session_id, .. } => session_id,
            AppEvent::StreamPromptProgress { session_id, .. } => session_id,
            AppEvent::StreamRoundComplete { session_id, .. } => session_id,
            AppEvent::StreamComplete { session_id, .. } => session_id,
            AppEvent::StreamError { session_id, .. } => session_id,
            AppEvent::StreamThinkingChunk { session_id, .. } => session_id,
            AppEvent::StreamThinkingComplete { session_id } => session_id,
            AppEvent::ToolCallWarning { session_id, .. } => session_id,
            AppEvent::ToolCallStart { session_id, .. } => session_id,
            AppEvent::ToolCallProgress { session_id, .. } => session_id,
            AppEvent::ToolCallComplete { session_id, .. } => session_id,
            AppEvent::ToolCallError { session_id, .. } => session_id,
            AppEvent::NCtxUpdated { session_id, .. } => session_id,
            AppEvent::AgentHandoff { session_id, .. } => session_id,
            AppEvent::ImprovementSuggested { session_id, .. } => session_id,
            AppEvent::McpConfigChanged { session_id } => session_id,
            AppEvent::RestartRequested { session_id, .. } => session_id,
            AppEvent::UserMessageDrained { session_id, .. } => session_id,
        }
    }
}

// ---------------------------------------------------------------------------
// What an event does to a chat
// ---------------------------------------------------------------------------

/// Whether the end of a run brings its text only now: backends that do not
/// stream.
pub open spec fn unstreamed(chat: ChatView, content: Seq<char>) -> bool {
    chat.stream_buffer.len() == 0 && trim(content).len() > 0
}

/// The chat after an event that concerns the chat alone.
pub open spec fn chat_after(chat: ChatView, event: EventView, now_ms: u64) -> ChatView {
    match event {
        EventView::StreamPromptProgress { progress, .. } => ChatView {
            prompt_progress: Some(progress),
            ..chat
        },
        EventView::StreamRoundComplete { total_tokens } => ChatView {
            prompt_progress: None,
            token_count: match total_tokens {
                Some(n) => n,
                None => chat.token_count,
            },
            ..chat
        },
        EventView::StreamComplete { content, total_tokens } => ChatView {
            prompt_progress: None,
            is_generating: false,
            current_thinking: Seq::empty(),
            active_tools: Seq::empty(),
            status: StatusView::Ready,
            token_count: match total_tokens {
                Some(n) => n,
                None => chat.token_count,
            },
            ..chat
        },
        EventView::StreamError { error } => ChatView {
            prompt_progress: None,
            is_generating: false,
            active_tools: Seq::empty(),
            status: StatusView::Error(error),
            ..chat
        },
        EventView::StreamThinkingComplete => ChatView {
            current_thinking: Seq::empty(),
            ..chat
        },
        EventView::ToolCallStart { tool_name, call_id, args_preview } => ChatView {
            active_tools: if tool_at(chat.active_tools, call_id, 0) is Some {
                chat.active_tools
            } else {
                chat.active_tools.push(
                    ActiveToolView {
                        tool_name,
                        call_id,
                        args_preview,
                        started_ms: now_ms,
                        live_output: Seq::empty(),
                    },
                )
            },
            ..chat
        },
        EventView::ToolCallProgress { call_id, text } => ChatView {
            active_tools: match tool_at(chat.active_tools, call_id, 0) {
                Some(i) => chat.active_tools.update(
                    i,
                    ActiveToolView { live_output: text, ..chat.active_tools[i] },
                ),
                None => chat.active_tools,
            },
            ..chat
        },
        EventView::ToolCallComplete { call_id, .. } => ChatView {
            active_tools: tools_without(chat.active_tools, call_id),
            ..chat
        },
        EventView::ToolCallError { call_id, .. } => ChatView {
            active_tools: tools_without(chat.active_tools, call_id),
            ..chat
        },
        _ => chat,
    }
}

/// What an event asks for where its session is there, apart from saving and
/// the queue.
pub open spec fn chat_effects(
    chat: ChatView,
    sid: Seq<char>,
    event: EventView,
    n_ctx: u32,
    now_ms: u64,
) -> Seq<EffectView> {
    match event {
        EventView::StreamChunk { content } => seq![
            EffectView::StreamChunk { session_id: sid, content },
            EffectView::UpdateLiveEstimates { session_id: sid, n_ctx },
        ],
        EventView::StreamThinkingChunk { content } => seq![
            EffectView::StreamThinkingChunk { session_id: sid, content },
            EffectView::UpdateLiveEstimates { session_id: sid, n_ctx },
        ],
        EventView::StreamPromptProgress { progress, has_speed } => if has_speed {
            seq![EffectView::ShowPromptSpeed { session_id: sid }]
        } else {
            Seq::empty()
        },
        EventView::StreamRoundComplete { total_tokens } => seq![
            EffectView::CommitStream { session_id: sid },
            usage_effect(sid, total_tokens, n_ctx),
        ],
        EventView::StreamComplete { content, total_tokens } => seq![
            if unstreamed(chat, content) {
                EffectView::AppendMessage { session_id: sid, role: "assistant"@, content }
            } else {
                EffectView::CommitStream { session_id: sid }
            },
            usage_effect(sid, total_tokens, n_ctx),
        ],
        EventView::StreamError { error } => seq![
            EffectView::StreamChunk {
                session_id: sid,
                content: "\n\nStream error: "@ + error,
            },
            EffectView::CommitStream { session_id: sid },
        ],
        EventView::StreamThinkingComplete => if chat.current_thinking.len() == 0 {
            Seq::empty()
        } else {
            seq![
                EffectView::PushMessage {
                    session_id: sid,
                    kind: MessageKind::Thinking,
                    role: "assistant"@,
                    content: chat.current_thinking,
                },
            ]
        },
        EventView::ToolCallComplete { tool_name, call_id, result, fallback_header } => seq![
            EffectView::PushMessage {
                session_id: sid,
                kind: MessageKind::Tool,
                role: "tool"@,
                content: complete_message(
                    tool_name,
                    call_id,
                    result,
                    fallback_header,
                    call_record(chat.active_tools, call_id, now_ms),
                ),
            },
        ],
        EventView::ToolCallError { tool_name, call_id, error } => seq![
            EffectView::PushMessage {
                session_id: sid,
                kind: MessageKind::Tool,
                role: "tool"@,
                content: error_message(
                    tool_name,
                    call_id,
                    error,
                    call_record(chat.active_tools, call_id, now_ms),
                ),
            },
        ],
        EventView::AgentHandoff { from, to, task } => seq![
            EffectView::SetSessionMeta { session_id: sid },
            EffectView::PushMessage {
                session_id: sid,
                kind: MessageKind::Normal,
                role: "system"@,
                content: "🔀 Handoff: "@ + from + " → "@ + to + " — "@ + task,
            },
        ],
        EventView::RestartRequested { reason, exe_path } => seq![
            EffectView::PushMessage {
                session_id: sid,
                kind: MessageKind::Normal,
                role: "system"@,
                content: "🔁 Restart: "@ + reason,
            },
        ],
        _ => Seq::empty(),
    }
}

/// How the token gauge follows the end of a round: by what the server
/// reports, else by counting.
pub open spec fn usage_effect(sid: Seq<char>, total_tokens: Option<u64>, n_ctx: u32) -> EffectView {
    if total_tokens is Some {
        EffectView::ShowUsage { session_id: sid, n_ctx }
    } else {
        EffectView::RefreshTokenGauge { session_id: sid, n_ctx }
    }
}

/// What an event asks for of a session that may not be there.
#[verifier::opaque]
pub open spec fn session_effects(
    app: AppView,
    sid: Seq<char>,
    event: EventView,
    now_ms: u64,
) -> Seq<EffectView> {
    match app.find(sid) {
        Some(k) => chat_effects(app.sessions[k].chat, sid, event, app.remote_n_ctx, now_ms),
        None => Seq::empty(),
    }
}

/// The application after an event changed its session.
#[verifier::opaque]
pub open spec fn session_after(
    app: AppView,
    sid: Seq<char>,
    event: EventView,
    now_ms: u64,
) -> AppView {
    match app.find(sid) {
        Some(k) => {
            let next = app.with_chat(k, chat_after(app.sessions[k].chat, event, now_ms));
            match event {
                EventView::StreamComplete { .. } => AppView {
                    status: if app.is_selected(sid) {
                        StatusView::Ready
                    } else {
                        app.status
                    },
                    ..next
                },
                EventView::StreamError { error } => AppView {
                    status: if app.is_selected(sid) {
                        StatusView::Error(error)
                    } else {
                        app.status
                    },
                    ..next
                },
                EventView::AgentHandoff { to, .. } => app.with_session(
                    k,
                    SessionView { selected_agent: Some(to), ..app.sessions[k] },
                ),
                _ => next,
            }
        },
        None => app,
    }
}

/// Whether the session with this id is there and generating.
pub open spec fn generating(app: AppView, sid: Seq<char>) -> bool {
    app.find(sid) matches Some(k) && app.sessions[k].chat.is_generating
}

/// The application after an event.
#[verifier::opaque]
pub open spec fn handled(
    app: AppView,
    sid: Seq<char>,
    event: EventView,
    now_ms: u64,
    timestamp: Seq<char>,
) -> AppView {
    match event {
        EventView::StreamRoundComplete { .. } => AppView {
            usage_dirty: true,
            ..session_after(app, sid, event, now_ms)
        },
        EventView::StreamComplete { .. } => AppView {
            usage_dirty: true,
            ..drained(session_after(app, sid, event, now_ms), sid, timestamp)
        },
        EventView::StreamError { error } => if error == "Cancelled"@ {
            session_after(app, sid, event, now_ms)
        } else {
            drained(session_after(app, sid, event, now_ms), sid, timestamp)
        },
        EventView::ImprovementSuggested { suggestions } => AppView {
            improvements_panel: PanelView {
                pending: merged(app.improvements_panel.pending, suggestions),
                show_panel: true,
                ..app.improvements_panel
            },
            ..app
        },
        EventView::UserMessageDrained { message } => if generating(app, sid) {
            let k = app.find(sid)->Some_0;
            let chat = app.sessions[k].chat;
            app.with_chat(
                k,
                ChatView { queued_messages: chat.queued_messages.push(message), ..chat },
            )
        } else {
            run_started(app, sid, message.run(timestamp))
        },
        _ => session_after(app, sid, event, now_ms),
    }
}

/// What an event asks for.
#[verifier::opaque]
pub open spec fn event_effects(
    app: AppView,
    sid: Seq<char>,
    event: EventView,
    now_ms: u64,
    timestamp: Seq<char>,
) -> Seq<EffectView> {
    let own = session_effects(app, sid, event, now_ms);
    let save = seq![EffectView::SaveSession { session_id: sid }];
    match event {
        EventView::StreamComplete { .. } => own + save + drain_effects(
            session_after(app, sid, event, now_ms),
            sid,
            timestamp,
        ),
        EventView::StreamError { error } => if error == "Cancelled"@ {
            own + save
        } else {
            own + save + drain_effects(session_after(app, sid, event, now_ms), sid, timestamp)
        },
        EventView::McpConfigChanged => seq![EffectView::ReloadMcpServers],
        EventView::RestartRequested { reason, exe_path } => save + own + seq![
            EffectView::Restart { reason, exe_path },
        ],
        EventView::UserMessageDrained { message } => if generating(app, sid) {
            Seq::empty()
        } else {
            run_effects(app, sid, message.run(timestamp))
        },
        _ => own,
    }
}

// ---------------------------------------------------------------------------
// Handling an event
// ---------------------------------------------------------------------------

/// The application with one session changed in its chat.
proof fn lemma_chat_changed(start: AppView, now: AppView, k: int, chat: ChatView)
    requires
        0 <= k < start.sessions.len(),
        now.sessions.len() == start.sessions.len(),
        forall|i: int|
            0 <= i < start.sessions.len() && i != k ==> #[trigger] now.sessions[i]
                == start.sessions[i],
        now.sessions[k] == (SessionView { chat, ..start.sessions[k] }),
        now == (AppView { sessions: now.sessions, ..start }),
    ensures
        now == start.with_chat(k, chat),
{
    assert(now.sessions =~= start.sessions.update(k, SessionView { chat, ..start.sessions[k] }));
}

impl ChatApp {
    fn handle_stream_chunk(
        &mut self,
        content: String,
        thinking: bool,
        sid: &str,
        effects: &mut Vec<ChatEffect>,
    )
        ensures
            final(self)@ == old(self)@,
            effect_views(final(effects)@) == effect_views(old(effects)@) + session_effects(
                old(self)@,
                sid@,
                if thinking {
                    EventView::StreamThinkingChunk { content: content@ }
                } else {
                    EventView::StreamChunk { content: content@ }
                },
                0,
            ),
    {
        reveal(session_after);
        reveal(session_effects);
        reveal(handled);
        reveal(event_effects);
        let ghost before = effect_views(effects@);
        let ghost event = if thinking {
            EventView::StreamThinkingChunk { content: content@ }
        } else {
            EventView::StreamChunk { content: content@ }
        };
        if self.find_session(sid).is_some() {
            if thinking {
                ask(
                    effects,
                    ChatEffect::StreamThinkingChunk { session_id: sid.to_owned(), content },
                );
            } else {
                ask(effects, ChatEffect::StreamChunk { session_id: sid.to_owned(), content });
            }
            ask(
                effects,
                ChatEffect::UpdateLiveEstimates {
                    session_id: sid.to_owned(),
                    n_ctx: self.remote_n_ctx,
                },
            );
        }
        assert(effect_views(effects@) =~= before + session_effects(self@, sid@, event, 0));
    }

    fn handle_stream_prompt_progress(
        &mut self,
        progress: PromptProgress,
        has_speed: bool,
        sid: &str,
        effects: &mut Vec<ChatEffect>,
    )
        ensures
            ({
                let event = EventView::StreamPromptProgress { progress, has_speed };
                &&& final(self)@ == session_after(old(self)@, sid@, event, 0)
                &&& effect_views(final(effects)@) == effect_views(old(effects)@)
                    + session_effects(old(self)@, sid@, event, 0)
            }),
    {
        reveal(session_after);
        reveal(session_effects);
        reveal(handled);
        reveal(event_effects);
        let ghost start = self@;
        let ghost before = effect_views(effects@);
        let ghost event = EventView::StreamPromptProgress { progress, has_speed };
        if let Some(k) = self.find_session(sid) {
            self.sessions[k].chat.prompt_progress = Some(progress);
            proof {
                lemma_chat_changed(start, self@, k as int, self.sessions@[k as int].chat@);
            }
            if has_speed {
                ask(effects, ChatEffect::ShowPromptSpeed { session_id: sid.to_owned() });
            }
        }
        assert(effect_views(effects@) =~= before + session_effects(start, sid@, event, 0));
    }

    fn ask_usage(&self, total_tokens: Option<u64>, sid: &str, effects: &mut Vec<ChatEffect>)
        ensures
            effect_views(final(effects)@) == effect_views(old(effects)@).push(
                usage_effect(sid@, total_tokens, self@.remote_n_ctx),
            ),
    {
        let n_ctx: u32 = self.remote_n_ctx;
        if total_tokens.is_some() {
            ask(effects, ChatEffect::ShowUsage { session_id: sid.to_owned(), n_ctx });
        } else {
            ask(effects, ChatEffect::RefreshTokenGauge { session_id: sid.to_owned(), n_ctx });
        }
    }

    fn handle_stream_round_complete(
        &mut self,
        total_tokens: Option<u64>,
        sid: &str,
        effects: &mut Vec<ChatEffect>,
    )
        ensures
            ({
                let event = EventView::StreamRoundComplete { total_tokens };
                &&& final(self)@ == (AppView {
                    usage_dirty: true,
                    ..session_after(old(self)@, sid@, event, 0)
                })
                &&& effect_views(final(effects)@) == effect_views(old(effects)@)
                    + session_effects(old(self)@, sid@, event, 0)
            }),
    {
        reveal(session_after);
        reveal(session_effects);
        reveal(handled);
        reveal(event_effects);
        let ghost start = self@;
        let ghost before = effect_views(effects@);
        let ghost event = EventView::StreamRoundComplete { total_tokens };
        if let Some(k) = self.find_session(sid) {
            ask(effects, ChatEffect::CommitStream { session_id: sid.to_owned() });
            self.sessions[k].chat.prompt_progress = None;
            if let Some(n) = total_tokens {
                self.sessions[k].chat.token_count = n;
            }
            proof {
                lemma_chat_changed(start, self@, k as int, self.sessions@[k as int].chat@);
            }
            self.ask_usage(total_tokens, sid, effects);
        }
        assert(effect_views(effects@) =~= before + session_effects(start, sid@, event, 0));
        self.usage_dirty = true;
    }

    fn finish_round_of(
        &mut self,
        content: String,
        total_tokens: Option<u64>,
        sid: &str,
        effects: &mut Vec<ChatEffect>,
    )
        ensures
            ({
                let event = EventView::StreamComplete { content: content@, total_tokens };
                &&& final(self)@ == session_after(old(self)@, sid@, event, 0)
                &&& effect_views(final(effects)@) == effect_views(old(effects)@)
                    + session_effects(old(self)@, sid@, event, 0)
            }),
    {
        reveal(session_after);
        reveal(session_effects);
        reveal(handled);
        reveal(event_effects);
        let ghost start = self@;
        let ghost before = effect_views(effects@);
        let ghost event = EventView::StreamComplete { content: content@, total_tokens };
        let selected = self.is_selected(sid);
        if let Some(k) = self.find_session(sid) {
            if self.sessions[k].chat.stream_buffer.as_str().is_empty() && !is_blank(
                content.as_str(),
            ) {
                ask(
                    effects,
                    ChatEffect::AppendMessage {
                        session_id: sid.to_owned(),
                        role: "assistant".to_owned(),
                        content,
                    },
                );
            } else {
                ask(effects, ChatEffect::CommitStream { session_id: sid.to_owned() });
            }
            self.sessions[k].chat.prompt_progress = None;
            self.sessions[k].chat.is_generating = false;
            self.sessions[k].chat.current_thinking = String::new();
            self.sessions[k].chat.active_tools = Vec::new();
            self.sessions[k].chat.status = AppStatus::Ready;
            if let Some(n) = total_tokens {
                self.sessions[k].chat.token_count = n;
            }
            proof {
                let chat = self.sessions@[k as int].chat@;
                assert(chat.active_tools =~= Seq::empty());
                assert(chat =~= chat_after(start.sessions[k as int].chat, event, 0));
                lemma_chat_changed(start, self@, k as int, chat);
            }
            if selected {
                self.status = AppStatus::Ready;
            }
            self.ask_usage(total_tokens, sid, effects);
        }
        assert(self@ =~= session_after(start, sid@, event, 0));
        assert(effect_views(effects@) =~= before + session_effects(start, sid@, event, 0));
    }

    fn handle_stream_complete(
        &mut self,
        content: String,
        total_tokens: Option<u64>,
        sid: &str,
        timestamp: &str,
        effects: &mut Vec<ChatEffect>,
    )
        ensures
            ({
                let event = EventView::StreamComplete { content: content@, total_tokens };
                &&& final(self)@ == handled(old(self)@, sid@, event, 0, timestamp@)
                &&& effect_views(final(effects)@) == effect_views(old(effects)@) + event_effects(
                    old(self)@,
                    sid@,
                    event,
                    0,
                    timestamp@,
                )
            }),
    {
        reveal(session_after);
        reveal(session_effects);
        reveal(handled);
        reveal(event_effects);
        let ghost start = self@;
        let ghost before = effect_views(effects@);
        let ghost event = EventView::StreamComplete { content: content@, total_tokens };
        self.finish_round_of(content, total_tokens, sid, effects);
        let ghost own = session_effects(start, sid@, event, 0);
        let ghost next = session_after(start, sid@, event, 0);
        ask(effects, ChatEffect::SaveSession { session_id: sid.to_owned() });
        self.drain_next_queued_message(sid, timestamp, effects);
        self.usage_dirty = true;
        proof {
            lemma_sum(
                before,
                own,
                EffectView::SaveSession { session_id: sid@ },
                drain_effects(next, sid@, timestamp@),
            );
        }
    }

    fn fail_round_of(&mut self, error: &str, sid: &str, effects: &mut Vec<ChatEffect>)
        ensures
            ({
                let event = EventView::StreamError { error: error@ };
                &&& final(self)@ == session_after(old(self)@, sid@, event, 0)
                &&& effect_views(final(effects)@) == effect_views(old(effects)@)
                    + session_effects(old(self)@, sid@, event, 0)
            }),
    {
        reveal(session_after);
        reveal(session_effects);
        reveal(handled);
        reveal(event_effects);
        let ghost start = self@;
        let ghost before = effect_views(effects@);
        let ghost event = EventView::StreamError { error: error@ };
        let selected = self.is_selected(sid);
        if let Some(k) = self.find_session(sid) {
            let mut note = "\n\nStream error: ".to_owned();
            note.append(error);
            ask(effects, ChatEffect::StreamChunk { session_id: sid.to_owned(), content: note });
            ask(effects, ChatEffect::CommitStream { session_id: sid.to_owned() });
            self.sessions[k].chat.prompt_progress = None;
            self.sessions[k].chat.is_generating = false;
            self.sessions[k].chat.active_tools = Vec::new();
            self.sessions[k].chat.status = AppStatus::Error(error.to_owned());
            proof {
                let chat = self.sessions@[k as int].chat@;
                assert(chat.active_tools =~= Seq::empty());
                assert(chat =~= chat_after(start.sessions[k as int].chat, event, 0));
                lemma_chat_changed(start, self@, k as int, chat);
            }
            if selected {
                self.status = AppStatus::Error(error.to_owned());
            }
        }
        assert(self@ =~= session_after(start, sid@, event, 0));
        assert(effect_views(effects@) =~= before + session_effects(start, sid@, event, 0));
    }

    fn handle_stream_error(
        &mut self,
        error: String,
        sid: &str,
        timestamp: &str,
        effects: &mut Vec<ChatEffect>,
    )
        ensures
            ({
                let event = EventView::StreamError { error: error@ };
                &&& final(self)@ == handled(old(self)@, sid@, event, 0, timestamp@)
                &&& effect_views(final(effects)@) == effect_views(old(effects)@) + event_effects(
                    old(self)@,
                    sid@,
                    event,
                    0,
                    timestamp@,
                )
            }),
    {
        reveal(session_after);
        reveal(session_effects);
        reveal(handled);
        reveal(event_effects);
        let ghost start = self@;
        let ghost before = effect_views(effects@);
        let ghost event = EventView::StreamError { error: error@ };
        let cancelled = same_text(error.as_str(), "Cancelled");
        self.fail_round_of(error.as_str(), sid, effects);
        let ghost own = session_effects(start, sid@, event, 0);
        let ghost next = session_after(start, sid@, event, 0);
        ask(effects, ChatEffect::SaveSession { session_id: sid.to_owned() });
        if !cancelled {
            self.drain_next_queued_message(sid, timestamp, effects);
        }
        proof {
            lemma_sum(
                before,
                own,
                EffectView::SaveSession { session_id: sid@ },
                drain_effects(next, sid@, timestamp@),
            );
        }
    }

    fn handle_thinking_complete(&mut self, sid: &str, effects: &mut Vec<ChatEffect>)
        ensures
            final(self)@ == session_after(
                old(self)@,
                sid@,
                EventView::StreamThinkingComplete,
                0,
            ),
            effect_views(final(effects)@) == effect_views(old(effects)@) + session_effects(
                old(self)@,
                sid@,
                EventView::StreamThinkingComplete,
                0,
            ),
    {
        reveal(session_after);
        reveal(session_effects);
        reveal(handled);
        reveal(event_effects);
        let ghost start = self@;
        let ghost before = effect_views(effects@);
        let ghost event = EventView::StreamThinkingComplete;
        if let Some(k) = self.find_session(sid) {
            let thinking = self.sessions[k].chat.current_thinking.clone();
            self.sessions[k].chat.current_thinking = String::new();
            proof {
                let chat = self.sessions@[k as int].chat@;
                assert(chat =~= chat_after(start.sessions[k as int].chat, event, 0));
                lemma_chat_changed(start, self@, k as int, chat);
            }
            if !thinking.as_str().is_empty() {
                ask(
                    effects,
                    ChatEffect::PushMessage {
                        session_id: sid.to_owned(),
                        kind: MessageKind::Thinking,
                        role: "assistant".to_owned(),
                        content: thinking,
                    },
                );
            }
        }
        assert(effect_views(effects@) =~= before + session_effects(start, sid@, event, 0));
    }

    fn handle_tool_call_start(
        &mut self,
        tool_name: String,
        call_id: String,
        args_preview: String,
        sid: &str,
        now_ms: u64,
    )
        ensures
            final(self)@ == session_after(
                old(self)@,
                sid@,
                EventView::ToolCallStart {
                    tool_name: tool_name@,
                    call_id: call_id@,
                    args_preview: args_preview@,
                },
                now_ms,
            ),
    {
        reveal(session_after);
        reveal(session_effects);
        reveal(handled);
        reveal(event_effects);
        let ghost start = self@;
        let ghost event = EventView::ToolCallStart {
            tool_name: tool_name@,
            call_id: call_id@,
            args_preview: args_preview@,
        };
        if let Some(k) = self.find_session(sid) {
            if find_tool(&self.sessions[k].chat.active_tools, call_id.as_str()).is_none() {
                let t = ActiveTool {
                    tool_name,
                    call_id,
                    args_preview,
                    started_ms: now_ms,
                    live_output: String::new(),
                };
                self.sessions[k].chat.active_tools.push(t);
                assert(self.sessions@[k as int].chat@.active_tools
                    =~= start.sessions[k as int].chat.active_tools.push(t@));
            }
            proof {
                let chat = self.sessions@[k as int].chat@;
                assert(chat =~= chat_after(start.sessions[k as int].chat, event, now_ms));
                lemma_chat_changed(start, self@, k as int, chat);
            }
        }
    }

    fn handle_tool_call_progress(&mut self, call_id: &str, text: String, sid: &str)
        ensures
            final(self)@ == session_after(
                old(self)@,
                sid@,
                EventView::ToolCallProgress { call_id: call_id@, text: text@ },
                0,
            ),
    {
        reveal(session_after);
        reveal(session_effects);
        reveal(handled);
        reveal(event_effects);
        let ghost start = self@;
        let ghost event = EventView::ToolCallProgress { call_id: call_id@, text: text@ };
        if let Some(k) = self.find_session(sid) {
            if let Some(i) = find_tool(&self.sessions[k].chat.active_tools, call_id) {
                self.sessions[k].chat.active_tools[i].live_output = text;
                assert(self.sessions@[k as int].chat@.active_tools
                    =~= start.sessions[k as int].chat.active_tools.update(
                    i as int,
                    ActiveToolView {
                        live_output: text@,
                        ..start.sessions[k as int].chat.active_tools[i as int]
                    },
                ));
            }
            proof {
                let chat = self.sessions@[k as int].chat@;
                assert(chat =~= chat_after(start.sessions[k as int].chat, event, 0));
                lemma_chat_changed(start, self@, k as int, chat);
            }
        }
    }

    fn handle_tool_call_complete(
        &mut self,
        tool_name: &str,
        call_id: &str,
        result: &str,
        fallback_header: &str,
        sid: &str,
        now_ms: u64,
        effects: &mut Vec<ChatEffect>,
    )
        ensures
            ({
                let event = EventView::ToolCallComplete {
                    tool_name: tool_name@,
                    call_id: call_id@,
                    result: result@,
                    fallback_header: fallback_header@,
                };
                &&& final(self)@ == session_after(old(self)@, sid@, event, now_ms)
                &&& effect_views(final(effects)@) == effect_views(old(effects)@)
                    + session_effects(old(self)@, sid@, event, now_ms)
            }),
    {
        reveal(session_after);
        reveal(session_effects);
        reveal(handled);
        reveal(event_effects);
        let ghost start = self@;
        let ghost before = effect_views(effects@);
        let ghost event = EventView::ToolCallComplete {
            tool_name: tool_name@,
            call_id: call_id@,
            result: result@,
            fallback_header: fallback_header@,
        };
        if let Some(k) = self.find_session(sid) {
            let (args, ms) = take_record(
                &mut self.sessions[k].chat.active_tools,
                call_id,
                now_ms,
            );
            proof {
                let chat = self.sessions@[k as int].chat@;
                assert(chat =~= chat_after(start.sessions[k as int].chat, event, now_ms));
                lemma_chat_changed(start, self@, k as int, chat);
            }
            ask(
                effects,
                ChatEffect::PushMessage {
                    session_id: sid.to_owned(),
                    kind: MessageKind::Tool,
                    role: "tool".to_owned(),
                    content: tool_complete_message(
                        tool_name,
                        call_id,
                        result,
                        fallback_header,
                        args.as_str(),
                        ms,
                    ),
                },
            );
        }
        assert(effect_views(effects@) =~= before + session_effects(start, sid@, event, now_ms));
    }

    fn handle_tool_call_error(
        &mut self,
        tool_name: &str,
        call_id: &str,
        error: &str,
        sid: &str,
        now_ms: u64,
        effects: &mut Vec<ChatEffect>,
    )
        ensures
            ({
                let event = EventView::ToolCallError {
                    tool_name: tool_name@,
                    call_id: call_id@,
                    error: error@,
                };
                &&& final(self)@ == session_after(old(self)@, sid@, event, now_ms)
                &&& effect_views(final(effects)@) == effect_views(old(effects)@)
                    + session_effects(old(self)@, sid@, event, now_ms)
            }),
    {
        reveal(session_after);
        reveal(session_effects);
        reveal(handled);
        reveal(event_effects);
        let ghost start = self@;
        let ghost before = effect_views(effects@);
        let ghost event = EventView::ToolCallError {
            tool_name: tool_name@,
            call_id: call_id@,
            error: error@,
        };
        if let Some(k) = self.find_session(sid) {
            let (args, ms) = take_record(
                &mut self.sessions[k].chat.active_tools,
                call_id,
                now_ms,
            );
            proof {
                let chat = self.sessions@[k as int].chat@;
                assert(chat =~= chat_after(start.sessions[k as int].chat, event, now_ms));
                lemma_chat_changed(start, self@, k as int, chat);
            }
            ask(
                effects,
                ChatEffect::PushMessage {
                    session_id: sid.to_owned(),
                    kind: MessageKind::Tool,
                    role: "tool".to_owned(),
                    content: tool_error_message(tool_name, call_id, error, args.as_str(), ms),
                },
            );
        }
        assert(effect_views(effects@) =~= before + session_effects(start, sid@, event, now_ms));
    }

    fn handle_agent_handoff(
        &mut self,
        from: &str,
        to: String,
        task: &str,
        sid: &str,
        effects: &mut Vec<ChatEffect>,
    )
        ensures
            ({
                let event = EventView::AgentHandoff { from: from@, to: to@, task: task@ };
                &&& final(self)@ == session_after(old(self)@, sid@, event, 0)
                &&& effect_views(final(effects)@) == effect_views(old(effects)@)
                    + session_effects(old(self)@, sid@, event, 0)
            }),
    {
        reveal(session_after);
        reveal(session_effects);
        reveal(handled);
        reveal(event_effects);
        let ghost start = self@;
        let ghost before = effect_views(effects@);
        let ghost event = EventView::AgentHandoff { from: from@, to: to@, task: task@ };
        if let Some(k) = self.find_session(sid) {
            let mut banner = "🔀 Handoff: ".to_owned();
            banner.append(from);
            banner.append(" → ");
            banner.append(to.as_str());
            banner.append(" — ");
            banner.append(task);
            self.sessions[k].selected_agent = Some(to);
            assert(self@.sessions =~= start.sessions.update(k as int, self.sessions@[k as int]@));
            assert(self@ =~= session_after(start, sid@, event, 0));
            ask(effects, ChatEffect::SetSessionMeta { session_id: sid.to_owned() });
            ask(
                effects,
                ChatEffect::PushMessage {
                    session_id: sid.to_owned(),
                    kind: MessageKind::Normal,
                    role: "system".to_owned(),
                    content: banner,
                },
            );
        }
        assert(effect_views(effects@) =~= before + session_effects(start, sid@, event, 0));
    }

    fn handle_restart(
        &mut self,
        reason: String,
        exe_path: Option<String>,
        sid: &str,
        effects: &mut Vec<ChatEffect>,
    )
        ensures
            ({
                let event = EventView::RestartRequested {
                    reason: reason@,
                    exe_path: opt_text(exe_path),
                };
                &&& final(self)@ == old(self)@
                &&& effect_views(final(effects)@) == effect_views(old(effects)@) + event_effects(
                    old(self)@,
                    sid@,
                    event,
                    0,
                    Seq::empty(),
                )
            }),
    {
        reveal(session_after);
        reveal(session_effects);
        reveal(handled);
        reveal(event_effects);
        let ghost before = effect_views(effects@);
        let ghost event = EventView::RestartRequested {
            reason: reason@,
            exe_path: opt_text(exe_path),
        };
        ask(effects, ChatEffect::SaveSession { session_id: sid.to_owned() });
        if self.find_session(sid).is_some() {
            let mut banner = "🔁 Restart: ".to_owned();
            banner.append(reason.as_str());
            ask(
                effects,
                ChatEffect::PushMessage {
                    session_id: sid.to_owned(),
                    kind: MessageKind::Normal,
                    role: "system".to_owned(),
                    content: banner,
                },
            );
        }
        ask(effects, ChatEffect::Restart { reason, exe_path });
        assert(effect_views(effects@) =~= before + event_effects(
            self@,
            sid@,
            event,
            0,
            Seq::empty(),
        ));
    }

    fn handle_user_message_drained(
        &mut self,
        message: QueuedMessage,
        sid: &str,
        timestamp: &str,
        effects: &mut Vec<ChatEffect>,
    )
        ensures
            ({
                let event = EventView::UserMessageDrained { message: message@ };
                &&& final(self)@ == handled(old(self)@, sid@, event, 0, timestamp@)
                &&& effect_views(final(effects)@) == effect_views(old(effects)@) + event_effects(
                    old(self)@,
                    sid@,
                    event,
                    0,
                    timestamp@,
                )
            }),
    {
        reveal(session_after);
        reveal(session_effects);
        reveal(handled);
        reveal(event_effects);
        let ghost start = self@;
        let ghost before = effect_views(effects@);
        if let Some(k) = self.find_session(sid) {
            if self.sessions[k].chat.is_generating {
                self.sessions[k].chat.queued_messages.push(message);
                proof {
                    let chat = self.sessions@[k as int].chat@;
                    assert(chat.queued_messages
                        =~= start.sessions[k as int].chat.queued_messages.push(message@));
                    lemma_chat_changed(start, self@, k as int, chat);
                    assert(before + Seq::<EffectView>::empty() =~= before);
                }
                return;
            }
        }
        let QueuedMessage { text, image, agent_prompt, tool_policy } = message;
        self.start_pipeline_for_session(
            sid,
            text.as_str(),
            &image,
            agent_prompt,
            tool_policy,
            true,
            timestamp,
            effects,
        );
    }

    /// Handle an event of a run. `now_ms` is the interface's clock and
    /// `timestamp` the time that a new message shows; requests to the
    /// surroundings are added to `effects`.
    pub fn handle_event(
        &mut self,
        event: AppEvent,
        now_ms: u64,
        timestamp: &str,
        effects: &mut Vec<ChatEffect>,
    )
        ensures
            final(self)@ == handled(old(self)@, event.session(), event@, now_ms, timestamp@),
            effect_views(final(effects)@) == effect_views(old(effects)@) + event_effects(
                old(self)@,
                event.session(),
                event@,
                now_ms,
                timestamp@,
            ),
    {
        let sid = event.session_id().clone();
        let ghost start = self@;
        let ghost before = effect_views(effects@);
        proof {
            lemma_handled(start, sid@, event@, now_ms, timestamp@);
            assert(before + Seq::<EffectView>::empty() =~= before);
        }
        match event {
            AppEvent::StreamChunk { content, .. } => {
                self.handle_stream_chunk(content, false, sid.as_str(), effects);
            },
            AppEvent::StreamThinkingChunk { content, .. } => {
                self.handle_stream_chunk(content, true, sid.as_str(), effects);
            },
            AppEvent::StreamPromptProgress { progress, has_speed, .. } => {
                self.handle_stream_prompt_progress(progress, has_speed, sid.as_str(), effects);
            },
            AppEvent::StreamRoundComplete { total_tokens, .. } => {
                self.handle_stream_round_complete(total_tokens, sid.as_str(), effects);
            },
            AppEvent::StreamComplete { content, total_tokens, .. } => {
                self.handle_stream_complete(
                    content,
                    total_tokens,
                    sid.as_str(),
                    timestamp,
                    effects,
                );
            },
            AppEvent::StreamError { error, .. } => {
                self.handle_stream_error(error, sid.as_str(), timestamp, effects);
            },
            AppEvent::StreamThinkingComplete { .. } => {
                self.handle_thinking_complete(sid.as_str(), effects);
            },
            AppEvent::ToolCallWarning { .. } => {
            },
            AppEvent::ToolCallStart { tool_name, call_id, args_preview, .. } => {
                self.handle_tool_call_start(
                    tool_name,
                    call_id,
                    args_preview,
                    sid.as_str(),
                    now_ms,
                );
            },
            AppEvent::ToolCallProgress { call_id, text, .. } => {
                self.handle_tool_call_progress(call_id.as_str(), text, sid.as_str());
            },
            AppEvent::ToolCallComplete { tool_name, call_id, result, fallback_header, .. } => {
                self.handle_tool_call_complete(
                    tool_name.as_str(),
                    call_id.as_str(),
                    result.as_str(),
                    fallback_header.as_str(),
                    sid.as_str(),
                    now_ms,
                    effects,
                );
            },
            AppEvent::ToolCallError { tool_name, call_id, error, .. } => {
                self.handle_tool_call_error(
                    tool_name.as_str(),
                    call_id.as_str(),
                    error.as_str(),
                    sid.as_str(),
                    now_ms,
                    effects,
                );
            },
            AppEvent::NCtxUpdated { .. } => {
            },
            AppEvent::AgentHandoff { from, to, task, .. } => {
                self.handle_agent_handoff(
                    from.as_str(),
                    to,
                    task.as_str(),
                    sid.as_str(),
                    effects,
                );
            },
            AppEvent::ImprovementSuggested { agent_name, suggestions, .. } => {
                self.improvements_panel.handle_improvement_suggested(
                    agent_name.as_str(),
                    suggestions,
                );
                assert(self@ =~= AppView { improvements_panel: self@.improvements_panel, ..start });
            },
            AppEvent::McpConfigChanged { .. } => {
                ask(effects, ChatEffect::ReloadMcpServers);
                proof {
                    assert(before.push(EffectView::ReloadMcpServers) =~= before
                        + seq![EffectView::ReloadMcpServers]);
                }
            },
            AppEvent::RestartRequested { reason, exe_path, .. } => {
                self.handle_restart(reason, exe_path, sid.as_str(), effects);
            },
            AppEvent::UserMessageDrained { message, .. } => {
                self.handle_user_message_drained(message, sid.as_str(), timestamp, effects);
            },
        }
    }
}

/// What handling an event comes to, by its kind; only the start and the end
/// of a tool call look at the clock.
proof fn lemma_handled(
    app: AppView,
    sid: Seq<char>,
    event: EventView,
    now_ms: u64,
    timestamp: Seq<char>,
)
    ensures
        event is StreamChunk || event is StreamThinkingChunk || event is ToolCallWarning || event
            is NCtxUpdated || event is McpConfigChanged || event is RestartRequested ==> handled(
            app,
            sid,
            event,
            now_ms,
            timestamp,
        ) == app,
        event is StreamPromptProgress || event is StreamThinkingComplete || event is ToolCallStart
            || event is ToolCallProgress || event is ToolCallComplete || event is ToolCallError
            || event is AgentHandoff ==> handled(app, sid, event, now_ms, timestamp)
            == session_after(app, sid, event, now_ms),
        event is StreamRoundComplete ==> handled(app, sid, event, now_ms, timestamp) == (AppView {
            usage_dirty: true,
            ..session_after(app, sid, event, 0)
        }),
        event matches EventView::ImprovementSuggested { suggestions } ==> handled(
            app,
            sid,
            event,
            now_ms,
            timestamp,
        ) == (AppView {
            improvements_panel: PanelView {
                pending: merged(app.improvements_panel.pending, suggestions),
                show_panel: true,
                ..app.improvements_panel
            },
            ..app
        }),
        event is StreamChunk || event is StreamThinkingChunk || event is StreamPromptProgress
            || event is StreamRoundComplete || event is StreamThinkingComplete || event
            is ToolCallComplete || event is ToolCallError || event is AgentHandoff
            ==> event_effects(app, sid, event, now_ms, timestamp) == session_effects(
            app,
            sid,
            event,
            now_ms,
        ),
        event is ToolCallWarning || event is NCtxUpdated || event is ToolCallStart || event
            is ToolCallProgress || event is ImprovementSuggested ==> event_effects(
            app,
            sid,
            event,
            now_ms,
            timestamp,
        ) == Seq::<EffectView>::empty(),
        event is McpConfigChanged ==> event_effects(app, sid, event, now_ms, timestamp) == seq![
            EffectView::ReloadMcpServers,
        ],
        event is RestartRequested ==> event_effects(app, sid, event, now_ms, timestamp)
            == event_effects(app, sid, event, 0, Seq::empty()),
        !(event is ToolCallStart || event is ToolCallComplete || event is ToolCallError) ==> {
            &&& session_after(app, sid, event, now_ms) == session_after(app, sid, event, 0)
            &&& session_effects(app, sid, event, now_ms) == session_effects(app, sid, event, 0)
            &&& handled(app, sid, event, now_ms, timestamp) == handled(
                app,
                sid,
                event,
                0,
                timestamp,
            )
            &&& event_effects(app, sid, event, now_ms, timestamp) == event_effects(
                app,
                sid,
                event,
                0,
                timestamp,
            )
        },
{
    reveal(session_after);
    reveal(session_effects);
    reveal(handled);
    reveal(event_effects);
    if let Some(k) = app.find(sid) {
        crate::chat_state::lemma_session_at(app.sessions, sid, 0);
        assert(app.with_chat(k, app.sessions[k].chat).sessions =~= app.sessions);
    }
}

/// Requests added one after the other are added as a whole.
proof fn lemma_sum(
    before: Seq<EffectView>,
    own: Seq<EffectView>,
    save: EffectView,
    more: Seq<EffectView>,
)
    ensures
        (before + own).push(save) == before + (own + seq![save]),
        (before + own).push(save) + more == before + (own + seq![save] + more),
{
    assert((before + own).push(save) =~= before + (own + seq![save]));
    assert((before + own).push(save) + more =~= before + (own + seq![save] + more));
}

} // verus!

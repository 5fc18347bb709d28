//! What holds of every event of a run.

use vstd::prelude::*;

use crate::chat_state::{
    lemma_session_at, ActiveToolView, AppView, ChatView, EffectView, StatusView,
};
use crate::event_handler::{
    chat_after, event_effects, handled, session_after, session_effects, tool_at, tools_without,
    EventView,
};
use crate::input::{drained, lemma_same_ids, lemma_with_chat, run_started};

verus! {

/// Whether `b` has the sessions of `a` with only the one with the id `sid`
/// changed.
pub open spec fn only_session_changed(a: AppView, b: AppView, sid: Seq<char>) -> bool {
    &&& a.sessions.len() == b.sessions.len()
    &&& forall|i: int|
        0 <= i < a.sessions.len() ==> (#[trigger] b.sessions[i]).id == a.sessions[i].id
    &&& forall|i: int|
        0 <= i < a.sessions.len() && a.sessions[i].id != sid ==> #[trigger] b.sessions[i]
            == a.sessions[i]
}

proof fn lemma_run_started_local(app: AppView, sid: Seq<char>, run: crate::input::RunView)
    ensures
        only_session_changed(app, run_started(app, sid, run), sid),
{
    lemma_session_at(app.sessions, sid, 0);
}

proof fn lemma_drained_local(app: AppView, sid: Seq<char>, timestamp: Seq<char>)
    ensures
        only_session_changed(app, drained(app, sid, timestamp), sid),
{
    lemma_session_at(app.sessions, sid, 0);
    if let Some(k) = app.find(sid) {
        let chat = app.sessions[k].chat;
        if chat.queued_messages.len() > 0 {
            let rest = ChatView { queued_messages: chat.queued_messages.drop_first(), ..chat };
            let mid = app.with_chat(k, rest);
            lemma_run_started_local(mid, sid, chat.queued_messages[0].run(timestamp));
        }
    }
}

proof fn lemma_session_after_local(app: AppView, sid: Seq<char>, event: EventView, now_ms: u64)
    ensures
        only_session_changed(app, session_after(app, sid, event, now_ms), sid),
        session_after(app, sid, event, now_ms).find(sid) == app.find(sid),
{
    reveal(session_after);
    lemma_session_at(app.sessions, sid, 0);
    lemma_same_ids(session_after(app, sid, event, now_ms).sessions, app.sessions, sid, 0);
}

/// An event changes no session but its own; no session appears or goes, and
/// none gets another id.
pub proof fn an_event_touches_only_its_session(
    app: AppView,
    sid: Seq<char>,
    event: EventView,
    now_ms: u64,
    timestamp: Seq<char>,
)
    ensures
        only_session_changed(app, handled(app, sid, event, now_ms, timestamp), sid),
{
    reveal(handled);
    lemma_session_at(app.sessions, sid, 0);
    lemma_session_after_local(app, sid, event, now_ms);
    let next = session_after(app, sid, event, now_ms);
    lemma_drained_local(next, sid, timestamp);
    if let EventView::UserMessageDrained { message } = event {
        lemma_run_started_local(app, sid, message.run(timestamp));
    }
}

/// When a run completes or fails and nothing waits, its session is idle: it no
/// longer generates, shows no running tool and no prompt progress, and has the
/// status of the end.
pub proof fn an_ended_run_leaves_the_session_idle(
    app: AppView,
    sid: Seq<char>,
    event: EventView,
    now_ms: u64,
    timestamp: Seq<char>,
    k: int,
)
    requires
        event is StreamComplete || event is StreamError,
        app.find(sid) == Some(k),
        app.sessions[k].chat.queued_messages.len() == 0,
    ensures
        ({
            let chat = handled(app, sid, event, now_ms, timestamp).sessions[k].chat;
            &&& !chat.is_generating
            &&& chat.active_tools.len() == 0
            &&& chat.prompt_progress is None
            &&& chat.messages == app.sessions[k].chat.messages
            &&& event is StreamComplete ==> chat.status == StatusView::Ready
                && chat.current_thinking.len() == 0
            &&& event matches EventView::StreamError { error } ==> chat.status
                == StatusView::Error(error)
        }),
{
    reveal(handled);
    reveal(session_after);
    lemma_session_at(app.sessions, sid, 0);
    lemma_session_after_local(app, sid, event, now_ms);
}

/// A run that the user cancelled does not take up the queue: what waits stays,
/// nothing generates, and the last thing asked for is saving the session.
pub proof fn a_cancelled_run_keeps_its_queue(
    app: AppView,
    sid: Seq<char>,
    now_ms: u64,
    timestamp: Seq<char>,
    k: int,
)
    requires
        app.find(sid) == Some(k),
    ensures
        ({
            let event = EventView::StreamError { error: "Cancelled"@ };
            let chat = handled(app, sid, event, now_ms, timestamp).sessions[k].chat;
            let asked = event_effects(app, sid, event, now_ms, timestamp);
            &&& chat.queued_messages == app.sessions[k].chat.queued_messages
            &&& !chat.is_generating
            &&& asked.last() == EffectView::SaveSession { session_id: sid }
            &&& forall|i: int| 0 <= i < asked.len() ==> !((#[trigger] asked[i]) is StartPipeline)
        }),
{
    reveal(handled);
    reveal(event_effects);
    reveal(session_after);
    reveal(session_effects);
    lemma_session_at(app.sessions, sid, 0);
}

/// A run that ended otherwise takes up the queue: the first waiting message is
/// the run that is in progress then.
pub proof fn an_ended_run_takes_up_the_queue(
    app: AppView,
    sid: Seq<char>,
    event: EventView,
    now_ms: u64,
    timestamp: Seq<char>,
    k: int,
)
    requires
        event is StreamComplete || (event matches EventView::StreamError { error } && error
            != "Cancelled"@),
        app.find(sid) == Some(k),
        app.sessions[k].chat.queued_messages.len() > 0,
    ensures
        ({
            let before = app.sessions[k].chat;
            let chat = handled(app, sid, event, now_ms, timestamp).sessions[k].chat;
            &&& chat.queued_messages == before.queued_messages.drop_first()
            &&& chat.is_generating
            &&& chat.messages == before.messages
        }),
{
    reveal(handled);
    reveal(session_after);
    lemma_session_at(app.sessions, sid, 0);
    lemma_session_after_local(app, sid, event, now_ms);
    let next = session_after(app, sid, event, now_ms);
    let chat = next.sessions[k].chat;
    let rest = ChatView { queued_messages: chat.queued_messages.drop_first(), ..chat };
    lemma_with_chat(next, k, rest, sid);
}

/// A run that ended, in whatever way, is saved: before anything else is started,
/// the session is to be written to disk.
pub proof fn an_ended_run_is_saved(
    app: AppView,
    sid: Seq<char>,
    event: EventView,
    now_ms: u64,
    timestamp: Seq<char>,
    k: int,
)
    requires
        event is StreamComplete || event is StreamError,
        app.find(sid) == Some(k),
    ensures
        ({
            let asked = event_effects(app, sid, event, now_ms, timestamp);
            exists|i: int|
                #![trigger asked[i]]
                0 <= i < asked.len() && asked[i] == (EffectView::SaveSession { session_id: sid })
                    && forall|j: int| 0 <= j < i ==> !((#[trigger] asked[j]) is StartPipeline)
        }),
{
    reveal(event_effects);
    reveal(session_effects);
    let asked = event_effects(app, sid, event, now_ms, timestamp);
    let first = session_effects(app, sid, event, now_ms);
    let i = first.len() as int;
    assert(asked[i] == (EffectView::SaveSession { session_id: sid }));
    assert forall|j: int| 0 <= j < i implies !((#[trigger] asked[j]) is StartPipeline) by {
        assert(asked[j] == first[j]);
    }
}

proof fn lemma_tool_at_push(tools: Seq<ActiveToolView>, t: ActiveToolView, from: int)
    requires
        0 <= from <= tools.len(),
    ensures
        tool_at(tools.push(t), t.call_id, from) is Some,
    decreases tools.len() - from,
{
    if from < tools.len() && tools.push(t)[from].call_id != t.call_id {
        lemma_tool_at_push(tools, t, from + 1);
    }
}

/// A tool call that is reported twice as started has one card, with the time
/// of the first report.
pub proof fn a_repeated_start_opens_no_second_card(
    chat: ChatView,
    tool_name: Seq<char>,
    call_id: Seq<char>,
    args_preview: Seq<char>,
    now_ms: u64,
    later_ms: u64,
)
    ensures
        ({
            let start = EventView::ToolCallStart { tool_name, call_id, args_preview };
            let once = chat_after(chat, start, now_ms);
            chat_after(once, start, later_ms) == once
        }),
{
    let t = ActiveToolView {
        tool_name,
        call_id,
        args_preview,
        started_ms: now_ms,
        live_output: Seq::empty(),
    };
    lemma_tool_at_push(chat.active_tools, t, 0);
}

proof fn lemma_tools_without(tools: Seq<ActiveToolView>, call_id: Seq<char>, from: int)
    requires
        0 <= from <= tools.len(),
        tool_at(tools, call_id, 0) is None,
        forall|i: int| 0 <= i < from ==> (#[trigger] tools[i]).call_id != call_id,
        tool_at(tools, call_id, from) is None,
    ensures
        forall|i: int| 0 <= i < tools.len() ==> (#[trigger] tools[i]).call_id != call_id,
    decreases tools.len() - from,
{
    if from < tools.len() {
        lemma_tools_without(tools, call_id, from + 1);
    }
}

proof fn lemma_nothing_dropped(tools: Seq<ActiveToolView>, call_id: Seq<char>)
    requires
        forall|i: int| 0 <= i < tools.len() ==> (#[trigger] tools[i]).call_id != call_id,
    ensures
        tools_without(tools, call_id) == tools,
    decreases tools.len(),
{
    if tools.len() > 0 {
        let t = tools.drop_last();
        assert forall|i: int| 0 <= i < t.len() implies (#[trigger] t[i]).call_id != call_id by {
            assert(t[i] == tools[i]);
        }
        lemma_nothing_dropped(t, call_id);
        assert(tools[tools.len() - 1].call_id != call_id);
        assert(t.push(tools.last()) =~= tools);
    } else {
        assert(tools =~= Seq::empty());
    }
}

/// The card that a new tool call opened goes when the call ends, and the other
/// cards are as they were before it started.
pub proof fn ending_a_call_closes_its_card(
    chat: ChatView,
    tool_name: Seq<char>,
    call_id: Seq<char>,
    args_preview: Seq<char>,
    result: Seq<char>,
    fallback_header: Seq<char>,
    error: Seq<char>,
    now_ms: u64,
    later_ms: u64,
)
    requires
        tool_at(chat.active_tools, call_id, 0) is None,
    ensures
        ({
            let start = EventView::ToolCallStart { tool_name, call_id, args_preview };
            let done = EventView::ToolCallComplete { tool_name, call_id, result, fallback_header };
            let failed = EventView::ToolCallError { tool_name, call_id, error };
            let open = chat_after(chat, start, now_ms);
            &&& open.active_tools.len() == chat.active_tools.len() + 1
            &&& chat_after(open, done, later_ms) == chat
            &&& chat_after(open, failed, later_ms) == chat
        }),
{
    let tools = chat.active_tools;
    lemma_tools_without(tools, call_id, 0);
    lemma_nothing_dropped(tools, call_id);
    let t = ActiveToolView {
        tool_name,
        call_id,
        args_preview,
        started_ms: now_ms,
        live_output: Seq::empty(),
    };
    assert(tools.push(t).drop_last() =~= tools);
}

} // verus!

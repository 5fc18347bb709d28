//! What a click in the sessions list does, and what follows a finished action.

use vstd::prelude::*;

use crate::chat_state::{AppView, SessionRuntime, SessionView};
use crate::numbers::decimal;
use crate::sessions_actions::{
    file_request, finished, ActionView, FinishedAction, RequestView, Workspace,
};
use crate::sessions_panel::{
    after_input, after_inputs, last_said, session_label, stored_at, stored_views, Frame,
    SessionInput, SessionsView, StoredSession, StoredView,
};
use crate::settings::ConfigView;
use crate::stream_laws::{absent, lemma_absent, lemma_stands, stands_at};
use crate::text::trim;

verus! {

// ---------------------------------------------------------------------------
// The list
// ---------------------------------------------------------------------------

/// The preview of a session is the last thing that the user or the assistant said;
/// what a tool or the system wrote behind it does not count.
pub proof fn the_preview_is_the_last_thing_said(
    messages: Seq<(Seq<char>, Seq<char>)>,
    n: nat,
    k: int,
)
    requires
        0 <= k < n <= messages.len(),
        messages[k].0 == "user"@ || messages[k].0 == "assistant"@,
        forall|i: int|
            k < i < n ==> (#[trigger] messages[i]).0 != "user"@ && messages[i].0 != "assistant"@,
    ensures
        last_said(messages, n) == messages[k].1,
    decreases n,
{
    if n - 1 > k {
        assert(messages[n - 1].0 != "user"@ && messages[n - 1].0 != "assistant"@);
        the_preview_is_the_last_thing_said(messages, (n - 1) as nat, k);
    }
}

/// A session in which nobody said anything has no preview.
pub proof fn a_silent_session_has_no_preview(messages: Seq<(Seq<char>, Seq<char>)>, n: nat)
    requires
        n <= messages.len(),
        forall|i: int|
            0 <= i < n ==> (#[trigger] messages[i]).0 != "user"@ && messages[i].0 != "assistant"@,
    ensures
        last_said(messages, n).len() == 0,
    decreases n,
{
    if n > 0 {
        assert(messages[n - 1].0 != "user"@ && messages[n - 1].0 != "assistant"@);
        a_silent_session_has_no_preview(messages, (n - 1) as nat);
    }
}

/// The entry of a session shows its name, how many messages it has, the preview and
/// the age, and that it is being renamed where it is.
pub proof fn an_entry_shows_its_session(s: StoredView, preview: Seq<char>, age: Seq<char>)
    ensures
        s.messages.len() == 1 ==> session_label(s, preview, age, false) == s.name + "\n"@
            + "1 message"@ + "  •  "@ + preview + "\n"@ + age,
        s.messages.len() != 1 ==> session_label(s, preview, age, false) == s.name + "\n"@ + (
        decimal(s.messages.len()) + " messages"@) + "  •  "@ + preview + "\n"@ + age,
        session_label(s, preview, age, true) == session_label(s, preview, age, false)
            + "\n🔄 rename"@,
{
}

/// Whether the `k`th listed session is the selected one.
pub open spec fn listed_at(p: SessionsView, k: int) -> bool {
    &&& 0 <= k < p.sessions.len()
    &&& p.selected_id == Some(p.sessions[k].id)
    &&& forall|i: int| 0 <= i < k ==> (#[trigger] p.sessions[i]).id != p.sessions[k].id
}

proof fn lemma_listed(sessions: Seq<StoredView>, from: int, k: int)
    requires
        0 <= from <= k < sessions.len(),
        forall|i: int| from <= i < k ==> (#[trigger] sessions[i]).id != sessions[k].id,
    ensures
        stored_at(sessions, sessions[k].id, from) == Some(k),
    decreases k - from,
{
    if from < k {
        assert(sessions[from].id != sessions[k].id);
        lemma_listed(sessions, from + 1, k);
    }
}

proof fn lemma_not_listed(sessions: Seq<StoredView>, id: Seq<char>, from: int)
    requires
        0 <= from <= sessions.len(),
        forall|i: int| from <= i < sessions.len() ==> (#[trigger] sessions[i]).id != id,
    ensures
        stored_at(sessions, id, from) is None,
    decreases sessions.len() - from,
{
    if from < sessions.len() {
        assert(sessions[from].id != id);
        lemma_not_listed(sessions, id, from + 1);
    }
}

// ---------------------------------------------------------------------------
// Clicks and keys
// ---------------------------------------------------------------------------

/// A click on a session selects it, in the list and in the settings, and asks for
/// nothing else.
pub proof fn a_click_selects_the_session(f: Frame, i: usize, now_ms: i64)
    ensures
        i < f.panel.sessions.len() ==> after_input(f, SessionInput::Select(i), now_ms) == (Frame {
            panel: SessionsView {
                selected_id: Some(f.panel.sessions[i as int].id),
                ..f.panel
            },
            config: ConfigView { session_id: Some(f.panel.sessions[i as int].id), ..f.config },
            chosen: Some(f.panel.sessions[i as int].id),
            action: f.action,
        }),
        i >= f.panel.sessions.len() ==> after_input(f, SessionInput::Select(i), now_ms) == f,
{
}

/// Deleting asks first: it holds the selected session with its name and its preview
/// for confirmation. Without a selected session it says so.
pub proof fn a_deletion_asks_first(f: Frame, k: int, now_ms: i64)
    requires
        listed_at(f.panel, k),
    ensures
        ({
            let s = f.panel.sessions[k];
            after_input(f, SessionInput::Delete, now_ms) == (Frame {
                panel: SessionsView {
                    pending_delete: Some((s.id, s.name, last_said(s.messages, s.messages.len()))),
                    ..f.panel
                },
                ..f
            })
        }),
{
    lemma_listed(f.panel.sessions, 0, k);
}

/// Without a listed selection there is nothing to delete, and the panel says so.
pub proof fn a_deletion_of_nothing_says_so(f: Frame, now_ms: i64)
    requires
        f.panel.selected_id matches Some(id) ==> forall|i: int|
            0 <= i < f.panel.sessions.len() ==> (#[trigger] f.panel.sessions[i]).id != id,
    ensures
        after_input(f, SessionInput::Delete, now_ms) == (Frame {
            panel: SessionsView {
                notification: Some(("No session selected"@, false)),
                notification_start: now_ms,
                ..f.panel
            },
            ..f
        }),
        after_input(f, SessionInput::RenameKey, now_ms) == f,
{
    if let Some(id) = f.panel.selected_id {
        lemma_not_listed(f.panel.sessions, id, 0);
    }
}

/// A confirmed deletion asks for exactly the session that was held; a cancelled one
/// for none. Neither is held any longer.
pub proof fn a_confirmed_deletion_is_asked_for(
    f: Frame,
    held: (Seq<char>, Seq<char>, Seq<char>),
    now_ms: i64,
)
    requires
        f.panel.pending_delete == Some(held),
    ensures
        after_input(f, SessionInput::ConfirmDelete, now_ms) == (Frame {
            panel: SessionsView { pending_delete: None, ..f.panel },
            action: Some(ActionView::Delete(held.0)),
            ..f
        }),
        after_input(f, SessionInput::CancelDelete, now_ms) == (Frame {
            panel: SessionsView { pending_delete: None, ..f.panel },
            ..f
        }),
{
}

/// A new session is created under the name that was typed, where that is not blank;
/// the form opens and closes empty.
pub proof fn a_new_session_gets_its_name(f: Frame, now_ms: i64)
    ensures
        after_input(f, SessionInput::New, now_ms) == (Frame {
            panel: SessionsView { creating: true, new_name: Seq::empty(), ..f.panel },
            ..f
        }),
        trim(f.panel.new_name).len() > 0 ==> after_input(f, SessionInput::Create, now_ms) == (
        Frame {
            panel: SessionsView { creating: false, new_name: Seq::empty(), ..f.panel },
            action: Some(ActionView::Create(f.panel.new_name)),
            ..f
        }),
        trim(f.panel.new_name).len() == 0 ==> after_input(f, SessionInput::Create, now_ms) == f,
        after_input(f, SessionInput::CancelCreate, now_ms) == (Frame {
            panel: SessionsView { creating: false, new_name: Seq::empty(), ..f.panel },
            ..f
        }),
{
}

/// Renaming starts from the name that the session has, by the key for the selected
/// session and by the button for its own. The key does nothing while a session is
/// being renamed.
pub proof fn renaming_starts_from_the_name(f: Frame, i: usize, k: int, now_ms: i64)
    requires
        listed_at(f.panel, k),
        i < f.panel.sessions.len(),
    ensures
        after_input(f, SessionInput::Rename(i), now_ms) == (Frame {
            panel: SessionsView {
                renaming: Some(f.panel.sessions[i as int].id),
                rename_input: f.panel.sessions[i as int].name,
                ..f.panel
            },
            ..f
        }),
        f.panel.renaming is None ==> after_input(f, SessionInput::RenameKey, now_ms) == (Frame {
            panel: SessionsView {
                renaming: Some(f.panel.sessions[k].id),
                rename_input: f.panel.sessions[k].name,
                ..f.panel
            },
            ..f
        }),
        f.panel.renaming is Some ==> after_input(f, SessionInput::RenameKey, now_ms) == f,
{
    lemma_listed(f.panel.sessions, 0, k);
}

/// A rename ends by asking for the name that was typed: the key without the space at
/// its ends, and not for a blank one. Giving up asks for nothing. The form closes
/// empty either way.
pub proof fn a_rename_asks_for_what_was_typed(f: Frame, id: Seq<char>, now_ms: i64)
    requires
        f.panel.renaming == Some(id),
    ensures
        ({
            let closed = SessionsView { renaming: None, rename_input: Seq::empty(), ..f.panel };
            let typed = f.panel.rename_input;
            &&& trim(typed).len() > 0 ==> after_input(f, SessionInput::EnterKey, now_ms) == (
            Frame {
                panel: closed,
                action: Some(ActionView::Rename { id, new_name: trim(typed) }),
                ..f
            })
            &&& trim(typed).len() == 0 ==> after_input(f, SessionInput::EnterKey, now_ms) == (
            Frame { panel: closed, ..f })
            &&& after_input(f, SessionInput::AcceptRename, now_ms) == (Frame {
                panel: closed,
                action: Some(ActionView::Rename { id, new_name: typed }),
                ..f
            })
            &&& after_input(f, SessionInput::RejectRename, now_ms) == (Frame {
                panel: closed,
                ..f
            })
            &&& after_input(f, SessionInput::EscapeKey, now_ms) == (Frame { panel: closed, ..f })
        }),
{
}

/// While no session is being renamed, the keys that end a rename do nothing.
pub proof fn without_a_rename_its_keys_do_nothing(f: Frame, now_ms: i64)
    requires
        f.panel.renaming is None,
    ensures
        after_input(f, SessionInput::EnterKey, now_ms) == f,
        after_input(f, SessionInput::EscapeKey, now_ms) == f,
        after_input(f, SessionInput::AcceptRename, now_ms) == f,
{
}

/// An export asks for the selected session, an import for any; neither changes the
/// panel.
pub proof fn an_export_is_of_the_selected_session(f: Frame, now_ms: i64)
    ensures
        f.panel.selected_id matches Some(id) ==> after_input(f, SessionInput::Export, now_ms) == (
        Frame { action: Some(ActionView::Export { session_id: id }), ..f }),
        f.panel.selected_id is None ==> after_input(f, SessionInput::Export, now_ms) == f,
        after_input(f, SessionInput::Import, now_ms) == (Frame {
            action: Some(ActionView::Import),
            ..f
        }),
{
}

/// The inputs of a frame are taken one after the other.
pub proof fn inputs_are_taken_in_order(
    f: Frame,
    inputs: Seq<SessionInput>,
    n: nat,
    now_ms: i64,
)
    requires
        n < inputs.len(),
    ensures
        after_inputs(f, inputs, 0, now_ms) == f,
        after_inputs(f, inputs, n + 1, now_ms) == after_input(
            after_inputs(f, inputs, n, now_ms),
            inputs[n as int],
            now_ms,
        ),
{
}

/// A message of the panel goes exactly after three seconds.
pub proof fn a_notice_lasts_three_seconds(p: SessionsView, now_ms: i64)
    ensures
        p.notification is Some ==> (p.expires(now_ms) <==> now_ms - p.notification_start > 3000),
        p.notification is None ==> !p.expires(now_ms),
{
}

// ---------------------------------------------------------------------------
// Finished actions
// ---------------------------------------------------------------------------

/// What an action asks of the files: in the panel's directory, for the session and
/// under the name that were asked for. An export without a path goes to a file named
/// like the session, and an import without one comes from a file of a fixed name.
pub proof fn an_action_goes_to_its_files(
    p: SessionsView,
    id: Seq<char>,
    name: Seq<char>,
)
    ensures
        file_request(p, ActionView::Rename { id, new_name: name }) == (RequestView::Rename {
            dir: p.sessions_dir,
            id,
            new_name: name,
        }),
        file_request(p, ActionView::Create(name)) == (RequestView::Create {
            dir: p.sessions_dir,
            name,
        }),
        file_request(p, ActionView::Delete(id)) == (RequestView::Delete {
            dir: p.sessions_dir,
            id,
        }),
        p.export_path.len() > 0 ==> file_request(p, ActionView::Export { session_id: id }) == (
        RequestView::Export { dir: p.sessions_dir, id, output_path: p.export_path }),
        p.export_path.len() == 0 ==> file_request(p, ActionView::Export { session_id: id }) == (
        RequestView::Export { dir: p.sessions_dir, id, output_path: id + ".json"@ }),
        p.import_path.len() > 0 ==> file_request(p, ActionView::Import) == (RequestView::Import {
            dir: p.sessions_dir,
            input_path: p.import_path,
        }),
        p.import_path.len() == 0 ==> file_request(p, ActionView::Import) == (RequestView::Import {
            dir: p.sessions_dir,
            input_path: "session.json"@,
        }),
{
}

/// A renamed session has the new name and is otherwise as it was; so is everything
/// else. The list shows what was read.
pub proof fn a_renamed_session_has_its_name(
    w: Workspace,
    id: String,
    new_name: String,
    listed: Vec<StoredSession>,
    k: int,
    now_ms: i64,
)
    requires
        stands_at(w.app, id@, k),
    ensures
        ({
            let after = finished(w, FinishedAction::Renamed { id, new_name, listed }, now_ms);
            &&& after.app.sessions.len() == w.app.sessions.len()
            &&& after.app.sessions[k] == (SessionView { name: new_name@, ..w.app.sessions[k] })
            &&& forall|i: int|
                0 <= i < w.app.sessions.len() && i != k ==> #[trigger] after.app.sessions[i]
                    == w.app.sessions[i]
            &&& after.app == (AppView { sessions: after.app.sessions, ..w.app })
            &&& after.panel == (SessionsView { sessions: stored_views(listed@), ..w.panel })
            &&& after.config == w.config
        }),
{
    lemma_stands(w.app, id@, k);
}

/// A session that is not open is renamed in the list alone.
pub proof fn a_closed_session_is_renamed_in_the_list(
    w: Workspace,
    id: String,
    new_name: String,
    listed: Vec<StoredSession>,
    now_ms: i64,
)
    requires
        absent(w.app, id@),
    ensures
        finished(w, FinishedAction::Renamed { id, new_name, listed }, now_ms) == (Workspace {
            panel: SessionsView { sessions: stored_views(listed@), ..w.panel },
            ..w
        }),
{
    lemma_absent(w.app, id@);
}

/// A created session is opened behind the others with the general agent, and is the
/// selected one in the list and in the settings.
pub proof fn a_created_session_is_opened(
    w: Workspace,
    runtime: SessionRuntime,
    listed: Vec<StoredSession>,
    now_ms: i64,
)
    requires
        absent(w.app, runtime@.id),
    ensures
        finished(w, FinishedAction::Created { runtime, listed }, now_ms) == (Workspace {
            app: AppView {
                sessions: w.app.sessions.push(
                    SessionView { selected_agent: Some("general"@), ..runtime@ },
                ),
                ..w.app
            },
            panel: SessionsView {
                sessions: stored_views(listed@),
                selected_id: Some(runtime@.id),
                ..w.panel
            },
            config: ConfigView { session_id: Some(runtime@.id), ..w.config },
        }),
{
    lemma_absent(w.app, runtime@.id);
}

/// A session that is created under the id of an open one takes its place.
pub proof fn a_created_session_takes_the_place_of_its_id(
    w: Workspace,
    runtime: SessionRuntime,
    listed: Vec<StoredSession>,
    k: int,
    now_ms: i64,
)
    requires
        stands_at(w.app, runtime@.id, k),
    ensures
        finished(w, FinishedAction::Created { runtime, listed }, now_ms).app == (AppView {
            sessions: w.app.sessions.update(
                k,
                SessionView { selected_agent: Some("general"@), ..runtime@ },
            ),
            ..w.app
        }),
{
    lemma_stands(w.app, runtime@.id, k);
}

/// A deleted session is closed and selected nowhere, and the panel says so; the other
/// sessions stay.
pub proof fn a_deleted_session_is_closed(
    w: Workspace,
    id: String,
    listed: Vec<StoredSession>,
    k: int,
    now_ms: i64,
)
    requires
        stands_at(w.app, id@, k),
    ensures
        finished(w, FinishedAction::Deleted { id, outcome: Ok(()), listed }, now_ms) == (
        Workspace {
            app: AppView {
                sessions: w.app.sessions.remove(k),
                selected_session_id: if w.app.selected_session_id == Some(id@) {
                    None
                } else {
                    w.app.selected_session_id
                },
                ..w.app
            },
            panel: SessionsView {
                sessions: stored_views(listed@),
                selected_id: None,
                notification: Some(("Session deleted"@, true)),
                notification_start: now_ms,
                ..w.panel
            },
            config: ConfigView { session_id: None, ..w.config },
        }),
{
    lemma_stands(w.app, id@, k);
}

/// A deletion that failed says why and changes no open session.
pub proof fn a_failed_deletion_says_why(
    w: Workspace,
    id: String,
    e: String,
    listed: Vec<StoredSession>,
    now_ms: i64,
)
    ensures
        finished(w, FinishedAction::Deleted { id, outcome: Err(e), listed }, now_ms) == (
        Workspace {
            panel: SessionsView {
                sessions: stored_views(listed@),
                selected_id: if w.panel.selected_id == Some(id@) {
                    None
                } else {
                    w.panel.selected_id
                },
                notification: Some(("Failed to delete session: "@ + e@, false)),
                notification_start: now_ms,
                ..w.panel
            },
            ..w
        }),
{
}

/// An export and an import say how they ended, and change nothing else but the list
/// of an import that succeeded.
pub proof fn an_exchange_says_how_it_ended(
    w: Workspace,
    path: String,
    id: String,
    e: String,
    listed: Vec<StoredSession>,
    now_ms: i64,
)
    ensures
        finished(w, FinishedAction::Exported { output_path: path, outcome: Ok(()) }, now_ms) == (
        Workspace {
            panel: SessionsView {
                notification: Some(("Exported to "@ + path@, true)),
                notification_start: now_ms,
                ..w.panel
            },
            ..w
        }),
        finished(w, FinishedAction::Exported { output_path: path, outcome: Err(e) }, now_ms) == (
        Workspace {
            panel: SessionsView {
                notification: Some(("Export failed: "@ + e@, false)),
                notification_start: now_ms,
                ..w.panel
            },
            ..w
        }),
        finished(w, FinishedAction::Imported { imported: Ok(id), listed }, now_ms) == (Workspace {
            panel: SessionsView {
                sessions: stored_views(listed@),
                notification: Some(("Imported session: "@ + id@, true)),
                notification_start: now_ms,
                ..w.panel
            },
            ..w
        }),
        finished(w, FinishedAction::Imported { imported: Err(e), listed }, now_ms) == (Workspace {
            panel: SessionsView {
                notification: Some(("Import failed: "@ + e@, false)),
                notification_start: now_ms,
                ..w.panel
            },
            ..w
        }),
{
}

} // verus!

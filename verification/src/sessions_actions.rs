//! What the sessions sidebar asks for, and what follows once it is done.

use vstd::prelude::*;

use crate::chat_state::{
    lemma_session_at, session_at, AppView, ChatApp, SessionRuntime, SessionView,
};
use crate::sessions_panel::{stored_views, SessionsPanel, SessionsView, StoredSession};
use crate::settings::{Config, ConfigView};
use crate::text::same_text;

verus! {

/// What the sidebar asks for.
pub enum PanelAction {
    Rename { id: String, new_name: String },
    Create(String),
    Delete(String),
    Export { session_id: String },
    Import,
}

/// What an action says.
#[verifier::ext_equal]
pub enum ActionView {
    Rename { id: Seq<char>, new_name: Seq<char> },
    Create(Seq<char>),
    Delete(Seq<char>),
    Export { session_id: Seq<char> },
    Import,
}

impl View for PanelAction {
    type V = ActionView;

    open spec fn view(&self) -> ActionView {
        match *self {
            PanelAction::Rename { id, new_name } => ActionView::Rename {
                id: id@,
                new_name: new_name@,
            },
            PanelAction::Create(name) => ActionView::Create(name@),
            PanelAction::Delete(id) => ActionView::Delete(id@),
            PanelAction::Export { session_id } => ActionView::Export { session_id: session_id@ },
            PanelAction::Import => ActionView::Import,
        }
    }
}

/// The file work that an action needs, in the sessions directory.
pub enum FileRequest {
    /// Load the session, give it the name, heal its history and save it.
    Rename { dir: String, id: String, new_name: String },
    Create { dir: String, name: String },
    Delete { dir: String, id: String },
    Export { dir: String, id: String, output_path: String },
    Import { dir: String, input_path: String },
}

/// What a request says.
#[verifier::ext_equal]
pub enum RequestView {
    Rename { dir: Seq<char>, id: Seq<char>, new_name: Seq<char> },
    Create { dir: Seq<char>, name: Seq<char> },
    Delete { dir: Seq<char>, id: Seq<char> },
    Export { dir: Seq<char>, id: Seq<char>, output_path: Seq<char> },
    Import { dir: Seq<char>, input_path: Seq<char> },
}

impl View for FileRequest {
    type V = RequestView;

    open spec fn view(&self) -> RequestView {
        match *self {
            FileRequest::Rename { dir, id, new_name } => RequestView::Rename {
                dir: dir@,
                id: id@,
                new_name: new_name@,
            },
            FileRequest::Create { dir, name } => RequestView::Create { dir: dir@, name: name@ },
            FileRequest::Delete { dir, id } => RequestView::Delete { dir: dir@, id: id@ },
            FileRequest::Export { dir, id, output_path } => RequestView::Export {
                dir: dir@,
                id: id@,
                output_path: output_path@,
            },
            FileRequest::Import { dir, input_path } => RequestView::Import {
                dir: dir@,
                input_path: input_path@,
            },
        }
    }
}

/// The file work for an action. Without an export path the file is named after
/// the session; without an import path it is `session.json`.
pub open spec fn file_request(p: SessionsView, action: ActionView) -> RequestView {
    match action {
        ActionView::Rename { id, new_name } => RequestView::Rename {
            dir: p.sessions_dir,
            id,
            new_name,
        },
        ActionView::Create(name) => RequestView::Create { dir: p.sessions_dir, name },
        ActionView::Delete(id) => RequestView::Delete { dir: p.sessions_dir, id },
        ActionView::Export { session_id } => RequestView::Export {
            dir: p.sessions_dir,
            id: session_id,
            output_path: if p.export_path.len() == 0 {
                session_id + ".json"@
            } else {
                p.export_path
            },
        },
        ActionView::Import => RequestView::Import {
            dir: p.sessions_dir,
            input_path: if p.import_path.len() == 0 {
                "session.json"@
            } else {
                p.import_path
            },
        },
    }
}

/// An action whose file work has ended. Where the list of sessions is read
/// again, it comes along.
pub enum FinishedAction {
    Renamed { id: String, new_name: String, listed: Vec<StoredSession> },
    /// The runtime of the session that was created.
    Created { runtime: SessionRuntime, listed: Vec<StoredSession> },
    Deleted { id: String, outcome: Result<(), String>, listed: Vec<StoredSession> },
    Exported { output_path: String, outcome: Result<(), String> },
    /// The id of the imported session.
    Imported { imported: Result<String, String>, listed: Vec<StoredSession> },
}

/// What the application, the sidebar and the configuration hold together.
#[verifier::ext_equal]
pub struct Workspace {
    pub app: AppView,
    pub panel: SessionsView,
    pub config: ConfigView,
}

/// The sessions with `s` stored under its id.
pub open spec fn stored(sessions: Seq<SessionView>, s: SessionView) -> Seq<SessionView> {
    match session_at(sessions, s.id, 0) {
        Some(k) => sessions.update(k, s),
        None => sessions.push(s),
    }
}

/// The sessions without the one under this id.
pub open spec fn dropped(sessions: Seq<SessionView>, id: Seq<char>) -> Seq<SessionView> {
    match session_at(sessions, id, 0) {
        Some(k) => sessions.remove(k),
        None => sessions,
    }
}

/// The sessions with another name under this id.
pub open spec fn renamed(
    sessions: Seq<SessionView>,
    id: Seq<char>,
    name: Seq<char>,
) -> Seq<SessionView> {
    match session_at(sessions, id, 0) {
        Some(k) => sessions.update(k, SessionView { name, ..sessions[k] }),
        None => sessions,
    }
}

/// What follows from an action whose file work has ended.
pub open spec fn finished(w: Workspace, done: FinishedAction, now_ms: i64) -> Workspace {
    match done {
        FinishedAction::Renamed { id, new_name, listed } => Workspace {
            app: AppView { sessions: renamed(w.app.sessions, id@, new_name@), ..w.app },
            panel: SessionsView { sessions: stored_views(listed@), ..w.panel },
            ..w
        },
        FinishedAction::Created { runtime, listed } => {
            let fresh = SessionView { selected_agent: Some("general"@), ..runtime@ };
            Workspace {
                app: AppView { sessions: stored(w.app.sessions, fresh), ..w.app },
                panel: SessionsView {
                    sessions: stored_views(listed@),
                    selected_id: Some(fresh.id),
                    ..w.panel
                },
                config: ConfigView { session_id: Some(fresh.id), ..w.config },
            }
        },
        FinishedAction::Deleted { id, outcome: Ok(_), listed } => Workspace {
            app: AppView {
                sessions: dropped(w.app.sessions, id@),
                selected_session_id: if w.app.is_selected(id@) {
                    None
                } else {
                    w.app.selected_session_id
                },
                ..w.app
            },
            panel: SessionsView {
                sessions: stored_views(listed@),
                selected_id: None,
                ..w.panel
            }.notified("Session deleted"@, true, now_ms),
            config: ConfigView { session_id: None, ..w.config },
        },
        FinishedAction::Deleted { id, outcome: Err(e), listed } => Workspace {
            panel: SessionsView {
                sessions: stored_views(listed@),
                selected_id: if w.panel.selected_id == Some(id@) {
                    None
                } else {
                    w.panel.selected_id
                },
                ..w.panel
            }.notified("Failed to delete session: "@ + e@, false, now_ms),
            ..w
        },
        FinishedAction::Exported { output_path, outcome: Ok(_) } => Workspace {
            panel: w.panel.notified("Exported to "@ + output_path@, true, now_ms),
            ..w
        },
        FinishedAction::Exported { output_path, outcome: Err(e) } => Workspace {
            panel: w.panel.notified("Export failed: "@ + e@, false, now_ms),
            ..w
        },
        FinishedAction::Imported { imported: Ok(id), listed } => Workspace {
            panel: SessionsView {
                sessions: stored_views(listed@),
                ..w.panel
            }.notified("Imported session: "@ + id@, true, now_ms),
            ..w
        },
        FinishedAction::Imported { imported: Err(e), listed } => Workspace {
            panel: w.panel.notified("Import failed: "@ + e@, false, now_ms),
            ..w
        },
    }
}

impl ChatApp {
    /// Keep a session under its id, in place of the one that was there.
    pub fn store_session(&mut self, s: SessionRuntime)
        ensures
            final(self)@ == (AppView { sessions: stored(old(self)@.sessions, s@), ..old(self)@ }),
    {
        match self.find_session(s.id.as_str()) {
            Some(k) => {
                self.sessions.set(k, s);
            },
            None => {
                self.sessions.push(s);
            },
        }
        assert(self@.sessions =~= stored(old(self)@.sessions, s@));
    }

    /// Forget the session with this id.
    pub fn drop_session(&mut self, id: &str)
        ensures
            final(self)@ == (AppView { sessions: dropped(old(self)@.sessions, id@), ..old(self)@ }),
    {
        match self.find_session(id) {
            Some(k) => {
                self.sessions.remove(k);
            },
            None => {},
        }
        assert(self@.sessions =~= dropped(old(self)@.sessions, id@));
    }

    /// Give the session with this id another name.
    pub fn rename_session(&mut self, id: &str, new_name: String)
        ensures
            final(self)@ == (AppView {
                sessions: renamed(old(self)@.sessions, id@, new_name@),
                ..old(self)@
            }),
    {
        match self.find_session(id) {
            Some(k) => {
                self.sessions[k].name = new_name;
            },
            None => {},
        }
        assert(self@.sessions =~= renamed(old(self)@.sessions, id@, new_name@));
    }
}

impl SessionsPanel {
    /// The file work for an action.
    pub fn request(&self, action: &PanelAction) -> (r: FileRequest)
        ensures
            r@ == file_request(self@, action@),
    {
        let dir = self.sessions_dir.clone();
        match action {
            PanelAction::Rename { id, new_name } => FileRequest::Rename {
                dir,
                id: id.clone(),
                new_name: new_name.clone(),
            },
            PanelAction::Create(name) => FileRequest::Create { dir, name: name.clone() },
            PanelAction::Delete(id) => FileRequest::Delete { dir, id: id.clone() },
            PanelAction::Export { session_id } => {
                let output_path = if self.export_path.as_str().is_empty() {
                    let mut p = session_id.clone();
                    p.append(".json");
                    p
                } else {
                    self.export_path.clone()
                };
                FileRequest::Export { dir, id: session_id.clone(), output_path }
            },
            PanelAction::Import => {
                let input_path = if self.import_path.as_str().is_empty() {
                    "session.json".to_owned()
                } else {
                    self.import_path.clone()
                };
                FileRequest::Import { dir, input_path }
            },
        }
    }
}

/// Take in an action whose file work has ended. Where the remembered session
/// changes, the configuration is to be written.
pub fn apply_sessions_action(
    app: &mut ChatApp,
    panel: &mut SessionsPanel,
    config: &mut Config,
    done: FinishedAction,
    now_ms: i64,
)
    ensures
        (Workspace { app: final(app)@, panel: final(panel)@, config: final(config)@ }) == finished(
            Workspace { app: old(app)@, panel: old(panel)@, config: old(config)@ },
            done,
            now_ms,
        ),
{
    match done {
        FinishedAction::Renamed { id, new_name, listed } => {
            app.rename_session(id.as_str(), new_name);
            panel.refresh(listed);
        },
        FinishedAction::Created { runtime, listed } => {
            let mut runtime = runtime;
            // The agent of a new session is the general one.
            runtime.selected_agent = Some("general".to_owned());
            let id = runtime.id.clone();
            app.store_session(runtime);
            panel.selected_id = Some(id.clone());
            config.session_id = Some(id);
            panel.refresh(listed);
        },
        FinishedAction::Deleted { id, outcome, listed } => match outcome {
            Ok(_) => {
                app.drop_session(id.as_str());
                if app.is_selected(id.as_str()) {
                    app.selected_session_id = None;
                }
                panel.clear_session();
                panel.refresh(listed);
                config.session_id = None;
                panel.notify_at("Session deleted", true, now_ms);
            },
            Err(e) => {
                let mut msg = "Failed to delete session: ".to_owned();
                msg.append(e.as_str());
                panel.notify_at(msg.as_str(), false, now_ms);
                let selected = match &panel.selected_id {
                    Some(s) => same_text(s.as_str(), id.as_str()),
                    None => false,
                };
                if selected {
                    panel.clear_session();
                }
                panel.refresh(listed);
            },
        },
        FinishedAction::Exported { output_path, outcome } => match outcome {
            Ok(_) => {
                let mut msg = "Exported to ".to_owned();
                msg.append(output_path.as_str());
                panel.notify_at(msg.as_str(), true, now_ms);
            },
            Err(e) => {
                let mut msg = "Export failed: ".to_owned();
                msg.append(e.as_str());
                panel.notify_at(msg.as_str(), false, now_ms);
            },
        },
        FinishedAction::Imported { imported, listed } => match imported {
            Ok(id) => {
                let mut msg = "Imported session: ".to_owned();
                msg.append(id.as_str());
                panel.notify_at(msg.as_str(), true, now_ms);
                panel.refresh(listed);
            },
            Err(e) => {
                let mut msg = "Import failed: ".to_owned();
                msg.append(e.as_str());
                panel.notify_at(msg.as_str(), false, now_ms);
            },
        },
    }
}

// ---------------------------------------------------------------------------
// Laws
// ---------------------------------------------------------------------------

/// No two sessions have the same id.
pub open spec fn ids_are_distinct(sessions: Seq<SessionView>) -> bool {
    forall|i: int, j: int|
        0 <= i < j < sessions.len() ==> (#[trigger] sessions[i]).id != (#[trigger] sessions[j]).id
}

/// Whatever the sidebar asked for, the sessions keep distinct ids.
pub proof fn session_ids_stay_distinct(w: Workspace, done: FinishedAction, now_ms: i64)
    requires
        ids_are_distinct(w.app.sessions),
    ensures
        ids_are_distinct(finished(w, done, now_ms).app.sessions),
{
    let all = w.app.sessions;
    match done {
        FinishedAction::Created { runtime, listed } => {
            lemma_session_at(all, runtime.id@, 0);
        },
        FinishedAction::Renamed { id, new_name, listed } => {
            lemma_session_at(all, id@, 0);
        },
        FinishedAction::Deleted { id, outcome: Ok(_), listed } => {
            lemma_session_at(all, id@, 0);
        },
        _ => {},
    }
}

/// A deleted session is gone, nothing has it selected, and every other session
/// is still there as it was.
pub proof fn a_deleted_session_is_gone(
    w: Workspace,
    id: String,
    listed: Vec<StoredSession>,
    now_ms: i64,
)
    requires
        ids_are_distinct(w.app.sessions),
    ensures
        ({
            let after = finished(
                w,
                FinishedAction::Deleted { id, outcome: Ok(()), listed },
                now_ms,
            );
            &&& after.app.find(id@) is None
            &&& !after.app.is_selected(id@)
            &&& after.panel.selected_id is None
            &&& after.config.session_id is None
            &&& forall|s: SessionView|
                s.id != id@ ==> (#[trigger] w.app.sessions.contains(s)
                    <==> after.app.sessions.contains(s))
        }),
{
    let all = w.app.sessions;
    let rest = dropped(all, id@);
    lemma_session_at(all, id@, 0);
    lemma_session_at(rest, id@, 0);
    if let Some(k) = session_at(all, id@, 0) {
        assert forall|s: SessionView| s.id != id@ implies (#[trigger] all.contains(s)
            <==> rest.contains(s)) by {
            if all.contains(s) {
                let i = choose|i: int| 0 <= i < all.len() && all[i] == s;
                if i < k {
                    assert(rest[i] == s);
                } else {
                    assert(rest[i - 1] == s);
                }
            }
            if rest.contains(s) {
                let i = choose|i: int| 0 <= i < rest.len() && rest[i] == s;
                if i < k {
                    assert(all[i] == s);
                } else {
                    assert(all[i + 1] == s);
                }
            }
        }
        if let Some(m) = session_at(rest, id@, 0) {
            if m < k {
                assert(all[m].id == id@ && all[k].id == id@);
            } else {
                assert(all[m + 1].id == id@ && all[k].id == id@);
            }
        }
    }
}

/// A created session is found under its id, with the general agent, and is the
/// one that the sidebar shows and the configuration remembers.
pub proof fn a_created_session_is_found(
    w: Workspace,
    runtime: SessionRuntime,
    listed: Vec<StoredSession>,
    now_ms: i64,
)
    ensures
        ({
            let after = finished(w, FinishedAction::Created { runtime, listed }, now_ms);
            &&& after.app.find(runtime@.id) matches Some(k) && after.app.sessions[k]
                == (SessionView { selected_agent: Some("general"@), ..runtime@ })
            &&& after.panel.selected_id == Some(runtime@.id)
            &&& after.config.session_id == Some(runtime@.id)
        }),
{
    let all = w.app.sessions;
    let fresh = SessionView { selected_agent: Some("general"@), ..runtime@ };
    let after = stored(all, fresh);
    lemma_session_at(all, fresh.id, 0);
    lemma_session_at(after, fresh.id, 0);
    match session_at(all, fresh.id, 0) {
        Some(k) => {
            lemma_first_kept(all, after, fresh.id, 0);
        },
        None => {
            let m = after.len() - 1;
            assert(after[m].id == fresh.id);
            match session_at(after, fresh.id, 0) {
                Some(n) => {
                    if n < m {
                        assert(all[n].id == fresh.id);
                    }
                },
                None => {},
            }
        },
    }
}

/// Replacing a session by one with the same id keeps what is found.
proof fn lemma_first_kept(a: Seq<SessionView>, b: Seq<SessionView>, id: Seq<char>, from: int)
    requires
        0 <= from,
        a.len() == b.len(),
        forall|i: int| 0 <= i < a.len() ==> (#[trigger] a[i]).id == (#[trigger] b[i]).id,
    ensures
        session_at(a, id, from) == session_at(b, id, from),
    decreases a.len() - from,
{
    if from < a.len() && a[from].id != id {
        lemma_first_kept(a, b, id, from + 1);
    }
}

/// A failed deletion, an export and an import leave the sessions of the
/// application and the configuration alone.
pub proof fn other_actions_keep_the_sessions(w: Workspace, done: FinishedAction, now_ms: i64)
    requires
        done is Exported || done is Imported || (done matches FinishedAction::Deleted {
            outcome,
            ..
        } && outcome is Err),
    ensures
        finished(w, done, now_ms).app == w.app,
        finished(w, done, now_ms).config == w.config,
{
}

} // verus!

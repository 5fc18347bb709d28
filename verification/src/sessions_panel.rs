//! The sessions sidebar.

use vstd::prelude::*;

use crate::clock::now_millis;
use crate::numbers::{count_text, decimal};
use crate::pieces::{truncate, truncated};
use crate::sessions_actions::{ActionView, PanelAction};
use crate::settings::{Config, ConfigView};
use crate::text::{opt_text, same_text, trim, trimmed};

verus! {

// ---------------------------------------------------------------------------
// Stored sessions
// ---------------------------------------------------------------------------

/// A message of a stored session.
pub struct StoredMessage {
    pub role: String,
    pub content: String,
}

/// A session as it is stored on disk.
pub struct StoredSession {
    pub id: String,
    pub name: String,
    pub messages: Vec<StoredMessage>,
    pub updated_at: String,
}

/// What a stored session holds; a message is its role and its text.
#[verifier::ext_equal]
pub struct StoredView {
    pub id: Seq<char>,
    pub name: Seq<char>,
    pub messages: Seq<(Seq<char>, Seq<char>)>,
    pub updated_at: Seq<char>,
}

impl View for StoredSession {
    type V = StoredView;

    open spec fn view(&self) -> StoredView {
        StoredView {
            id: self.id@,
            name: self.name@,
            messages: Seq::new(
                self.messages@.len(),
                |i: int| (self.messages@[i].role@, self.messages@[i].content@),
            ),
            updated_at: self.updated_at@,
        }
    }
}

/// What the stored sessions of a list hold.
pub open spec fn stored_views(v: Seq<StoredSession>) -> Seq<StoredView> {
    Seq::new(v.len(), |i: int| v[i]@)
}

/// The text of the last message among the first `n` that the user or the
/// assistant wrote.
pub open spec fn last_said(messages: Seq<(Seq<char>, Seq<char>)>, n: nat) -> Seq<char>
    decreases n,
{
    if n == 0 {
        Seq::empty()
    } else {
        let m = messages[n - 1];
        if m.0 == "user"@ || m.0 == "assistant"@ {
            m.1
        } else {
            last_said(messages, (n - 1) as nat)
        }
    }
}

impl StoredSession {
    /// The text of the last message that the user or the assistant wrote.
    pub fn last_message(&self) -> (r: String)
        ensures
            r@ == last_said(self@.messages, self@.messages.len()),
    {
        let mut n: usize = self.messages.len();
        while n > 0
            invariant
                n <= self.messages@.len(),
                last_said(self@.messages, self@.messages.len()) == last_said(
                    self@.messages,
                    n as nat,
                ),
            decreases n,
        {
            let m = &self.messages[n - 1];
            if same_text(m.role.as_str(), "user") || same_text(m.role.as_str(), "assistant") {
                return m.content.clone();
            }
            n -= 1;
        }
        String::new()
    }

    /// The label of a session: its name, how many messages it has, a preview of
    /// the last one, and how long ago it was changed.
    pub fn label(&self, preview: &str, age: &str, is_renaming: bool) -> (r: String)
        ensures
            r@ == session_label(self@, preview@, age@, is_renaming),
    {
        let count: usize = self.messages.len();
        let mut r = self.name.clone();
        r.append("\n");
        if count == 1 {
            r.append("1 message");
        } else {
            let digits = count_text(count);
            r.append(digits.as_str());
            r.append(" messages");
        }
        r.append("  •  ");
        r.append(preview);
        r.append("\n");
        r.append(age);
        if is_renaming {
            r.append("\n🔄 rename");
        }
        assert(r@ =~= session_label(self@, preview@, age@, is_renaming));
        r
    }

    /// What the session is shown as in the list; the preview of its last message
    /// takes at most 50 characters.
    pub fn shown_label(&self, age: &str, is_renaming: bool) -> (r: String)
        ensures
            r@ == session_label(
                self@,
                truncated(last_said(self@.messages, self@.messages.len()), 50),
                age@,
                is_renaming,
            ),
    {
        let preview = truncate(self.last_message().as_str(), 50);
        self.label(preview.as_str(), age, is_renaming)
    }
}

/// The label of a session in the list.
pub open spec fn session_label(
    s: StoredView,
    preview: Seq<char>,
    age: Seq<char>,
    is_renaming: bool,
) -> Seq<char> {
    let count = if s.messages.len() == 1 {
        "1 message"@
    } else {
        decimal(s.messages.len()) + " messages"@
    };
    let label = s.name + "\n"@ + count + "  •  "@ + preview + "\n"@ + age;
    if is_renaming {
        label + "\n🔄 rename"@
    } else {
        label
    }
}

/// The position of the first stored session with this id, from `from` on.
pub open spec fn stored_at(sessions: Seq<StoredView>, id: Seq<char>, from: int) -> Option<int>
    decreases sessions.len() - from,
{
    if from < 0 || from >= sessions.len() {
        None
    } else if sessions[from].id == id {
        Some(from)
    } else {
        stored_at(sessions, id, from + 1)
    }
}

// ---------------------------------------------------------------------------
// The panel
// ---------------------------------------------------------------------------

/// The sessions sidebar: the stored sessions, which one is selected, and the
/// inputs that are open.
pub struct SessionsPanel {
    pub sessions: Vec<StoredSession>,
    pub selected_id: Option<String>,
    pub sessions_dir: String,
    pub renaming: Option<String>,
    pub rename_input: String,
    pub creating: bool,
    pub new_name: String,
    /// The session that waits for the delete confirmation: id, name, last
    /// message.
    pub pending_delete: Option<(String, String, String)>,
    /// Notification message shown briefly after an operation.
    pub notification: Option<(String, bool)>,
    /// Time when the notification was shown (for auto-dismiss), in
    /// milliseconds.
    pub notification_start: i64,
    pub export_path: String,
    pub import_path: String,
}

/// What the sidebar holds.
#[verifier::ext_equal]
pub struct SessionsView {
    pub sessions: Seq<StoredView>,
    pub selected_id: Option<Seq<char>>,
    pub sessions_dir: Seq<char>,
    pub renaming: Option<Seq<char>>,
    pub rename_input: Seq<char>,
    pub creating: bool,
    pub new_name: Seq<char>,
    pub pending_delete: Option<(Seq<char>, Seq<char>, Seq<char>)>,
    pub notification: Option<(Seq<char>, bool)>,
    pub notification_start: i64,
    pub export_path: Seq<char>,
    pub import_path: Seq<char>,
}

impl View for SessionsPanel {
    type V = SessionsView;

    open spec fn view(&self) -> SessionsView {
        SessionsView {
            sessions: stored_views(self.sessions@),
            selected_id: opt_text(self.selected_id),
            sessions_dir: self.sessions_dir@,
            renaming: opt_text(self.renaming),
            rename_input: self.rename_input@,
            creating: self.creating,
            new_name: self.new_name@,
            pending_delete: match self.pending_delete {
                Some(p) => Some((p.0@, p.1@, p.2@)),
                None => None,
            },
            notification: match self.notification {
                Some(n) => Some((n.0@, n.1)),
                None => None,
            },
            notification_start: self.notification_start,
            export_path: self.export_path@,
            import_path: self.import_path@,
        }
    }
}

impl SessionsView {
    /// The sidebar with a notification that was shown at `now_ms`.
    pub open spec fn notified(self, msg: Seq<char>, success: bool, now_ms: i64) -> SessionsView {
        SessionsView {
            notification: Some((msg, success)),
            notification_start: now_ms,
            ..self
        }
    }

    /// The sidebar without a rename input.
    pub open spec fn not_renaming(self) -> SessionsView {
        SessionsView { renaming: None, rename_input: Seq::empty(), ..self }
    }

    /// Whether the notification has expired at the given time.
    pub open spec fn expires(self, now_ms: i64) -> bool {
        self.notification is Some && now_ms - self.notification_start > 3000
    }

    /// The position of the selected session in the list.
    pub open spec fn selected(self) -> Option<int> {
        match self.selected_id {
            Some(id) => stored_at(self.sessions, id, 0),
            None => None,
        }
    }
}

/// One thing that the user does in the sidebar.
#[derive(Clone, Copy, Debug, PartialEq, Eq, Structural)]
pub enum SessionInput {
    /// "Delete" in the confirmation dialog.
    ConfirmDelete,
    /// "Cancel" in the confirmation dialog.
    CancelDelete,
    /// The "+ New" button.
    New,
    /// The "Delete" button.
    Delete,
    /// The key that renames the selected session.
    RenameKey,
    /// The key that confirms a rename.
    EnterKey,
    /// The key that cancels a rename.
    EscapeKey,
    /// The tick beside the rename input.
    AcceptRename,
    /// The cross beside the rename input.
    RejectRename,
    /// A click on a session of the list.
    Select(usize),
    /// A double click on a session of the list.
    Rename(usize),
    Export,
    Import,
    /// "Create", or the key in the name input of a new session.
    Create,
    /// "Cancel" beside the name input of a new session.
    CancelCreate,
}

/// What happened in one frame: the sidebar and the configuration after it, the
/// session that was chosen, and the action that was asked for.
#[verifier::ext_equal]
pub struct Frame {
    pub panel: SessionsView,
    pub config: ConfigView,
    pub chosen: Option<Seq<char>>,
    pub action: Option<ActionView>,
}

/// The frame after one more input. An action asked for later replaces one
/// asked for earlier.
pub open spec fn after_input(f: Frame, input: SessionInput, now_ms: i64) -> Frame {
    let p = f.panel;
    match input {
        SessionInput::ConfirmDelete => match p.pending_delete {
            Some(d) => Frame {
                panel: SessionsView { pending_delete: None, ..p },
                action: Some(ActionView::Delete(d.0)),
                ..f
            },
            None => f,
        },
        SessionInput::CancelDelete => Frame {
            panel: SessionsView { pending_delete: None, ..p },
            ..f
        },
        SessionInput::New => Frame {
            panel: SessionsView { creating: true, new_name: Seq::empty(), ..p },
            ..f
        },
        SessionInput::Delete => match p.selected() {
            Some(k) => {
                let s = p.sessions[k];
                Frame {
                    panel: SessionsView {
                        pending_delete: Some(
                            (s.id, s.name, last_said(s.messages, s.messages.len())),
                        ),
                        ..p
                    },
                    ..f
                }
            },
            None => Frame { panel: p.notified("No session selected"@, false, now_ms), ..f },
        },
        SessionInput::RenameKey => match (p.renaming, p.selected()) {
            (None, Some(k)) => Frame {
                panel: SessionsView {
                    renaming: Some(p.sessions[k].id),
                    rename_input: p.sessions[k].name,
                    ..p
                },
                ..f
            },
            _ => f,
        },
        SessionInput::EnterKey => match p.renaming {
            Some(id) => Frame {
                panel: p.not_renaming(),
                action: if trim(p.rename_input).len() > 0 {
                    Some(ActionView::Rename { id, new_name: trim(p.rename_input) })
                } else {
                    f.action
                },
                ..f
            },
            None => f,
        },
        SessionInput::EscapeKey => match p.renaming {
            Some(_) => Frame { panel: p.not_renaming(), ..f },
            None => f,
        },
        SessionInput::AcceptRename => match p.renaming {
            Some(id) => Frame {
                panel: p.not_renaming(),
                action: Some(ActionView::Rename { id, new_name: p.rename_input }),
                ..f
            },
            None => f,
        },
        SessionInput::RejectRename => Frame { panel: p.not_renaming(), ..f },
        SessionInput::Select(i) => if i < p.sessions.len() {
            let id = p.sessions[i as int].id;
            Frame {
                panel: SessionsView { selected_id: Some(id), ..p },
                config: ConfigView { session_id: Some(id), ..f.config },
                chosen: Some(id),
                ..f
            }
        } else {
            f
        },
        SessionInput::Rename(i) => if i < p.sessions.len() {
            Frame {
                panel: SessionsView {
                    renaming: Some(p.sessions[i as int].id),
                    rename_input: p.sessions[i as int].name,
                    ..p
                },
                ..f
            }
        } else {
            f
        },
        SessionInput::Export => match p.selected_id {
            Some(session_id) => Frame { action: Some(ActionView::Export { session_id }), ..f },
            None => f,
        },
        SessionInput::Import => Frame { action: Some(ActionView::Import), ..f },
        SessionInput::Create => if trim(p.new_name).len() > 0 {
            Frame {
                panel: SessionsView { new_name: Seq::empty(), creating: false, ..p },
                action: Some(ActionView::Create(p.new_name)),
                ..f
            }
        } else {
            f
        },
        SessionInput::CancelCreate => Frame {
            panel: SessionsView { creating: false, new_name: Seq::empty(), ..p },
            ..f
        },
    }
}

/// The frame after the first `n` inputs.
pub open spec fn after_inputs(f: Frame, inputs: Seq<SessionInput>, n: nat, now_ms: i64) -> Frame
    decreases n,
{
    if n == 0 {
        f
    } else {
        after_input(after_inputs(f, inputs, (n - 1) as nat, now_ms), inputs[n - 1], now_ms)
    }
}

/// What an optional action says.
pub open spec fn opt_action(a: Option<PanelAction>) -> Option<ActionView> {
    match a {
        Some(x) => Some(x@),
        None => None,
    }
}

impl SessionsPanel {
    /// The sidebar on a list of stored sessions; the first one is selected.
    pub fn new(sessions_dir: String, sessions: Vec<StoredSession>) -> (r: Self)
        ensures
            r@ == (SessionsView {
                sessions: stored_views(sessions@),
                selected_id: if sessions@.len() > 0 {
                    Some(sessions@[0].id@)
                } else {
                    None
                },
                sessions_dir: sessions_dir@,
                renaming: None,
                rename_input: Seq::empty(),
                creating: false,
                new_name: Seq::empty(),
                pending_delete: None,
                notification: None,
                notification_start: 0,
                export_path: Seq::empty(),
                import_path: Seq::empty(),
            }),
    {
        let selected_id = if sessions.len() > 0 {
            Some(sessions[0].id.clone())
        } else {
            None
        };
        SessionsPanel {
            sessions,
            selected_id,
            sessions_dir,
            renaming: None,
            rename_input: String::new(),
            creating: false,
            new_name: String::new(),
            pending_delete: None,
            notification: None,
            notification_start: 0,
            export_path: String::new(),
            import_path: String::new(),
        }
    }

    /// Show the list as it was read again.
    pub fn refresh(&mut self, listed: Vec<StoredSession>)
        ensures
            final(self)@ == (SessionsView { sessions: stored_views(listed@), ..old(self)@ }),
    {
        self.sessions = listed;
    }

    /// Select the session with this id.
    pub fn select_session(&mut self, id: &str)
        ensures
            final(self)@ == (SessionsView { selected_id: Some(id@), ..old(self)@ }),
    {
        self.selected_id = Some(id.to_owned());
    }

    /// Clear the selected session (used after deletion).
    pub fn clear_session(&mut self)
        ensures
            final(self)@ == (SessionsView { selected_id: None, ..old(self)@ }),
    {
        self.selected_id = None;
    }

    /// Show a brief notification message, at the time of the clock, which is not
    /// before 1970.
    pub fn show_notification(&mut self, msg: &str, success: bool)
        ensures
            final(self)@.notification_start >= 0,
            final(self)@ == old(self)@.notified(msg@, success, final(self)@.notification_start),
    {
        let now: i64 = now_millis();
        self.notify_at(msg, success, now);
    }

    /// Show a notification at the given time.
    pub fn notify_at(&mut self, msg: &str, success: bool, now_ms: i64)
        ensures
            final(self)@ == old(self)@.notified(msg@, success, now_ms),
    {
        self.notification = Some((msg.to_owned(), success));
        self.notification_start = now_ms;
    }

    /// Drop the current notification where it has expired (after 3 seconds) at
    /// the time of the clock, which is not before 1970; returns whether it was
    /// dropped.
    pub fn update_notification(&mut self) -> (r: bool)
        ensures
            exists|now_ms: i64| now_ms >= 0 && r == #[trigger] old(self)@.expires(now_ms),
            final(self)@ == (SessionsView {
                notification: if r {
                    None
                } else {
                    old(self)@.notification
                },
                ..old(self)@
            }),
    {
        let now: i64 = now_millis();
        let dropped = self.expire_at(now);
        assert(dropped == old(self)@.expires(now));
        dropped
    }

    /// Drop the current notification where more than 3 seconds lie between it
    /// and the given time; returns whether it was dropped.
    pub fn expire_at(&mut self, now_ms: i64) -> (r: bool)
        ensures
            r == (old(self)@.notification is Some && now_ms - old(self)@.notification_start
                > 3000),
            final(self)@ == (SessionsView {
                notification: if r {
                    None
                } else {
                    old(self)@.notification
                },
                ..old(self)@
            }),
    {
        if self.notification.is_some() {
            let elapsed: i128 = now_ms as i128 - self.notification_start as i128;
            if elapsed > 3000 {
                self.notification = None;
                return true;
            }
        }
        false
    }

    /// The position of the selected session in the list.
    pub fn selected_index(&self) -> (r: Option<usize>)
        ensures
            match r {
                Some(k) => self@.selected() == Some(k as int) && k < self.sessions@.len(),
                None => self@.selected() is None,
            },
    {
        match &self.selected_id {
            None => None,
            Some(id) => {
                let mut i: usize = 0;
                while i < self.sessions.len()
                    invariant
                        i <= self.sessions@.len(),
                        self.selected_id == Some(*id),
                        self@.selected() == stored_at(self@.sessions, id@, i as int),
                    decreases self.sessions.len() - i,
                {
                    if same_text(self.sessions[i].id.as_str(), id.as_str()) {
                        return Some(i);
                    }
                    i += 1;
                }
                None
            },
        }
    }

    /// Whether the session at this place of the list is the selected one.
    pub fn is_selected(&self, i: usize) -> (r: bool)
        requires
            i < self@.sessions.len(),
        ensures
            r == (self@.selected_id == Some(self@.sessions[i as int].id)),
    {
        match &self.selected_id {
            Some(id) => same_text(id.as_str(), self.sessions[i].id.as_str()),
            None => false,
        }
    }

    /// Whether the session at this place of the list shows the rename input.
    pub fn is_renaming(&self, i: usize) -> (r: bool)
        requires
            i < self@.sessions.len(),
        ensures
            r == (self@.renaming == Some(self@.sessions[i as int].id)),
    {
        match &self.renaming {
            Some(id) => same_text(id.as_str(), self.sessions[i].id.as_str()),
            None => false,
        }
    }

    fn stop_renaming(&mut self)
        ensures
            final(self)@ == old(self)@.not_renaming(),
    {
        self.renaming = None;
        self.rename_input = String::new();
    }

    /// Take in one input.
    fn take_input(
        &mut self,
        config: &mut Config,
        chosen: &mut Option<String>,
        action: &mut Option<PanelAction>,
        input: SessionInput,
        now_ms: i64,
    )
        ensures
            (Frame {
                panel: final(self)@,
                config: final(config)@,
                chosen: opt_text(*final(chosen)),
                action: opt_action(*final(action)),
            }) == after_input(
                Frame {
                    panel: old(self)@,
                    config: old(config)@,
                    chosen: opt_text(*old(chosen)),
                    action: opt_action(*old(action)),
                },
                input,
                now_ms,
            ),
    {
        match input {
            SessionInput::ConfirmDelete => {
                if let Some(d) = &self.pending_delete {
                    *action = Some(PanelAction::Delete(d.0.clone()));
                    self.pending_delete = None;
                }
            },
            SessionInput::CancelDelete => {
                self.pending_delete = None;
            },
            SessionInput::New => {
                self.creating = true;
                self.new_name = String::new();
            },
            SessionInput::Delete => match self.selected_index() {
                Some(k) => {
                    let s = &self.sessions[k];
                    self.pending_delete = Some((s.id.clone(), s.name.clone(), s.last_message()));
                },
                None => {
                    self.notify_at("No session selected", false, now_ms);
                },
            },
            SessionInput::RenameKey => {
                if self.renaming.is_none() {
                    if let Some(k) = self.selected_index() {
                        self.renaming = Some(self.sessions[k].id.clone());
                        self.rename_input = self.sessions[k].name.clone();
                    }
                }
            },
            SessionInput::EnterKey => {
                if let Some(id) = &self.renaming {
                    let new_name = trimmed(self.rename_input.as_str());
                    if !new_name.as_str().is_empty() {
                        *action = Some(PanelAction::Rename { id: id.clone(), new_name });
                    }
                    self.stop_renaming();
                }
            },
            SessionInput::EscapeKey => {
                if self.renaming.is_some() {
                    self.stop_renaming();
                }
            },
            SessionInput::AcceptRename => {
                if let Some(id) = &self.renaming {
                    *action = Some(
                        PanelAction::Rename {
                            id: id.clone(),
                            new_name: self.rename_input.clone(),
                        },
                    );
                    self.stop_renaming();
                }
            },
            SessionInput::RejectRename => {
                self.stop_renaming();
            },
            SessionInput::Select(i) => {
                if i < self.sessions.len() {
                    let id = self.sessions[i].id.clone();
                    *chosen = Some(id.clone());
                    config.session_id = Some(id.clone());
                    self.selected_id = Some(id);
                }
            },
            SessionInput::Rename(i) => {
                if i < self.sessions.len() {
                    self.renaming = Some(self.sessions[i].id.clone());
                    self.rename_input = self.sessions[i].name.clone();
                }
            },
            SessionInput::Export => {
                if let Some(id) = &self.selected_id {
                    *action = Some(PanelAction::Export { session_id: id.clone() });
                }
            },
            SessionInput::Import => {
                *action = Some(PanelAction::Import);
            },
            SessionInput::Create => {
                if !trimmed(self.new_name.as_str()).as_str().is_empty() {
                    *action = Some(PanelAction::Create(self.new_name.clone()));
                    self.new_name = String::new();
                    self.creating = false;
                }
            },
            SessionInput::CancelCreate => {
                self.creating = false;
                self.new_name = String::new();
            },
        }
    }

    /// Take in what the user did during one frame, in the order in which it
    /// happened. Returns the session that was chosen and the action that was
    /// asked for; where a session was chosen, the configuration remembers it
    /// and is to be written.
    pub fn draw(
        &mut self,
        config: &mut Config,
        inputs: &Vec<SessionInput>,
        now_ms: i64,
    ) -> (r: (Option<String>, Option<PanelAction>))
        ensures
            (Frame {
                panel: final(self)@,
                config: final(config)@,
                chosen: opt_text(r.0),
                action: opt_action(r.1),
            }) == after_inputs(
                Frame { panel: old(self)@, config: old(config)@, chosen: None, action: None },
                inputs@,
                inputs@.len(),
                now_ms,
            ),
    {
        let mut chosen: Option<String> = None;
        let mut action: Option<PanelAction> = None;
        let mut i: usize = 0;
        while i < inputs.len()
            invariant
                i <= inputs@.len(),
                (Frame {
                    panel: self@,
                    config: config@,
                    chosen: opt_text(chosen),
                    action: opt_action(action),
                }) == after_inputs(
                    Frame { panel: old(self)@, config: old(config)@, chosen: None, action: None },
                    inputs@,
                    i as nat,
                    now_ms,
                ),
            decreases inputs.len() - i,
        {
            self.take_input(config, &mut chosen, &mut action, inputs[i], now_ms);
            i += 1;
        }
        (chosen, action)
    }
}

// ---------------------------------------------------------------------------
// Laws
// ---------------------------------------------------------------------------

/// A frame in which nothing happens changes nothing and asks for nothing.
pub proof fn an_idle_sidebar_asks_nothing(f: Frame, now_ms: i64)
    ensures
        after_inputs(f, Seq::empty(), 0, now_ms) == f,
{
}

/// No session is deleted without the confirmation dialog: an input asks for a
/// deletion only where a session waits for the confirmation, and then it asks
/// for the deletion of that one.
pub proof fn a_deletion_is_confirmed(f: Frame, input: SessionInput, now_ms: i64)
    requires
        f.action is None,
        after_input(f, input, now_ms).action matches Some(a) && a is Delete,
    ensures
        input is ConfirmDelete,
        f.panel.pending_delete matches Some(d) && after_input(f, input, now_ms).action == Some(
            ActionView::Delete(d.0),
        ),
        after_input(f, input, now_ms).panel.pending_delete is None,
{
}

} // verus!

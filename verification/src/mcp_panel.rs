//! MCP (Model Context Protocol) management panel.
//!
//! The panel lists the configured servers with their status. Operations that
//! block run one at a time on a helper thread; what came of them, and of
//! writing the configuration, is taken in here.

use vstd::prelude::*;

use crate::mcp_edit::{
    blank_edit, edit_of, server_views, EditView, McpServerConfig, ServerEditState, ServerView,
};
use crate::numbers::{count_text, decimal, decimal_text};
use crate::text::{begins_with, list_has, opt_text, same_opt_text, same_text, texts};

verus! {

// ---------------------------------------------------------------------------
// Servers as the manager reports them
// ---------------------------------------------------------------------------

/// The status of a server.
pub enum McpServerStatus {
    Connected,
    Connecting,
    Configured,
    Error(String),
}

/// The status line of a server: its dot and its word.
pub open spec fn status_words(status: McpServerStatus, enabled: bool) -> (Seq<char>, Seq<char>) {
    match status {
        McpServerStatus::Connected => ("●"@, "connected"@),
        McpServerStatus::Connecting => ("◌"@, "connecting…"@),
        McpServerStatus::Configured => if enabled {
            ("○"@, "configured"@)
        } else {
            ("⊘"@, "disabled"@)
        },
        McpServerStatus::Error(_) => ("⚠"@, "error"@),
    }
}

/// The status line of a server: its dot and its word.
pub fn status_line(status: &McpServerStatus, enabled: bool) -> (r: (&'static str, &'static str))
    ensures
        (r.0@, r.1@) == status_words(*status, enabled),
{
    match status {
        McpServerStatus::Connected => ("●", "connected"),
        McpServerStatus::Connecting => ("◌", "connecting…"),
        McpServerStatus::Configured => if enabled {
            ("○", "configured")
        } else {
            ("⊘", "disabled")
        },
        McpServerStatus::Error(_) => ("⚠", "error"),
    }
}

/// How many of the first `n` servers are connected.
pub open spec fn connected_among(statuses: Seq<McpServerStatus>, n: int) -> nat
    decreases n,
{
    if n <= 0 {
        0
    } else {
        connected_among(statuses, n - 1) + if statuses[n - 1] is Connected {
            1nat
        } else {
            0
        }
    }
}

/// The heading of the panel: how many servers there are and how many are
/// connected.
pub fn server_counts(statuses: &Vec<McpServerStatus>) -> (r: String)
    ensures
        r@ == decimal(statuses@.len()) + " configured · "@ + decimal(
            connected_among(statuses@, statuses@.len() as int),
        ) + " connected"@,
{
    let mut connected: usize = 0;
    let mut i: usize = 0;
    while i < statuses.len()
        invariant
            i <= statuses@.len(),
            connected == connected_among(statuses@, i as int),
            connected <= i,
        decreases statuses.len() - i,
    {
        if let McpServerStatus::Connected = &statuses[i] {
            connected += 1;
        }
        i += 1;
    }
    let mut r = count_text(statuses.len());
    r.append(" configured · ");
    r.append(count_text(connected).as_str());
    r.append(" connected");
    r
}

/// Which button a server's row offers besides editing and deleting it.
#[derive(Clone, Copy, Debug, PartialEq, Eq, Structural)]
pub enum RowButtons {
    /// Disconnect, and refresh the tools.
    Disconnect,
    /// Nothing, while the connection is being made.
    Nothing,
    Connect,
}

/// Which button a server's row offers.
pub fn row_buttons(status: &McpServerStatus) -> (r: RowButtons)
    ensures
        r == (match *status {
            McpServerStatus::Connected => RowButtons::Disconnect,
            McpServerStatus::Connecting => RowButtons::Nothing,
            McpServerStatus::Configured => RowButtons::Connect,
            McpServerStatus::Error(_) => RowButtons::Connect,
        }),
{
    match status {
        McpServerStatus::Connected => RowButtons::Disconnect,
        McpServerStatus::Connecting => RowButtons::Nothing,
        McpServerStatus::Configured => RowButtons::Connect,
        McpServerStatus::Error(_) => RowButtons::Connect,
    }
}

/// Whether a saved server is to be connected right away: it is enabled, and
/// not connected or about to be.
pub open spec fn should_connect(enabled: bool, status: Option<McpServerStatus>) -> bool {
    enabled && match status {
        None => true,
        Some(McpServerStatus::Configured) => true,
        Some(McpServerStatus::Error(_)) => true,
        Some(_) => false,
    }
}

/// Whether a saved server is to be connected right away.
pub fn connects_now(enabled: bool, status: &Option<McpServerStatus>) -> (r: bool)
    ensures
        r == should_connect(enabled, *status),
{
    enabled && match status {
        None => true,
        Some(McpServerStatus::Configured) => true,
        Some(McpServerStatus::Error(_)) => true,
        Some(_) => false,
    }
}

// ---------------------------------------------------------------------------
// Operations
// ---------------------------------------------------------------------------

/// An operation that blocks.
pub enum McpOp {
    Connect(String),
    Disconnect(String),
    Refresh(String),
    Remove(String),
    /// Set the server-level enabled flag, and connect or disconnect to match.
    SetEnabled(String, bool),
}

/// The label of a running operation.
pub open spec fn op_label(op: McpOp) -> Seq<char> {
    match op {
        McpOp::Connect(n) => "connecting "@ + n@,
        McpOp::Disconnect(n) => "disconnecting "@ + n@,
        McpOp::Refresh(n) => "refreshing "@ + n@,
        McpOp::Remove(n) => "removing "@ + n@,
        McpOp::SetEnabled(n, on) => (if on {
            "enabling"@
        } else {
            "disabling"@
        }) + " "@ + n@,
    }
}

/// How long an operation may take, in seconds.
pub open spec fn op_timeout(op: McpOp) -> u64 {
    match op {
        McpOp::Disconnect(_) => 10,
        McpOp::Remove(_) => 10,
        _ => 30,
    }
}

/// The message of an operation that succeeded; `count` is the number of tools
/// that it registered, where it registers tools.
pub open spec fn op_done(op: McpOp, count: u64) -> Seq<char> {
    match op {
        McpOp::Connect(n) => "✓ "@ + n@ + " connected ("@ + decimal(count as nat)
            + " tools registered)"@,
        McpOp::Disconnect(n) => "✓ "@ + n@ + " disconnected"@,
        McpOp::Refresh(n) => "✓ "@ + n@ + ": "@ + decimal(count as nat) + " tools registered"@,
        McpOp::Remove(n) => "✓ "@ + n@ + " removed"@,
        McpOp::SetEnabled(n, on) => "✓ "@ + n@ + " "@ + if on {
            "enabled"@
        } else {
            "disabled"@
        },
    }
}

impl McpOp {
    /// The label of the running operation.
    pub fn label(&self) -> (r: String)
        ensures
            r@ == op_label(*self),
    {
        match self {
            McpOp::Connect(n) => {
                let mut r = "connecting ".to_owned();
                r.append(n.as_str());
                r
            },
            McpOp::Disconnect(n) => {
                let mut r = "disconnecting ".to_owned();
                r.append(n.as_str());
                r
            },
            McpOp::Refresh(n) => {
                let mut r = "refreshing ".to_owned();
                r.append(n.as_str());
                r
            },
            McpOp::Remove(n) => {
                let mut r = "removing ".to_owned();
                r.append(n.as_str());
                r
            },
            McpOp::SetEnabled(n, on) => {
                let mut r = if *on {
                    "enabling".to_owned()
                } else {
                    "disabling".to_owned()
                };
                r.append(" ");
                r.append(n.as_str());
                r
            },
        }
    }

    /// How long the operation may take, in seconds.
    pub fn timeout_secs(&self) -> (r: u64)
        ensures
            r == op_timeout(*self),
    {
        match self {
            McpOp::Disconnect(_) => 10,
            McpOp::Remove(_) => 10,
            _ => 30,
        }
    }

    /// The message of the operation's success.
    pub fn success_message(&self, count: u64) -> (r: String)
        ensures
            r@ == op_done(*self, count),
    {
        let mut r = "✓ ".to_owned();
        match self {
            McpOp::Connect(n) => {
                r.append(n.as_str());
                r.append(" connected (");
                r.append(decimal_text(count).as_str());
                r.append(" tools registered)");
            },
            McpOp::Disconnect(n) => {
                r.append(n.as_str());
                r.append(" disconnected");
            },
            McpOp::Refresh(n) => {
                r.append(n.as_str());
                r.append(": ");
                r.append(decimal_text(count).as_str());
                r.append(" tools registered");
            },
            McpOp::Remove(n) => {
                r.append(n.as_str());
                r.append(" removed");
            },
            McpOp::SetEnabled(n, on) => {
                r.append(n.as_str());
                r.append(" ");
                r.append(if *on {
                    "enabled"
                } else {
                    "disabled"
                });
            },
        }
        r
    }
}

/// The error of an operation that took too long.
pub fn timeout_message(secs: u64) -> (r: String)
    ensures
        r@ == "timed out after "@ + decimal(secs as nat) + "s"@,
{
    let mut r = "timed out after ".to_owned();
    r.append(decimal_text(secs).as_str());
    r.append("s");
    r
}

// ---------------------------------------------------------------------------
// The panel
// ---------------------------------------------------------------------------

/// An operation that is running.
pub struct McpJob {
    pub label: String,
}

/// MCP panel: server list + status + add/edit/delete + per-tool toggles.
pub struct McpPanel {
    pub show_panel: bool,
    /// The operation that is running. Only one at a time.
    pub job: Option<McpJob>,
    /// Add/edit dialog state (None = closed).
    pub editing: Option<ServerEditState>,
    /// Server name awaiting delete confirmation.
    pub pending_delete: Option<String>,
    /// Status message (success/error), cleared when the panel closes.
    pub message: Option<String>,
    /// Server names whose tool list is currently expanded.
    pub expanded: Vec<String>,
}

/// What the panel holds.
#[verifier::ext_equal]
pub struct McpPanelView {
    pub show_panel: bool,
    pub job: Option<Seq<char>>,
    pub editing: Option<EditView>,
    pub pending_delete: Option<Seq<char>>,
    pub message: Option<Seq<char>>,
    pub expanded: Seq<Seq<char>>,
}

/// The label of an optional running operation.
pub open spec fn opt_job(j: Option<McpJob>) -> Option<Seq<char>> {
    match j {
        Some(x) => Some(x.label@),
        None => None,
    }
}

/// What an optional dialog holds.
pub open spec fn opt_edit(e: Option<ServerEditState>) -> Option<EditView> {
    match e {
        Some(x) => Some(x@),
        None => None,
    }
}

impl View for McpPanel {
    type V = McpPanelView;

    open spec fn view(&self) -> McpPanelView {
        McpPanelView {
            show_panel: self.show_panel,
            job: opt_job(self.job),
            editing: opt_edit(self.editing),
            pending_delete: opt_text(self.pending_delete),
            message: opt_text(self.message),
            expanded: texts(self.expanded@),
        }
    }
}

/// What a look for the result of the running operation found.
pub enum JobPoll {
    /// The operation ended: with a message, or with an error.
    Ended(Result<String, String>),
    /// It is still running.
    Running,
    /// Its thread ended without a result.
    Lost,
}

/// The panel after a look for the result of the running operation.
pub open spec fn polled(p: McpPanelView, poll: JobPoll) -> McpPanelView {
    match p.job {
        Some(label) => match poll {
            JobPoll::Ended(Ok(m)) => McpPanelView { message: Some(m@), job: None, ..p },
            JobPoll::Ended(Err(e)) => McpPanelView {
                message: Some("✗ "@ + label + " failed: "@ + e@),
                job: None,
                ..p
            },
            JobPoll::Running => p,
            JobPoll::Lost => McpPanelView {
                message: Some("✗ "@ + label + " failed (worker exited)"@),
                job: None,
                ..p
            },
        },
        None => p,
    }
}

/// How saving the dialog's server ended.
pub enum UpsertOutcome {
    /// The manager refused the server.
    Refused(String),
    /// The manager took the server, but the configuration was not written.
    NotWritten(String),
    /// The server is saved; its status is what the manager reports.
    Saved(Option<McpServerStatus>),
}

/// The position of the first server with this name, from `from` on.
pub open spec fn server_at(servers: Seq<ServerView>, name: Seq<char>, from: int) -> Option<int>
    decreases servers.len() - from,
{
    if from < 0 || from >= servers.len() {
        None
    } else if servers[from].name == name {
        Some(from)
    } else {
        server_at(servers, name, from + 1)
    }
}

/// The configured servers after one was saved: a new one is appended, an
/// existing one replaced.
pub open spec fn servers_saved(servers: Seq<ServerView>, cfg: ServerView, is_new: bool) -> Seq<
    ServerView,
> {
    if is_new {
        servers.push(cfg)
    } else {
        match server_at(servers, cfg.name, 0) {
            Some(i) => servers.update(i, cfg),
            None => servers,
        }
    }
}

/// The configured servers with the flag of one set.
pub open spec fn servers_enabled(servers: Seq<ServerView>, name: Seq<char>, enabled: bool) -> Seq<
    ServerView,
> {
    match server_at(servers, name, 0) {
        Some(i) => servers.update(i, ServerView { enabled, ..servers[i] }),
        None => servers,
    }
}

/// The configured servers without those of this name.
pub open spec fn servers_removed(servers: Seq<ServerView>, name: Seq<char>) -> Seq<ServerView>
    decreases servers.len(),
{
    if servers.len() == 0 {
        Seq::empty()
    } else {
        let before = servers_removed(servers.drop_last(), name);
        if servers.last().name == name {
            before
        } else {
            before.push(servers.last())
        }
    }
}

/// The configured servers after an operation ended: a server whose removal
/// succeeded is no longer configured.
pub open spec fn servers_after(servers: Seq<ServerView>, op: McpOp, succeeded: bool) -> Seq<
    ServerView,
> {
    match op {
        McpOp::Remove(name) => if succeeded {
            servers_removed(servers, name@)
        } else {
            servers
        },
        _ => servers,
    }
}

fn find_server(servers: &Vec<McpServerConfig>, name: &str) -> (r: Option<usize>)
    ensures
        match r {
            Some(i) => server_at(server_views(servers@), name@, 0) == Some(i as int) && i
                < servers@.len(),
            None => server_at(server_views(servers@), name@, 0) is None,
        },
{
    let mut i: usize = 0;
    while i < servers.len()
        invariant
            i <= servers@.len(),
            server_at(server_views(servers@), name@, 0) == server_at(
                server_views(servers@),
                name@,
                i as int,
            ),
        decreases servers.len() - i,
    {
        if same_text(servers[i].name.as_str(), name) {
            return Some(i);
        }
        i += 1;
    }
    None
}

/// Put a saved server into the configured ones.
pub fn save_server(servers: &mut Vec<McpServerConfig>, cfg: McpServerConfig, is_new: bool)
    ensures
        server_views(final(servers)@) == servers_saved(server_views(old(servers)@), cfg@, is_new),
{
    let ghost before = server_views(servers@);
    if is_new {
        servers.push(cfg);
        assert(server_views(servers@) =~= before.push(cfg@));
    } else if let Some(i) = find_server(servers, cfg.name.as_str()) {
        servers.set(i, cfg);
        assert(server_views(servers@) =~= before.update(i as int, cfg@));
    }
}

/// Set the flag of a configured server.
pub fn set_server_enabled(servers: &mut Vec<McpServerConfig>, name: &str, enabled: bool)
    ensures
        server_views(final(servers)@) == servers_enabled(
            server_views(old(servers)@),
            name@,
            enabled,
        ),
{
    let ghost before = server_views(servers@);
    if let Some(i) = find_server(servers, name) {
        servers[i].enabled = enabled;
        assert(server_views(servers@) =~= before.update(
            i as int,
            ServerView { enabled, ..before[i as int] },
        ));
    }
}

/// A list of names without one of them, at its first place, or with it.
pub open spec fn toggled_name(names: Seq<Seq<char>>, name: Seq<char>, from: int) -> Seq<Seq<char>>
    decreases names.len() - from,
{
    if from < 0 || from >= names.len() {
        names.push(name)
    } else if names[from] == name {
        names.remove(from)
    } else {
        toggled_name(names, name, from + 1)
    }
}

/// Take a server out of the configured ones.
pub fn remove_server(servers: &mut Vec<McpServerConfig>, name: &str)
    ensures
        server_views(final(servers)@) == servers_removed(server_views(old(servers)@), name@),
{
    let ghost before = server_views(servers@);
    let mut i: usize = 0;
    assert(before.take(0) =~= Seq::empty());
    assert(servers_removed(before.take(0), name@) + before.skip(0) =~= before);
    let ghost mut seen: int = 0;
    while i < servers.len()
        invariant
            0 <= seen <= before.len(),
            i == servers_removed(before.take(seen), name@).len(),
            servers@.len() - i == before.len() - seen,
            server_views(servers@) == servers_removed(before.take(seen), name@) + before.skip(seen),
        decreases servers.len() - i,
    {
        let ghost kept = servers_removed(before.take(seen), name@);
        let ghost now = server_views(servers@);
        proof {
            assert(before.take(seen + 1).drop_last() =~= before.take(seen));
            assert(before.take(seen + 1).last() == before[seen]);
            assert(now[i as int] == before.skip(seen)[0]);
            assert(before.skip(seen)[0] == before[seen]);
        }
        if same_text(servers[i].name.as_str(), name) {
            servers.remove(i);
            assert(server_views(servers@) =~= now.remove(i as int));
            assert(server_views(servers@) =~= kept + before.skip(seen + 1));
        } else {
            assert(now =~= kept.push(before[seen]) + before.skip(seen + 1));
            i += 1;
        }
        proof {
            seen = seen + 1;
        }
    }
    assert(before.take(seen) =~= before);
    assert(server_views(servers@) =~= servers_removed(before, name@));
}

/// Take in that an operation ended. Returns whether the configured servers
/// changed, so that they are to be written.
pub fn operation_ended(servers: &mut Vec<McpServerConfig>, op: &McpOp, succeeded: bool) -> (r: bool)
    ensures
        server_views(final(servers)@) == servers_after(server_views(old(servers)@), *op, succeeded),
        r == (*op is Remove && succeeded),
{
    match op {
        McpOp::Remove(name) => {
            if succeeded {
                remove_server(servers, name.as_str());
            }
            succeeded
        },
        _ => false,
    }
}

impl McpPanel {
    /// A closed panel.
    pub fn new() -> (r: Self)
        ensures
            r@ == (McpPanelView {
                show_panel: false,
                job: None,
                editing: None,
                pending_delete: None,
                message: None,
                expanded: Seq::empty(),
            }),
    {
        let r = McpPanel {
            show_panel: false,
            job: None,
            editing: None,
            pending_delete: None,
            message: None,
            expanded: Vec::new(),
        };
        assert(r@.expanded =~= Seq::empty());
        r
    }

    /// Take in a look for the result of the running operation.
    pub fn collect_job(&mut self, poll: &JobPoll)
        ensures
            final(self)@ == polled(old(self)@, *poll),
    {
        let label = match &self.job {
            Some(j) => j.label.clone(),
            None => return,
        };
        match poll {
            JobPoll::Ended(Ok(m)) => {
                self.message = Some(m.clone());
                self.job = None;
            },
            JobPoll::Ended(Err(e)) => {
                let mut m = "✗ ".to_owned();
                m.append(label.as_str());
                m.append(" failed: ");
                m.append(e.as_str());
                self.message = Some(m);
                self.job = None;
            },
            JobPoll::Running => {},
            JobPoll::Lost => {
                let mut m = "✗ ".to_owned();
                m.append(label.as_str());
                m.append(" failed (worker exited)");
                self.message = Some(m);
                self.job = None;
            },
        }
    }

    /// Ask to start an operation. Where one is running nothing is started and
    /// the message says so; otherwise the result is the label and the time
    /// limit in seconds.
    pub fn start_job(&mut self, op: &McpOp) -> (r: Option<(String, u64)>)
        ensures
            match r {
                Some(plan) => old(self)@.job is None && final(self)@ == old(self)@ && plan.0@
                    == op_label(*op) && plan.1 == op_timeout(*op),
                None => old(self)@.job is Some && final(self)@ == (McpPanelView {
                    message: Some("✗ Another MCP operation is already in progress"@),
                    ..old(self)@
                }),
            },
    {
        if self.job.is_some() {
            self.message = Some("✗ Another MCP operation is already in progress".to_owned());
            return None;
        }
        Some((op.label(), op.timeout_secs()))
    }

    /// Note whether the thread of an operation could be started.
    pub fn job_spawned(&mut self, label: String, spawned: &Result<(), String>)
        ensures
            final(self)@ == (match *spawned {
                Ok(_) => McpPanelView { job: Some(label@), ..old(self)@ },
                Err(e) => McpPanelView {
                    message: Some("✗ Failed to start MCP worker thread: "@ + e@),
                    ..old(self)@
                },
            }),
    {
        match spawned {
            Ok(_) => {
                self.job = Some(McpJob { label });
            },
            Err(e) => {
                let mut m = "✗ Failed to start MCP worker thread: ".to_owned();
                m.append(e.as_str());
                self.message = Some(m);
            },
        }
    }

    /// Expand or collapse the tool list of a server.
    pub fn toggle_tools(&mut self, name: &str)
        ensures
            final(self)@ == (McpPanelView {
                expanded: toggled_name(old(self)@.expanded, name@, 0),
                ..old(self)@
            }),
    {
        let ghost before = self@.expanded;
        let mut i: usize = 0;
        while i < self.expanded.len()
            invariant
                i <= self.expanded@.len(),
                before == texts(self.expanded@),
                *self == *old(self),
                toggled_name(before, name@, 0) == toggled_name(before, name@, i as int),
            decreases self.expanded.len() - i,
        {
            if same_text(self.expanded[i].as_str(), name) {
                self.expanded.remove(i);
                assert(texts(self.expanded@) =~= before.remove(i as int));
                return;
            }
            i += 1;
        }
        self.expanded.push(name.to_owned());
        assert(texts(self.expanded@) =~= before.push(name@));
    }

    /// Whether the tool list of a server is expanded.
    pub fn is_expanded(&self, name: &str) -> (r: bool)
        ensures
            r == self@.expanded.contains(name@),
    {
        list_has(&self.expanded, name)
    }

    /// Open the dialog for a new server.
    pub fn add_server(&mut self)
        ensures
            final(self)@ == (McpPanelView { editing: Some(blank_edit()), ..old(self)@ }),
    {
        self.editing = Some(ServerEditState::new());
    }

    /// Open the dialog for the configured server of this name; `fallback`
    /// stands for one that is not configured.
    pub fn edit_server(
        &mut self,
        servers: &Vec<McpServerConfig>,
        name: &str,
        fallback: &McpServerConfig,
    )
        ensures
            final(self)@ == (McpPanelView {
                editing: Some(
                    edit_of(
                        match server_at(server_views(servers@), name@, 0) {
                            Some(i) => servers@[i]@,
                            None => fallback@,
                        },
                    ),
                ),
                ..old(self)@
            }),
    {
        let edit = match find_server(servers, name) {
            Some(i) => ServerEditState::from_config(&servers[i]),
            None => ServerEditState::from_config(fallback),
        };
        self.editing = Some(edit);
    }

    /// The server that the dialog describes, and whether it is a new one;
    /// `name` is the dialog's name as a server can have it. An invalid server
    /// leaves the dialog open and the message says so.
    pub fn take_edit(&mut self, name: String) -> (r: Option<(McpServerConfig, bool)>)
        ensures
            match old(self)@.editing {
                None => r is None && final(self)@ == old(self)@,
                Some(edit) => match edit.server(name@) {
                    Some(cfg) => final(self)@ == old(self)@ && (r matches Some(x) && x.0@ == cfg
                        && x.1 == (edit.existing is None)),
                    None => r is None && final(self)@ == (McpPanelView {
                        message: Some("✗ Invalid server config (check name / command / url)"@),
                        ..old(self)@
                    }),
                },
            },
    {
        match &self.editing {
            Some(edit) => match edit.build(name) {
                Some(cfg) => Some((cfg, edit.is_new())),
                None => {
                    self.message = Some(
                        "✗ Invalid server config (check name / command / url)".to_owned(),
                    );
                    None
                },
            },
            None => None,
        }
    }

    /// Take in how saving the dialog's server ended. A server that the manager
    /// refused stays in the dialog, otherwise the dialog closes. The result is
    /// the operation to start: a saved server that is enabled and not
    /// connected is connected right away.
    pub fn apply_edit(&mut self, name: &str, enabled: bool, outcome: &UpsertOutcome) -> (r: Option<
        McpOp,
    >)
        ensures
            match *outcome {
                UpsertOutcome::Refused(e) => r is None && final(self)@ == (McpPanelView {
                    message: Some("✗ Could not save server: "@ + e@),
                    ..old(self)@
                }),
                UpsertOutcome::NotWritten(e) => r is None && final(self)@ == (McpPanelView {
                    editing: None,
                    message: Some("✗ Saved in memory, but config file write failed: "@ + e@),
                    ..old(self)@
                }),
                UpsertOutcome::Saved(status) => if should_connect(enabled, status) {
                    (r matches Some(McpOp::Connect(n)) && n@ == name@) && final(self)@ == (
                    McpPanelView { editing: None, ..old(self)@ })
                } else {
                    r is None && final(self)@ == (McpPanelView {
                        editing: None,
                        message: Some("✓ Server '"@ + name@ + "' saved"@),
                        ..old(self)@
                    })
                },
            },
    {
        match outcome {
            UpsertOutcome::Refused(e) => {
                let mut m = "✗ Could not save server: ".to_owned();
                m.append(e.as_str());
                self.message = Some(m);
                None
            },
            UpsertOutcome::NotWritten(e) => {
                self.editing = None;
                let mut m = "✗ Saved in memory, but config file write failed: ".to_owned();
                m.append(e.as_str());
                self.message = Some(m);
                None
            },
            UpsertOutcome::Saved(status) => {
                self.editing = None;
                if connects_now(enabled, status) {
                    Some(McpOp::Connect(name.to_owned()))
                } else {
                    let mut m = "✓ Server '".to_owned();
                    m.append(name);
                    m.append("' saved");
                    self.message = Some(m);
                    None
                }
            },
        }
    }

    /// Note how writing the configuration after a change of a server's flag
    /// ended.
    pub fn enabled_persisted(&mut self, name: &str, enabled: bool, written: &Result<(), String>)
        ensures
            final(self)@ == (McpPanelView {
                message: Some(
                    match *written {
                        Ok(_) => "✓ "@ + name@ + (if enabled {
                            " enabled"@
                        } else {
                            " disabled"@
                        }),
                        Err(e) => "✗ Config save failed: "@ + e@,
                    },
                ),
                ..old(self)@
            }),
    {
        match written {
            Ok(_) => {
                let mut m = "✓ ".to_owned();
                m.append(name);
                m.append(if enabled {
                    " enabled"
                } else {
                    " disabled"
                });
                self.message = Some(m);
            },
            Err(e) => {
                let mut m = "✗ Config save failed: ".to_owned();
                m.append(e.as_str());
                self.message = Some(m);
            },
        }
    }

    /// Note that a tool of a server was switched on or off.
    pub fn on_tool_toggled(&mut self, server: &str, tool: &str, enabled: bool, taken: bool)
        ensures
            final(self)@ == (if taken {
                McpPanelView {
                    message: Some(
                        "✓ tool '"@ + tool@ + "' "@ + (if enabled {
                            "enabled"@
                        } else {
                            "disabled"@
                        }) + " on '"@ + server@ + "'"@,
                    ),
                    ..old(self)@
                }
            } else {
                old(self)@
            }),
    {
        if taken {
            let mut m = "✓ tool '".to_owned();
            m.append(tool);
            m.append("' ");
            m.append(if enabled {
                "enabled"
            } else {
                "disabled"
            });
            m.append(" on '");
            m.append(server);
            m.append("'");
            self.message = Some(m);
        }
    }

    /// Ask for the confirmation of deleting a server.
    pub fn ask_delete(&mut self, name: &str)
        ensures
            final(self)@ == (McpPanelView { pending_delete: Some(name@), ..old(self)@ }),
    {
        self.pending_delete = Some(name.to_owned());
    }

    /// Whether the confirmation of deleting this server is shown.
    pub fn asks_delete(&self, name: &str) -> (r: bool)
        ensures
            r == (self@.pending_delete == Some(name@)),
    {
        same_opt_text(&self.pending_delete, name)
    }

    /// The answer to the confirmation; a confirmed deletion is an operation.
    pub fn answer_delete(&mut self, name: &str, confirmed: bool) -> (r: Option<McpOp>)
        ensures
            final(self)@ == (McpPanelView { pending_delete: None, ..old(self)@ }),
            if confirmed {
                r matches Some(McpOp::Remove(n)) && n@ == name@
            } else {
                r is None
            },
    {
        self.pending_delete = None;
        if confirmed {
            Some(McpOp::Remove(name.to_owned()))
        } else {
            None
        }
    }

    /// Close the dialog without saving.
    pub fn cancel_edit(&mut self)
        ensures
            final(self)@ == (McpPanelView { editing: None, ..old(self)@ }),
    {
        self.editing = None;
    }

    /// Close the panel.
    pub fn close(&mut self)
        ensures
            final(self)@ == (McpPanelView { show_panel: false, message: None, ..old(self)@ }),
    {
        self.show_panel = false;
        self.message = None;
    }

    /// The note on the running operation.
    pub fn progress_note(&self, elapsed_secs: u64) -> (r: Option<String>)
        ensures
            opt_text(r) == (match self@.job {
                Some(label) => Some(
                    label + " in progress… ("@ + decimal(elapsed_secs as nat) + "s)"@,
                ),
                None => None,
            }),
    {
        match &self.job {
            Some(j) => {
                let mut r = j.label.clone();
                r.append(" in progress… (");
                r.append(decimal_text(elapsed_secs).as_str());
                r.append("s)");
                Some(r)
            },
            None => None,
        }
    }
}

impl Default for McpPanel {
    fn default() -> (r: Self)
        ensures
            r@ == (McpPanelView {
                show_panel: false,
                job: None,
                editing: None,
                pending_delete: None,
                message: None,
                expanded: Seq::empty(),
            }),
    {
        McpPanel::new()
    }
}

/// Whether a message reports a success.
pub fn is_success(message: &str) -> (r: bool)
    ensures
        r == "✓"@.is_prefix_of(message@),
{
    begins_with(message, "✓")
}

/// Whether the dialog is saved in a frame: by its button, and for a new server
/// also when one of its settings changed.
pub fn saves_edit(clicked: bool, is_new: bool, setting_changed: bool) -> (r: bool)
    ensures
        r == (clicked || (is_new && setting_changed)),
{
    clicked || (is_new && setting_changed)
}

// ---------------------------------------------------------------------------
// Laws
// ---------------------------------------------------------------------------

/// An operation that ended, whatever its result, leaves the panel free for the
/// next one; one that runs keeps it busy.
pub proof fn an_ended_job_frees_the_panel(p: McpPanelView, poll: JobPoll)
    ensures
        !(poll is Running) ==> polled(p, poll).job is None,
        poll is Running ==> polled(p, poll) == p,
        polled(p, poll).expanded == p.expanded && polled(p, poll).editing == p.editing,
{
}

proof fn lemma_server_at(servers: Seq<ServerView>, name: Seq<char>, from: int)
    requires
        0 <= from,
    ensures
        match server_at(servers, name, from) {
            Some(i) => from <= i < servers.len() && servers[i].name == name,
            None => forall|i: int|
                from <= i < servers.len() ==> (#[trigger] servers[i]).name != name,
        },
    decreases servers.len() - from,
{
    if from < servers.len() && servers[from].name != name {
        lemma_server_at(servers, name, from + 1);
    }
}

/// Saving an existing server replaces that server and leaves the others, and
/// their order, alone; saving an unknown one as existing changes nothing.
pub proof fn saving_a_server_replaces_only_it(servers: Seq<ServerView>, cfg: ServerView)
    ensures
        servers_saved(servers, cfg, false).len() == servers.len(),
        forall|i: int|
            0 <= i < servers.len() && servers[i].name != cfg.name ==> #[trigger] servers_saved(
                servers,
                cfg,
                false,
            )[i] == servers[i],
        forall|i: int|
            0 <= i < servers.len() ==> (#[trigger] servers_saved(servers, cfg, false)[i]).name
                == servers[i].name,
{
    lemma_server_at(servers, cfg.name, 0);
}

/// A removed server is gone, and every other server is still there as it was.
pub proof fn removing_a_server_removes_only_it(servers: Seq<ServerView>, name: Seq<char>)
    ensures
        forall|s: ServerView|
            #[trigger] servers_removed(servers, name).contains(s) <==> (servers.contains(s)
                && s.name != name),
    decreases servers.len(),
{
    if servers.len() > 0 {
        let rest = servers.drop_last();
        removing_a_server_removes_only_it(rest, name);
        let before = servers_removed(rest, name);
        let after = servers_removed(servers, name);
        assert forall|s: ServerView| #[trigger] after.contains(s) <==> (servers.contains(s)
            && s.name != name) by {
            if after.contains(s) {
                let i = choose|i: int| 0 <= i < after.len() && after[i] == s;
                if i < before.len() {
                    assert(before[i] == s);
                    assert(before.contains(s));
                    let j = choose|j: int| 0 <= j < rest.len() && rest[j] == s;
                    assert(servers[j] == s);
                } else {
                    assert(servers[servers.len() - 1] == s);
                }
            }
            if servers.contains(s) && s.name != name {
                let j = choose|j: int| 0 <= j < servers.len() && servers[j] == s;
                if j < rest.len() {
                    assert(rest[j] == s);
                    assert(before.contains(s));
                    let i = choose|i: int| 0 <= i < before.len() && before[i] == s;
                    assert(after[i] == s);
                } else {
                    assert(after[after.len() - 1] == s);
                }
            }
        }
    }
}

} // verus!

//! The state of the chats: sessions, their queues and running tools, and what
//! the interface asks its surroundings to do.

use vstd::prelude::*;

use crate::improvements::{ImprovementsPanel, PanelView};
use crate::text::{opt_text, same_text, texts};
use crate::types::{
    message_views, ChatMessage, MessageKind, MessageView, ReasoningEffort, ShellConfig, ShellView,
};

verus! {

// ---------------------------------------------------------------------------
// Parts of a chat
// ---------------------------------------------------------------------------

/// What the application or a session is doing.
pub enum AppStatus {
    Stopped,
    Connecting,
    Ready,
    Generating,
    Error(String),
}

/// What a status says.
#[verifier::ext_equal]
pub enum StatusView {
    Stopped,
    Connecting,
    Ready,
    Generating,
    Error(Seq<char>),
}

impl View for AppStatus {
    type V = StatusView;

    open spec fn view(&self) -> StatusView {
        match *self {
            AppStatus::Stopped => StatusView::Stopped,
            AppStatus::Connecting => StatusView::Connecting,
            AppStatus::Ready => StatusView::Ready,
            AppStatus::Generating => StatusView::Generating,
            AppStatus::Error(e) => StatusView::Error(e@),
        }
    }
}

/// How far the server has processed the prompt, in tokens.
#[derive(Clone, Copy, Debug, PartialEq, Eq, Structural)]
pub struct PromptProgress {
    pub total: u64,
    pub cache: u64,
    pub processed: u64,
}

/// A tool call that is executing.
pub struct ActiveTool {
    pub tool_name: String,
    pub call_id: String,
    pub args_preview: String,
    /// When the call started, in milliseconds of the interface's clock.
    pub started_ms: u64,
    pub live_output: String,
}

/// What a running tool call shows.
#[verifier::ext_equal]
pub struct ActiveToolView {
    pub tool_name: Seq<char>,
    pub call_id: Seq<char>,
    pub args_preview: Seq<char>,
    pub started_ms: u64,
    pub live_output: Seq<char>,
}

impl View for ActiveTool {
    type V = ActiveToolView;

    open spec fn view(&self) -> ActiveToolView {
        ActiveToolView {
            tool_name: self.tool_name@,
            call_id: self.call_id@,
            args_preview: self.args_preview@,
            started_ms: self.started_ms,
            live_output: self.live_output@,
        }
    }
}

/// What the running tool calls of a list show.
pub open spec fn tool_views(v: Seq<ActiveTool>) -> Seq<ActiveToolView> {
    Seq::new(v.len(), |i: int| v[i]@)
}

/// An image that waits to be sent: PNG bytes under a URI of their own.
pub struct PendingImage {
    pub uri: String,
    pub bytes: Vec<u8>,
}

/// What a waiting image holds.
#[verifier::ext_equal]
pub struct ImageView {
    pub uri: Seq<char>,
    pub bytes: Seq<u8>,
}

impl View for PendingImage {
    type V = ImageView;

    open spec fn view(&self) -> ImageView {
        ImageView { uri: self.uri@, bytes: self.bytes@ }
    }
}

/// What an optional image holds.
pub open spec fn opt_image(i: Option<PendingImage>) -> Option<ImageView> {
    match i {
        Some(x) => Some(x@),
        None => None,
    }
}

/// What an agent may use in a chat.
pub enum ToolPolicy {
    /// All tools, every shell command, no handoff.
    Unrestricted,
    /// What the profile says.
    Profile {
        allowed_tools: Vec<String>,
        shell_config: ShellConfig,
        agent_name: String,
        handoff_enabled: bool,
        handoff_targets: Vec<String>,
        restart_enabled: bool,
        reasoning_effort: ReasoningEffort,
        trim_config: Option<String>,
    },
}

/// What a policy says.
#[verifier::ext_equal]
pub enum PolicyView {
    Unrestricted,
    Profile {
        allowed_tools: Seq<Seq<char>>,
        shell_config: ShellView,
        agent_name: Seq<char>,
        handoff_enabled: bool,
        handoff_targets: Seq<Seq<char>>,
        restart_enabled: bool,
        reasoning_effort: ReasoningEffort,
        trim_config: Option<Seq<char>>,
    },
}

impl View for ToolPolicy {
    type V = PolicyView;

    open spec fn view(&self) -> PolicyView {
        match *self {
            ToolPolicy::Unrestricted => PolicyView::Unrestricted,
            ToolPolicy::Profile {
                allowed_tools,
                shell_config,
                agent_name,
                handoff_enabled,
                handoff_targets,
                restart_enabled,
                reasoning_effort,
                trim_config,
            } => PolicyView::Profile {
                allowed_tools: texts(allowed_tools@),
                shell_config: shell_config@,
                agent_name: agent_name@,
                handoff_enabled,
                handoff_targets: texts(handoff_targets@),
                restart_enabled,
                reasoning_effort,
                trim_config: opt_text(trim_config),
            },
        }
    }
}

/// A message sent while the agent is still working.
pub struct QueuedMessage {
    pub text: String,
    pub image: Option<PendingImage>,
    pub agent_prompt: String,
    pub tool_policy: ToolPolicy,
}

/// What a queued message holds.
#[verifier::ext_equal]
pub struct QueuedView {
    pub text: Seq<char>,
    pub image: Option<ImageView>,
    pub agent_prompt: Seq<char>,
    pub tool_policy: PolicyView,
}

impl View for QueuedMessage {
    type V = QueuedView;

    open spec fn view(&self) -> QueuedView {
        QueuedView {
            text: self.text@,
            image: opt_image(self.image),
            agent_prompt: self.agent_prompt@,
            tool_policy: self.tool_policy@,
        }
    }
}

/// What the messages of a queue hold.
pub open spec fn queue_views(v: Seq<QueuedMessage>) -> Seq<QueuedView> {
    Seq::new(v.len(), |i: int| v[i]@)
}

// ---------------------------------------------------------------------------
// Chats, sessions and the application
// ---------------------------------------------------------------------------

/// The state of one session's chat.
pub struct ChatArea {
    /// The messages that are shown.
    pub messages: Vec<ChatMessage>,
    pub input_text: String,
    /// The text of the round that is being streamed.
    pub stream_buffer: String,
    /// The thinking of the round that is being streamed.
    pub current_thinking: String,
    pub is_generating: bool,
    pub pending_error: Option<String>,
    pub pending_image: Option<PendingImage>,
    pub queued_messages: Vec<QueuedMessage>,
    pub active_tools: Vec<ActiveTool>,
    pub prompt_progress: Option<PromptProgress>,
    pub token_count: u64,
    pub status: AppStatus,
    /// The indices of the tool cards that are expanded.
    pub expanded_messages: Vec<usize>,
    pub editing_message_index: Option<usize>,
    pub editing_message_content: String,
    /// The ratings of messages by their index, each index once; `true` is good.
    pub message_ratings: Vec<(usize, bool)>,
    /// The message whose comment field is open.
    pub feedback_comment_for: Option<usize>,
    pub feedback_comment: String,
}

/// What a chat holds.
#[verifier::ext_equal]
pub struct ChatView {
    pub messages: Seq<MessageView>,
    pub input_text: Seq<char>,
    pub stream_buffer: Seq<char>,
    pub current_thinking: Seq<char>,
    pub is_generating: bool,
    pub pending_error: Option<Seq<char>>,
    pub pending_image: Option<ImageView>,
    pub queued_messages: Seq<QueuedView>,
    pub active_tools: Seq<ActiveToolView>,
    pub prompt_progress: Option<PromptProgress>,
    pub token_count: u64,
    pub status: StatusView,
    pub expanded_messages: Seq<usize>,
    pub editing_message_index: Option<usize>,
    pub editing_message_content: Seq<char>,
    pub message_ratings: Seq<(usize, bool)>,
    pub feedback_comment_for: Option<usize>,
    pub feedback_comment: Seq<char>,
}

impl View for ChatArea {
    type V = ChatView;

    open spec fn view(&self) -> ChatView {
        ChatView {
            messages: message_views(self.messages@),
            input_text: self.input_text@,
            stream_buffer: self.stream_buffer@,
            current_thinking: self.current_thinking@,
            is_generating: self.is_generating,
            pending_error: opt_text(self.pending_error),
            pending_image: opt_image(self.pending_image),
            queued_messages: queue_views(self.queued_messages@),
            active_tools: tool_views(self.active_tools@),
            prompt_progress: self.prompt_progress,
            token_count: self.token_count,
            status: self.status@,
            expanded_messages: self.expanded_messages@,
            editing_message_index: self.editing_message_index,
            editing_message_content: self.editing_message_content@,
            message_ratings: self.message_ratings@,
            feedback_comment_for: self.feedback_comment_for,
            feedback_comment: self.feedback_comment@,
        }
    }
}

/// One session: its chat, and the conversation that the agent works on.
pub struct SessionRuntime {
    pub id: String,
    pub name: String,
    pub selected_agent: Option<String>,
    pub chat: ChatArea,
    /// The stored conversation. It is kept apart from the shown messages and
    /// can be shorter.
    pub conversation: Vec<ChatMessage>,
}

/// What a session holds.
#[verifier::ext_equal]
pub struct SessionView {
    pub id: Seq<char>,
    pub name: Seq<char>,
    pub selected_agent: Option<Seq<char>>,
    pub chat: ChatView,
    pub conversation: Seq<MessageView>,
}

impl View for SessionRuntime {
    type V = SessionView;

    open spec fn view(&self) -> SessionView {
        SessionView {
            id: self.id@,
            name: self.name@,
            selected_agent: opt_text(self.selected_agent),
            chat: self.chat@,
            conversation: message_views(self.conversation@),
        }
    }
}

/// What the sessions of a list hold.
pub open spec fn session_views(v: Seq<SessionRuntime>) -> Seq<SessionView> {
    Seq::new(v.len(), |i: int| v[i]@)
}

/// The sessions of the application, and what the interface keeps beside them.
pub struct ChatApp {
    pub sessions: Vec<SessionRuntime>,
    /// ID of the currently selected session (None = no session selected).
    pub selected_session_id: Option<String>,
    pub status: AppStatus,
    pub reasoning_effort: ReasoningEffort,
    /// The context window that the server reports; 0 while it is unknown.
    pub remote_n_ctx: u32,
    /// Whether the channel is open on which a run reports its events.
    pub event_channel: bool,
    /// Set when the usage log has grown.
    pub usage_dirty: bool,
    /// Set when a shown message was changed in place.
    pub display_dirty: bool,
    pub improvements_panel: ImprovementsPanel,
}

/// What the application holds.
#[verifier::ext_equal]
pub struct AppView {
    pub sessions: Seq<SessionView>,
    pub selected_session_id: Option<Seq<char>>,
    pub status: StatusView,
    pub reasoning_effort: ReasoningEffort,
    pub remote_n_ctx: u32,
    pub event_channel: bool,
    pub usage_dirty: bool,
    pub display_dirty: bool,
    pub improvements_panel: PanelView,
}

impl View for ChatApp {
    type V = AppView;

    open spec fn view(&self) -> AppView {
        AppView {
            sessions: session_views(self.sessions@),
            selected_session_id: opt_text(self.selected_session_id),
            status: self.status@,
            reasoning_effort: self.reasoning_effort,
            remote_n_ctx: self.remote_n_ctx,
            event_channel: self.event_channel,
            usage_dirty: self.usage_dirty,
            display_dirty: self.display_dirty,
            improvements_panel: self.improvements_panel@,
        }
    }
}

// ---------------------------------------------------------------------------
// Finding a session
// ---------------------------------------------------------------------------

/// The position of the first session with this id, from `from` on.
pub open spec fn session_at(sessions: Seq<SessionView>, id: Seq<char>, from: int) -> Option<int>
    decreases sessions.len() - from,
{
    if from < 0 || from >= sessions.len() {
        None
    } else if sessions[from].id == id {
        Some(from)
    } else {
        session_at(sessions, id, from + 1)
    }
}

/// A found session is in the list and has the id.
pub proof fn lemma_session_at(sessions: Seq<SessionView>, id: Seq<char>, from: int)
    requires
        0 <= from,
    ensures
        match session_at(sessions, id, from) {
            Some(k) => from <= k < sessions.len() && sessions[k].id == id,
            None => forall|i: int| from <= i < sessions.len() ==> (#[trigger] sessions[i]).id != id,
        },
    decreases sessions.len() - from,
{
    if from < sessions.len() && sessions[from].id != id {
        lemma_session_at(sessions, id, from + 1);
    }
}

impl AppView {
    /// The position of the session with this id.
    pub open spec fn find(self, id: Seq<char>) -> Option<int> {
        session_at(self.sessions, id, 0)
    }

    /// The application with another session at position `k`.
    pub open spec fn with_session(self, k: int, s: SessionView) -> AppView {
        AppView { sessions: self.sessions.update(k, s), ..self }
    }

    /// The application with another chat in the session at position `k`.
    pub open spec fn with_chat(self, k: int, chat: ChatView) -> AppView {
        self.with_session(k, SessionView { chat, ..self.sessions[k] })
    }

    /// The position of the selected session, where one is selected and there.
    pub open spec fn selected(self) -> Option<int> {
        match self.selected_session_id {
            Some(id) => self.find(id),
            None => None,
        }
    }

    /// Whether the session with this id is the selected one.
    pub open spec fn is_selected(self, id: Seq<char>) -> bool {
        self.selected_session_id == Some(id)
    }
}

impl ChatApp {
    /// The application at its start, on the sessions that were restored.
    pub fn new(
        sessions: Vec<SessionRuntime>,
        selected_session_id: Option<String>,
        reasoning_effort: ReasoningEffort,
    ) -> (r: Self)
        ensures
            r@ == (AppView {
                sessions: session_views(sessions@),
                selected_session_id: opt_text(selected_session_id),
                status: StatusView::Stopped,
                reasoning_effort,
                remote_n_ctx: 0,
                event_channel: true,
                usage_dirty: true,
                display_dirty: true,
                improvements_panel: PanelView {
                    pending: Seq::empty(),
                    show_panel: false,
                    message: None,
                },
            }),
    {
        ChatApp {
            sessions,
            selected_session_id,
            status: AppStatus::Stopped,
            reasoning_effort,
            remote_n_ctx: 0,
            event_channel: true,
            usage_dirty: true,
            display_dirty: true,
            improvements_panel: ImprovementsPanel::new(),
        }
    }

    /// Whether there is a conversation to save under this id.
    pub fn save_session_for(&self, id: &str) -> (r: bool)
        ensures
            r == (self@.find(id@) is Some),
    {
        self.find_session(id).is_some()
    }

    /// The id under which the selected session's conversation is saved, where
    /// there is one.
    pub fn save_session(&self) -> (r: Option<String>)
        ensures
            opt_text(r) == (if self@.selected() is Some {
                self@.selected_session_id
            } else {
                None
            }),
    {
        match &self.selected_session_id {
            Some(id) => if self.save_session_for(id.as_str()) {
                Some(id.clone())
            } else {
                None
            },
            None => None,
        }
    }

    /// The position of the session with this id.
    pub fn find_session(&self, id: &str) -> (r: Option<usize>)
        ensures
            match r {
                Some(k) => self@.find(id@) == Some(k as int) && k < self.sessions@.len()
                    && self.sessions@[k as int].id@ == id@,
                None => self@.find(id@) is None,
            },
    {
        let mut i: usize = 0;
        while i < self.sessions.len()
            invariant
                i <= self.sessions@.len(),
                self@.find(id@) == session_at(self@.sessions, id@, i as int),
            decreases self.sessions.len() - i,
        {
            if same_text(self.sessions[i].id.as_str(), id) {
                return Some(i);
            }
            i += 1;
        }
        None
    }

    /// The position of the selected session, where one is selected and there.
    pub fn find_selected(&self) -> (r: Option<usize>)
        ensures
            match r {
                Some(k) => self@.selected() == Some(k as int) && k < self.sessions@.len(),
                None => self@.selected() is None,
            },
    {
        match &self.selected_session_id {
            Some(id) => self.find_session(id.as_str()),
            None => None,
        }
    }

    /// Whether the session with this id is the selected one.
    pub fn is_selected(&self, id: &str) -> (r: bool)
        ensures
            r == self@.is_selected(id@),
    {
        match &self.selected_session_id {
            Some(s) => same_text(s.as_str(), id),
            None => false,
        }
    }

    /// Get the selected session's chat area state (immutable view).
    pub fn selected_chat_state(&self) -> (r: Option<&ChatArea>)
        ensures
            match r {
                Some(c) => self@.selected() matches Some(k) && c@ == self@.sessions[k].chat,
                None => self@.selected() is None,
            },
    {
        match self.find_selected() {
            Some(k) => Some(&self.sessions[k].chat),
            None => None,
        }
    }
}

// ---------------------------------------------------------------------------
// What the surroundings are asked to do
// ---------------------------------------------------------------------------

/// One thing that the interface asks its surroundings to do.
pub enum ChatEffect {
    /// Append streamed text to the session's current round.
    StreamChunk { session_id: String, content: String },
    /// Append streamed thinking to the session's current round.
    StreamThinkingChunk { session_id: String, content: String },
    /// Turn the streamed text into a message.
    CommitStream { session_id: String },
    /// Add a message of the given role.
    AppendMessage { session_id: String, role: String, content: String },
    /// Add a message of the given kind and role.
    PushMessage { session_id: String, kind: MessageKind, role: String, content: String },
    /// Estimate tokens and speed from what was streamed so far.
    UpdateLiveEstimates { session_id: String, n_ctx: u32 },
    /// Show the prompt processing speed of the reported progress.
    ShowPromptSpeed { session_id: String },
    /// Show the context use and the speeds of the reported usage.
    ShowUsage { session_id: String, n_ctx: u32 },
    /// Count the tokens of the stored conversation.
    RefreshTokenGauge { session_id: String, n_ctx: u32 },
    /// Keep the session's agent with its file.
    SetSessionMeta { session_id: String },
    /// Write the session to disk.
    SaveSession { session_id: String },
    /// Cancel the session's running pipeline.
    CancelPipeline { session_id: String },
    /// Start a run of the session's agent.
    StartPipeline {
        session_id: String,
        text: String,
        agent_prompt: String,
        tool_policy: ToolPolicy,
        image_data_uri: Option<String>,
        n_ctx: u32,
        reasoning_effort: ReasoningEffort,
    },
    /// Show a notification in the session's chat.
    Notify { session_id: String, text: String, success: bool },
    /// Read the list of MCP servers from the configuration file again.
    ReloadMcpServers,
    /// Start the application again.
    Restart { reason: String, exe_path: Option<String> },
}

/// What the surroundings are asked to do.
#[verifier::ext_equal]
pub enum EffectView {
    StreamChunk { session_id: Seq<char>, content: Seq<char> },
    StreamThinkingChunk { session_id: Seq<char>, content: Seq<char> },
    CommitStream { session_id: Seq<char> },
    AppendMessage { session_id: Seq<char>, role: Seq<char>, content: Seq<char> },
    PushMessage {
        session_id: Seq<char>,
        kind: MessageKind,
        role: Seq<char>,
        content: Seq<char>,
    },
    UpdateLiveEstimates { session_id: Seq<char>, n_ctx: u32 },
    ShowPromptSpeed { session_id: Seq<char> },
    ShowUsage { session_id: Seq<char>, n_ctx: u32 },
    RefreshTokenGauge { session_id: Seq<char>, n_ctx: u32 },
    SetSessionMeta { session_id: Seq<char> },
    SaveSession { session_id: Seq<char> },
    CancelPipeline { session_id: Seq<char> },
    StartPipeline {
        session_id: Seq<char>,
        text: Seq<char>,
        agent_prompt: Seq<char>,
        tool_policy: PolicyView,
        image_data_uri: Option<Seq<char>>,
        n_ctx: u32,
        reasoning_effort: ReasoningEffort,
    },
    Notify { session_id: Seq<char>, text: Seq<char>, success: bool },
    ReloadMcpServers,
    Restart { reason: Seq<char>, exe_path: Option<Seq<char>> },
}

impl View for ChatEffect {
    type V = EffectView;

    open spec fn view(&self) -> EffectView {
        match *self {
            ChatEffect::StreamChunk { session_id, content } => EffectView::StreamChunk {
                session_id: session_id@,
                content: content@,
            },
            ChatEffect::StreamThinkingChunk { session_id, content } =>
                EffectView::StreamThinkingChunk { session_id: session_id@, content: content@ },
            ChatEffect::CommitStream { session_id } => EffectView::CommitStream {
                session_id: session_id@,
            },
            ChatEffect::AppendMessage { session_id, role, content } => EffectView::AppendMessage {
                session_id: session_id@,
                role: role@,
                content: content@,
            },
            ChatEffect::PushMessage { session_id, kind, role, content } =>
                EffectView::PushMessage {
                session_id: session_id@,
                kind,
                role: role@,
                content: content@,
            },
            ChatEffect::UpdateLiveEstimates { session_id, n_ctx } =>
                EffectView::UpdateLiveEstimates { session_id: session_id@, n_ctx },
            ChatEffect::ShowPromptSpeed { session_id } => EffectView::ShowPromptSpeed {
                session_id: session_id@,
            },
            ChatEffect::ShowUsage { session_id, n_ctx } => EffectView::ShowUsage {
                session_id: session_id@,
                n_ctx,
            },
            ChatEffect::RefreshTokenGauge { session_id, n_ctx } => EffectView::RefreshTokenGauge {
                session_id: session_id@,
                n_ctx,
            },
            ChatEffect::SetSessionMeta { session_id } => EffectView::SetSessionMeta {
                session_id: session_id@,
            },
            ChatEffect::SaveSession { session_id } => EffectView::SaveSession {
                session_id: session_id@,
            },
            ChatEffect::CancelPipeline { session_id } => EffectView::CancelPipeline {
                session_id: session_id@,
            },
            ChatEffect::StartPipeline {
                session_id,
                text,
                agent_prompt,
                tool_policy,
                image_data_uri,
                n_ctx,
                reasoning_effort,
            } => EffectView::StartPipeline {
                session_id: session_id@,
                text: text@,
                agent_prompt: agent_prompt@,
                tool_policy: tool_policy@,
                image_data_uri: opt_text(image_data_uri),
                n_ctx,
                reasoning_effort,
            },
            ChatEffect::Notify { session_id, text, success } => EffectView::Notify {
                session_id: session_id@,
                text: text@,
                success,
            },
            ChatEffect::ReloadMcpServers => EffectView::ReloadMcpServers,
            ChatEffect::Restart { reason, exe_path } => EffectView::Restart {
                reason: reason@,
                exe_path: opt_text(exe_path),
            },
        }
    }
}

/// What the surroundings are asked to do, in order.
pub open spec fn effect_views(v: Seq<ChatEffect>) -> Seq<EffectView> {
    Seq::new(v.len(), |i: int| v[i]@)
}

/// Add a request behind the others.
pub fn ask(effects: &mut Vec<ChatEffect>, e: ChatEffect)
    ensures
        effect_views(final(effects)@) == effect_views(old(effects)@).push(e@),
{
    effects.push(e);
    assert(effect_views(effects@) =~= effect_views(old(effects)@).push(e@));
}

} // verus!

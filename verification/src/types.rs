//! The values that the interface works on: chat messages, agent profiles,
//! memory entries and the state of a chat.

use vstd::prelude::*;

use crate::text::{copy_list, copy_opt, copy_pairs, opt_text, pair_texts, texts};

verus! {

// ---------------------------------------------------------------------------
// Messages
// ---------------------------------------------------------------------------

/// What a chat message is.
#[derive(Clone, Copy, Debug, PartialEq, Eq, Structural)]
pub enum MessageKind {
    Normal,
    Tool,
    Thinking,
}

/// One message of a chat.
pub struct ChatMessage {
    pub kind: MessageKind,
    pub role: String,
    pub content: String,
    pub timestamp: String,
    /// The attached image as base64 text.
    pub image: Option<String>,
}

/// What a chat message holds.
#[verifier::ext_equal]
pub struct MessageView {
    pub kind: MessageKind,
    pub role: Seq<char>,
    pub content: Seq<char>,
    pub timestamp: Seq<char>,
    pub image: Option<Seq<char>>,
}

impl View for ChatMessage {
    type V = MessageView;

    open spec fn view(&self) -> MessageView {
        MessageView {
            kind: self.kind,
            role: self.role@,
            content: self.content@,
            timestamp: self.timestamp@,
            image: opt_text(self.image),
        }
    }
}

/// What the messages of a list hold.
pub open spec fn message_views(v: Seq<ChatMessage>) -> Seq<MessageView> {
    Seq::new(v.len(), |i: int| v[i]@)
}

// ---------------------------------------------------------------------------
// Agent profiles
// ---------------------------------------------------------------------------

/// Reasoning effort for reasoning models (Off = omitted from requests).
#[derive(Clone, Copy, Debug, PartialEq, Eq, Structural)]
pub enum ReasoningEffort {
    Off,
    Low,
    Medium,
    High,
}

impl ReasoningEffort {
    /// The name of the effort.
    pub open spec fn name_text(self) -> Seq<char> {
        match self {
            ReasoningEffort::Off => "Off"@,
            ReasoningEffort::Low => "Low"@,
            ReasoningEffort::Medium => "Medium"@,
            ReasoningEffort::High => "High"@,
        }
    }

    /// The name of the effort.
    pub fn name(self) -> (r: &'static str)
        ensures
            r@ == self.name_text(),
    {
        match self {
            ReasoningEffort::Off => "Off",
            ReasoningEffort::Low => "Low",
            ReasoningEffort::Medium => "Medium",
            ReasoningEffort::High => "High",
        }
    }
}

impl Default for ReasoningEffort {
    fn default() -> (r: Self)
        ensures
            r == ReasoningEffort::Off,
    {
        ReasoningEffort::Off
    }
}

/// What an agent may do with the shell.
pub struct ShellConfig {
    pub allowed_commands: Vec<String>,
    pub shell_type: String,
    pub shell_timeout_ms: u64,
    pub shell_enabled: bool,
    pub working_dir: Option<String>,
}

/// What a shell configuration holds.
#[verifier::ext_equal]
pub struct ShellView {
    pub allowed_commands: Seq<Seq<char>>,
    pub shell_type: Seq<char>,
    pub shell_timeout_ms: u64,
    pub shell_enabled: bool,
    pub working_dir: Option<Seq<char>>,
}

impl View for ShellConfig {
    type V = ShellView;

    open spec fn view(&self) -> ShellView {
        ShellView {
            allowed_commands: texts(self.allowed_commands@),
            shell_type: self.shell_type@,
            shell_timeout_ms: self.shell_timeout_ms,
            shell_enabled: self.shell_enabled,
            working_dir: opt_text(self.working_dir),
        }
    }
}

impl ShellConfig {
    /// A copy of the configuration.
    pub fn copied(&self) -> (r: ShellConfig)
        ensures
            r@ == self@,
    {
        ShellConfig {
            allowed_commands: copy_list(&self.allowed_commands),
            shell_type: self.shell_type.clone(),
            shell_timeout_ms: self.shell_timeout_ms,
            shell_enabled: self.shell_enabled,
            working_dir: copy_opt(&self.working_dir),
        }
    }
}

/// What an optional shell configuration holds.
pub open spec fn opt_shell(s: Option<ShellConfig>) -> Option<ShellView> {
    match s {
        Some(c) => Some(c@),
        None => None,
    }
}

/// A copy of an optional shell configuration.
pub fn copy_opt_shell(s: &Option<ShellConfig>) -> (r: Option<ShellConfig>)
    ensures
        opt_shell(r) == opt_shell(*s),
{
    match s {
        Some(c) => Some(c.copied()),
        None => None,
    }
}

/// What an optional list of strings holds.
pub open spec fn opt_texts(v: Option<Vec<String>>) -> Option<Seq<Seq<char>>> {
    match v {
        Some(l) => Some(texts(l@)),
        None => None,
    }
}

/// A copy of an optional list of strings.
pub fn copy_opt_list(v: &Option<Vec<String>>) -> (r: Option<Vec<String>>)
    ensures
        opt_texts(r) == opt_texts(*v),
{
    match v {
        Some(l) => Some(copy_list(l)),
        None => None,
    }
}

/// An agent profile.
pub struct AgentConfig {
    pub name: String,
    pub description: String,
    pub system_prompt: String,
    pub allowed_tools: Vec<String>,
    pub enabled: bool,
    pub task_timeout_ms: u64,
    pub shell_config: ShellConfig,
    pub agents_dir: String,
    pub agents_search_dirs: Vec<String>,
    /// Named prompts, each name once.
    pub custom_prompts: Vec<(String, String)>,
    pub reasoning_effort: ReasoningEffort,
    /// The context trimming settings as the profile file writes them; `None`
    /// for the defaults.
    pub trim_config: Option<String>,
    pub handoff_enabled: bool,
    pub handoff_targets: Vec<String>,
    pub restart_enabled: bool,
}

/// What an agent profile holds.
#[verifier::ext_equal]
pub struct AgentView {
    pub name: Seq<char>,
    pub description: Seq<char>,
    pub system_prompt: Seq<char>,
    pub allowed_tools: Seq<Seq<char>>,
    pub enabled: bool,
    pub task_timeout_ms: u64,
    pub shell_config: ShellView,
    pub agents_dir: Seq<char>,
    pub agents_search_dirs: Seq<Seq<char>>,
    pub custom_prompts: Seq<(Seq<char>, Seq<char>)>,
    pub reasoning_effort: ReasoningEffort,
    pub trim_config: Option<Seq<char>>,
    pub handoff_enabled: bool,
    pub handoff_targets: Seq<Seq<char>>,
    pub restart_enabled: bool,
}

impl View for AgentConfig {
    type V = AgentView;

    open spec fn view(&self) -> AgentView {
        AgentView {
            name: self.name@,
            description: self.description@,
            system_prompt: self.system_prompt@,
            allowed_tools: texts(self.allowed_tools@),
            enabled: self.enabled,
            task_timeout_ms: self.task_timeout_ms,
            shell_config: self.shell_config@,
            agents_dir: self.agents_dir@,
            agents_search_dirs: texts(self.agents_search_dirs@),
            custom_prompts: pair_texts(self.custom_prompts@),
            reasoning_effort: self.reasoning_effort,
            trim_config: opt_text(self.trim_config),
            handoff_enabled: self.handoff_enabled,
            handoff_targets: texts(self.handoff_targets@),
            restart_enabled: self.restart_enabled,
        }
    }
}

impl AgentConfig {
    /// A copy of the profile.
    pub fn copied(&self) -> (r: AgentConfig)
        ensures
            r@ == self@,
    {
        AgentConfig {
            name: self.name.clone(),
            description: self.description.clone(),
            system_prompt: self.system_prompt.clone(),
            allowed_tools: copy_list(&self.allowed_tools),
            enabled: self.enabled,
            task_timeout_ms: self.task_timeout_ms,
            shell_config: self.shell_config.copied(),
            agents_dir: self.agents_dir.clone(),
            agents_search_dirs: copy_list(&self.agents_search_dirs),
            custom_prompts: copy_pairs(&self.custom_prompts),
            reasoning_effort: self.reasoning_effort,
            trim_config: copy_opt(&self.trim_config),
            handoff_enabled: self.handoff_enabled,
            handoff_targets: copy_list(&self.handoff_targets),
            restart_enabled: self.restart_enabled,
        }
    }
}

/// What the profiles of a list hold.
pub open spec fn agent_views(v: Seq<AgentConfig>) -> Seq<AgentView> {
    Seq::new(v.len(), |i: int| v[i]@)
}

// ---------------------------------------------------------------------------
// Memory entries
// ---------------------------------------------------------------------------

/// What a memory entry is about.
#[derive(Clone, Copy, Debug, PartialEq, Eq, Structural)]
pub enum MemoryType {
    Lesson,
    Fact,
}

/// A new memory entry, before the store gives it an id and a time.
pub struct MemoryEntry {
    pub kind: MemoryType,
    pub content: String,
    pub source: String,
    pub tags: Vec<String>,
}

/// What a memory entry holds.
#[verifier::ext_equal]
pub struct MemoryView {
    pub kind: MemoryType,
    pub content: Seq<char>,
    pub source: Seq<char>,
    pub tags: Seq<Seq<char>>,
}

impl View for MemoryEntry {
    type V = MemoryView;

    open spec fn view(&self) -> MemoryView {
        MemoryView {
            kind: self.kind,
            content: self.content@,
            source: self.source@,
            tags: texts(self.tags@),
        }
    }
}

impl MemoryEntry {
    /// An entry with a fixed tag and the tag `agent:<name>`.
    pub fn about_agent(
        kind: MemoryType,
        content: String,
        source: &str,
        tag: &str,
        agent_name: &str,
    ) -> (r: MemoryEntry)
        ensures
            r@ == (MemoryView {
                kind,
                content: content@,
                source: source@,
                tags: seq![tag@, "agent:"@ + agent_name@],
            }),
    {
        let mut agent_tag = "agent:".to_owned();
        agent_tag.append(agent_name);
        let mut tags: Vec<String> = Vec::new();
        tags.push(tag.to_owned());
        tags.push(agent_tag);
        assert(texts(tags@) =~= seq![tag@, "agent:"@ + agent_name@]);
        MemoryEntry { kind, content, source: source.to_owned(), tags }
    }
}

} // verus!

//! The dialog for adding, editing and removing agent profiles.

use vstd::prelude::*;

use crate::numbers::{decimal, decimal_text};
use crate::pieces::{comma_list, join, joined, list_entry, split_commas, comma_list_reads_back};
use crate::text::{
    copy_list, find, has_text, is_blank, list_has, opt_text, same_text, texts, trim, trimmed,
};
use crate::types::{agent_views, AgentConfig, AgentView, ReasoningEffort, ShellConfig, ShellView};

verus! {

/// The shell time limit of a fresh form.
pub const DEFAULT_SHELL_TIMEOUT_MS: u32 = 300_000;

/// The task time limit that a saved profile gets.
pub const TASK_TIMEOUT_MS: u64 = 60_000;

/// UI dialog for adding/editing/removing agent configurations.
pub struct AgentConfigDialog {
    /// Loaded agents from disk.
    pub agents: Vec<AgentConfig>,
    /// Currently selected agent index (-1 = none).
    pub selected_index: isize,
    /// Whether we're creating a new agent.
    pub is_new: bool,
    /// Form fields for the current agent being edited.
    pub name: String,
    pub description: String,
    pub system_prompt: String,
    pub enabled: bool,
    /// Reasoning effort for this agent (Off = inherit the global toggle).
    pub reasoning_effort: ReasoningEffort,
    /// Shell settings (persisted as the agent's `shell_config`).
    pub shell_enabled: bool,
    pub shell_type: String,
    pub shell_timeout_ms: u32,
    /// Comma-separated list of allowed command patterns (empty = allow all
    /// non-dangerous commands).
    pub shell_allowed_commands: String,
    /// Whether this agent may hand off the session to another agent.
    pub handoff_enabled: bool,
    /// Comma-separated handoff target names (empty = any enabled agent).
    pub handoff_targets: String,
    /// Checked status per tool index.
    pub tool_checkboxes: Vec<bool>,
    /// Available tool names from the tool registry.
    pub available_tools: Vec<String>,
    /// Derived from tool_checkboxes at save time.
    pub allowed_tools: Vec<String>,
    /// Error/success messages.
    pub message: Option<String>,
    /// Whether the window is open (drives the title-bar close button).
    pub open: bool,
}

/// What the dialog holds.
#[verifier::ext_equal]
pub struct AgentDialogView {
    pub agents: Seq<AgentView>,
    pub selected_index: isize,
    pub is_new: bool,
    pub name: Seq<char>,
    pub description: Seq<char>,
    pub system_prompt: Seq<char>,
    pub enabled: bool,
    pub reasoning_effort: ReasoningEffort,
    pub shell_enabled: bool,
    pub shell_type: Seq<char>,
    pub shell_timeout_ms: u32,
    pub shell_allowed_commands: Seq<char>,
    pub handoff_enabled: bool,
    pub handoff_targets: Seq<char>,
    pub tool_checkboxes: Seq<bool>,
    pub available_tools: Seq<Seq<char>>,
    pub allowed_tools: Seq<Seq<char>>,
    pub message: Option<Seq<char>>,
    pub open: bool,
}

impl View for AgentConfigDialog {
    type V = AgentDialogView;

    open spec fn view(&self) -> AgentDialogView {
        AgentDialogView {
            agents: agent_views(self.agents@),
            selected_index: self.selected_index,
            is_new: self.is_new,
            name: self.name@,
            description: self.description@,
            system_prompt: self.system_prompt@,
            enabled: self.enabled,
            reasoning_effort: self.reasoning_effort,
            shell_enabled: self.shell_enabled,
            shell_type: self.shell_type@,
            shell_timeout_ms: self.shell_timeout_ms,
            shell_allowed_commands: self.shell_allowed_commands@,
            handoff_enabled: self.handoff_enabled,
            handoff_targets: self.handoff_targets@,
            tool_checkboxes: self.tool_checkboxes@,
            available_tools: texts(self.available_tools@),
            allowed_tools: texts(self.allowed_tools@),
            message: opt_text(self.message),
            open: self.open,
        }
    }
}

/// The tools that the dialog offers: all but the shell, whose availability is
/// controlled by its own checkbox alone.
pub open spec fn offered_tools(names: Seq<Seq<char>>) -> Seq<Seq<char>>
    decreases names.len(),
{
    if names.len() == 0 {
        Seq::empty()
    } else {
        let before = offered_tools(names.drop_last());
        if names.last() == "shell"@ {
            before
        } else {
            before.push(names.last())
        }
    }
}

/// `n` empty checkboxes.
pub open spec fn unchecked(n: nat) -> Seq<bool> {
    Seq::new(n, |i: int| false)
}

/// The checkboxes that show which of the tools are allowed.
pub open spec fn checked(available: Seq<Seq<char>>, allowed: Seq<Seq<char>>) -> Seq<bool> {
    Seq::new(available.len(), |i: int| allowed.contains(available[i]))
}

/// The names of the first `n` tools whose checkbox is checked.
pub open spec fn chosen(available: Seq<Seq<char>>, boxes: Seq<bool>, n: int) -> Seq<Seq<char>>
    decreases n,
{
    if n <= 0 {
        Seq::empty()
    } else if boxes[n - 1] {
        chosen(available, boxes, n - 1).push(available[n - 1])
    } else {
        chosen(available, boxes, n - 1)
    }
}

/// The smaller of two lengths.
pub open spec fn shorter(a: nat, b: nat) -> int {
    if a < b {
        a as int
    } else {
        b as int
    }
}

impl AgentDialogView {
    /// The dialog with an empty form and nothing selected.
    pub open spec fn cleared(self) -> AgentDialogView {
        AgentDialogView {
            is_new: false,
            selected_index: (-1) as isize,
            name: Seq::empty(),
            description: Seq::empty(),
            system_prompt: Seq::empty(),
            enabled: true,
            reasoning_effort: ReasoningEffort::Off,
            shell_enabled: false,
            shell_type: "powershell"@,
            shell_timeout_ms: DEFAULT_SHELL_TIMEOUT_MS,
            shell_allowed_commands: Seq::empty(),
            handoff_enabled: false,
            handoff_targets: Seq::empty(),
            allowed_tools: Seq::empty(),
            tool_checkboxes: unchecked(self.tool_checkboxes.len()),
            message: None,
            ..self
        }
    }

    /// The dialog with the form filled from a profile. The shell time limit
    /// keeps its low 32 bits.
    pub open spec fn loaded(self, agent: AgentView) -> AgentDialogView {
        AgentDialogView {
            is_new: false,
            name: agent.name,
            description: agent.description,
            system_prompt: agent.system_prompt,
            enabled: agent.enabled,
            reasoning_effort: agent.reasoning_effort,
            shell_enabled: agent.shell_config.shell_enabled,
            shell_type: agent.shell_config.shell_type,
            shell_timeout_ms: (agent.shell_config.shell_timeout_ms % 0x1_0000_0000) as u32,
            shell_allowed_commands: join(agent.shell_config.allowed_commands, ", "@),
            handoff_enabled: agent.handoff_enabled,
            handoff_targets: join(agent.handoff_targets, ", "@),
            allowed_tools: agent.allowed_tools,
            tool_checkboxes: checked(self.available_tools, agent.allowed_tools),
            message: None,
            ..self
        }
    }

    /// The names of the checked tools.
    pub open spec fn chosen_tools(self) -> Seq<Seq<char>> {
        chosen(
            self.available_tools,
            self.tool_checkboxes,
            shorter(self.available_tools.len(), self.tool_checkboxes.len()),
        )
    }

    /// The profile that the form describes.
    pub open spec fn described(self) -> AgentView {
        AgentView {
            name: trim(self.name),
            description: trim(self.description),
            system_prompt: self.system_prompt,
            allowed_tools: self.chosen_tools(),
            enabled: self.enabled,
            task_timeout_ms: TASK_TIMEOUT_MS,
            shell_config: ShellView {
                allowed_commands: comma_list(self.shell_allowed_commands),
                shell_type: self.shell_type,
                shell_timeout_ms: self.shell_timeout_ms as u64,
                shell_enabled: self.shell_enabled,
                working_dir: None,
            },
            agents_dir: Seq::empty(),
            agents_search_dirs: Seq::empty(),
            custom_prompts: Seq::empty(),
            reasoning_effort: self.reasoning_effort,
            trim_config: None,
            handoff_enabled: self.handoff_enabled,
            handoff_targets: comma_list(self.handoff_targets),
            restart_enabled: true,
        }
    }

    /// Whether what is selected, if anything, is in the list.
    pub open spec fn selection_in_list(self) -> bool {
        self.selected_index < self.agents.len()
    }
}

/// Where a saved profile goes.
pub enum SaveTarget {
    /// A new profile.
    Add,
    /// The profile with this name is replaced.
    Edit { old_name: String },
    /// Nothing is selected: nothing is written.
    Nowhere,
}

/// A profile to save.
pub struct SaveRequest {
    pub config: AgentConfig,
    pub target: SaveTarget,
}

/// How saving a profile ended.
pub enum SaveOutcome {
    Saved,
    /// The profile store refused the profile.
    Refused { error: String },
    /// The profile store could not be reached.
    LockFailed { error: String },
}

/// Where a saved profile goes, by the state of the dialog.
pub open spec fn save_goes(d: AgentDialogView, t: SaveTarget) -> bool {
    if d.is_new {
        t is Add
    } else if d.selected_index >= 0 {
        t matches SaveTarget::Edit { old_name } && old_name@ == d.agents[d.selected_index as int].name
    } else {
        t is Nowhere
    }
}

impl AgentConfigDialog {
    /// A dialog on the profiles that could be listed, with the tools of the
    /// tool registry.
    pub fn new(listed: Option<Vec<AgentConfig>>, tool_names: &Vec<String>) -> (r: Self)
        ensures
            r@.agents == (match listed {
                Some(v) => agent_views(v@),
                None => Seq::empty(),
            }),
            r@.available_tools == offered_tools(texts(tool_names@)),
            r@.open,
            r@ == r@.cleared(),
            r@.tool_checkboxes.len() == r@.available_tools.len(),
    {
        let agents = match listed {
            Some(v) => v,
            None => Vec::new(),
        };
        let mut available_tools: Vec<String> = Vec::new();
        let mut tool_checkboxes: Vec<bool> = Vec::new();
        let mut i: usize = 0;
        assert(texts(available_tools@) =~= offered_tools(texts(tool_names@).take(0)));
        while i < tool_names.len()
            invariant
                i <= tool_names@.len(),
                texts(available_tools@) == offered_tools(texts(tool_names@).take(i as int)),
                tool_checkboxes@ == unchecked(available_tools@.len()),
            decreases tool_names.len() - i,
        {
            assert(texts(tool_names@).take(i + 1).drop_last() =~= texts(tool_names@).take(i as int));
            if !same_text(tool_names[i].as_str(), "shell") {
                let ghost old_tools = available_tools@;
                available_tools.push(tool_names[i].clone());
                assert(texts(available_tools@) =~= texts(old_tools).push(tool_names@[i as int]@));
                tool_checkboxes.push(false);
                assert(tool_checkboxes@ =~= unchecked(available_tools@.len()));
            }
            i += 1;
        }
        assert(texts(tool_names@).take(tool_names@.len() as int) =~= texts(tool_names@));
        let r = AgentConfigDialog {
            agents,
            selected_index: -1,
            is_new: false,
            name: String::new(),
            description: String::new(),
            system_prompt: String::new(),
            enabled: true,
            reasoning_effort: ReasoningEffort::Off,
            shell_enabled: false,
            shell_type: "powershell".to_owned(),
            shell_timeout_ms: DEFAULT_SHELL_TIMEOUT_MS,
            shell_allowed_commands: String::new(),
            handoff_enabled: false,
            handoff_targets: String::new(),
            tool_checkboxes,
            available_tools,
            allowed_tools: Vec::new(),
            message: None,
            open: true,
        };
        assert(r@ =~= r@.cleared());
        assert(listed is None ==> r@.agents =~= Seq::empty());
        r
    }

    /// Empty the form and select nothing.
    pub fn clear_form(&mut self)
        ensures
            final(self)@ == old(self)@.cleared(),
    {
        self.is_new = false;
        self.selected_index = -1;
        self.name = String::new();
        self.description = String::new();
        self.system_prompt = String::new();
        self.enabled = true;
        self.reasoning_effort = ReasoningEffort::Off;
        self.shell_enabled = false;
        self.shell_type = "powershell".to_owned();
        self.shell_timeout_ms = DEFAULT_SHELL_TIMEOUT_MS;
        self.shell_allowed_commands = String::new();
        self.handoff_enabled = false;
        self.handoff_targets = String::new();
        self.allowed_tools = Vec::new();
        let mut boxes: Vec<bool> = Vec::new();
        let n: usize = self.tool_checkboxes.len();
        let mut i: usize = 0;
        while i < n
            invariant
                i <= n,
                boxes@ == unchecked(i as nat),
            decreases n - i,
        {
            boxes.push(false);
            assert(boxes@ =~= unchecked((i + 1) as nat));
            i += 1;
        }
        self.tool_checkboxes = boxes;
        self.message = None;
        assert(self@ =~= old(self)@.cleared());
    }

    /// Start the form for a new agent.
    pub fn start_new(&mut self)
        ensures
            final(self)@ == (AgentDialogView { is_new: true, ..old(self)@.cleared() }),
    {
        self.clear_form();
        self.is_new = true;
    }

    /// The index of the selected agent, if any.
    pub fn selected_index(&self) -> (r: Option<usize>)
        ensures
            r == (if self.selected_index >= 0 {
                Some(self.selected_index as usize)
            } else {
                None
            }),
    {
        if self.selected_index >= 0 {
            Some(self.selected_index as usize)
        } else {
            None
        }
    }

    /// Let the checkboxes and the allowed tools follow an agent.
    pub fn sync_tools_from_agent(&mut self, allowed: &Vec<String>)
        ensures
            final(self)@ == (AgentDialogView {
                allowed_tools: texts(allowed@),
                tool_checkboxes: checked(old(self)@.available_tools, texts(allowed@)),
                ..old(self)@
            }),
    {
        let mut boxes: Vec<bool> = Vec::new();
        let mut i: usize = 0;
        while i < self.available_tools.len()
            invariant
                i <= self.available_tools@.len(),
                boxes@.len() == i,
                forall|k: int|
                    0 <= k < i ==> #[trigger] boxes@[k] == texts(allowed@).contains(
                        texts(self.available_tools@)[k],
                    ),
            decreases self.available_tools.len() - i,
        {
            boxes.push(list_has(allowed, self.available_tools[i].as_str()));
            i += 1;
        }
        assert(boxes@ =~= checked(texts(self.available_tools@), texts(allowed@)));
        self.tool_checkboxes = boxes;
        self.allowed_tools = copy_list(allowed);
    }

    /// Let the allowed tools follow the checkboxes.
    pub fn sync_tools_from_checkboxes(&mut self)
        ensures
            final(self)@ == (AgentDialogView {
                allowed_tools: old(self)@.chosen_tools(),
                ..old(self)@
            }),
    {
        let n: usize = if self.available_tools.len() < self.tool_checkboxes.len() {
            self.available_tools.len()
        } else {
            self.tool_checkboxes.len()
        };
        let ghost tools = texts(self.available_tools@);
        let mut out: Vec<String> = Vec::new();
        let mut i: usize = 0;
        assert(texts(out@) =~= chosen(tools, self.tool_checkboxes@, 0));
        while i < n
            invariant
                i <= n,
                n <= self.available_tools@.len(),
                n <= self.tool_checkboxes@.len(),
                tools == texts(self.available_tools@),
                texts(out@) == chosen(tools, self.tool_checkboxes@, i as int),
            decreases n - i,
        {
            if self.tool_checkboxes[i] {
                let ghost old_out = out@;
                out.push(self.available_tools[i].clone());
                assert(texts(out@) =~= texts(old_out).push(tools[i as int]));
            }
            i += 1;
        }
        self.allowed_tools = out;
    }

    /// Load an externally-sourced config into the form fields.
    pub fn load_into_form(&mut self, agent: &AgentConfig)
        ensures
            final(self)@ == old(self)@.loaded(agent@),
    {
        self.is_new = false;
        self.name = agent.name.clone();
        self.description = agent.description.clone();
        self.system_prompt = agent.system_prompt.clone();
        self.enabled = agent.enabled;
        self.reasoning_effort = agent.reasoning_effort;
        self.shell_enabled = agent.shell_config.shell_enabled;
        self.shell_type = agent.shell_config.shell_type.clone();
        self.shell_timeout_ms = (agent.shell_config.shell_timeout_ms % 0x1_0000_0000) as u32;
        self.shell_allowed_commands = joined(&agent.shell_config.allowed_commands, ", ");
        self.handoff_enabled = agent.handoff_enabled;
        self.handoff_targets = joined(&agent.handoff_targets, ", ");
        self.sync_tools_from_agent(&agent.allowed_tools);
        self.message = None;
    }

    /// Select an agent of the list; one that is there fills the form.
    pub fn select_agent(&mut self, idx: usize)
        requires
            idx <= isize::MAX,
        ensures
            final(self)@ == ({
                let d = AgentDialogView { selected_index: idx as isize, ..old(self)@ };
                if idx < old(self)@.agents.len() {
                    d.loaded(old(self)@.agents[idx as int])
                } else {
                    d
                }
            }),
    {
        self.selected_index = idx as isize;
        if idx < self.agents.len() {
            let agent = self.agents[idx].copied();
            self.load_into_form(&agent);
        }
    }

    /// Check the form and describe what to save. Without a name nothing is
    /// saved and the message says so; otherwise the allowed tools follow the
    /// checkboxes.
    pub fn save(&mut self) -> (r: Option<SaveRequest>)
        requires
            old(self)@.is_new || old(self)@.selection_in_list(),
        ensures
            trim(old(self)@.name).len() == 0 ==> r is None && final(self)@ == (AgentDialogView {
                message: Some("Name is required."@),
                ..old(self)@
            }),
            trim(old(self)@.name).len() > 0 ==> {
                &&& final(self)@ == (AgentDialogView {
                    allowed_tools: old(self)@.chosen_tools(),
                    ..old(self)@
                })
                &&& r matches Some(request) && request.config@ == old(self)@.described()
                    && save_goes(old(self)@, request.target)
            },
    {
        if is_blank(self.name.as_str()) {
            self.message = Some("Name is required.".to_owned());
            return None;
        }
        self.sync_tools_from_checkboxes();
        let config = AgentConfig {
            name: trimmed(self.name.as_str()),
            description: trimmed(self.description.as_str()),
            system_prompt: self.system_prompt.clone(),
            allowed_tools: copy_list(&self.allowed_tools),
            enabled: self.enabled,
            task_timeout_ms: TASK_TIMEOUT_MS,
            shell_config: ShellConfig {
                allowed_commands: split_commas(self.shell_allowed_commands.as_str()),
                shell_type: self.shell_type.clone(),
                shell_timeout_ms: self.shell_timeout_ms as u64,
                shell_enabled: self.shell_enabled,
                working_dir: None,
            },
            agents_dir: String::new(),
            agents_search_dirs: Vec::new(),
            custom_prompts: Vec::new(),
            reasoning_effort: self.reasoning_effort,
            trim_config: None,
            handoff_enabled: self.handoff_enabled,
            handoff_targets: split_commas(self.handoff_targets.as_str()),
            restart_enabled: true,
        };
        assert(config@ =~= old(self)@.described());
        let target = if self.is_new {
            SaveTarget::Add
        } else {
            match self.selected_index() {
                Some(idx) => SaveTarget::Edit { old_name: self.agents[idx].name.clone() },
                None => SaveTarget::Nowhere,
            }
        };
        Some(SaveRequest { config, target })
    }

    /// Note that the profile directory could not be created.
    pub fn directory_failed(&mut self, error: &str)
        ensures
            final(self)@ == (AgentDialogView {
                message: Some("Failed to create directory: "@ + error@),
                ..old(self)@
            }),
    {
        let mut m = "Failed to create directory: ".to_owned();
        m.append(error);
        self.message = Some(m);
    }

    /// Take in how saving ended; `reloaded` is the profile list where it could
    /// be read again. A saved profile empties the form. Returns whether the
    /// profile was saved.
    pub fn finish_save(&mut self, outcome: &SaveOutcome, reloaded: Option<Vec<AgentConfig>>) -> (r:
        bool)
        ensures
            r == (outcome is Saved),
            match *outcome {
                SaveOutcome::Saved => final(self)@ == (AgentDialogView {
                    agents: match reloaded {
                        Some(v) => agent_views(v@),
                        None => old(self)@.agents,
                    },
                    ..old(self)@.cleared()
                }),
                SaveOutcome::Refused { error } => final(self)@ == (AgentDialogView {
                    message: Some("Error: "@ + error@),
                    ..old(self)@
                }),
                SaveOutcome::LockFailed { error } => final(self)@ == (AgentDialogView {
                    message: Some("Lock error: "@ + error@),
                    ..old(self)@
                }),
            },
    {
        match outcome {
            SaveOutcome::Saved => {
                if let Some(v) = reloaded {
                    self.agents = v;
                }
                self.clear_form();
                true
            },
            SaveOutcome::Refused { error } => {
                let mut m = "Error: ".to_owned();
                m.append(error.as_str());
                self.message = Some(m);
                false
            },
            SaveOutcome::LockFailed { error } => {
                let mut m = "Lock error: ".to_owned();
                m.append(error.as_str());
                self.message = Some(m);
                false
            },
        }
    }

    /// The name of the profile that a deletion removes, if one is selected.
    pub fn deletion_target(&self) -> (r: Option<String>)
        requires
            self@.selection_in_list(),
        ensures
            opt_text(r) == (if self@.selected_index >= 0 {
                Some(self@.agents[self@.selected_index as int].name)
            } else {
                None
            }),
    {
        match self.selected_index() {
            Some(idx) => Some(self.agents[idx].name.clone()),
            None => None,
        }
    }

    /// Take in how removing the selected profile ended.
    pub fn delete_agent(&mut self, outcome: &Result<(), String>)
        requires
            old(self)@.selection_in_list(),
        ensures
            old(self)@.selected_index < 0 ==> final(self)@ == old(self)@,
            old(self)@.selected_index >= 0 ==> match *outcome {
                Ok(_) => final(self)@ == (AgentDialogView {
                    agents: old(self)@.agents.remove(old(self)@.selected_index as int),
                    ..old(self)@.cleared()
                }),
                Err(error) => final(self)@ == (AgentDialogView {
                    message: Some("Error: "@ + error@),
                    ..old(self)@
                }),
            },
    {
        if let Some(idx) = self.selected_index() {
            match outcome {
                Ok(_) => {
                    let ghost before = self.agents@;
                    self.agents.remove(idx);
                    assert(agent_views(self.agents@) =~= agent_views(before).remove(idx as int));
                    self.clear_form();
                },
                Err(error) => {
                    let mut m = "Error: ".to_owned();
                    m.append(error.as_str());
                    self.message = Some(m);
                },
            }
        }
    }

    /// Take in how restoring a snapshot of the agent `name` ended. A restored
    /// profile is selected where the reloaded list holds it, and fills the
    /// form.
    pub fn finish_revert(
        &mut self,
        name: &str,
        ts_label: &str,
        outcome: &Result<AgentConfig, String>,
        reloaded: Option<Vec<AgentConfig>>,
    )
        requires
            reloaded matches Some(v) ==> v@.len() <= isize::MAX,
            old(self)@.agents.len() <= isize::MAX,
        ensures
            match *outcome {
                Ok(config) => {
                    let agents = match reloaded {
                        Some(v) => agent_views(v@),
                        None => old(self)@.agents,
                    };
                    let selected_index = match position_of(agents, config@.name, 0) {
                        Some(pos) => pos as isize,
                        None => old(self)@.selected_index,
                    };
                    final(self)@ == (AgentDialogView {
                        message: Some("Reverted '"@ + config@.name + "' to "@ + ts_label@ + "."@),
                        ..(AgentDialogView { agents, selected_index, ..old(self)@ }).loaded(config@)
                    })
                },
                Err(error) => final(self)@ == (AgentDialogView {
                    message: Some("Error: revert of '"@ + name@ + "' failed: "@ + error@),
                    ..old(self)@
                }),
            },
    {
        match outcome {
            Ok(config) => {
                if let Some(v) = reloaded {
                    self.agents = v;
                }
                if let Some(pos) = find_agent(&self.agents, config.name.as_str()) {
                    self.selected_index = pos as isize;
                }
                self.load_into_form(config);
                let mut m = "Reverted '".to_owned();
                m.append(config.name.as_str());
                m.append("' to ");
                m.append(ts_label);
                m.append(".");
                self.message = Some(m);
            },
            Err(error) => {
                let mut m = "Error: revert of '".to_owned();
                m.append(name);
                m.append("' failed: ");
                m.append(error.as_str());
                self.message = Some(m);
            },
        }
    }

    /// The agent whose prompt history the editor shows: the selected one,
    /// unless a new agent is being made.
    pub fn history_agent(&self) -> (r: Option<String>)
        ensures
            opt_text(r) == (if !self@.is_new && 0 <= self@.selected_index < self@.agents.len() {
                Some(self@.agents[self@.selected_index as int].name)
            } else {
                None
            }),
    {
        if self.is_new {
            return None;
        }
        match self.selected_index() {
            Some(idx) => if idx < self.agents.len() {
                Some(self.agents[idx].name.clone())
            } else {
                None
            },
            None => None,
        }
    }

    /// The label of an agent in the list.
    pub fn agent_label(&self, idx: usize) -> (r: String)
        requires
            idx < self@.agents.len(),
        ensures
            r@ == "["@ + (if self@.agents[idx as int].enabled {
                "x"@
            } else {
                " "@
            }) + "] "@ + self@.agents[idx as int].name,
    {
        let mut r = "[".to_owned();
        r.append(if self.agents[idx].enabled {
            "x"
        } else {
            " "
        });
        r.append("] ");
        r.append(self.agents[idx].name.as_str());
        r
    }

    /// Whether the editor is shown.
    pub fn shows_editor(&self) -> (r: bool)
        ensures
            r == (self@.is_new || self@.selected_index >= 0),
    {
        self.is_new || self.selected_index >= 0
    }

    /// Whether the button that deletes the selected agent is shown.
    pub fn shows_delete(&self) -> (r: bool)
        ensures
            r == (self@.agents.len() > 0 && self@.selected_index >= 0),
    {
        self.agents.len() > 0 && self.selected_index >= 0
    }

    /// Hand out the message to show, once, and whether it is an error.
    pub fn take_message(&mut self) -> (r: Option<(String, bool)>)
        ensures
            final(self)@ == (AgentDialogView { message: None, ..old(self)@ }),
            match old(self)@.message {
                Some(m) => r matches Some(shown) && shown.0@ == m && shown.1 == (find(
                    m,
                    "Error"@,
                ) is Some),
                None => r is None,
            },
    {
        match self.message.take() {
            Some(m) => {
                let is_error = has_text(m.as_str(), "Error");
                Some((m, is_error))
            },
            None => None,
        }
    }
}

/// The position of the first agent with this name, from `from` on.
pub open spec fn position_of(agents: Seq<AgentView>, name: Seq<char>, from: int) -> Option<int>
    decreases agents.len() - from,
{
    if from < 0 || from >= agents.len() {
        None
    } else if agents[from].name == name {
        Some(from)
    } else {
        position_of(agents, name, from + 1)
    }
}

fn find_agent(agents: &Vec<AgentConfig>, name: &str) -> (r: Option<usize>)
    ensures
        match r {
            Some(i) => position_of(agent_views(agents@), name@, 0) == Some(i as int) && i
                < agents@.len(),
            None => position_of(agent_views(agents@), name@, 0) is None,
        },
{
    let mut i: usize = 0;
    while i < agents.len()
        invariant
            i <= agents@.len(),
            position_of(agent_views(agents@), name@, 0) == position_of(
                agent_views(agents@),
                name@,
                i as int,
            ),
        decreases agents.len() - i,
    {
        if same_text(agents[i].name.as_str(), name) {
            return Some(i);
        }
        i += 1;
    }
    None
}

/// The label of a snapshot: its time, and its number where several were taken
/// in one second.
pub fn snapshot_label(ts_label: &str, seq: u32) -> (r: String)
    ensures
        r@ == (if seq > 0 {
            ts_label@ + ("#"@ + decimal(seq as nat))
        } else {
            ts_label@
        }),
{
    let mut r = ts_label.to_owned();
    if seq > 0 {
        let mut n = "#".to_owned();
        n.append(decimal_text(seq as u64).as_str());
        r.append(n.as_str());
    }
    r
}

// ---------------------------------------------------------------------------
// Laws
// ---------------------------------------------------------------------------

/// Loading an agent and reading the checkboxes back allows exactly those of
/// the agent's tools that are available.
pub proof fn loaded_tools_are_kept(available: Seq<Seq<char>>, allowed: Seq<Seq<char>>)
    ensures
        forall|t: Seq<char>|
            chosen(
                available,
                checked(available, allowed),
                available.len() as int,
            ).contains(t) <==> available.contains(t) && allowed.contains(t),
{
    lemma_chosen(available, allowed, available.len() as int);
    assert(available.take(available.len() as int) =~= available);
}

proof fn lemma_chosen(available: Seq<Seq<char>>, allowed: Seq<Seq<char>>, n: int)
    requires
        0 <= n <= available.len(),
    ensures
        forall|t: Seq<char>|
            #[trigger] chosen(available, checked(available, allowed), n).contains(t)
                <==> available.take(n).contains(t) && allowed.contains(t),
    decreases n,
{
    if n > 0 {
        lemma_chosen(available, allowed, n - 1);
        let before = chosen(available, checked(available, allowed), n - 1);
        let now = chosen(available, checked(available, allowed), n);
        let x = available[n - 1];
        assert(available.take(n) =~= available.take(n - 1).push(x));
        assert forall|t: Seq<char>|
            #[trigger] now.contains(t) <==> available.take(n).contains(t) && allowed.contains(
                t,
            ) by {
            lemma_push_contains(available.take(n - 1), x, t);
            lemma_push_contains(before, x, t);
            assert(before.contains(t) <==> available.take(n - 1).contains(t) && allowed.contains(
                t,
            ));
        }
    }
}

proof fn lemma_push_contains(s: Seq<Seq<char>>, x: Seq<char>, t: Seq<char>)
    ensures
        s.push(x).contains(t) <==> s.contains(t) || t == x,
{
    if s.contains(t) {
        let i = choose|i: int| 0 <= i < s.len() && s[i] == t;
        assert(s.push(x)[i] == t);
    }
    if t == x {
        assert(s.push(x)[s.len() as int] == t);
    }
    if s.push(x).contains(t) {
        let i = choose|i: int| 0 <= i < s.push(x).len() && s.push(x)[i] == t;
        if i < s.len() {
            assert(s[i] == t);
        }
    }
}

/// Loading a profile and saving the untouched form describes the same
/// profile, apart from what the form has no field for: the tools that are not
/// available are left out, and the task time limit, the shell's working
/// directory, the directories, the custom prompts, the trimming and the
/// restart permission get their defaults. Names and descriptions are without
/// white space at their ends, list entries without commas, and the shell time
/// limit fits the form.
pub proof fn loading_then_saving_keeps_the_profile(d: AgentDialogView, agent: AgentView)
    requires
        trim(agent.name) == agent.name,
        trim(agent.description) == agent.description,
        agent.shell_config.shell_timeout_ms <= u32::MAX,
        forall|i: int|
            0 <= i < agent.shell_config.allowed_commands.len() ==> list_entry(
                #[trigger] agent.shell_config.allowed_commands[i],
            ),
        forall|i: int|
            0 <= i < agent.handoff_targets.len() ==> list_entry(
                #[trigger] agent.handoff_targets[i],
            ),
    ensures
        d.loaded(agent).described() == (AgentView {
            allowed_tools: chosen(
                d.available_tools,
                checked(d.available_tools, agent.allowed_tools),
                d.available_tools.len() as int,
            ),
            task_timeout_ms: TASK_TIMEOUT_MS,
            shell_config: ShellView { working_dir: None, ..agent.shell_config },
            agents_dir: Seq::empty(),
            agents_search_dirs: Seq::empty(),
            custom_prompts: Seq::empty(),
            trim_config: None,
            restart_enabled: true,
            ..agent
        }),
{
    comma_list_reads_back(agent.shell_config.allowed_commands);
    comma_list_reads_back(agent.handoff_targets);
}

/// A cleared form is the same however it was filled before.
pub proof fn clearing_forgets_the_form(d: AgentDialogView, agent: AgentView)
    requires
        d.tool_checkboxes.len() == d.available_tools.len(),
    ensures
        d.loaded(agent).cleared() == d.cleared(),
        d.cleared().cleared() == d.cleared(),
{
    assert(d.loaded(agent).cleared() =~= d.cleared());
    assert(d.cleared().cleared() =~= d.cleared());
}

} // verus!

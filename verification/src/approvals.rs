//! Applying reviewed improvements: which profile an approval edits and how,
//! what is reported of it, and what the memory keeps of a decision.

use vstd::prelude::*;

use crate::clock::{by_the_clock, format_now};
use crate::improvements::{pending_agent_views, PendingAgentView, PendingImprovement, PendingView};
use crate::pieces::{first_chars, join, joined, take_chars};
use crate::text::{copy_list, same_text, texts};
use crate::types::{
    AgentConfig, AgentView, MemoryEntry, MemoryType, MemoryView, ReasoningEffort, ShellView,
};

verus! {

// ---------------------------------------------------------------------------
// Finding the profile
// ---------------------------------------------------------------------------

/// A profile file of an agents directory: what its name, prompt and enabled
/// flag are, as the current or else the legacy format reads them.
pub struct ProfileFile {
    pub name: String,
    pub system_prompt: String,
    pub enabled: bool,
}

/// The readable profile files of an agents directory, in directory order.
pub struct AgentsDir {
    pub path: String,
    pub profiles: Vec<ProfileFile>,
}

impl AgentsDir {
    /// Whether the directory holds a profile with this name.
    pub open spec fn holds(self, name: Seq<char>) -> bool {
        exists|i: int| 0 <= i < self.profiles@.len() && (#[trigger] self.profiles@[i]).name@ == name
    }

    fn has_profile(&self, name: &str) -> (r: bool)
        ensures
            r == self.holds(name@),
    {
        let mut i: usize = 0;
        while i < self.profiles.len()
            invariant
                i <= self.profiles@.len(),
                forall|k: int| 0 <= k < i ==> (#[trigger] self.profiles@[k]).name@ != name@,
            decreases self.profiles.len() - i,
        {
            if same_text(self.profiles[i].name.as_str(), name) {
                return true;
            }
            i += 1;
        }
        false
    }
}

/// Find the directory (in priority order) that actually contains a profile
/// named `name`, enabled or not. `None` when no known directory holds it (it
/// was deleted, or it has no backing file at all).
pub fn resolve_agent_dir(dirs: &Vec<AgentsDir>, name: &str) -> (r: Option<String>)
    ensures
        match r {
            Some(path) => exists|i: int|
                0 <= i < dirs@.len() && path@ == (#[trigger] dirs@[i]).path@ && dirs@[i].holds(
                    name@,
                ) && forall|k: int| 0 <= k < i ==> !(#[trigger] dirs@[k]).holds(name@),
            None => forall|i: int| 0 <= i < dirs@.len() ==> !(#[trigger] dirs@[i]).holds(name@),
        },
{
    let mut i: usize = 0;
    while i < dirs.len()
        invariant
            i <= dirs@.len(),
            forall|k: int| 0 <= k < i ==> !(#[trigger] dirs@[k]).holds(name@),
        decreases dirs.len() - i,
    {
        if dirs[i].has_profile(name) {
            let path = dirs[i].path.clone();
            assert(dirs@[i as int].holds(name@) && path@ == dirs@[i as int].path@);
            return Some(path);
        }
        i += 1;
    }
    None
}

// ---------------------------------------------------------------------------
// Editing the profile
// ---------------------------------------------------------------------------

/// The first of two optional values that is there.
pub open spec fn either<T>(a: Option<T>, b: Option<T>) -> Option<T> {
    match a {
        Some(_) => a,
        None => b,
    }
}

/// A value where its toggle is on.
pub open spec fn toggled<T>(on: bool, value: Option<T>) -> Option<T> {
    if on {
        value
    } else {
        None
    }
}

/// A change where there is one, else what was there.
pub open spec fn changed<T>(change: Option<T>, current: T) -> T {
    match change {
        Some(x) => x,
        None => current,
    }
}

impl PendingView {
    /// The prompt that stands to be applied: the user's edit, else the
    /// proposed one.
    pub open spec fn final_prompt(self) -> Option<Seq<char>> {
        either(self.edited_prompt, self.prompt_change)
    }

    /// The prompt that an approval applies.
    pub open spec fn approved_prompt(self) -> Option<Seq<char>> {
        toggled(self.apply_prompt, self.final_prompt())
    }

    /// The tool list that an approval applies.
    pub open spec fn approved_tools(self) -> Option<Seq<Seq<char>>> {
        toggled(self.apply_allowed_tools, self.allowed_tools)
    }

    /// The reasoning effort that an approval applies.
    pub open spec fn approved_reasoning(self) -> Option<ReasoningEffort> {
        toggled(self.apply_reasoning_effort, self.reasoning_effort)
    }

    /// The shell configuration that an approval applies.
    pub open spec fn approved_shell(self) -> Option<ShellView> {
        toggled(self.apply_shell_config, self.shell_config)
    }

    /// The handoff targets that an approval applies.
    pub open spec fn approved_handoff(self) -> Option<Seq<Seq<char>>> {
        toggled(self.apply_handoff_targets, self.handoff_targets)
    }

    /// The task time limit that an approval applies.
    pub open spec fn approved_timeout(self) -> Option<u64> {
        toggled(self.apply_task_timeout, self.task_timeout_ms)
    }

    /// Whether an approval changes the agent's profile.
    pub open spec fn edits_profile(self) -> bool {
        self.approved_prompt() is Some || self.approved_tools() is Some
            || self.approved_reasoning() is Some || self.approved_shell() is Some
            || self.approved_handoff() is Some || self.approved_timeout() is Some
    }

    /// The profile after an approval.
    pub open spec fn edited(self, config: AgentView) -> AgentView {
        AgentView {
            system_prompt: changed(self.approved_prompt(), config.system_prompt),
            allowed_tools: changed(self.approved_tools(), config.allowed_tools),
            reasoning_effort: changed(self.approved_reasoning(), config.reasoning_effort),
            shell_config: changed(self.approved_shell(), config.shell_config),
            handoff_targets: changed(self.approved_handoff(), config.handoff_targets),
            task_timeout_ms: changed(self.approved_timeout(), config.task_timeout_ms),
            ..config
        }
    }

    /// The names of the parts of the profile that an approval changes.
    pub open spec fn applied_parts(self) -> Seq<Seq<char>> {
        named(self.approved_prompt() is Some, "prompt"@) + named(
            self.approved_tools() is Some,
            "tools"@,
        ) + named(self.approved_reasoning() is Some, "reasoning"@) + named(
            self.approved_shell() is Some,
            "shell"@,
        ) + named(self.approved_handoff() is Some, "handoff"@) + named(
            self.approved_timeout() is Some,
            "timeout"@,
        )
    }

    /// Whether the suggestion proposes any change of an existing profile.
    pub open spec fn has_config_change(self) -> bool {
        self.prompt_change is Some || self.allowed_tools is Some || self.reasoning_effort is Some
            || self.shell_config is Some || self.handoff_targets is Some || self.task_timeout_ms
            is Some
    }
}

/// A name where it applies.
pub open spec fn named(on: bool, name: Seq<char>) -> Seq<Seq<char>> {
    if on {
        seq![name]
    } else {
        Seq::empty()
    }
}

fn push_named(parts: &mut Vec<String>, on: bool, name: &str)
    ensures
        texts(final(parts)@) == texts(old(parts)@) + named(on, name@),
{
    if on {
        parts.push(name.to_owned());
        assert(texts(parts@) =~= texts(old(parts)@) + seq![name@]);
    } else {
        assert(texts(parts@) =~= texts(old(parts)@) + Seq::<Seq<char>>::empty());
    }
}

impl PendingImprovement {
    /// The prompt that stands to be applied: the user's edit, else the
    /// proposed one.
    pub fn final_prompt(&self) -> (r: Option<&String>)
        ensures
            match r {
                Some(p) => self@.final_prompt() == Some(p@),
                None => self@.final_prompt() is None,
            },
    {
        match &self.edited_prompt {
            Some(p) => Some(p),
            None => match &self.prompt_change {
                Some(p) => Some(p),
                None => None,
            },
        }
    }

    /// Whether an approval changes the agent's profile.
    pub fn edits_profile(&self) -> (r: bool)
        ensures
            r == self@.edits_profile(),
    {
        (self.apply_prompt && self.final_prompt().is_some()) || (self.apply_allowed_tools
            && self.allowed_tools.is_some()) || (self.apply_reasoning_effort
            && self.reasoning_effort.is_some()) || (self.apply_shell_config
            && self.shell_config.is_some()) || (self.apply_handoff_targets
            && self.handoff_targets.is_some()) || (self.apply_task_timeout
            && self.task_timeout_ms.is_some())
    }

    /// The profile after an approval.
    pub fn edited_config(&self, config: &AgentConfig) -> (r: AgentConfig)
        ensures
            r@ == self@.edited(config@),
    {
        let mut out = config.copied();
        if self.apply_prompt {
            if let Some(p) = self.final_prompt() {
                out.system_prompt = p.clone();
            }
        }
        if self.apply_allowed_tools {
            if let Some(tools) = &self.allowed_tools {
                out.allowed_tools = copy_list(tools);
            }
        }
        if self.apply_reasoning_effort {
            if let Some(effort) = self.reasoning_effort {
                out.reasoning_effort = effort;
            }
        }
        if self.apply_shell_config {
            if let Some(shell) = &self.shell_config {
                out.shell_config = shell.copied();
            }
        }
        if self.apply_handoff_targets {
            if let Some(targets) = &self.handoff_targets {
                out.handoff_targets = copy_list(targets);
            }
        }
        if self.apply_task_timeout {
            if let Some(ms) = self.task_timeout_ms {
                out.task_timeout_ms = ms;
            }
        }
        assert(out@ =~= self@.edited(config@));
        out
    }

    fn applied_part_names(&self) -> (r: Vec<String>)
        ensures
            texts(r@) == self@.applied_parts(),
    {
        let mut r: Vec<String> = Vec::new();
        push_named(&mut r, self.apply_prompt && self.final_prompt().is_some(), "prompt");
        push_named(&mut r, self.apply_allowed_tools && self.allowed_tools.is_some(), "tools");
        push_named(
            &mut r,
            self.apply_reasoning_effort && self.reasoning_effort.is_some(),
            "reasoning",
        );
        push_named(&mut r, self.apply_shell_config && self.shell_config.is_some(), "shell");
        push_named(
            &mut r,
            self.apply_handoff_targets && self.handoff_targets.is_some(),
            "handoff",
        );
        push_named(
            &mut r,
            self.apply_task_timeout && self.task_timeout_ms.is_some(),
            "timeout",
        );
        assert(texts(r@) =~= self@.applied_parts());
        r
    }

    /// Whether the suggestion proposes any change of an existing profile; only
    /// such a suggestion can be approved. One that only proposes new agents can
    /// be dismissed.
    pub fn has_config_change(&self) -> (r: bool)
        ensures
            r == self@.has_config_change(),
    {
        self.prompt_change.is_some() || self.allowed_tools.is_some()
            || self.reasoning_effort.is_some() || self.shell_config.is_some()
            || self.handoff_targets.is_some() || self.task_timeout_ms.is_some()
    }
}

/// An agent to create: what is not said here gets its default.
pub struct NewAgent {
    pub name: String,
    pub description: String,
    pub system_prompt: String,
    pub allowed_tools: Vec<String>,
}

/// Whether `a` is the agent that the pending proposal `p` creates: as
/// proposed, with the prompt as the user edited it.
pub open spec fn creates(p: PendingAgentView, a: NewAgent) -> bool {
    a.name@ == p.proposal.name && a.description@ == p.proposal.description && a.system_prompt@
        == p.edited_system_prompt && texts(a.allowed_tools@) == p.proposal.allowed_tools
}

/// What an approval asks for: the edit of the agent's profile, where it
/// changes it and the profile could be loaded, and the agents to create.
pub struct ApprovalPlan {
    pub edit: Option<AgentConfig>,
    pub create: Vec<NewAgent>,
}

/// What an approval of `imp` asks for; `config` is the loaded profile.
pub fn plan_approval(imp: &PendingImprovement, config: Option<&AgentConfig>) -> (r: ApprovalPlan)
    ensures
        match r.edit {
            Some(c) => imp@.edits_profile() && config is Some && c@ == imp@.edited(
                config->Some_0@,
            ),
            None => !imp@.edits_profile() || config is None,
        },
        r.create@.len() == imp@.new_agents.len(),
        forall|i: int|
            0 <= i < r.create@.len() ==> creates(imp@.new_agents[i], #[trigger] r.create@[i]),
{
    let edit = match config {
        Some(c) => if imp.edits_profile() {
            Some(imp.edited_config(c))
        } else {
            None
        },
        None => None,
    };
    let mut create: Vec<NewAgent> = Vec::new();
    let mut i: usize = 0;
    while i < imp.new_agents.len()
        invariant
            i <= imp.new_agents@.len(),
            create@.len() == i,
            forall|k: int| 0 <= k < i ==> creates(imp@.new_agents[k], #[trigger] create@[k]),
        decreases imp.new_agents.len() - i,
    {
        let na = &imp.new_agents[i];
        create.push(
            NewAgent {
                name: na.proposal.name.clone(),
                description: na.proposal.description.clone(),
                system_prompt: na.edited_system_prompt.clone(),
                allowed_tools: copy_list(&na.proposal.allowed_tools),
            },
        );
        i += 1;
    }
    ApprovalPlan { edit, create }
}

// ---------------------------------------------------------------------------
// Reporting the approval
// ---------------------------------------------------------------------------

/// How the edit of a profile ended.
pub enum EditOutcome {
    /// No known directory holds the profile.
    NotFound,
    /// The profile's file was found but could not be loaded.
    Unloadable { dir: String },
    /// The profile was written.
    Updated { dir: String },
    /// Writing the profile failed.
    Failed { error: String },
}

/// How the edit of a profile ended: `dir` is the directory that holds the
/// profile, where one does; `loaded` whether the profile could be loaded; and
/// `written` what writing it gave, which counts only for a loaded one.
pub fn edit_outcome(dir: Option<String>, loaded: bool, written: Result<(), String>) -> (r:
    EditOutcome)
    ensures
        match dir {
            None => r is NotFound,
            Some(d) => if !loaded {
                r == (EditOutcome::Unloadable { dir: d })
            } else {
                match written {
                    Ok(_) => r == (EditOutcome::Updated { dir: d }),
                    Err(error) => r == (EditOutcome::Failed { error }),
                }
            },
        },
{
    match dir {
        None => EditOutcome::NotFound,
        Some(dir) => if !loaded {
            EditOutcome::Unloadable { dir }
        } else {
            match written {
                Ok(_) => EditOutcome::Updated { dir },
                Err(error) => EditOutcome::Failed { error },
            }
        },
    }
}

/// What is reported of a successful edit.
pub open spec fn edit_part(imp: PendingView, outcome: EditOutcome) -> Seq<Seq<char>> {
    match outcome {
        EditOutcome::Updated { dir } if imp.edits_profile() => seq![
            "updated "@ + join(imp.applied_parts(), ", "@) + " for '"@ + imp.agent_name + "' in "@
                + dir@,
        ],
        _ => Seq::empty(),
    }
}

/// What is reported of an edit that failed.
pub open spec fn edit_error(
    imp: PendingView,
    outcome: EditOutcome,
    dirs: Seq<Seq<char>>,
) -> Seq<Seq<char>> {
    if !imp.edits_profile() {
        Seq::empty()
    } else {
        match outcome {
            EditOutcome::NotFound => seq![
                "profile '"@ + imp.agent_name + "' not found in any agents directory ("@ + join(
                    dirs,
                    ", "@,
                )
                    + "); the profile may have been deleted or it has no backing file — nothing was written"@,
            ],
            EditOutcome::Unloadable { dir } => seq![
                "agent '"@ + imp.agent_name + "': profile file found in "@ + dir@
                    + " but could not be loaded"@,
            ],
            EditOutcome::Updated { dir } => Seq::empty(),
            EditOutcome::Failed { error } => seq![
                "failed to update '"@ + imp.agent_name + "': "@ + error@,
            ],
        }
    }
}

/// What is reported of the first `n` agents that were created.
pub open spec fn created_parts(
    agents: Seq<PendingAgentView>,
    outcomes: Seq<Result<(), String>>,
    n: int,
) -> Seq<Seq<char>>
    decreases n,
{
    if n <= 0 {
        Seq::empty()
    } else {
        let before = created_parts(agents, outcomes, n - 1);
        match outcomes[n - 1] {
            Ok(_) => before.push("created new agent '"@ + agents[n - 1].proposal.name + "'"@),
            Err(_) => before,
        }
    }
}

/// What is reported of the first `n` agents that could not be created.
pub open spec fn create_errors(
    agents: Seq<PendingAgentView>,
    outcomes: Seq<Result<(), String>>,
    n: int,
) -> Seq<Seq<char>>
    decreases n,
{
    if n <= 0 {
        Seq::empty()
    } else {
        let before = create_errors(agents, outcomes, n - 1);
        match outcomes[n - 1] {
            Ok(_) => before,
            Err(e) => before.push(
                "failed to create agent '"@ + agents[n - 1].proposal.name + "': "@ + e@,
            ),
        }
    }
}

/// The message of an approval: what was done, then what failed.
pub open spec fn approval_message(parts: Seq<Seq<char>>, errors: Seq<Seq<char>>) -> Seq<char> {
    if parts.len() == 0 && errors.len() == 0 {
        "No changes to apply."@
    } else if errors.len() == 0 {
        join(parts, "; "@)
    } else if join(parts, "; "@).len() == 0 {
        join(errors, "; "@)
    } else {
        join(parts, "; "@) + "; "@ + join(errors, "; "@)
    }
}

/// Report an approval. `edit` is how the edit of the profile ended (it counts
/// where the approval edits the profile), `created` how each proposed agent's
/// creation ended, `dirs` the searched directories. Returns the message and
/// whether a prompt change of the existing profile was written.
pub fn apply_improvement_detailed(
    dirs: &Vec<String>,
    edit: &EditOutcome,
    created: &Vec<Result<(), String>>,
    imp: &PendingImprovement,
) -> (r: (String, bool))
    requires
        created@.len() == imp@.new_agents.len(),
    ensures
        r.0@ == approval_message(
            edit_part(imp@, *edit) + created_parts(
                imp@.new_agents,
                created@,
                created@.len() as int,
            ),
            edit_error(imp@, *edit, texts(dirs@)) + create_errors(
                imp@.new_agents,
                created@,
                created@.len() as int,
            ),
        ),
        r.1 == (edit is Updated && imp@.approved_prompt() is Some),
{
    let mut parts: Vec<String> = Vec::new();
    let mut errors: Vec<String> = Vec::new();
    let mut prompt_applied = false;
    if imp.edits_profile() {
        match edit {
            EditOutcome::NotFound => {
                let mut m = "profile '".to_owned();
                m.append(imp.agent_name.as_str());
                m.append("' not found in any agents directory (");
                m.append(joined(dirs, ", ").as_str());
                m.append(
                    "); the profile may have been deleted or it has no backing file — nothing was written",
                );
                errors.push(m);
            },
            EditOutcome::Unloadable { dir } => {
                let mut m = "agent '".to_owned();
                m.append(imp.agent_name.as_str());
                m.append("': profile file found in ");
                m.append(dir.as_str());
                m.append(" but could not be loaded");
                errors.push(m);
            },
            EditOutcome::Updated { dir } => {
                prompt_applied = imp.apply_prompt && imp.final_prompt().is_some();
                let mut m = "updated ".to_owned();
                m.append(joined(&imp.applied_part_names(), ", ").as_str());
                m.append(" for '");
                m.append(imp.agent_name.as_str());
                m.append("' in ");
                m.append(dir.as_str());
                parts.push(m);
            },
            EditOutcome::Failed { error } => {
                let mut m = "failed to update '".to_owned();
                m.append(imp.agent_name.as_str());
                m.append("': ");
                m.append(error.as_str());
                errors.push(m);
            },
        }
    }
    let ghost part = edit_part(imp@, *edit);
    let ghost error = edit_error(imp@, *edit, texts(dirs@));
    let ghost agents = imp@.new_agents;
    assert(texts(parts@) =~= part + created_parts(agents, created@, 0));
    assert(texts(errors@) =~= error + create_errors(agents, created@, 0));
    let mut i: usize = 0;
    while i < imp.new_agents.len()
        invariant
            i <= imp.new_agents@.len(),
            agents == pending_agent_views(imp.new_agents@),
            created@.len() == imp.new_agents@.len(),
            texts(parts@) == part + created_parts(agents, created@, i as int),
            texts(errors@) == error + create_errors(agents, created@, i as int),
        decreases imp.new_agents.len() - i,
    {
        let ghost old_parts = texts(parts@);
        let ghost old_errors = texts(errors@);
        match &created[i] {
            Ok(_) => {
                let mut m = "created new agent '".to_owned();
                m.append(imp.new_agents[i].proposal.name.as_str());
                m.append("'");
                parts.push(m);
                assert(texts(parts@) =~= old_parts.push(m@));
                assert(texts(parts@) =~= part + created_parts(agents, created@, i + 1));
            },
            Err(e) => {
                let mut m = "failed to create agent '".to_owned();
                m.append(imp.new_agents[i].proposal.name.as_str());
                m.append("': ");
                m.append(e.as_str());
                errors.push(m);
                assert(texts(errors@) =~= old_errors.push(m@));
                assert(texts(errors@) =~= error + create_errors(agents, created@, i + 1));
            },
        }
        i += 1;
    }
    assert(texts(parts@).len() == parts@.len());
    assert(texts(errors@).len() == errors@.len());
    let message = if parts.len() == 0 && errors.len() == 0 {
        "No changes to apply.".to_owned()
    } else {
        let mut m = joined(&parts, "; ");
        if errors.len() > 0 {
            if !m.as_str().is_empty() {
                m.append("; ");
                m.append(joined(&errors, "; ").as_str());
            } else {
                m = joined(&errors, "; ");
            }
        }
        m
    };
    (message, prompt_applied)
}

// ---------------------------------------------------------------------------
// What the memory keeps
// ---------------------------------------------------------------------------

/// The lesson that a rejected suggestion leaves.
pub open spec fn rejection(imp: PendingView) -> MemoryView {
    MemoryView {
        kind: MemoryType::Lesson,
        content: "Improvement for '"@ + imp.agent_name + "' rejected by the user: "@ + imp.rationale
            + " — do not re-suggest the same change."@,
        source: "improvement-review"@,
        tags: seq!["improvement-rejected"@, "agent:"@ + imp.agent_name],
    }
}

/// The lesson entry recording that the user rejected `imp`.
pub fn rejection_lesson(imp: &PendingImprovement) -> (r: MemoryEntry)
    ensures
        r@ == rejection(imp@),
{
    let mut content = "Improvement for '".to_owned();
    content.append(imp.agent_name.as_str());
    content.append("' rejected by the user: ");
    content.append(imp.rationale.as_str());
    content.append(" — do not re-suggest the same change.");
    MemoryEntry::about_agent(
        MemoryType::Lesson,
        content,
        "improvement-review",
        "improvement-rejected",
        imp.agent_name.as_str(),
    )
}

/// The marker that an approved prompt change leaves on a day. It is a fact,
/// not a lesson.
pub open spec fn marker(imp: PendingView, date: Seq<char>) -> MemoryView {
    let prompt = match imp.final_prompt() {
        Some(p) => p,
        None => Seq::empty(),
    };
    MemoryView {
        kind: MemoryType::Fact,
        content: "Prompt for agent '"@ + imp.agent_name
            + "' changed via approved improvement on "@ + date + " (applied prompt starts: '"@
            + first_chars(prompt, 80) + "')"@,
        source: "improvement-review"@,
        tags: seq!["improvement-applied"@, "agent:"@ + imp.agent_name],
    }
}

/// The marker entry of an approval on the given day.
pub fn applied_marker_on(imp: &PendingImprovement, date: &str) -> (r: MemoryEntry)
    ensures
        r@ == marker(imp@, date@),
{
    let excerpt = match imp.final_prompt() {
        Some(p) => take_chars(p.as_str(), 80),
        None => {
            let empty = String::new();
            assert(empty@ =~= Seq::<char>::empty());
            empty
        },
    };
    let mut content = "Prompt for agent '".to_owned();
    content.append(imp.agent_name.as_str());
    content.append("' changed via approved improvement on ");
    content.append(date);
    content.append(" (applied prompt starts: '");
    content.append(excerpt.as_str());
    content.append("')");
    MemoryEntry::about_agent(
        MemoryType::Fact,
        content,
        "improvement-review",
        "improvement-applied",
        imp.agent_name.as_str(),
    )
}

/// Whether a text is a day of the clock, in UTC.
pub open spec fn is_a_day(text: Seq<char>) -> bool {
    by_the_clock(text, "%Y-%m-%d"@)
}

/// The marker entry recording that the user approved a prompt change for
/// `imp`'s agent today.
pub fn applied_marker(imp: &PendingImprovement) -> (r: MemoryEntry)
    ensures
        exists|date: Seq<char>| is_a_day(date) && r@ == #[trigger] marker(imp@, date),
{
    let date = format_now("%Y-%m-%d");
    assert(is_a_day(date@));
    applied_marker_on(imp, date.as_str())
}

// ---------------------------------------------------------------------------
// Laws
// ---------------------------------------------------------------------------

/// With every toggle off and no agent to create, an approval changes nothing
/// and says so.
pub proof fn toggles_off_is_a_noop(
    imp: PendingView,
    config: AgentView,
    outcome: EditOutcome,
    dirs: Seq<Seq<char>>,
    created: Seq<Result<(), String>>,
)
    requires
        !imp.apply_prompt,
        !imp.apply_allowed_tools,
        !imp.apply_reasoning_effort,
        !imp.apply_shell_config,
        !imp.apply_handoff_targets,
        !imp.apply_task_timeout,
        imp.new_agents.len() == 0,
        created.len() == 0,
    ensures
        !imp.edits_profile(),
        imp.edited(config) == config,
        approval_message(
            edit_part(imp, outcome) + created_parts(imp.new_agents, created, 0),
            edit_error(imp, outcome, dirs) + create_errors(imp.new_agents, created, 0),
        ) == "No changes to apply."@,
{
}

/// An approval leaves every part of the profile alone whose toggle is off or
/// that the suggestion does not propose to change; name, description, enabled
/// flag and all other settings stay as they were.
pub proof fn untoggled_fields_stay(imp: PendingView, config: AgentView)
    ensures
        imp.approved_prompt() is None ==> imp.edited(config).system_prompt == config.system_prompt,
        imp.approved_tools() is None ==> imp.edited(config).allowed_tools == config.allowed_tools,
        imp.approved_reasoning() is None ==> imp.edited(config).reasoning_effort
            == config.reasoning_effort,
        imp.approved_shell() is None ==> imp.edited(config).shell_config == config.shell_config,
        imp.approved_handoff() is None ==> imp.edited(config).handoff_targets
            == config.handoff_targets,
        imp.approved_timeout() is None ==> imp.edited(config).task_timeout_ms
            == config.task_timeout_ms,
        imp.edited(config).name == config.name,
        imp.edited(config).description == config.description,
        imp.edited(config).enabled == config.enabled,
        imp.edited(config).custom_prompts == config.custom_prompts,
        imp.edited(config).trim_config == config.trim_config,
        imp.edited(config).handoff_enabled == config.handoff_enabled,
        imp.edited(config).restart_enabled == config.restart_enabled,
{
}

/// What the user edited wins over the proposed prompt; without an edit the
/// proposed prompt is applied.
pub proof fn edited_prompt_wins(imp: PendingView, config: AgentView)
    requires
        imp.apply_prompt,
    ensures
        imp.edited_prompt matches Some(p) ==> imp.edited(config).system_prompt == p,
        imp.edited_prompt is None ==> (imp.prompt_change matches Some(p) ==> imp.edited(
            config,
        ).system_prompt == p),
{
}

/// Approving twice gives the same profile as approving once.
pub proof fn approving_again_changes_nothing(imp: PendingView, config: AgentView)
    ensures
        imp.edited(imp.edited(config)) == imp.edited(config),
{
}

} // verus!

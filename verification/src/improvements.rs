//! The review panel for self-improvement suggestions.
//!
//! Suggestions arrive in batches and wait for the user's decision. Approving
//! one edits the agent's profile where it lives and creates the agents it
//! proposes; dismissing one leaves a lesson behind.

use vstd::prelude::*;

use crate::text::{copy_list, copy_opt, opt_text, same_text, texts};
use crate::types::{
    copy_opt_list, copy_opt_shell, opt_shell, opt_texts, ReasoningEffort, ShellConfig, ShellView,
};

verus! {

// ---------------------------------------------------------------------------
// Suggestions
// ---------------------------------------------------------------------------

/// An agent that a suggestion proposes to create.
pub struct NewAgentProposal {
    pub name: String,
    pub description: String,
    pub system_prompt: String,
    pub allowed_tools: Vec<String>,
}

/// What a proposal holds.
#[verifier::ext_equal]
pub struct ProposalView {
    pub name: Seq<char>,
    pub description: Seq<char>,
    pub system_prompt: Seq<char>,
    pub allowed_tools: Seq<Seq<char>>,
}

impl View for NewAgentProposal {
    type V = ProposalView;

    open spec fn view(&self) -> ProposalView {
        ProposalView {
            name: self.name@,
            description: self.description@,
            system_prompt: self.system_prompt@,
            allowed_tools: texts(self.allowed_tools@),
        }
    }
}

/// What the proposals of a list hold.
pub open spec fn proposal_views(v: Seq<NewAgentProposal>) -> Seq<ProposalView> {
    Seq::new(v.len(), |i: int| v[i]@)
}

/// A suggestion as the improver makes it.
pub struct ImprovementSuggestion {
    pub agent_name: String,
    pub prompt_change: Option<String>,
    pub rationale: String,
    pub new_agents: Vec<NewAgentProposal>,
    pub allowed_tools: Option<Vec<String>>,
    pub reasoning_effort: Option<ReasoningEffort>,
    pub shell_config: Option<ShellConfig>,
    pub handoff_targets: Option<Vec<String>>,
    pub task_timeout_ms: Option<u64>,
    pub evidence: Vec<String>,
}

/// What a suggestion holds.
#[verifier::ext_equal]
pub struct SuggestionView {
    pub agent_name: Seq<char>,
    pub prompt_change: Option<Seq<char>>,
    pub rationale: Seq<char>,
    pub new_agents: Seq<ProposalView>,
    pub allowed_tools: Option<Seq<Seq<char>>>,
    pub reasoning_effort: Option<ReasoningEffort>,
    pub shell_config: Option<ShellView>,
    pub handoff_targets: Option<Seq<Seq<char>>>,
    pub task_timeout_ms: Option<u64>,
    pub evidence: Seq<Seq<char>>,
}

impl View for ImprovementSuggestion {
    type V = SuggestionView;

    open spec fn view(&self) -> SuggestionView {
        SuggestionView {
            agent_name: self.agent_name@,
            prompt_change: opt_text(self.prompt_change),
            rationale: self.rationale@,
            new_agents: proposal_views(self.new_agents@),
            allowed_tools: opt_texts(self.allowed_tools),
            reasoning_effort: self.reasoning_effort,
            shell_config: opt_shell(self.shell_config),
            handoff_targets: opt_texts(self.handoff_targets),
            task_timeout_ms: self.task_timeout_ms,
            evidence: texts(self.evidence@),
        }
    }
}

/// What the suggestions of a batch hold.
pub open spec fn suggestion_views(v: Seq<ImprovementSuggestion>) -> Seq<SuggestionView> {
    Seq::new(v.len(), |i: int| v[i]@)
}

/// One new-agent proposal bundled with an improvement suggestion.
pub struct PendingNewAgent {
    pub proposal: NewAgentProposal,
    /// The user's edited copy of the proposed system prompt; it is what an
    /// approval uses.
    pub edited_system_prompt: String,
}

/// What a pending proposal holds.
#[verifier::ext_equal]
pub struct PendingAgentView {
    pub proposal: ProposalView,
    pub edited_system_prompt: Seq<char>,
}

impl View for PendingNewAgent {
    type V = PendingAgentView;

    open spec fn view(&self) -> PendingAgentView {
        PendingAgentView {
            proposal: self.proposal@,
            edited_system_prompt: self.edited_system_prompt@,
        }
    }
}

/// What the pending proposals of a list hold.
pub open spec fn pending_agent_views(v: Seq<PendingNewAgent>) -> Seq<PendingAgentView> {
    Seq::new(v.len(), |i: int| v[i]@)
}

/// A pending suggestion in the review panel.
pub struct PendingImprovement {
    pub agent_name: String,
    /// Suggested replacement system prompt (if any).
    pub prompt_change: Option<String>,
    /// The user's edited copy of the proposed prompt; an approval prefers it
    /// over `prompt_change`, so panel edits are not lost.
    pub edited_prompt: Option<String>,
    /// Why the improver is proposing this.
    pub rationale: String,
    /// New agents bundled with this suggestion.
    pub new_agents: Vec<PendingNewAgent>,
    /// Whether the next click on the Revert button reverts.
    pub revert_armed: bool,
    /// Proposed profile-field changes (None = left alone).
    pub allowed_tools: Option<Vec<String>>,
    pub reasoning_effort: Option<ReasoningEffort>,
    pub shell_config: Option<ShellConfig>,
    pub handoff_targets: Option<Vec<String>>,
    pub task_timeout_ms: Option<u64>,
    /// Per-field approve toggles.
    pub apply_prompt: bool,
    pub apply_allowed_tools: bool,
    pub apply_reasoning_effort: bool,
    pub apply_shell_config: bool,
    pub apply_handoff_targets: bool,
    pub apply_task_timeout: bool,
    /// The evidence that the improver saw.
    pub evidence: Vec<String>,
}

/// What a pending suggestion holds.
#[verifier::ext_equal]
pub struct PendingView {
    pub agent_name: Seq<char>,
    pub prompt_change: Option<Seq<char>>,
    pub edited_prompt: Option<Seq<char>>,
    pub rationale: Seq<char>,
    pub new_agents: Seq<PendingAgentView>,
    pub revert_armed: bool,
    pub allowed_tools: Option<Seq<Seq<char>>>,
    pub reasoning_effort: Option<ReasoningEffort>,
    pub shell_config: Option<ShellView>,
    pub handoff_targets: Option<Seq<Seq<char>>>,
    pub task_timeout_ms: Option<u64>,
    pub apply_prompt: bool,
    pub apply_allowed_tools: bool,
    pub apply_reasoning_effort: bool,
    pub apply_shell_config: bool,
    pub apply_handoff_targets: bool,
    pub apply_task_timeout: bool,
    pub evidence: Seq<Seq<char>>,
}

impl View for PendingImprovement {
    type V = PendingView;

    open spec fn view(&self) -> PendingView {
        PendingView {
            agent_name: self.agent_name@,
            prompt_change: opt_text(self.prompt_change),
            edited_prompt: opt_text(self.edited_prompt),
            rationale: self.rationale@,
            new_agents: pending_agent_views(self.new_agents@),
            revert_armed: self.revert_armed,
            allowed_tools: opt_texts(self.allowed_tools),
            reasoning_effort: self.reasoning_effort,
            shell_config: opt_shell(self.shell_config),
            handoff_targets: opt_texts(self.handoff_targets),
            task_timeout_ms: self.task_timeout_ms,
            apply_prompt: self.apply_prompt,
            apply_allowed_tools: self.apply_allowed_tools,
            apply_reasoning_effort: self.apply_reasoning_effort,
            apply_shell_config: self.apply_shell_config,
            apply_handoff_targets: self.apply_handoff_targets,
            apply_task_timeout: self.apply_task_timeout,
            evidence: texts(self.evidence@),
        }
    }
}

/// What the pending suggestions of a list hold.
pub open spec fn pending_views(v: Seq<PendingImprovement>) -> Seq<PendingView> {
    Seq::new(v.len(), |i: int| v[i]@)
}

/// The pending proposals of a suggestion, each with the proposed prompt to
/// edit.
pub open spec fn fresh_agents(v: Seq<ProposalView>) -> Seq<PendingAgentView> {
    Seq::new(
        v.len(),
        |i: int|
            PendingAgentView { proposal: v[i], edited_system_prompt: v[i].system_prompt },
    )
}

impl SuggestionView {
    /// The pending entry of a new suggestion: the proposed prompt to edit, and
    /// every change to be applied.
    pub open spec fn fresh(self) -> PendingView {
        PendingView {
            agent_name: self.agent_name,
            prompt_change: self.prompt_change,
            edited_prompt: self.prompt_change,
            rationale: self.rationale,
            new_agents: fresh_agents(self.new_agents),
            revert_armed: false,
            allowed_tools: self.allowed_tools,
            reasoning_effort: self.reasoning_effort,
            shell_config: self.shell_config,
            handoff_targets: self.handoff_targets,
            task_timeout_ms: self.task_timeout_ms,
            apply_prompt: true,
            apply_allowed_tools: true,
            apply_reasoning_effort: true,
            apply_shell_config: true,
            apply_handoff_targets: true,
            apply_task_timeout: true,
            evidence: self.evidence,
        }
    }

    /// The pending entry `p` refreshed by this suggestion: everything but the
    /// user's toggles is replaced.
    pub open spec fn refresh(self, p: PendingView) -> PendingView {
        PendingView {
            apply_prompt: p.apply_prompt,
            apply_allowed_tools: p.apply_allowed_tools,
            apply_reasoning_effort: p.apply_reasoning_effort,
            apply_shell_config: p.apply_shell_config,
            apply_handoff_targets: p.apply_handoff_targets,
            apply_task_timeout: p.apply_task_timeout,
            agent_name: p.agent_name,
            ..self.fresh()
        }
    }

    /// Whether the suggestion repeats the pending entry `p`.
    pub open spec fn repeats(self, p: PendingView) -> bool {
        p.agent_name == self.agent_name && p.rationale == self.rationale
    }
}

/// The position of the first entry, from `from` on, that the suggestion
/// repeats.
pub open spec fn repeated(pending: Seq<PendingView>, s: SuggestionView, from: int) -> Option<int>
    decreases pending.len() - from,
{
    if from < 0 || from >= pending.len() {
        None
    } else if s.repeats(pending[from]) {
        Some(from)
    } else {
        repeated(pending, s, from + 1)
    }
}

/// The list after one suggestion: a repeated one refreshes its entry in
/// place, another one is appended.
pub open spec fn merge_one(pending: Seq<PendingView>, s: SuggestionView) -> Seq<PendingView> {
    match repeated(pending, s, 0) {
        Some(k) => pending.update(k, s.refresh(pending[k])),
        None => pending.push(s.fresh()),
    }
}

/// The list after a batch of suggestions.
pub open spec fn merged(pending: Seq<PendingView>, batch: Seq<SuggestionView>) -> Seq<PendingView>
    decreases batch.len(),
{
    if batch.len() == 0 {
        pending
    } else {
        merge_one(merged(pending, batch.drop_last()), batch.last())
    }
}

fn copy_proposal(p: &NewAgentProposal) -> (r: NewAgentProposal)
    ensures
        r@ == p@,
{
    NewAgentProposal {
        name: p.name.clone(),
        description: p.description.clone(),
        system_prompt: p.system_prompt.clone(),
        allowed_tools: copy_list(&p.allowed_tools),
    }
}

fn fresh_new_agents(v: &Vec<NewAgentProposal>) -> (r: Vec<PendingNewAgent>)
    ensures
        pending_agent_views(r@) == fresh_agents(proposal_views(v@)),
{
    let mut r: Vec<PendingNewAgent> = Vec::new();
    let mut i: usize = 0;
    while i < v.len()
        invariant
            i <= v@.len(),
            r@.len() == i,
            forall|k: int|
                0 <= k < i ==> (#[trigger] r@[k])@ == (PendingAgentView {
                    proposal: v@[k]@,
                    edited_system_prompt: v@[k]@.system_prompt,
                }),
        decreases v.len() - i,
    {
        r.push(
            PendingNewAgent {
                proposal: copy_proposal(&v[i]),
                edited_system_prompt: v[i].system_prompt.clone(),
            },
        );
        i += 1;
    }
    assert(pending_agent_views(r@) =~= fresh_agents(proposal_views(v@)));
    r
}

impl PendingImprovement {
    /// The pending entry of a new suggestion.
    pub fn from_suggestion(s: &ImprovementSuggestion) -> (r: PendingImprovement)
        ensures
            r@ == s@.fresh(),
    {
        PendingImprovement {
            agent_name: s.agent_name.clone(),
            prompt_change: copy_opt(&s.prompt_change),
            edited_prompt: copy_opt(&s.prompt_change),
            rationale: s.rationale.clone(),
            new_agents: fresh_new_agents(&s.new_agents),
            revert_armed: false,
            allowed_tools: copy_opt_list(&s.allowed_tools),
            reasoning_effort: s.reasoning_effort,
            shell_config: copy_opt_shell(&s.shell_config),
            handoff_targets: copy_opt_list(&s.handoff_targets),
            task_timeout_ms: s.task_timeout_ms,
            apply_prompt: true,
            apply_allowed_tools: true,
            apply_reasoning_effort: true,
            apply_shell_config: true,
            apply_handoff_targets: true,
            apply_task_timeout: true,
            evidence: copy_list(&s.evidence),
        }
    }

    fn refresh(&mut self, s: &ImprovementSuggestion)
        requires
            s@.repeats(old(self)@),
        ensures
            final(self)@ == s@.refresh(old(self)@),
    {
        self.prompt_change = copy_opt(&s.prompt_change);
        self.edited_prompt = copy_opt(&s.prompt_change);
        self.new_agents = fresh_new_agents(&s.new_agents);
        self.revert_armed = false;
        self.allowed_tools = copy_opt_list(&s.allowed_tools);
        self.reasoning_effort = s.reasoning_effort;
        self.shell_config = copy_opt_shell(&s.shell_config);
        self.handoff_targets = copy_opt_list(&s.handoff_targets);
        self.task_timeout_ms = s.task_timeout_ms;
        self.evidence = copy_list(&s.evidence);
        assert(self@ =~= s@.refresh(old(self)@));
    }
}

/// Review panel state.
pub struct ImprovementsPanel {
    pub pending: Vec<PendingImprovement>,
    pub show_panel: bool,
    pub message: Option<String>,
}

/// What the panel holds.
#[verifier::ext_equal]
pub struct PanelView {
    pub pending: Seq<PendingView>,
    pub show_panel: bool,
    pub message: Option<Seq<char>>,
}

impl View for ImprovementsPanel {
    type V = PanelView;

    open spec fn view(&self) -> PanelView {
        PanelView {
            pending: pending_views(self.pending@),
            show_panel: self.show_panel,
            message: opt_text(self.message),
        }
    }
}

fn find_repeated(pending: &Vec<PendingImprovement>, s: &ImprovementSuggestion) -> (r: Option<usize>)
    ensures
        match r {
            Some(k) => repeated(pending_views(pending@), s@, 0) == Some(k as int) && k
                < pending@.len() && s@.repeats(pending@[k as int]@),
            None => repeated(pending_views(pending@), s@, 0) is None,
        },
{
    let mut i: usize = 0;
    while i < pending.len()
        invariant
            i <= pending@.len(),
            repeated(pending_views(pending@), s@, 0) == repeated(
                pending_views(pending@),
                s@,
                i as int,
            ),
        decreases pending.len() - i,
    {
        if same_text(pending[i].agent_name.as_str(), s.agent_name.as_str()) && same_text(
            pending[i].rationale.as_str(),
            s.rationale.as_str(),
        ) {
            return Some(i);
        }
        i += 1;
    }
    None
}

impl ImprovementsPanel {
    /// An empty panel that is not shown.
    pub fn new() -> (r: Self)
        ensures
            r@ == (PanelView { pending: Seq::empty(), show_panel: false, message: None }),
    {
        let r = ImprovementsPanel { pending: Vec::new(), show_panel: false, message: None };
        assert(r@.pending =~= Seq::empty());
        r
    }

    /// Take in a batch of suggestions for review. A new batch does not drop
    /// unreviewed entries; a suggestion with the agent and the rationale of an
    /// entry refreshes that entry in place and keeps the user's toggles.
    pub fn handle_improvement_suggested(
        &mut self,
        agent_name: &str,
        suggestions: Vec<ImprovementSuggestion>,
    )
        ensures
            final(self)@ == (PanelView {
                pending: merged(old(self)@.pending, suggestion_views(suggestions@)),
                show_panel: true,
                ..old(self)@
            }),
    {
        let ghost batch = suggestion_views(suggestions@);
        let ghost start = pending_views(self.pending@);
        let mut i: usize = 0;
        assert(batch.take(0) =~= Seq::empty());
        while i < suggestions.len()
            invariant
                i <= suggestions@.len(),
                batch == suggestion_views(suggestions@),
                pending_views(self.pending@) == merged(start, batch.take(i as int)),
                self.show_panel == old(self).show_panel,
                self.message == old(self).message,
            decreases suggestions.len() - i,
        {
            let s = &suggestions[i];
            let ghost before = pending_views(self.pending@);
            assert(batch.take(i + 1).drop_last() =~= batch.take(i as int));
            match find_repeated(&self.pending, s) {
                Some(k) => {
                    self.pending[k].refresh(s);
                    assert(pending_views(self.pending@) =~= before.update(
                        k as int,
                        s@.refresh(before[k as int]),
                    ));
                },
                None => {
                    self.pending.push(PendingImprovement::from_suggestion(s));
                    assert(pending_views(self.pending@) =~= before.push(s@.fresh()));
                },
            }
            i += 1;
        }
        assert(batch.take(batch.len() as int) =~= batch);
        self.show_panel = true;
    }
}

} // verus!

//! What reviewing a suggested improvement does: what is suggested, what an approval
//! writes and reports, and which suggestions stay.

use vstd::prelude::*;

use crate::approvals::{
    approval_message, create_errors, created_parts, creates, edit_error, edit_part, marker, named,
    rejection, EditOutcome, NewAgent,
};
use crate::improvements::{
    merge_one, merged, repeated, PanelView, PendingAgentView, PendingView, SuggestionView,
};
use crate::numbers::decimal;
use crate::pieces::join;
use crate::review::{
    after_approval, after_approvals, after_dismissal, after_dismissals, after_frame, after_revert,
    after_reverts, frame_marked, removal_keeps_the_unmarked, revertible, toggle_labels, unmarked,
    unmarked_entries, ApproveResult, DismissResult, Marked, RevertOutcome, RevertResult,
};
use crate::text::texts;
use crate::types::{AgentView, MemoryType, ReasoningEffort};

verus! {

// ---------------------------------------------------------------------------
// Suggestions
// ---------------------------------------------------------------------------

/// Whether a pending entry holds what was suggested.
pub open spec fn holds_suggestion(p: PendingView, s: SuggestionView) -> bool {
    &&& p.agent_name == s.agent_name
    &&& p.rationale == s.rationale
    &&& p.prompt_change == s.prompt_change
    &&& p.edited_prompt == s.prompt_change
    &&& p.allowed_tools == s.allowed_tools
    &&& p.reasoning_effort == s.reasoning_effort
    &&& p.shell_config == s.shell_config
    &&& p.handoff_targets == s.handoff_targets
    &&& p.task_timeout_ms == s.task_timeout_ms
    &&& p.evidence == s.evidence
    &&& !p.revert_armed
    &&& p.new_agents.len() == s.new_agents.len()
    &&& forall|i: int|
        0 <= i < s.new_agents.len() ==> (#[trigger] p.new_agents[i]) == (PendingAgentView {
            proposal: s.new_agents[i],
            edited_system_prompt: s.new_agents[i].system_prompt,
        })
}

/// A suggestion that is not pending yet, by its agent and its rationale, is added
/// behind the others with every change switched on.
pub proof fn a_new_suggestion_is_added(pending: Seq<PendingView>, s: SuggestionView)
    requires
        forall|i: int|
            0 <= i < pending.len() ==> !((#[trigger] pending[i]).agent_name == s.agent_name
                && pending[i].rationale == s.rationale),
    ensures
        ({
            let after = merge_one(pending, s);
            let p = after[pending.len() as int];
            &&& after.len() == pending.len() + 1
            &&& after.take(pending.len() as int) == pending
            &&& holds_suggestion(p, s)
            &&& p.apply_prompt && p.apply_allowed_tools && p.apply_reasoning_effort
            &&& p.apply_shell_config && p.apply_handoff_targets && p.apply_task_timeout
        }),
{
    lemma_not_repeated(pending, s, 0);
}

proof fn lemma_not_repeated(pending: Seq<PendingView>, s: SuggestionView, from: int)
    requires
        0 <= from <= pending.len(),
        forall|i: int|
            from <= i < pending.len() ==> !((#[trigger] pending[i]).agent_name == s.agent_name
                && pending[i].rationale == s.rationale),
    ensures
        repeated(pending, s, from) is None,
    decreases pending.len() - from,
{
    if from < pending.len() {
        assert(!(pending[from].agent_name == s.agent_name && pending[from].rationale
            == s.rationale));
        lemma_not_repeated(pending, s, from + 1);
    }
}

proof fn lemma_first_repeated(pending: Seq<PendingView>, s: SuggestionView, from: int, k: int)
    requires
        0 <= from <= k < pending.len(),
        pending[k].agent_name == s.agent_name,
        pending[k].rationale == s.rationale,
        forall|i: int|
            from <= i < k ==> !((#[trigger] pending[i]).agent_name == s.agent_name
                && pending[i].rationale == s.rationale),
    ensures
        repeated(pending, s, from) == Some(k),
    decreases k - from,
{
    if from < k {
        assert(!(pending[from].agent_name == s.agent_name && pending[from].rationale
            == s.rationale));
        lemma_first_repeated(pending, s, from + 1, k);
    }
}

/// A suggestion that is pending already replaces what the entry suggests; the
/// switches stay as the user has set them, and so does every other entry.
pub proof fn a_repeated_suggestion_is_refreshed(
    pending: Seq<PendingView>,
    s: SuggestionView,
    k: int,
)
    requires
        0 <= k < pending.len(),
        pending[k].agent_name == s.agent_name,
        pending[k].rationale == s.rationale,
        forall|i: int|
            0 <= i < k ==> !((#[trigger] pending[i]).agent_name == s.agent_name
                && pending[i].rationale == s.rationale),
    ensures
        ({
            let after = merge_one(pending, s);
            let p = after[k];
            &&& after.len() == pending.len()
            &&& forall|i: int|
                0 <= i < pending.len() && i != k ==> #[trigger] after[i] == pending[i]
            &&& holds_suggestion(p, s)
            &&& p.apply_prompt == pending[k].apply_prompt
            &&& p.apply_allowed_tools == pending[k].apply_allowed_tools
            &&& p.apply_reasoning_effort == pending[k].apply_reasoning_effort
            &&& p.apply_shell_config == pending[k].apply_shell_config
            &&& p.apply_handoff_targets == pending[k].apply_handoff_targets
            &&& p.apply_task_timeout == pending[k].apply_task_timeout
        }),
{
    lemma_first_repeated(pending, s, 0, k);
}

/// A batch is taken in one suggestion after the other.
pub proof fn a_batch_is_taken_in_order(
    pending: Seq<PendingView>,
    batch: Seq<SuggestionView>,
    s: SuggestionView,
)
    ensures
        merged(pending, Seq::empty()) == pending,
        merged(pending, batch.push(s)) == merge_one(merged(pending, batch), s),
{
    assert(batch.push(s).drop_last() =~= batch);
}

// ---------------------------------------------------------------------------
// Approval
// ---------------------------------------------------------------------------

/// An approved profile has each change that is switched on and suggested, and keeps
/// everything else. The prompt is the edited one where the user edited it.
pub proof fn an_approval_writes_what_is_switched_on(imp: PendingView, config: AgentView)
    ensures
        ({
            let after = imp.edited(config);
            &&& imp.apply_prompt ==> (imp.edited_prompt matches Some(p) ==> after.system_prompt
                == p)
            &&& imp.apply_prompt && imp.edited_prompt is None ==> (
            imp.prompt_change matches Some(p) ==> after.system_prompt == p)
            &&& !imp.apply_prompt || (imp.edited_prompt is None && imp.prompt_change is None)
                ==> after.system_prompt == config.system_prompt
            &&& imp.apply_allowed_tools ==> (imp.allowed_tools matches Some(x)
                ==> after.allowed_tools == x)
            &&& !imp.apply_allowed_tools || imp.allowed_tools is None ==> after.allowed_tools
                == config.allowed_tools
            &&& imp.apply_reasoning_effort ==> (imp.reasoning_effort matches Some(x)
                ==> after.reasoning_effort == x)
            &&& !imp.apply_reasoning_effort || imp.reasoning_effort is None
                ==> after.reasoning_effort == config.reasoning_effort
            &&& imp.apply_shell_config ==> (imp.shell_config matches Some(x)
                ==> after.shell_config == x)
            &&& !imp.apply_shell_config || imp.shell_config is None ==> after.shell_config
                == config.shell_config
            &&& imp.apply_handoff_targets ==> (imp.handoff_targets matches Some(x)
                ==> after.handoff_targets == x)
            &&& !imp.apply_handoff_targets || imp.handoff_targets is None ==> after.handoff_targets
                == config.handoff_targets
            &&& imp.apply_task_timeout ==> (imp.task_timeout_ms matches Some(x)
                ==> after.task_timeout_ms == x)
            &&& !imp.apply_task_timeout || imp.task_timeout_ms is None ==> after.task_timeout_ms
                == config.task_timeout_ms
            &&& after == (AgentView {
                system_prompt: after.system_prompt,
                allowed_tools: after.allowed_tools,
                reasoning_effort: after.reasoning_effort,
                shell_config: after.shell_config,
                handoff_targets: after.handoff_targets,
                task_timeout_ms: after.task_timeout_ms,
                ..config
            })
        }),
{
}

/// A profile is edited exactly if a change is both suggested and switched on; a
/// change is there exactly if one is suggested.
pub proof fn a_profile_is_edited_for_a_change(imp: PendingView)
    ensures
        imp.edits_profile() <==> {
            ||| imp.apply_prompt && (imp.edited_prompt is Some || imp.prompt_change is Some)
            ||| imp.apply_allowed_tools && imp.allowed_tools is Some
            ||| imp.apply_reasoning_effort && imp.reasoning_effort is Some
            ||| imp.apply_shell_config && imp.shell_config is Some
            ||| imp.apply_handoff_targets && imp.handoff_targets is Some
            ||| imp.apply_task_timeout && imp.task_timeout_ms is Some
        },
        imp.has_config_change() <==> {
            ||| imp.prompt_change is Some
            ||| imp.allowed_tools is Some
            ||| imp.reasoning_effort is Some
            ||| imp.shell_config is Some
            ||| imp.handoff_targets is Some
            ||| imp.task_timeout_ms is Some
        },
{
}

/// How many of the conditions hold.
pub open spec fn how_many(a: bool, b: bool) -> int {
    (if a {
        1int
    } else {
        0
    }) + if b {
        1int
    } else {
        0
    }
}

/// The report of an approval names each change that was written, and no more than
/// those; all six are named in their order.
pub proof fn a_report_names_the_changes(imp: PendingView)
    ensures
        ({
            let prompt = imp.apply_prompt && (imp.edited_prompt is Some || imp.prompt_change is Some);
            let tools = imp.apply_allowed_tools && imp.allowed_tools is Some;
            let reasoning = imp.apply_reasoning_effort && imp.reasoning_effort is Some;
            let shell = imp.apply_shell_config && imp.shell_config is Some;
            let handoff = imp.apply_handoff_targets && imp.handoff_targets is Some;
            let timeout = imp.apply_task_timeout && imp.task_timeout_ms is Some;
            let parts = imp.applied_parts();
            &&& parts.len() == how_many(prompt, tools) + how_many(reasoning, shell) + how_many(
                handoff,
                timeout,
            )
            &&& prompt ==> parts[0] == "prompt"@
            &&& tools ==> parts[how_many(prompt, false)] == "tools"@
            &&& reasoning ==> parts[how_many(prompt, tools)] == "reasoning"@
            &&& shell ==> parts[how_many(prompt, tools) + how_many(reasoning, false)] == "shell"@
            &&& handoff ==> parts[how_many(prompt, tools) + how_many(reasoning, shell)]
                == "handoff"@
            &&& timeout ==> parts[parts.len() - 1] == "timeout"@
        }),
{
    let a = named(imp.approved_prompt() is Some, "prompt"@);
    let b = a + named(imp.approved_tools() is Some, "tools"@);
    let c = b + named(imp.approved_reasoning() is Some, "reasoning"@);
    let d = c + named(imp.approved_shell() is Some, "shell"@);
    let e = d + named(imp.approved_handoff() is Some, "handoff"@);
    lemma_one_more(a, imp.approved_tools() is Some, "tools"@);
    lemma_one_more(b, imp.approved_reasoning() is Some, "reasoning"@);
    lemma_one_more(c, imp.approved_shell() is Some, "shell"@);
    lemma_one_more(d, imp.approved_handoff() is Some, "handoff"@);
    lemma_one_more(e, imp.approved_timeout() is Some, "timeout"@);
}

proof fn lemma_one_more(before: Seq<Seq<char>>, on: bool, name: Seq<char>)
    ensures
        (before + named(on, name)).len() == before.len() + how_many(on, false),
        forall|i: int|
            0 <= i < before.len() ==> #[trigger] (before + named(on, name))[i] == before[i],
        on ==> (before + named(on, name))[before.len() as int] == name,
{
}

/// A new agent is created as it was proposed, with the prompt as the user edited it.
pub proof fn a_new_agent_is_created_as_proposed(p: PendingAgentView, a: NewAgent)
    requires
        creates(p, a),
    ensures
        a.name@ == p.proposal.name,
        a.description@ == p.proposal.description,
        a.system_prompt@ == p.edited_system_prompt,
        texts(a.allowed_tools@) == p.proposal.allowed_tools,
{
}

/// What is reported of the profile: what was updated and where, or why nothing was.
pub proof fn an_edit_is_reported(imp: PendingView, outcome: EditOutcome, dirs: Seq<Seq<char>>)
    requires
        imp.edits_profile(),
    ensures
        match outcome {
            EditOutcome::Updated { dir } => {
                &&& edit_part(imp, outcome) == seq![
                    "updated "@ + join(imp.applied_parts(), ", "@) + " for '"@ + imp.agent_name
                        + "' in "@ + dir@,
                ]
                &&& edit_error(imp, outcome, dirs).len() == 0
            },
            EditOutcome::Failed { error } => {
                &&& edit_part(imp, outcome).len() == 0
                &&& edit_error(imp, outcome, dirs) == seq![
                    "failed to update '"@ + imp.agent_name + "': "@ + error@,
                ]
            },
            EditOutcome::Unloadable { dir } => {
                &&& edit_part(imp, outcome).len() == 0
                &&& edit_error(imp, outcome, dirs) == seq![
                    "agent '"@ + imp.agent_name + "': profile file found in "@ + dir@
                        + " but could not be loaded"@,
                ]
            },
            EditOutcome::NotFound => {
                &&& edit_part(imp, outcome).len() == 0
                &&& edit_error(imp, outcome, dirs) == seq![
                    "profile '"@ + imp.agent_name + "' not found in any agents directory ("@
                        + join(dirs, ", "@)
                        + "); the profile may have been deleted or it has no backing file — nothing was written"@,
                ]
            },
        },
{
}

/// Without a change to the profile nothing is reported of it.
pub proof fn no_edit_is_not_reported(imp: PendingView, outcome: EditOutcome, dirs: Seq<Seq<char>>)
    requires
        !imp.edits_profile(),
    ensures
        edit_part(imp, outcome).len() == 0,
        edit_error(imp, outcome, dirs).len() == 0,
{
}

/// Each agent that was created is reported as created, and each that was not with
/// its error, in their order.
pub proof fn every_new_agent_is_reported(
    agents: Seq<PendingAgentView>,
    outcomes: Seq<Result<(), String>>,
    n: int,
)
    requires
        0 <= n < outcomes.len(),
        outcomes.len() == agents.len(),
    ensures
        created_parts(agents, outcomes, 0).len() == 0,
        create_errors(agents, outcomes, 0).len() == 0,
        outcomes[n] is Ok ==> {
            &&& created_parts(agents, outcomes, n + 1) == created_parts(agents, outcomes, n).push(
                "created new agent '"@ + agents[n].proposal.name + "'"@,
            )
            &&& create_errors(agents, outcomes, n + 1) == create_errors(agents, outcomes, n)
        },
        outcomes[n] matches Err(e) ==> {
            &&& create_errors(agents, outcomes, n + 1) == create_errors(agents, outcomes, n).push(
                "failed to create agent '"@ + agents[n].proposal.name + "': "@ + e@,
            )
            &&& created_parts(agents, outcomes, n + 1) == created_parts(agents, outcomes, n)
        },
{
}

/// The message of an approval is what was done and then what failed; with neither,
/// that there was nothing to apply.
pub proof fn an_approvals_message_says_both(parts: Seq<Seq<char>>, errors: Seq<Seq<char>>)
    ensures
        parts.len() == 0 && errors.len() == 0 ==> approval_message(parts, errors)
            == "No changes to apply."@,
        parts.len() > 0 && errors.len() == 0 ==> approval_message(parts, errors) == join(
            parts,
            "; "@,
        ),
        parts.len() == 0 && errors.len() > 0 ==> approval_message(parts, errors) == join(
            errors,
            "; "@,
        ),
        join(parts, "; "@).len() > 0 && errors.len() > 0 ==> approval_message(parts, errors)
            == join(parts, "; "@) + "; "@ + join(errors, "; "@),
{
}

/// A rejected suggestion is remembered as a lesson with its rationale; an applied
/// prompt as a fact with its date and its beginning.
pub proof fn a_decision_is_remembered(imp: PendingView, date: Seq<char>, prompt: Seq<char>)
    ensures
        rejection(imp).kind == MemoryType::Lesson,
        rejection(imp).source == "improvement-review"@,
        rejection(imp).tags == seq!["improvement-rejected"@, "agent:"@ + imp.agent_name],
        rejection(imp).content == "Improvement for '"@ + imp.agent_name
            + "' rejected by the user: "@ + imp.rationale + " — do not re-suggest the same change."@,
        marker(imp, date).kind == MemoryType::Fact,
        marker(imp, date).source == "improvement-review"@,
        marker(imp, date).tags == seq!["improvement-applied"@, "agent:"@ + imp.agent_name],
        imp.edited_prompt == Some(prompt) && prompt.len() >= 80 ==> marker(imp, date).content
            == "Prompt for agent '"@ + imp.agent_name + "' changed via approved improvement on "@
            + date + " (applied prompt starts: '"@ + prompt.take(80) + "')"@,
        imp.edited_prompt == Some(prompt) && prompt.len() < 80 ==> marker(imp, date).content
            == "Prompt for agent '"@ + imp.agent_name + "' changed via approved improvement on "@
            + date + " (applied prompt starts: '"@ + prompt + "')"@,
{
}

// ---------------------------------------------------------------------------
// The panel
// ---------------------------------------------------------------------------

/// Each suggested change has one label that says what it is, in a fixed order.
pub proof fn each_change_has_its_label(imp: PendingView)
    ensures
        ({
            let labels = toggle_labels(imp);
            let a = how_many(imp.allowed_tools is Some, imp.reasoning_effort is Some);
            let b = how_many(imp.shell_config is Some, imp.handoff_targets is Some);
            &&& labels.len() == a + b + how_many(imp.task_timeout_ms is Some, false)
            &&& imp.allowed_tools matches Some(t) ==> labels[0]
                == "Apply tool allowlist change ("@ + decimal(t.len()) + " tools: "@ + join(
                t,
                ", "@,
            ) + ")"@
            &&& imp.reasoning_effort matches Some(e) ==> labels[how_many(
                imp.allowed_tools is Some,
                false,
            )] == "Apply reasoning effort change ("@ + (match e {
                ReasoningEffort::Off => "Off"@,
                ReasoningEffort::Low => "Low"@,
                ReasoningEffort::Medium => "Medium"@,
                ReasoningEffort::High => "High"@,
            }) + ")"@
            &&& imp.shell_config matches Some(s) ==> {
                &&& s.shell_enabled ==> labels[a] == "Apply shell config change ("@ + (
                "shell enabled, "@ + decimal(s.allowed_commands.len()) + " command pattern(s)"@)
                    + ")"@
                &&& !s.shell_enabled ==> labels[a] == "Apply shell config change ("@
                    + "shell disabled"@ + ")"@
            }
            &&& imp.handoff_targets matches Some(t) ==> labels[a + how_many(
                imp.shell_config is Some,
                false,
            )] == "Apply handoff target change ("@ + join(t, ", "@) + ")"@
            &&& imp.task_timeout_ms matches Some(ms) ==> labels[a + b]
                == "Apply task timeout change ("@ + decimal(ms as nat) + " ms)"@
        }),
{
}

/// A prompt change can be reverted where there is a snapshot to go back to.
pub proof fn what_can_be_reverted(imp: PendingView, history: nat)
    ensures
        revertible(imp, history) <==> imp.prompt_change is Some && history > 0,
{
}

/// What the panel says of an approval or a dismissal: the report of the approval, or
/// that the decision could not be remembered. The entry is marked, and no other.
pub proof fn a_decided_entry_is_marked(m: Marked, a: ApproveResult, d: DismissResult, i: int)
    requires
        a.index < m.marks.len(),
        d.index < m.marks.len(),
        0 <= i < m.marks.len(),
    ensures
        after_approval(m, a).panel.pending == m.panel.pending,
        after_approval(m, a).panel.show_panel == m.panel.show_panel,
        after_approval(m, a).marks.len() == m.marks.len(),
        after_approval(m, a).marks[i] <==> m.marks[i] || i == a.index,
        a.memory_error is None ==> after_approval(m, a).panel.message == Some(a.message@),
        a.memory_error matches Some(e) ==> after_approval(m, a).panel.message == Some(
            "approved '"@ + m.panel.pending[a.index as int].agent_name
                + "', but remembering the prompt change failed: "@ + e@,
        ),
        after_dismissal(m, d).panel.pending == m.panel.pending,
        after_dismissal(m, d).panel.show_panel == m.panel.show_panel,
        after_dismissal(m, d).marks.len() == m.marks.len(),
        after_dismissal(m, d).marks[i] <==> m.marks[i] || i == d.index,
        d.memory_error is None ==> after_dismissal(m, d).panel.message == m.panel.message,
        d.memory_error matches Some(e) ==> after_dismissal(m, d).panel.message == Some(
            "dismissed '"@ + m.panel.pending[d.index as int].agent_name
                + "', but remembering the rejection failed: "@ + e@,
        ),
{
}

/// What the panel says of a revert, and what it marks: every entry of the agent where
/// the revert was done, none where it was not; then the entry is disarmed.
pub proof fn a_revert_is_reported(m: Marked, r: RevertResult, i: int)
    requires
        m.marks.len() == m.panel.pending.len(),
        r.index < m.marks.len(),
        0 <= i < m.marks.len(),
    ensures
        ({
            let after = after_revert(m, r);
            let name = m.panel.pending[r.index as int].agent_name;
            &&& after.panel.show_panel == m.panel.show_panel
            &&& after.marks.len() == m.marks.len()
            &&& after.panel.pending.len() == m.panel.pending.len()
            &&& match r.outcome {
                RevertOutcome::Reverted { ts_label } => {
                    &&& after.panel.message == Some(
                        "reverted '"@ + name + "' to "@ + ts_label@
                            + " — pending suggestions for this agent were dropped"@,
                    )
                    &&& after.panel.pending == m.panel.pending
                    &&& after.marks[i] <==> m.marks[i] || m.panel.pending[i].agent_name == name
                },
                RevertOutcome::Failed { error } => {
                    &&& after.panel.message == Some(
                        "Error: revert of '"@ + name + "' failed: "@ + error@,
                    )
                    &&& only_disarmed(m.panel.pending, after.panel.pending, r.index as int)
                    &&& after.marks == m.marks
                },
                RevertOutcome::NoHistory => {
                    &&& after.panel.message == Some(
                        "revert of '"@ + name + "': no history snapshot available"@,
                    )
                    &&& only_disarmed(m.panel.pending, after.panel.pending, r.index as int)
                    &&& after.marks == m.marks
                },
            }
        }),
{
}

/// Whether `b` is `a` with the entry at `k` no longer asking for a confirmation.
pub open spec fn only_disarmed(a: Seq<PendingView>, b: Seq<PendingView>, k: int) -> bool {
    &&& b.len() == a.len()
    &&& b[k] == (PendingView { revert_armed: false, ..a[k] })
    &&& forall|i: int| 0 <= i < a.len() && i != k ==> #[trigger] b[i] == a[i]
}

/// Whether an entry of the panel goes at the end of a frame: it was approved or
/// dismissed, or its agent's profile was reverted.
pub open spec fn decided(
    pending: Seq<PendingView>,
    reverts: Seq<RevertResult>,
    approvals: Seq<ApproveResult>,
    dismissals: Seq<DismissResult>,
    i: int,
) -> bool {
    ||| exists|k: int| 0 <= k < approvals.len() && (#[trigger] approvals[k]).index == i
    ||| exists|k: int| 0 <= k < dismissals.len() && (#[trigger] dismissals[k]).index == i
    ||| exists|k: int|
        0 <= k < reverts.len() && (#[trigger] reverts[k]).outcome is Reverted
            && pending[reverts[k].index as int].agent_name == pending[i].agent_name
}

/// At the end of a frame exactly the undecided entries stay, in their order: each
/// entry that is left is one of them, disarmed or not, and each of them is left.
pub proof fn exactly_the_undecided_stay(
    panel: PanelView,
    reverts: Seq<RevertResult>,
    approvals: Seq<ApproveResult>,
    dismissals: Seq<DismissResult>,
)
    requires
        forall|k: int|
            0 <= k < reverts.len() ==> (#[trigger] reverts[k]).index < panel.pending.len(),
        forall|k: int|
            0 <= k < approvals.len() ==> (#[trigger] approvals[k]).index < panel.pending.len(),
        forall|k: int|
            0 <= k < dismissals.len() ==> (#[trigger] dismissals[k]).index < panel.pending.len(),
    ensures
        ({
            let after = after_frame(panel, reverts, approvals, dismissals);
            &&& after.show_panel == panel.show_panel
            &&& forall|i: int|
                0 <= i < panel.pending.len() && !decided(
                    panel.pending,
                    reverts,
                    approvals,
                    dismissals,
                    i,
                ) ==> kept(after.pending, #[trigger] panel.pending[i])
            &&& forall|j: int|
                0 <= j < after.pending.len() ==> stems(
                    panel.pending,
                    reverts,
                    approvals,
                    dismissals,
                    #[trigger] after.pending[j],
                )
        }),
{
    let n = panel.pending.len();
    let m0 = unmarked(panel);
    let m1 = after_reverts(m0, reverts, reverts.len() as int);
    let m2 = after_approvals(m1, approvals, approvals.len() as int);
    let m3 = after_dismissals(m2, dismissals, dismissals.len() as int);
    let all = m3.panel.pending;
    let after = after_frame(panel, reverts, approvals, dismissals);
    assert(m3 == frame_marked(panel, reverts, approvals, dismissals));
    lemma_reverts(panel, reverts, reverts.len() as int);
    lemma_approvals(m1, approvals, approvals.len() as int);
    lemma_dismissals(m2, dismissals, dismissals.len() as int);
    assert forall|i: int| 0 <= i < n implies m3.marks[i] == decided(
        panel.pending,
        reverts,
        approvals,
        dismissals,
        i,
    ) by {
        assert(m1.marks[i] == reverted_by(panel.pending, reverts, reverts.len() as int, i));
        assert(m2.marks[i] == (m1.marks[i] || approved_by(approvals, approvals.len() as int, i)));
        assert(m3.marks[i] == (m2.marks[i] || dismissed_by(
            dismissals,
            dismissals.len() as int,
            i,
        )));
    }
    assert forall|i: int|
        0 <= i < panel.pending.len() && !decided(
            panel.pending,
            reverts,
            approvals,
            dismissals,
            i,
        ) implies kept(after.pending, #[trigger] panel.pending[i]) by {
        assert(!m3.marks[i]);
        removal_keeps_the_unmarked(all, m3.marks, n as int, i);
        let j = choose|j: int| 0 <= j < after.pending.len() && after.pending[j] == all[i];
        assert(but_for_arming(all[i], panel.pending[i]));
        assert(but_for_arming(after.pending[j], panel.pending[i]));
    }
    assert forall|j: int| 0 <= j < after.pending.len() implies stems(
        panel.pending,
        reverts,
        approvals,
        dismissals,
        #[trigger] after.pending[j],
    ) by {
        lemma_left(all, m3.marks, n as int, j);
        let i = choose|i: int|
            0 <= i < n && !m3.marks[i] && #[trigger] all[i] == unmarked_entries(
                all,
                m3.marks,
                n as int,
            )[j];
        assert(but_for_arming(all[i], panel.pending[i]));
    }
}

/// Whether two entries are the same but for a revert that waits for confirmation.
pub open spec fn but_for_arming(a: PendingView, b: PendingView) -> bool {
    a == (PendingView { revert_armed: a.revert_armed, ..b })
}

/// Whether the entry is left, with or without a revert waiting.
pub open spec fn kept(left: Seq<PendingView>, p: PendingView) -> bool {
    exists|j: int| 0 <= j < left.len() && but_for_arming(#[trigger] left[j], p)
}

/// Whether the entry was there and is undecided.
pub open spec fn stems(
    pending: Seq<PendingView>,
    reverts: Seq<RevertResult>,
    approvals: Seq<ApproveResult>,
    dismissals: Seq<DismissResult>,
    p: PendingView,
) -> bool {
    exists|i: int|
        0 <= i < pending.len() && but_for_arming(p, #[trigger] pending[i]) && !decided(
            pending,
            reverts,
            approvals,
            dismissals,
            i,
        )
}

spec fn reverted_by(pending: Seq<PendingView>, rs: Seq<RevertResult>, n: int, i: int) -> bool {
    exists|k: int|
        0 <= k < n && (#[trigger] rs[k]).outcome is Reverted && pending[rs[k].index as int].agent_name
            == pending[i].agent_name
}

spec fn approved_by(rs: Seq<ApproveResult>, n: int, i: int) -> bool {
    exists|k: int| 0 <= k < n && (#[trigger] rs[k]).index == i
}

spec fn dismissed_by(rs: Seq<DismissResult>, n: int, i: int) -> bool {
    exists|k: int| 0 <= k < n && (#[trigger] rs[k]).index == i
}

proof fn lemma_reverts(panel: PanelView, rs: Seq<RevertResult>, n: int)
    requires
        0 <= n <= rs.len(),
        forall|k: int| 0 <= k < rs.len() ==> (#[trigger] rs[k]).index < panel.pending.len(),
    ensures
        ({
            let m = after_reverts(unmarked(panel), rs, n);
            &&& m.marks.len() == panel.pending.len()
            &&& m.panel.pending.len() == panel.pending.len()
            &&& m.panel.show_panel == panel.show_panel
            &&& forall|i: int|
                0 <= i < panel.pending.len() ==> but_for_arming(
                    #[trigger] m.panel.pending[i],
                    panel.pending[i],
                )
            &&& forall|i: int|
                0 <= i < panel.pending.len() ==> #[trigger] m.marks[i] == reverted_by(
                    panel.pending,
                    rs,
                    n,
                    i,
                )
        }),
    decreases n,
{
    if n > 0 {
        lemma_reverts(panel, rs, n - 1);
        let before = after_reverts(unmarked(panel), rs, n - 1);
        let m = after_reverts(unmarked(panel), rs, n);
        let r = rs[n - 1];
        assert(r.index < panel.pending.len());
        let k = r.index as int;
        assert(but_for_arming(before.panel.pending[k], panel.pending[k]));
        assert forall|i: int| 0 <= i < panel.pending.len() implies #[trigger] m.marks[i]
            == reverted_by(panel.pending, rs, n, i) by {
            assert(but_for_arming(before.panel.pending[i], panel.pending[i]));
            assert(before.marks[i] == reverted_by(panel.pending, rs, n - 1, i));
            if reverted_by(panel.pending, rs, n, i) {
                let q = choose|q: int|
                    0 <= q < n && (#[trigger] rs[q]).outcome is Reverted
                        && panel.pending[rs[q].index as int].agent_name
                        == panel.pending[i].agent_name;
                if q < n - 1 {
                    assert(reverted_by(panel.pending, rs, n - 1, i));
                }
            }
            if r.outcome is Reverted && panel.pending[k].agent_name == panel.pending[i].agent_name {
                assert(rs[n - 1].outcome is Reverted);
                assert(reverted_by(panel.pending, rs, n, i));
            }
        }
        assert forall|i: int| 0 <= i < panel.pending.len() implies but_for_arming(
            #[trigger] m.panel.pending[i],
            panel.pending[i],
        ) by {
            assert(but_for_arming(before.panel.pending[i], panel.pending[i]));
        }
    }
}

proof fn lemma_approvals(m: Marked, rs: Seq<ApproveResult>, n: int)
    requires
        0 <= n <= rs.len(),
        forall|k: int| 0 <= k < rs.len() ==> (#[trigger] rs[k]).index < m.marks.len(),
    ensures
        ({
            let after = after_approvals(m, rs, n);
            &&& after.marks.len() == m.marks.len()
            &&& after.panel.pending == m.panel.pending
            &&& after.panel.show_panel == m.panel.show_panel
            &&& forall|i: int|
                0 <= i < m.marks.len() ==> #[trigger] after.marks[i] == (m.marks[i] || approved_by(
                    rs,
                    n,
                    i,
                ))
        }),
    decreases n,
{
    if n > 0 {
        lemma_approvals(m, rs, n - 1);
        let before = after_approvals(m, rs, n - 1);
        let after = after_approvals(m, rs, n);
        assert(rs[n - 1].index < m.marks.len());
        assert forall|i: int| 0 <= i < m.marks.len() implies #[trigger] after.marks[i] == (
        m.marks[i] || approved_by(rs, n, i)) by {
            assert(before.marks[i] == (m.marks[i] || approved_by(rs, n - 1, i)));
            if approved_by(rs, n, i) && i != rs[n - 1].index {
                let q = choose|q: int| 0 <= q < n && (#[trigger] rs[q]).index == i;
                assert(approved_by(rs, n - 1, i));
            }
        }
    }
}

proof fn lemma_dismissals(m: Marked, rs: Seq<DismissResult>, n: int)
    requires
        0 <= n <= rs.len(),
        forall|k: int| 0 <= k < rs.len() ==> (#[trigger] rs[k]).index < m.marks.len(),
    ensures
        ({
            let after = after_dismissals(m, rs, n);
            &&& after.marks.len() == m.marks.len()
            &&& after.panel.pending == m.panel.pending
            &&& after.panel.show_panel == m.panel.show_panel
            &&& forall|i: int|
                0 <= i < m.marks.len() ==> #[trigger] after.marks[i] == (m.marks[i] || dismissed_by(
                    rs,
                    n,
                    i,
                ))
        }),
    decreases n,
{
    if n > 0 {
        lemma_dismissals(m, rs, n - 1);
        let before = after_dismissals(m, rs, n - 1);
        let after = after_dismissals(m, rs, n);
        assert(rs[n - 1].index < m.marks.len());
        assert forall|i: int| 0 <= i < m.marks.len() implies #[trigger] after.marks[i] == (
        m.marks[i] || dismissed_by(rs, n, i)) by {
            assert(before.marks[i] == (m.marks[i] || dismissed_by(rs, n - 1, i)));
            if dismissed_by(rs, n, i) && i != rs[n - 1].index {
                let q = choose|q: int| 0 <= q < n && (#[trigger] rs[q]).index == i;
                assert(dismissed_by(rs, n - 1, i));
            }
        }
    }
}

proof fn lemma_left(pending: Seq<PendingView>, marks: Seq<bool>, n: int, j: int)
    requires
        marks.len() == pending.len(),
        0 <= n <= pending.len(),
        0 <= j < unmarked_entries(pending, marks, n).len(),
    ensures
        exists|i: int|
            0 <= i < n && !marks[i] && #[trigger] pending[i] == unmarked_entries(
                pending,
                marks,
                n,
            )[j],
    decreases n,
{
    if n > 0 {
        let before = unmarked_entries(pending, marks, n - 1);
        if marks[n - 1] || j < before.len() {
            lemma_left(pending, marks, n - 1, j);
            let i = choose|i: int|
                0 <= i < n - 1 && !marks[i] && #[trigger] pending[i] == before[j];
            assert(pending[i] == unmarked_entries(pending, marks, n)[j]);
        } else {
            assert(pending[n - 1] == unmarked_entries(pending, marks, n)[j]);
        }
    }
}

} // verus!

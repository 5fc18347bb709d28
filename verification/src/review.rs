//! What the buttons of the review panel do.
//!
//! The clicks of a frame are collected, the files and the memory are worked on,
//! and what came of it is taken in here: reverts first, then approvals, then
//! dismissals, and last one removal pass over the pending list.

use vstd::prelude::*;

use crate::agent_history::{format_ts, time_label, HistoryEntry};
use crate::clock::{signed, utc_text};
use crate::improvements::{
    merged, pending_views, repeated, ImprovementsPanel, PanelView, PendingImprovement, PendingView,
    SuggestionView,
};
use crate::numbers::{count_text, decimal, decimal_text};
use crate::pieces::{join, joined};
use crate::text::{find, has_text, same_text, texts};

verus! {

// ---------------------------------------------------------------------------
// What the panel shows
// ---------------------------------------------------------------------------

/// The label of the number of pending suggestions.
pub fn pending_badge(panel: &ImprovementsPanel) -> (r: String)
    ensures
        r@ == "("@ + decimal(panel@.pending.len()) + " pending)"@,
{
    let mut r = "(".to_owned();
    r.append(count_text(panel.pending.len()).as_str());
    r.append(" pending)");
    r
}

/// Whether the panel is drawn.
pub fn panel_visible(panel: &ImprovementsPanel) -> (r: bool)
    ensures
        r == (panel@.show_panel && panel@.pending.len() > 0),
{
    panel.show_panel && panel.pending.len() > 0
}

/// Whether the panel's message reports an error.
pub fn is_error_message(message: &str) -> (r: bool)
    ensures
        r == (find(message@, "Error"@) is Some),
{
    has_text(message, "Error")
}

/// The label of the toggle of a tool list change.
pub open spec fn tools_label(tools: Seq<Seq<char>>) -> Seq<char> {
    "Apply tool allowlist change ("@ + decimal(tools.len()) + " tools: "@ + join(tools, ", "@)
        + ")"@
}

/// The label of the toggle of a shell configuration change.
pub open spec fn shell_label(enabled: bool, patterns: nat) -> Seq<char> {
    "Apply shell config change ("@ + (if enabled {
        "shell enabled, "@ + decimal(patterns) + " command pattern(s)"@
    } else {
        "shell disabled"@
    }) + ")"@
}

/// The labels of the toggles of a suggestion, in the order in which they are
/// shown: only what the suggestion proposes has one.
pub open spec fn toggle_labels(imp: PendingView) -> Seq<Seq<char>> {
    one_label(imp.allowed_tools, |t: Seq<Seq<char>>| tools_label(t)) + one_label(
        imp.reasoning_effort,
        |e: crate::types::ReasoningEffort|
            "Apply reasoning effort change ("@ + e.name_text() + ")"@,
    ) + one_label(
        imp.shell_config,
        |s: crate::types::ShellView| shell_label(s.shell_enabled, s.allowed_commands.len()),
    ) + one_label(
        imp.handoff_targets,
        |t: Seq<Seq<char>>| "Apply handoff target change ("@ + join(t, ", "@) + ")"@,
    ) + one_label(
        imp.task_timeout_ms,
        |ms: u64| "Apply task timeout change ("@ + decimal(ms as nat) + " ms)"@,
    )
}

/// The label of a proposed value, where there is one.
pub open spec fn one_label<T>(value: Option<T>, label: spec_fn(T) -> Seq<char>) -> Seq<Seq<char>> {
    match value {
        Some(x) => seq![label(x)],
        None => Seq::empty(),
    }
}

/// The labels of the toggles of a suggestion.
pub fn field_labels(imp: &PendingImprovement) -> (r: Vec<String>)
    ensures
        texts(r@) == toggle_labels(imp@),
{
    let mut r: Vec<String> = Vec::new();
    if let Some(tools) = &imp.allowed_tools {
        let mut m = "Apply tool allowlist change (".to_owned();
        m.append(count_text(tools.len()).as_str());
        m.append(" tools: ");
        m.append(joined(tools, ", ").as_str());
        m.append(")");
        assert(texts(tools@).len() == tools@.len());
        r.push(m);
    }
    if let Some(effort) = imp.reasoning_effort {
        let mut m = "Apply reasoning effort change (".to_owned();
        m.append(effort.name());
        m.append(")");
        r.push(m);
    }
    if let Some(shell) = &imp.shell_config {
        let mut m = "Apply shell config change (".to_owned();
        if shell.shell_enabled {
            let mut d = "shell enabled, ".to_owned();
            d.append(count_text(shell.allowed_commands.len()).as_str());
            d.append(" command pattern(s)");
            m.append(d.as_str());
        } else {
            m.append("shell disabled");
        }
        m.append(")");
        assert(texts(shell.allowed_commands@).len() == shell.allowed_commands@.len());
        r.push(m);
    }
    if let Some(targets) = &imp.handoff_targets {
        let mut m = "Apply handoff target change (".to_owned();
        m.append(joined(targets, ", ").as_str());
        m.append(")");
        r.push(m);
    }
    if let Some(ms) = imp.task_timeout_ms {
        let mut m = "Apply task timeout change (".to_owned();
        m.append(decimal_text(ms).as_str());
        m.append(" ms)");
        r.push(m);
    }
    assert(texts(r@) =~= toggle_labels(imp@));
    r
}

/// The label of the Revert button; `latest` is the time of the newest
/// snapshot, where there is one.
pub fn revert_label(armed: bool, latest: Option<&str>) -> (r: String)
    ensures
        r@ == (match latest {
            Some(t) if armed => "↩ Confirm revert to "@ + t@ + "?"@,
            _ => "↩ Revert"@,
        }),
{
    match latest {
        Some(t) if armed => {
            let mut r = "↩ Confirm revert to ".to_owned();
            r.append(t);
            r.append("?");
            r
        },
        _ => "↩ Revert".to_owned(),
    }
}

/// Whether an entry can be reverted: it proposes a prompt change for an existing
/// agent, and that agent has a history.
pub open spec fn revertible(imp: PendingView, history: nat) -> bool {
    imp.prompt_change is Some && history > 0
}

/// Whether an entry can be reverted; `history` is that of its agent.
pub fn can_revert(imp: &PendingImprovement, history: &Vec<HistoryEntry>) -> (r: bool)
    ensures
        r == revertible(imp@, history@.len()),
        r == (imp@.prompt_change is Some && history@.len() > 0),
{
    imp.prompt_change.is_some() && history.len() > 0
}

/// The Revert button of an entry: its label, and whether it is enabled.
/// `history` is that of the entry's agent, newest first.
pub fn revert_button(imp: &PendingImprovement, history: &Vec<HistoryEntry>) -> (r: (String, bool))
    ensures
        r.1 == revertible(imp@, history@.len()),
        r.0@ == (if r.1 && imp@.revert_armed {
            "↩ Confirm revert to "@ + time_label(
                history@[0].ts,
                utc_text(signed(history@[0].ts), "%Y-%m-%d %H:%M UTC"@),
            ) + "?"@
        } else {
            "↩ Revert"@
        }),
{
    if can_revert(imp, history) {
        let latest = format_ts(history[0].ts);
        (revert_label(imp.revert_armed, Some(latest.as_str())), true)
    } else {
        (revert_label(imp.revert_armed, None), false)
    }
}

// ---------------------------------------------------------------------------
// Outcomes
// ---------------------------------------------------------------------------

/// How the revert of an agent ended.
pub enum RevertOutcome {
    /// The profile was restored to the snapshot of this time.
    Reverted { ts_label: String },
    Failed { error: String },
    NoHistory,
}

/// A revert that was asked for at an entry, and how it ended.
pub struct RevertResult {
    pub index: usize,
    pub outcome: RevertOutcome,
}

/// An approval of an entry: its message, and the error where the prompt
/// change was written but could not be remembered.
pub struct ApproveResult {
    pub index: usize,
    pub message: String,
    pub memory_error: Option<String>,
}

/// A dismissal of an entry, and the error where it could not be remembered.
pub struct DismissResult {
    pub index: usize,
    pub memory_error: Option<String>,
}

/// The panel and the entries that are to be removed from it.
#[verifier::ext_equal]
pub struct Marked {
    pub panel: PanelView,
    pub marks: Seq<bool>,
}

/// The panel with nothing marked.
pub open spec fn unmarked(panel: PanelView) -> Marked {
    Marked { panel, marks: Seq::new(panel.pending.len(), |i: int| false) }
}

/// Every entry of the agent marked.
pub open spec fn mark_agent(
    pending: Seq<PendingView>,
    marks: Seq<bool>,
    name: Seq<char>,
) -> Seq<bool> {
    Seq::new(marks.len(), |i: int| marks[i] || pending[i].agent_name == name)
}

/// The panel after a revert. A revert that succeeded marks all entries of the
/// agent, for they were reviewed against the prompt that is gone now; one that
/// failed disarms the entry's button.
pub open spec fn after_revert(m: Marked, r: RevertResult) -> Marked {
    let k = r.index as int;
    let name = m.panel.pending[k].agent_name;
    let disarmed = m.panel.pending.update(
        k,
        PendingView { revert_armed: false, ..m.panel.pending[k] },
    );
    match r.outcome {
        RevertOutcome::Reverted { ts_label } => Marked {
            panel: PanelView {
                message: Some(
                    "reverted '"@ + name + "' to "@ + ts_label@
                        + " — pending suggestions for this agent were dropped"@,
                ),
                ..m.panel
            },
            marks: mark_agent(m.panel.pending, m.marks, name),
        },
        RevertOutcome::Failed { error } => Marked {
            panel: PanelView {
                pending: disarmed,
                message: Some("Error: revert of '"@ + name + "' failed: "@ + error@),
                ..m.panel
            },
            marks: m.marks,
        },
        RevertOutcome::NoHistory => Marked {
            panel: PanelView {
                pending: disarmed,
                message: Some("revert of '"@ + name + "': no history snapshot available"@),
                ..m.panel
            },
            marks: m.marks,
        },
    }
}

/// The panel after an approval: its message, and the entry marked.
pub open spec fn after_approval(m: Marked, a: ApproveResult) -> Marked {
    let k = a.index as int;
    Marked {
        panel: PanelView {
            message: Some(
                match a.memory_error {
                    Some(e) => "approved '"@ + m.panel.pending[k].agent_name
                        + "', but remembering the prompt change failed: "@ + e@,
                    None => a.message@,
                },
            ),
            ..m.panel
        },
        marks: m.marks.update(k, true),
    }
}

/// The panel after a dismissal: the entry marked, and a message only where
/// the rejection could not be remembered.
pub open spec fn after_dismissal(m: Marked, d: DismissResult) -> Marked {
    let k = d.index as int;
    Marked {
        panel: PanelView {
            message: match d.memory_error {
                Some(e) => Some(
                    "dismissed '"@ + m.panel.pending[k].agent_name
                        + "', but remembering the rejection failed: "@ + e@,
                ),
                None => m.panel.message,
            },
            ..m.panel
        },
        marks: m.marks.update(k, true),
    }
}

/// The panel after the first `n` reverts.
pub open spec fn after_reverts(m: Marked, rs: Seq<RevertResult>, n: int) -> Marked
    decreases n,
{
    if n <= 0 {
        m
    } else {
        after_revert(after_reverts(m, rs, n - 1), rs[n - 1])
    }
}

/// The panel after the first `n` approvals.
pub open spec fn after_approvals(m: Marked, rs: Seq<ApproveResult>, n: int) -> Marked
    decreases n,
{
    if n <= 0 {
        m
    } else {
        after_approval(after_approvals(m, rs, n - 1), rs[n - 1])
    }
}

/// The panel after the first `n` dismissals.
pub open spec fn after_dismissals(m: Marked, rs: Seq<DismissResult>, n: int) -> Marked
    decreases n,
{
    if n <= 0 {
        m
    } else {
        after_dismissal(after_dismissals(m, rs, n - 1), rs[n - 1])
    }
}

/// The first `n` entries without the marked ones.
pub open spec fn unmarked_entries(
    pending: Seq<PendingView>,
    marks: Seq<bool>,
    n: int,
) -> Seq<PendingView>
    decreases n,
{
    if n <= 0 {
        Seq::empty()
    } else if marks[n - 1] {
        unmarked_entries(pending, marks, n - 1)
    } else {
        unmarked_entries(pending, marks, n - 1).push(pending[n - 1])
    }
}

/// Everything marked in a frame.
pub open spec fn frame_marked(
    panel: PanelView,
    reverts: Seq<RevertResult>,
    approvals: Seq<ApproveResult>,
    dismissals: Seq<DismissResult>,
) -> Marked {
    after_dismissals(
        after_approvals(
            after_reverts(unmarked(panel), reverts, reverts.len() as int),
            approvals,
            approvals.len() as int,
        ),
        dismissals,
        dismissals.len() as int,
    )
}

/// The panel after a frame.
pub open spec fn after_frame(
    panel: PanelView,
    reverts: Seq<RevertResult>,
    approvals: Seq<ApproveResult>,
    dismissals: Seq<DismissResult>,
) -> PanelView {
    let m = frame_marked(panel, reverts, approvals, dismissals);
    PanelView {
        pending: unmarked_entries(m.panel.pending, m.marks, m.panel.pending.len() as int),
        ..m.panel
    }
}

fn set_message(panel: &mut ImprovementsPanel, a: &str, name: &str, b: &str, c: &str, d: &str)
    ensures
        final(panel)@ == (PanelView {
            message: Some(a@ + name@ + b@ + c@ + d@),
            ..old(panel)@
        }),
{
    let mut m = a.to_owned();
    m.append(name);
    m.append(b);
    m.append(c);
    m.append(d);
    panel.message = Some(m);
}

fn disarm(panel: &mut ImprovementsPanel, k: usize)
    requires
        k < old(panel)@.pending.len(),
    ensures
        final(panel)@ == (PanelView {
            pending: old(panel)@.pending.update(
                k as int,
                PendingView { revert_armed: false, ..old(panel)@.pending[k as int] },
            ),
            ..old(panel)@
        }),
{
    panel.pending[k].revert_armed = false;
    assert(panel@.pending =~= old(panel)@.pending.update(
        k as int,
        PendingView { revert_armed: false, ..old(panel)@.pending[k as int] },
    ));
}

/// The state of a panel with its marks.
pub open spec fn marked(panel: ImprovementsPanel, marks: Seq<bool>) -> Marked {
    Marked { panel: panel@, marks }
}

fn take_revert(panel: &mut ImprovementsPanel, marks: &mut Vec<bool>, r: &RevertResult)
    requires
        r.index < old(panel)@.pending.len(),
        old(marks)@.len() == old(panel)@.pending.len(),
    ensures
        marked(*final(panel), final(marks)@) == after_revert(marked(*old(panel), old(marks)@), *r),
        final(panel)@.pending.len() == old(panel)@.pending.len(),
        final(marks)@.len() == old(marks)@.len(),
{
    let ghost before = marked(*panel, marks@);
    let k: usize = r.index;
    let name = panel.pending[k].agent_name.clone();
    match &r.outcome {
        RevertOutcome::Reverted { ts_label } => {
            set_message(
                panel,
                "reverted '",
                name.as_str(),
                "' to ",
                ts_label.as_str(),
                " — pending suggestions for this agent were dropped",
            );
            let n: usize = panel.pending.len();
            let mut i: usize = 0;
            while i < n
                invariant
                    i <= n,
                    n == panel.pending@.len(),
                    marks@.len() == n,
                    before.marks.len() == n,
                    before.panel.pending == pending_views(panel.pending@),
                    forall|j: int|
                        0 <= j < i ==> #[trigger] marks@[j] == (before.marks[j]
                            || before.panel.pending[j].agent_name == name@),
                    forall|j: int| i <= j < n ==> #[trigger] marks@[j] == before.marks[j],
                decreases n - i,
            {
                if same_text(panel.pending[i].agent_name.as_str(), name.as_str()) {
                    marks.set(i, true);
                }
                i += 1;
            }
            assert(marks@ =~= mark_agent(before.panel.pending, before.marks, name@));
        },
        RevertOutcome::Failed { error } => {
            disarm(panel, k);
            let ghost mid = panel@;
            let empty = String::new();
            set_message(
                panel,
                "Error: revert of '",
                name.as_str(),
                "' failed: ",
                error.as_str(),
                empty.as_str(),
            );
            assert(panel@.message->Some_0 =~= "Error: revert of '"@ + name@ + "' failed: "@
                + error@);
        },
        RevertOutcome::NoHistory => {
            disarm(panel, k);
            let empty = String::new();
            set_message(
                panel,
                "revert of '",
                name.as_str(),
                "': no history snapshot available",
                empty.as_str(),
                empty.as_str(),
            );
            assert(panel@.message->Some_0 =~= "revert of '"@ + name@
                + "': no history snapshot available"@);
        },
    }
}

fn take_approval(panel: &mut ImprovementsPanel, marks: &mut Vec<bool>, a: &ApproveResult)
    requires
        a.index < old(panel)@.pending.len(),
        old(marks)@.len() == old(panel)@.pending.len(),
    ensures
        marked(*final(panel), final(marks)@) == after_approval(
            marked(*old(panel), old(marks)@),
            *a,
        ),
        final(panel)@.pending.len() == old(panel)@.pending.len(),
        final(marks)@.len() == old(marks)@.len(),
{
    match &a.memory_error {
        Some(e) => {
            let name = panel.pending[a.index].agent_name.clone();
            let empty = String::new();
            set_message(
                panel,
                "approved '",
                name.as_str(),
                "', but remembering the prompt change failed: ",
                e.as_str(),
                empty.as_str(),
            );
            assert(panel@.message->Some_0 =~= "approved '"@ + name@
                + "', but remembering the prompt change failed: "@ + e@);
        },
        None => {
            panel.message = Some(a.message.clone());
        },
    }
    marks.set(a.index, true);
}

fn take_dismissal(panel: &mut ImprovementsPanel, marks: &mut Vec<bool>, d: &DismissResult)
    requires
        d.index < old(panel)@.pending.len(),
        old(marks)@.len() == old(panel)@.pending.len(),
    ensures
        marked(*final(panel), final(marks)@) == after_dismissal(
            marked(*old(panel), old(marks)@),
            *d,
        ),
        final(panel)@.pending.len() == old(panel)@.pending.len(),
        final(marks)@.len() == old(marks)@.len(),
{
    if let Some(e) = &d.memory_error {
        let name = panel.pending[d.index].agent_name.clone();
        let empty = String::new();
        set_message(
            panel,
            "dismissed '",
            name.as_str(),
            "', but remembering the rejection failed: ",
            e.as_str(),
            empty.as_str(),
        );
        assert(panel@.message->Some_0 =~= "dismissed '"@ + name@
            + "', but remembering the rejection failed: "@ + e@);
    }
    marks.set(d.index, true);
}

fn drop_marked(panel: &mut ImprovementsPanel, marks: &Vec<bool>)
    requires
        marks@.len() == old(panel)@.pending.len(),
    ensures
        final(panel)@ == (PanelView {
            pending: unmarked_entries(
                old(panel)@.pending,
                marks@,
                old(panel)@.pending.len() as int,
            ),
            ..old(panel)@
        }),
{
    let ghost views = panel@.pending;
    let mut i: usize = 0;
    let mut j: usize = 0;
    assert(unmarked_entries(views, marks@, 0) + views.skip(0) =~= views);
    while i < marks.len()
        invariant
            i <= marks@.len(),
            marks@.len() == views.len(),
            views == old(panel)@.pending,
            panel@.pending == unmarked_entries(views, marks@, i as int) + views.skip(i as int),
            j == unmarked_entries(views, marks@, i as int).len(),
            j <= i,
            panel.show_panel == old(panel).show_panel,
            panel.message == old(panel).message,
        decreases marks.len() - i,
    {
        let ghost kept = unmarked_entries(views, marks@, i as int);
        let ghost before = panel@.pending;
        assert(before.len() == panel.pending@.len());
        assert(before[j as int] == views[i as int]);
        if marks[i] {
            panel.pending.remove(j);
            assert(panel@.pending =~= before.remove(j as int));
            assert(panel@.pending =~= kept + views.skip(i + 1));
        } else {
            assert(kept + views.skip(i as int) =~= kept.push(views[i as int]) + views.skip(i + 1));
            j += 1;
        }
        i += 1;
    }
    assert(views.skip(views.len() as int) =~= Seq::empty());
    assert(panel@.pending =~= unmarked_entries(views, marks@, views.len() as int));
}

impl ImprovementsPanel {
    /// Click on the Revert button of an entry; `history` is that of the entry's
    /// agent. Nothing happens where the entry cannot be reverted. Otherwise the
    /// first click arms the button; the next one asks for the revert, which is
    /// what the result says.
    pub fn click_revert(&mut self, index: usize, history: &Vec<HistoryEntry>) -> (r: bool)
        requires
            index < old(self)@.pending.len(),
        ensures
            ({
                let imp = old(self)@.pending[index as int];
                if revertible(imp, history@.len()) {
                    &&& r == imp.revert_armed
                    &&& final(self)@ == (PanelView {
                        pending: old(self)@.pending.update(
                            index as int,
                            PendingView { revert_armed: true, ..imp },
                        ),
                        ..old(self)@
                    })
                } else {
                    !r && final(self)@ == old(self)@
                }
            }),
    {
        if !can_revert(&self.pending[index], history) {
            return false;
        }
        let armed = self.pending[index].revert_armed;
        if !armed {
            self.pending[index].revert_armed = true;
        }
        assert(self@.pending =~= old(self)@.pending.update(
            index as int,
            PendingView { revert_armed: true, ..old(self)@.pending[index as int] },
        ));
        armed
    }

    /// Take in what came of the clicks of a frame. The approvals stand in the
    /// order in which they were carried out.
    pub fn finish_frame(
        &mut self,
        reverts: &Vec<RevertResult>,
        approvals: &Vec<ApproveResult>,
        dismissals: &Vec<DismissResult>,
    )
        requires
            forall|i: int|
                0 <= i < reverts@.len() ==> (#[trigger] reverts@[i]).index < old(
                    self,
                )@.pending.len(),
            forall|i: int|
                0 <= i < approvals@.len() ==> (#[trigger] approvals@[i]).index < old(
                    self,
                )@.pending.len(),
            forall|i: int|
                0 <= i < dismissals@.len() ==> (#[trigger] dismissals@[i]).index < old(
                    self,
                )@.pending.len(),
        ensures
            final(self)@ == after_frame(old(self)@, reverts@, approvals@, dismissals@),
    {
        let n: usize = self.pending.len();
        let mut marks: Vec<bool> = Vec::new();
        while marks.len() < n
            invariant
                marks@.len() <= n,
                forall|j: int| 0 <= j < marks@.len() ==> !marks@[j],
            decreases n - marks.len(),
        {
            marks.push(false);
        }
        let ghost m0 = unmarked(self@);
        assert(marks@ =~= m0.marks);
        let mut i: usize = 0;
        while i < reverts.len()
            invariant
                i <= reverts@.len(),
                n == self@.pending.len(),
                n == marks@.len(),
                forall|k: int| 0 <= k < reverts@.len() ==> (#[trigger] reverts@[k]).index < n,
                marked(*self, marks@) == after_reverts(m0, reverts@, i as int),
            decreases reverts.len() - i,
        {
            take_revert(self, &mut marks, &reverts[i]);
            i += 1;
        }
        let ghost m1 = marked(*self, marks@);
        let mut i: usize = 0;
        while i < approvals.len()
            invariant
                i <= approvals@.len(),
                n == self@.pending.len(),
                n == marks@.len(),
                forall|k: int| 0 <= k < approvals@.len() ==> (#[trigger] approvals@[k]).index < n,
                marked(*self, marks@) == after_approvals(m1, approvals@, i as int),
            decreases approvals.len() - i,
        {
            take_approval(self, &mut marks, &approvals[i]);
            i += 1;
        }
        let ghost m2 = marked(*self, marks@);
        let mut i: usize = 0;
        while i < dismissals.len()
            invariant
                i <= dismissals@.len(),
                n == self@.pending.len(),
                n == marks@.len(),
                forall|k: int| 0 <= k < dismissals@.len() ==> (#[trigger] dismissals@[k]).index < n,
                marked(*self, marks@) == after_dismissals(m2, dismissals@, i as int),
            decreases dismissals.len() - i,
        {
            take_dismissal(self, &mut marks, &dismissals[i]);
            i += 1;
        }
        drop_marked(self, &marks);
    }
}

// ---------------------------------------------------------------------------
// Laws
// ---------------------------------------------------------------------------

/// Whether two entries are the same suggestion with the same toggles.
pub open spec fn same_entry(a: PendingView, b: PendingView) -> bool {
    &&& a.agent_name == b.agent_name
    &&& a.rationale == b.rationale
    &&& a.apply_prompt == b.apply_prompt
    &&& a.apply_allowed_tools == b.apply_allowed_tools
    &&& a.apply_reasoning_effort == b.apply_reasoning_effort
    &&& a.apply_shell_config == b.apply_shell_config
    &&& a.apply_handoff_targets == b.apply_handoff_targets
    &&& a.apply_task_timeout == b.apply_task_timeout
}

proof fn lemma_repeated(pending: Seq<PendingView>, s: SuggestionView, from: int)
    requires
        0 <= from,
    ensures
        match repeated(pending, s, from) {
            Some(k) => from <= k < pending.len() && s.repeats(pending[k]),
            None => forall|i: int| from <= i < pending.len() ==> !s.repeats(#[trigger] pending[i]),
        },
    decreases pending.len() - from,
{
    if from < pending.len() && !s.repeats(pending[from]) {
        lemma_repeated(pending, s, from + 1);
    }
}

/// A new batch never drops or reorders an unreviewed entry, and never changes
/// one of the user's toggles: each entry stays at its place with its agent,
/// its rationale and its toggles.
pub proof fn a_batch_keeps_unreviewed_entries(
    pending: Seq<PendingView>,
    batch: Seq<SuggestionView>,
)
    ensures
        merged(pending, batch).len() >= pending.len(),
        forall|i: int|
            0 <= i < pending.len() ==> same_entry(
                #[trigger] merged(pending, batch)[i],
                pending[i],
            ),
    decreases batch.len(),
{
    if batch.len() > 0 {
        a_batch_keeps_unreviewed_entries(pending, batch.drop_last());
        lemma_repeated(merged(pending, batch.drop_last()), batch.last(), 0);
    }
}

/// Whether no two entries have the same agent and rationale.
pub open spec fn distinct_entries(pending: Seq<PendingView>) -> bool {
    forall|i: int, j: int|
        0 <= i < j < pending.len() ==> (#[trigger] pending[i]).agent_name != (
        #[trigger] pending[j]).agent_name || pending[i].rationale != pending[j].rationale
}

/// A batch never stacks two entries for one suggestion, and every suggestion
/// of the batch is pending afterwards.
pub proof fn a_batch_never_stacks_duplicates(
    pending: Seq<PendingView>,
    batch: Seq<SuggestionView>,
)
    requires
        distinct_entries(pending),
    ensures
        distinct_entries(merged(pending, batch)),
        forall|i: int|
            0 <= i < batch.len() ==> exists|k: int|
                0 <= k < merged(pending, batch).len() && (#[trigger] batch[i]).repeats(
                    #[trigger] merged(pending, batch)[k],
                ),
    decreases batch.len(),
{
    if batch.len() > 0 {
        let rest = batch.drop_last();
        let s = batch.last();
        a_batch_never_stacks_duplicates(pending, rest);
        let before = merged(pending, rest);
        let now = merged(pending, batch);
        lemma_repeated(before, s, 0);
        assert(forall|i: int|
            0 <= i < before.len() ==> (#[trigger] now[i]).agent_name == before[i].agent_name
                && now[i].rationale == before[i].rationale);
        assert forall|i: int, j: int| 0 <= i < j < now.len() implies (#[trigger] now[i]).agent_name
            != (#[trigger] now[j]).agent_name || now[i].rationale != now[j].rationale by {
            assert(now[i].agent_name == before[i].agent_name);
            if j < before.len() {
                assert(before[i].agent_name != before[j].agent_name || before[i].rationale
                    != before[j].rationale);
            } else {
                assert(!s.repeats(before[i]));
            }
        }
        assert forall|i: int| 0 <= i < batch.len() implies exists|k: int|
            0 <= k < now.len() && (#[trigger] batch[i]).repeats(#[trigger] now[k]) by {
            if i < rest.len() {
                assert(rest[i] == batch[i]);
                let k = choose|k: int|
                    0 <= k < before.len() && rest[i].repeats(#[trigger] before[k]);
                assert(batch[i].repeats(now[k]));
            } else {
                match repeated(before, s, 0) {
                    Some(k) => {
                        assert(s.repeats(now[k]));
                    },
                    None => {
                        assert(s.repeats(now[before.len() as int]));
                    },
                }
            }
        }
    }
}

proof fn lemma_marks(m: Marked, reverts: Seq<RevertResult>, n: int)
    requires
        m.marks.len() == m.panel.pending.len(),
        0 <= n <= reverts.len(),
        forall|i: int|
            0 <= i < reverts.len() ==> (#[trigger] reverts[i]).index < m.panel.pending.len(),
    ensures
        ({
            let r = after_reverts(m, reverts, n);
            &&& r.marks.len() == m.marks.len()
            &&& r.panel.pending.len() == m.panel.pending.len()
            &&& forall|i: int|
                0 <= i < m.marks.len() ==> (#[trigger] r.panel.pending[i]).agent_name
                    == m.panel.pending[i].agent_name
            &&& forall|i: int| 0 <= i < m.marks.len() && m.marks[i] ==> #[trigger] r.marks[i]
            &&& forall|i: int, q: int|
                0 <= i < m.marks.len() && 0 <= q < n && (#[trigger] reverts[q]).outcome is Reverted
                    && m.panel.pending[i].agent_name
                    == m.panel.pending[reverts[q].index as int].agent_name
                    ==> #[trigger] r.marks[i]
        }),
    decreases n,
{
    if n > 0 {
        lemma_marks(m, reverts, n - 1);
    }
}

/// A successful revert marks every pending suggestion of the agent for
/// removal: they were reviewed against the prompt that is gone.
pub proof fn a_revert_drops_the_agents_suggestions(
    panel: PanelView,
    reverts: Seq<RevertResult>,
    q: int,
    i: int,
)
    requires
        forall|k: int|
            0 <= k < reverts.len() ==> (#[trigger] reverts[k]).index < panel.pending.len(),
        0 <= q < reverts.len(),
        reverts[q].outcome is Reverted,
        0 <= i < panel.pending.len(),
        panel.pending[i].agent_name == panel.pending[reverts[q].index as int].agent_name,
    ensures
        after_reverts(unmarked(panel), reverts, reverts.len() as int).marks[i],
{
    lemma_marks(unmarked(panel), reverts, reverts.len() as int);
}

/// The removal pass keeps exactly the entries that are not marked, in their
/// order.
pub proof fn removal_keeps_the_unmarked(pending: Seq<PendingView>, marks: Seq<bool>, n: int, i: int)
    requires
        marks.len() == pending.len(),
        0 <= i < n <= pending.len(),
        !marks[i],
    ensures
        unmarked_entries(pending, marks, n).contains(pending[i]),
    decreases n,
{
    if i < n - 1 {
        removal_keeps_the_unmarked(pending, marks, n - 1, i);
        let before = unmarked_entries(pending, marks, n - 1);
        let k = choose|k: int| 0 <= k < before.len() && before[k] == pending[i];
        assert(unmarked_entries(pending, marks, n)[k] == pending[i]);
    } else {
        let now = unmarked_entries(pending, marks, n);
        assert(now[now.len() - 1] == pending[i]);
    }
}

/// With nothing clicked, a frame changes nothing.
pub proof fn an_idle_frame_changes_nothing(panel: PanelView)
    ensures
        after_frame(panel, Seq::empty(), Seq::empty(), Seq::empty()) == panel,
{
    let m = unmarked(panel);
    assert(frame_marked(panel, Seq::empty(), Seq::empty(), Seq::empty()) == m);
    lemma_none_marked(panel.pending, m.marks, panel.pending.len() as int);
    assert(panel.pending.take(panel.pending.len() as int) =~= panel.pending);
}

proof fn lemma_none_marked(pending: Seq<PendingView>, marks: Seq<bool>, n: int)
    requires
        0 <= n <= pending.len(),
        marks.len() == pending.len(),
        forall|i: int| 0 <= i < marks.len() ==> !marks[i],
    ensures
        unmarked_entries(pending, marks, n) == pending.take(n),
    decreases n,
{
    if n > 0 {
        lemma_none_marked(pending, marks, n - 1);
        assert(pending.take(n) =~= pending.take(n - 1).push(pending[n - 1]));
    } else {
        assert(pending.take(0) =~= Seq::empty());
    }
}

} // verus!

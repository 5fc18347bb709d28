//! Tests of the review of improvements.

use wuffagent_egui::agent_history::HistoryEntry;
use wuffagent_egui::approvals::{
    applied_marker, applied_marker_on, apply_improvement_detailed, edit_outcome, plan_approval,
    rejection_lesson, resolve_agent_dir, AgentsDir, EditOutcome, ProfileFile,
};
use wuffagent_egui::improvements::{
    ImprovementSuggestion, ImprovementsPanel, NewAgentProposal, PendingImprovement,
    PendingNewAgent,
};
use wuffagent_egui::review::{
    can_revert, field_labels, is_error_message, panel_visible, pending_badge, revert_button, revert_label, ApproveResult,
    DismissResult, RevertOutcome, RevertResult,
};
use wuffagent_egui::types::{AgentConfig, MemoryType, ReasoningEffort, ShellConfig};

fn agent(name: &str, prompt: &str, tools: Vec<String>) -> AgentConfig {
    AgentConfig {
        name: name.to_string(),
        description: "existing".to_string(),
        system_prompt: prompt.to_string(),
        allowed_tools: tools,
        enabled: true,
        task_timeout_ms: 60_000,
        shell_config: shell("bash"),
        agents_dir: String::new(),
        agents_search_dirs: vec![],
        custom_prompts: vec![],
        reasoning_effort: ReasoningEffort::default(),
        trim_config: None,
        handoff_enabled: false,
        handoff_targets: vec![],
        restart_enabled: false,
    }
}

fn shell(kind: &str) -> ShellConfig {
    ShellConfig {
        allowed_commands: vec![],
        shell_type: kind.to_string(),
        shell_timeout_ms: 1000,
        shell_enabled: true,
        working_dir: None,
    }
}

fn existing_agent(name: &str) -> AgentConfig {
    agent(name, "old prompt", vec![])
}

/// Agents directories as they lie on disk; the first is the primary one.
struct Disk {
    dirs: Vec<(String, Vec<AgentConfig>)>,
}

impl Disk {
    fn new(dirs: &[&str]) -> Disk {
        Disk { dirs: dirs.iter().map(|d| (d.to_string(), vec![])).collect() }
    }

    fn put(&mut self, dir: &str, config: AgentConfig) {
        let d = self.dirs.iter_mut().find(|d| d.0 == dir).unwrap();
        d.1.retain(|a| a.name != config.name);
        d.1.push(config);
    }

    fn get(&self, name: &str) -> Option<&AgentConfig> {
        self.dirs.iter().flat_map(|d| d.1.iter()).find(|a| a.name == name)
    }

    fn listed(&self) -> Vec<AgentsDir> {
        self.dirs
            .iter()
            .map(|d| AgentsDir {
                path: d.0.clone(),
                profiles: d
                    .1
                    .iter()
                    .map(|a| ProfileFile {
                        name: a.name.clone(),
                        system_prompt: a.system_prompt.clone(),
                        enabled: a.enabled,
                    })
                    .collect(),
            })
            .collect()
    }

    /// Carry an approval out, and say what came of it.
    fn approve(&mut self, imp: &PendingImprovement) -> (String, bool) {
        let paths: Vec<String> = self.dirs.iter().map(|d| d.0.clone()).collect();
        let dir = resolve_agent_dir(&self.listed(), &imp.agent_name);
        let current = dir.as_ref().and_then(|_| self.get(&imp.agent_name)).map(|a| a.copied());
        let plan = plan_approval(imp, current.as_ref());
        let loaded = plan.edit.is_some();
        if let (Some(dir), Some(config)) = (&dir, plan.edit) {
            self.put(dir, config);
        }
        let edit = edit_outcome(dir, loaded, Ok(()));
        let mut created: Vec<Result<(), String>> = vec![];
        for na in plan.create {
            let mut config = agent(&na.name, &na.system_prompt, na.allowed_tools);
            config.description = na.description;
            let primary = paths[0].clone();
            self.put(&primary, config);
            created.push(Ok(()));
        }
        apply_improvement_detailed(&paths, &edit, &created, imp)
    }
}

fn proposal(name: &str, prompt: &str) -> NewAgentProposal {
    NewAgentProposal {
        name: name.to_string(),
        description: "a helper".to_string(),
        system_prompt: prompt.to_string(),
        allowed_tools: vec!["file_io".to_string()],
    }
}

fn suggestion(agent: &str, rationale: &str, prompt: &str) -> ImprovementSuggestion {
    ImprovementSuggestion {
        agent_name: agent.to_string(),
        prompt_change: Some(prompt.to_string()),
        rationale: rationale.to_string(),
        new_agents: vec![],
        allowed_tools: None,
        reasoning_effort: None,
        shell_config: None,
        handoff_targets: None,
        task_timeout_ms: None,
        evidence: vec![],
    }
}

fn pending(agent: &str, prompt: Option<&str>) -> PendingImprovement {
    PendingImprovement {
        agent_name: agent.to_string(),
        prompt_change: prompt.map(str::to_string),
        edited_prompt: prompt.map(str::to_string),
        rationale: "test".to_string(),
        new_agents: vec![],
        revert_armed: false,
        allowed_tools: None,
        reasoning_effort: None,
        shell_config: None,
        handoff_targets: None,
        task_timeout_ms: None,
        apply_prompt: true,
        apply_allowed_tools: true,
        apply_reasoning_effort: true,
        apply_shell_config: true,
        apply_handoff_targets: true,
        apply_task_timeout: true,
        evidence: vec![],
    }
}

#[test]
fn test_apply_improvement_updates_prompt_and_creates_agent() {
    let mut disk = Disk::new(&["dir"]);
    disk.put("dir", existing_agent("coder"));

    let mut imp = pending("coder", Some("new prompt"));
    imp.new_agents.push(PendingNewAgent {
        proposal: proposal("helper", "helper prompt"),
        edited_system_prompt: "helper prompt".to_string(),
    });

    let msg = disk.approve(&imp).0;
    assert!(msg.contains("updated prompt for 'coder'"), "msg: {}", msg);
    assert!(msg.contains("created new agent 'helper'"), "msg: {}", msg);

    let coder = disk.get("coder").expect("coder agent");
    assert_eq!(coder.system_prompt, "new prompt");
    let helper = disk.get("helper").expect("helper agent");
    assert_eq!(helper.system_prompt, "helper prompt");
    assert_eq!(helper.allowed_tools, vec!["file_io"]);
}

#[test]
fn test_apply_improvement_uses_edited_prompts() {
    let mut disk = Disk::new(&["dir"]);
    disk.put("dir", existing_agent("coder"));

    let mut imp = pending("coder", Some("llm original prompt"));
    imp.edited_prompt = Some("user edited prompt".to_string());
    imp.new_agents.push(PendingNewAgent {
        proposal: proposal("helper", "llm original helper prompt"),
        edited_system_prompt: "user edited helper prompt".to_string(),
    });

    let msg = disk.approve(&imp).0;
    assert!(msg.contains("updated prompt for 'coder'"), "msg: {}", msg);
    assert!(msg.contains("created new agent 'helper'"), "msg: {}", msg);

    let coder = disk.get("coder").expect("coder agent");
    assert_eq!(coder.system_prompt, "user edited prompt");
    let helper = disk.get("helper").expect("helper agent");
    assert_eq!(helper.system_prompt, "user edited helper prompt");
}

#[test]
fn test_apply_improvement_falls_back_to_original_prompt() {
    let mut disk = Disk::new(&["dir"]);
    disk.put("dir", existing_agent("coder"));

    let mut imp = pending("coder", Some("original only"));
    imp.edited_prompt = None;

    let msg = disk.approve(&imp).0;
    assert!(msg.contains("updated prompt for 'coder'"), "msg: {}", msg);
    let coder = disk.get("coder").expect("coder agent");
    assert_eq!(coder.system_prompt, "original only");
}

#[test]
fn test_apply_improvement_missing_profile_clear_error() {
    let mut disk = Disk::new(&["dir"]);
    let msg = disk.approve(&pending("ghost", Some("p"))).0;
    assert!(
        msg.contains("profile 'ghost' not found in any agents directory"),
        "msg: {}",
        msg
    );
    assert!(msg.contains("nothing was written"), "msg: {}", msg);
    assert!(disk.get("ghost").is_none());
}

#[test]
fn test_apply_improvement_writes_to_actual_profile_dir() {
    let mut disk = Disk::new(&["primary", "search"]);
    disk.put("search", existing_agent("coder"));
    let (msg, prompt_applied) = disk.approve(&pending("coder", Some("new prompt")));
    assert_eq!(msg, "updated prompt for 'coder' in search");
    assert!(prompt_applied);
    assert_eq!(disk.get("coder").unwrap().system_prompt, "new prompt");
    assert!(disk.dirs[0].1.is_empty(), "no shadow copy in primary");
}

#[test]
fn test_resolve_agent_dir_priority_and_legacy() {
    let mut disk = Disk::new(&["primary", "search"]);
    disk.put("search", existing_agent("only-search"));
    assert_eq!(resolve_agent_dir(&disk.listed(), "only-search"), Some("search".to_string()));

    // In both: primary wins.
    disk.put("primary", existing_agent("both"));
    disk.put("search", existing_agent("both"));
    assert_eq!(resolve_agent_dir(&disk.listed(), "both"), Some("primary".to_string()));

    // Legacy profile file (name field is what matches).
    let mut legacy = existing_agent("legacy-agent");
    legacy.description = "old format".to_string();
    legacy.system_prompt = "legacy prompt".to_string();
    disk.put("search", legacy);
    assert_eq!(resolve_agent_dir(&disk.listed(), "legacy-agent"), Some("search".to_string()));

    // A disabled profile is still found.
    let mut disabled = existing_agent("disabled-agent");
    disabled.enabled = false;
    disk.put("search", disabled);
    assert_eq!(resolve_agent_dir(&disk.listed(), "disabled-agent"), Some("search".to_string()));

    // Unknown.
    assert_eq!(resolve_agent_dir(&disk.listed(), "nope"), None);
}

#[test]
fn test_apply_improvement_field_only_and_toggles() {
    let mut disk = Disk::new(&["dir"]);
    disk.put("dir", existing_agent("coder"));

    let mut imp = pending("coder", None); // no prompt change
    imp.allowed_tools = Some(vec!["file_io".to_string(), "shell".to_string()]);
    imp.reasoning_effort = Some(ReasoningEffort::High);
    imp.apply_reasoning_effort = false; // user rejects the reasoning change

    let (msg, prompt_applied) = disk.approve(&imp);
    assert!(msg.contains("updated tools for 'coder'"), "msg: {}", msg);
    assert!(!prompt_applied);

    let coder = disk.get("coder").expect("coder agent");
    assert_eq!(coder.allowed_tools, vec!["file_io", "shell"]);
    assert_eq!(
        coder.reasoning_effort,
        ReasoningEffort::default(),
        "toggled-off field must stay untouched"
    );
    assert_eq!(coder.system_prompt, "old prompt", "no prompt change proposed");
}

#[test]
fn test_apply_improvement_prompt_off_fields_on() {
    let mut disk = Disk::new(&["dir"]);
    disk.put("dir", existing_agent("coder"));

    let mut imp = pending("coder", Some("new prompt"));
    imp.apply_prompt = false;
    imp.task_timeout_ms = Some(120_000);

    let msg = disk.approve(&imp).0;
    assert!(msg.contains("updated timeout for 'coder'"), "msg: {}", msg);

    let coder = disk.get("coder").expect("coder agent");
    assert_eq!(coder.system_prompt, "old prompt", "prompt change was rejected");
    assert_eq!(coder.task_timeout_ms, 120_000);
}

#[test]
fn test_apply_improvement_all_toggles_off_is_noop() {
    let mut disk = Disk::new(&["dir"]);
    disk.put("dir", existing_agent("coder"));

    let mut imp = pending("coder", Some("new prompt"));
    imp.apply_prompt = false;
    imp.allowed_tools = Some(vec!["file_io".to_string()]);
    imp.apply_allowed_tools = false;

    let msg = disk.approve(&imp).0;
    assert_eq!(msg, "No changes to apply.", "msg: {}", msg);

    let coder = disk.get("coder").expect("coder agent");
    assert_eq!(coder.system_prompt, "old prompt");
}

#[test]
fn all_fields_at_once_and_every_failure() {
    let mut disk = Disk::new(&["dir"]);
    disk.put("dir", existing_agent("coder"));
    let mut imp = pending("coder", Some("p"));
    imp.allowed_tools = Some(vec![]);
    imp.reasoning_effort = Some(ReasoningEffort::Low);
    imp.shell_config = Some(shell("zsh"));
    imp.handoff_targets = Some(vec!["x".to_string()]);
    imp.task_timeout_ms = Some(1);
    assert_eq!(
        disk.approve(&imp).0,
        "updated prompt, tools, reasoning, shell, handoff, timeout for 'coder' in dir"
    );
    assert_eq!(disk.get("coder").unwrap().shell_config.shell_type, "zsh");

    imp.new_agents.push(PendingNewAgent {
        proposal: proposal("helper", "h"),
        edited_system_prompt: "h".to_string(),
    });
    let dirs = vec!["a".to_string(), "b".to_string()];
    let failed = EditOutcome::Failed { error: "disk full".to_string() };
    let created = vec![Err("exists".to_string())];
    assert_eq!(
        apply_improvement_detailed(&dirs, &failed, &created, &imp),
        (
            "failed to update 'coder': disk full; failed to create agent 'helper': exists"
                .to_string(),
            false
        )
    );
    let unloadable = EditOutcome::Unloadable { dir: "a".to_string() };
    assert_eq!(
        apply_improvement_detailed(&dirs, &unloadable, &vec![Ok(())], &imp).0,
        "created new agent 'helper'; agent 'coder': profile file found in a but could not be loaded"
    );
    assert!(apply_improvement_detailed(&dirs, &EditOutcome::NotFound, &vec![Ok(())], &imp)
        .0
        .contains("(a, b)"));
}

#[test]
fn outcomes_of_an_edit() {
    let dir = || Some("d".to_string());
    let full = || Err("full".to_string());
    assert!(matches!(edit_outcome(None, true, full()), EditOutcome::NotFound));
    assert!(matches!(edit_outcome(dir(), false, full()), EditOutcome::Unloadable { dir } if dir == "d"));
    assert!(matches!(edit_outcome(dir(), true, full()), EditOutcome::Failed { error } if error == "full"));
    assert!(matches!(edit_outcome(dir(), true, Ok(())), EditOutcome::Updated { dir } if dir == "d"));
}

/// A new suggestion batch must not drop previously unreviewed entries.
#[test]
fn test_new_batch_preserves_unreviewed_suggestions() {
    let mut panel = ImprovementsPanel::new();
    panel.handle_improvement_suggested("coder", vec![suggestion("coder", "first", "p1")]);
    panel.handle_improvement_suggested("coder", vec![suggestion("coder", "second", "p2")]);

    assert_eq!(panel.pending.len(), 2);
    assert_eq!(panel.pending[0].rationale, "first");
    assert_eq!(panel.pending[1].rationale, "second");
    assert!(panel.show_panel);
}

/// A duplicate suggestion (same agent_name + rationale) replaces the existing
/// pending entry instead of appending a second copy.
#[test]
fn test_duplicate_suggestion_replaces_existing() {
    let mut panel = ImprovementsPanel::new();
    panel.handle_improvement_suggested("coder", vec![suggestion("coder", "same", "old prompt")]);
    panel.handle_improvement_suggested("coder", vec![suggestion("coder", "same", "new prompt")]);

    assert_eq!(panel.pending.len(), 1);
    assert_eq!(panel.pending[0].prompt_change.as_deref(), Some("new prompt"));
    // The edit buffer is re-initialized from the replacement's LLM text.
    assert_eq!(panel.pending[0].edited_prompt.as_deref(), Some("new prompt"));
    // Re-arming state resets with the replacement.
    panel.pending[0].revert_armed = true;
    panel
        .handle_improvement_suggested("coder", vec![suggestion("coder", "same", "newer prompt")]);
    assert!(!panel.pending[0].revert_armed);

    // Same rationale for a DIFFERENT agent is not a duplicate.
    panel.handle_improvement_suggested("coder", vec![suggestion("researcher", "same", "p3")]);
    assert_eq!(panel.pending.len(), 2);
}

#[test]
fn a_refresh_keeps_the_toggles() {
    let mut panel = ImprovementsPanel::new();
    panel.handle_improvement_suggested("coder", vec![suggestion("coder", "same", "old")]);
    panel.pending[0].apply_prompt = false;
    panel.handle_improvement_suggested("coder", vec![suggestion("coder", "same", "new")]);
    assert!(!panel.pending[0].apply_prompt);
    assert_eq!(panel.pending[0].edited_prompt.as_deref(), Some("new"));
}

/// The rejection lesson must be a Lesson entry that names the agent in its
/// content and carries the `improvement-rejected` + `agent:<name>` tags.
#[test]
fn test_rejection_lesson_shape() {
    let mut imp = pending("coder", Some("new prompt"));
    imp.rationale = "too verbose".to_string();

    let entry = rejection_lesson(&imp);
    assert!(matches!(entry.kind, MemoryType::Lesson));
    assert_eq!(entry.source, "improvement-review");
    assert!(
        entry.tags.contains(&"improvement-rejected".to_string()),
        "tags: {:?}",
        entry.tags
    );
    assert!(
        entry.tags.contains(&"agent:coder".to_string()),
        "tags: {:?}",
        entry.tags
    );
    // Names the agent + the rejected change + the "do not re-suggest" hint.
    assert!(entry.content.contains("coder"), "content: {}", entry.content);
    assert!(entry.content.contains("too verbose"), "content: {}", entry.content);
    assert!(
        entry.content.contains("do not re-suggest"),
        "content: {}",
        entry.content
    );
}

/// The approval marker must be a Fact entry, carrying the
/// `improvement-applied` + `agent:<name>` tags and naming the agent and the
/// approval date in its content.
#[test]
fn test_applied_marker_shape() {
    let imp = pending("coder", Some("new prompt"));

    let entry = applied_marker(&imp);
    assert!(matches!(entry.kind, MemoryType::Fact));
    assert_eq!(entry.source, "improvement-review");
    assert!(
        entry.tags.contains(&"improvement-applied".to_string()),
        "tags: {:?}",
        entry.tags
    );
    assert!(
        entry.tags.contains(&"agent:coder".to_string()),
        "tags: {:?}",
        entry.tags
    );
    // Names the agent and the approval date (tolerate a midnight rollover
    // between building the marker and computing "today").
    assert!(entry.content.contains("coder"), "content: {}", entry.content);
    let now = chrono::Utc::now();
    let today = now.format("%Y-%m-%d").to_string();
    let yesterday = (now - chrono::Duration::days(1)).format("%Y-%m-%d").to_string();
    assert!(
        entry.content.contains(&today) || entry.content.contains(&yesterday),
        "content: {} (today: {})",
        entry.content,
        today
    );
}

#[test]
fn a_marker_names_the_day_and_the_start_of_the_prompt() {
    let prompt = "y".repeat(90);
    let entry = applied_marker_on(&pending("coder", Some(&prompt)), "2026-01-02");
    assert_eq!(
        entry.content,
        format!(
            "Prompt for agent 'coder' changed via approved improvement on 2026-01-02 (applied prompt starts: '{}')",
            "y".repeat(80)
        )
    );
    let other = applied_marker_on(&pending("coder", Some("z")), "2026-01-02");
    assert_ne!(entry.content, other.content);
}

#[test]
fn the_panel_removes_what_was_dealt_with() {
    let mut panel = ImprovementsPanel::new();
    panel.handle_improvement_suggested(
        "x",
        vec![
            suggestion("a", "1", "p"),
            suggestion("b", "2", "p"),
            suggestion("a", "3", "p"),
            suggestion("c", "4", "p"),
        ],
    );
    assert_eq!(pending_badge(&panel), "(4 pending)");
    assert!(panel_visible(&panel));
    let approvals = vec![ApproveResult {
        index: 1,
        message: "updated prompt for 'b' in dir".to_string(),
        memory_error: None,
    }];
    panel.finish_frame(&vec![], &approvals, &vec![DismissResult { index: 3, memory_error: None }]);
    let left: Vec<&str> = panel.pending.iter().map(|p| p.rationale.as_str()).collect();
    assert_eq!(left, vec!["1", "3"]);

    // Reverting an agent drops every suggestion for it.
    let reverts = vec![RevertResult {
        index: 0,
        outcome: RevertOutcome::Reverted { ts_label: "2020-01-01 00:00 UTC".to_string() },
    }];
    panel.finish_frame(&reverts, &vec![], &vec![]);
    assert!(panel.pending.is_empty());
}

#[test]
fn a_revert_needs_two_clicks() {
    let mut panel = ImprovementsPanel::new();
    panel.handle_improvement_suggested("x", vec![suggestion("a", "1", "p")]);
    let history = vec![HistoryEntry {
        dir: "d".to_string(),
        path: "p".to_string(),
        ts: 1577836800,
        seq: 0,
    }];
    // Without a history, or without a prompt change, there is nothing to revert.
    assert!(!can_revert(&panel.pending[0], &vec![]));
    assert!(!panel.click_revert(0, &vec![]));
    assert!(!panel.pending[0].revert_armed);
    assert!(!can_revert(&pending("a", None), &history));
    assert_eq!(revert_button(&panel.pending[0], &history), ("↩ Revert".to_string(), true));
    assert!(!panel.click_revert(0, &history));
    assert!(panel.pending[0].revert_armed);
    assert_eq!(
        revert_button(&panel.pending[0], &history),
        ("↩ Confirm revert to 2020-01-01 00:00 UTC?".to_string(), true)
    );
    assert_eq!(revert_button(&panel.pending[0], &vec![]), ("↩ Revert".to_string(), false));
    assert!(panel.click_revert(0, &history));
    assert_eq!(revert_label(false, Some("t")), "↩ Revert");
    assert_eq!(revert_label(true, Some("t")), "↩ Confirm revert to t?");
    assert_eq!(revert_label(true, None), "↩ Revert");
}

#[test]
fn labels_of_the_review() {
    let mut imp = pending("coder", Some("p"));
    assert!(field_labels(&imp).is_empty());
    imp.task_timeout_ms = Some(5);
    imp.allowed_tools = Some(vec!["a".to_string(), "b".to_string()]);
    imp.handoff_targets = Some(vec!["c".to_string()]);
    assert_eq!(
        field_labels(&imp),
        vec![
            "Apply tool allowlist change (2 tools: a, b)",
            "Apply handoff target change (c)",
            "Apply task timeout change (5 ms)",
        ]
    );
    assert!(is_error_message("Error: x"));
    assert!(!is_error_message("failed to x"));
}

//! Tests of the settings, presets, sessions and agent dialogs.

use wuffagent_egui::agent_config::{snapshot_label, AgentConfigDialog, SaveOutcome, SaveTarget};
use wuffagent_egui::agent_profile::{
    agents_dirs, candidate_names, get_agent_names, resolve_agent_prompt, resolve_tool_policy,
};
use wuffagent_egui::approvals::{AgentsDir, ProfileFile};
use wuffagent_egui::chat_state::{
    AppStatus, ChatApp, ChatArea, SessionRuntime, ToolPolicy,
};
use wuffagent_egui::presets_dialog::{
    is_error, preset_label, LoadOutcome, Preset, PresetType, PresetsDialog,
};
use wuffagent_egui::sessions_actions::{
    apply_sessions_action, FileRequest, FinishedAction, PanelAction,
};
use wuffagent_egui::sessions_panel::{SessionInput, SessionsPanel, StoredMessage, StoredSession};
use wuffagent_egui::settings::{Config, ConnectionType, SettingsDialog};
use wuffagent_egui::startup::{first_session_name, is_expected_paste_noise};
use wuffagent_egui::types::{AgentConfig, ReasoningEffort, ShellConfig};

fn config() -> Config {
    Config {
        server_path: "server".to_string(),
        model_path: "model".to_string(),
        port: 8080,
        n_gpu_layers: -1,
        n_ctx: 4096,
        threads: 8,
        system_prompt: "be kind".to_string(),
        theme: "dark".to_string(),
        connection_type: ConnectionType::Local,
        remote_url: "http://x".to_string(),
        remote_api_key: None,
        encryption_enabled: false,
        encryption_password: Some("pw".to_string()),
        max_messages: 50,
        session_id: None,
        reasoning_effort: ReasoningEffort::Off,
    }
}

#[test]
fn settings_are_saved_and_read_back() {
    let mut cfg = config();
    let mut dialog = SettingsDialog::new(&cfg);
    assert_eq!(dialog.connection_type, "local");
    assert_eq!(dialog.remote_api_key, "");
    assert_eq!(dialog.encryption_password, "pw");
    assert!(!dialog.show_presets);
    assert!(SettingsDialog::new_with_presets_flag(&cfg, true).show_presets);

    dialog.connection_type = "remote".to_string();
    assert!(dialog.shows_remote_fields());
    dialog.remote_api_key = "key".to_string();
    dialog.encryption_password = String::new();
    dialog.port = 1234;
    dialog.save(&mut cfg);
    assert_eq!(cfg.connection_type, ConnectionType::Remote);
    assert_eq!(cfg.remote_api_key.as_deref(), Some("key"));
    assert_eq!(cfg.encryption_password, None);
    assert_eq!(cfg.port, 1234);
    assert_eq!(cfg.system_prompt, "be kind");

    let again = SettingsDialog::new(&cfg);
    assert_eq!(again.connection_type, "remote");
    assert_eq!(again.remote_api_key, "key");
    dialog.connection_type = "other".to_string();
    dialog.save(&mut cfg);
    assert_eq!(cfg.connection_type, ConnectionType::Local);
    dialog.port = 1;
    dialog.reset(&cfg);
    assert_eq!(dialog.port, 1234);
}

#[test]
fn the_theme_toggles() {
    let mut cfg = config();
    cfg.toggle_theme();
    assert_eq!(cfg.theme, "light");
    cfg.toggle_theme();
    assert_eq!(cfg.theme, "dark");
    cfg.theme = "odd".to_string();
    cfg.toggle_theme();
    assert_eq!(cfg.theme, "dark");
    cfg.before_save(ReasoningEffort::High);
    assert_eq!(cfg.reasoning_effort, ReasoningEffort::High);
}

#[test]
fn startup_decisions() {
    let mut cfg = config();
    assert!(cfg.needs_session(true));
    cfg.remember_session("id".to_string());
    assert!(!cfg.needs_session(true));
    assert!(cfg.needs_session(false));
    assert_eq!(cfg.session_to_open(true).as_deref(), Some("id"));
    assert_eq!(cfg.session_to_open(false), None);
    assert_eq!(first_session_name(), "Untitled");
    let msg = |s: &str| Some(s.to_string());
    assert!(is_expected_paste_noise("egui_winit::clipboard", &msg("arboard paste error: x")));
    assert!(!is_expected_paste_noise("egui_winit::clipboard", &msg("arboard copy/cut error: x")));
    assert!(!is_expected_paste_noise("egui_winit", &msg("arboard paste error: x")));
    assert!(!is_expected_paste_noise("egui_winit::clipboard", &None));
}

#[test]
fn presets_are_added() {
    let mut d = PresetsDialog::new();
    assert_eq!((d.new_port, d.new_n_gpu_layers, d.new_n_ctx, d.new_threads), (8080, 99, 4096, 8));
    d.click_preset(2);
    assert_eq!(d.selected_index, Some(2));
    d.click_preset(2);
    assert_eq!(d.selected_index, None);
    d.open_form();
    assert!(d.show_add_form);
    assert!(d.add_preset().is_none());
    assert_eq!(d.message.as_deref(), Some("Error: Name is required"));
    assert!(is_error(d.message.as_deref().unwrap()));

    d.new_name = "far".to_string();
    d.new_type = PresetType::Remote;
    d.new_remote_url = "http://y".to_string();
    match d.add_preset() {
        Some(Preset::Remote { name, remote_url, remote_api_key }) => {
            assert_eq!((name.as_str(), remote_url.as_str()), ("far", "http://y"));
            assert_eq!(remote_api_key, None);
        }
        _ => panic!("no remote preset"),
    }
    d.finish_add(&Err("exists".to_string()));
    assert_eq!(d.message.as_deref(), Some("Error: exists"));
    assert_eq!(d.new_name, "far");
    d.finish_add(&Ok(()));
    assert_eq!(d.message.as_deref(), Some("Added preset: far"));
    assert!(!d.show_add_form);
    assert_eq!(d.new_name, "");
    assert_eq!(d.new_type, PresetType::Local);

    d.new_name = "near".to_string();
    assert!(matches!(d.add_preset(), Some(Preset::Local { port: 8080, .. })));
    assert_eq!(d.message, None);
    d.finish_load("near", &LoadOutcome::Loaded);
    assert_eq!(d.message.as_deref(), Some("Loaded preset: near"));
    d.finish_load("near", &LoadOutcome::NotApplied("x".to_string()));
    assert_eq!(d.message.as_deref(), Some("Error loading preset: x"));
    d.finish_load("near", &LoadOutcome::NotSaved("x".to_string()));
    assert_eq!(d.message.as_deref(), Some("Error saving config: x"));
    d.selected_index = Some(0);
    d.finish_delete("near", &Err("x".to_string()));
    assert_eq!(d.message.as_deref(), Some("Error deleting preset: x"));
    assert_eq!(d.selected_index, Some(0));
    d.finish_delete("near", &Ok(()));
    assert_eq!(d.message.as_deref(), Some("Deleted preset: near"));
    assert_eq!(d.selected_index, None);
    d.finish_store(&Ok(()));
    assert_eq!(d.message.as_deref(), Some("Presets saved to disk"));
    d.finish_store(&Err("x".to_string()));
    assert_eq!(d.message.as_deref(), Some("Error saving presets: x"));
    d.cancel_form();
    assert_eq!(preset_label("near", "Local"), "near (Local)");
}

fn stored(id: &str, messages: &[(&str, &str)]) -> StoredSession {
    StoredSession {
        id: id.to_string(),
        name: format!("name of {}", id),
        messages: messages
            .iter()
            .map(|m| StoredMessage { role: m.0.to_string(), content: m.1.to_string() })
            .collect(),
        updated_at: "then".to_string(),
    }
}

fn two_sessions() -> Vec<StoredSession> {
    vec![
        stored("a", &[("user", "q"), ("assistant", "answer"), ("tool", "t")]),
        stored("b", &[("system", "s")]),
    ]
}

#[test]
fn session_labels() {
    let list = two_sessions();
    assert_eq!(list[0].last_message(), "answer");
    assert_eq!(list[1].last_message(), "");
    assert_eq!(list[0].label("ans", "1h ago", false), "name of a\n3 messages  •  ans\n1h ago");
    assert_eq!(list[0].shown_label("1h ago", false), "name of a\n3 messages  •  answer\n1h ago");
    let long = stored("c", &[("user", &"x".repeat(60))]);
    assert_eq!(
        long.shown_label("now", false),
        format!("name of c\n1 message  •  {}…\nnow", "x".repeat(49))
    );
    assert_eq!(list[1].label("", "now", true), "name of b\n1 message  •  \nnow\n🔄 rename");
}

#[test]
fn the_sidebar_takes_inputs() {
    let mut cfg = config();
    let mut panel = SessionsPanel::new("dir".to_string(), two_sessions());
    assert_eq!(panel.selected_id.as_deref(), Some("a"));
    assert!(panel.is_selected(0) && !panel.is_selected(1));

    let (chosen, action) = panel.draw(&mut cfg, &vec![SessionInput::Select(1)], 0);
    assert_eq!(chosen.as_deref(), Some("b"));
    assert!(action.is_none());
    assert_eq!(cfg.session_id.as_deref(), Some("b"));

    // Deleting needs the confirmation.
    let (_, action) = panel.draw(&mut cfg, &vec![SessionInput::Delete], 0);
    assert!(action.is_none());
    assert_eq!(
        panel.pending_delete,
        Some(("b".to_string(), "name of b".to_string(), String::new()))
    );
    let (_, action) = panel.draw(&mut cfg, &vec![SessionInput::ConfirmDelete], 0);
    assert!(matches!(action, Some(PanelAction::Delete(id)) if id == "b"));
    assert!(panel.pending_delete.is_none());

    // Renaming by key trims the name; an empty one is dropped.
    panel.draw(&mut cfg, &vec![SessionInput::RenameKey], 0);
    assert_eq!(panel.rename_input, "name of b");
    assert!(panel.is_renaming(1));
    panel.rename_input = "  ".to_string();
    let (_, action) = panel.draw(&mut cfg, &vec![SessionInput::EnterKey], 0);
    assert!(action.is_none() && panel.renaming.is_none());
    panel.draw(&mut cfg, &vec![SessionInput::Rename(0)], 0);
    panel.rename_input = " new ".to_string();
    let (_, action) = panel.draw(&mut cfg, &vec![SessionInput::EnterKey], 0);
    assert!(matches!(action, Some(PanelAction::Rename { id, new_name }) if id == "a" && new_name == "new"));
    panel.draw(&mut cfg, &vec![SessionInput::Rename(0), SessionInput::EscapeKey], 0);
    assert!(panel.renaming.is_none());

    // A new session needs a name.
    panel.draw(&mut cfg, &vec![SessionInput::New], 0);
    let (_, action) = panel.draw(&mut cfg, &vec![SessionInput::Create], 0);
    assert!(action.is_none() && panel.creating);
    panel.new_name = "fresh ".to_string();
    let (_, action) = panel.draw(&mut cfg, &vec![SessionInput::Create], 0);
    assert!(matches!(action, Some(PanelAction::Create(n)) if n == "fresh "));
    assert!(!panel.creating);

    // The last action of a frame counts.
    let (_, action) = panel.draw(&mut cfg, &vec![SessionInput::Export, SessionInput::Import], 0);
    assert!(matches!(action, Some(PanelAction::Import)));

    panel.clear_session();
    let (_, action) = panel.draw(&mut cfg, &vec![SessionInput::Export, SessionInput::Delete], 77);
    assert!(action.is_none());
    assert_eq!(panel.notification, Some(("No session selected".to_string(), false)));
    assert_eq!(panel.notification_start, 77);
}

#[test]
fn notifications_expire() {
    let mut panel = SessionsPanel::new("dir".to_string(), vec![]);
    assert_eq!(panel.selected_id, None);
    panel.notify_at("hello", true, 1000);
    assert!(!panel.expire_at(4000));
    assert!(panel.expire_at(4001));
    assert!(panel.notification.is_none());
    assert!(!panel.expire_at(i64::MAX));
    panel.show_notification("again", false);
    assert_eq!(panel.notification, Some(("again".to_string(), false)));
    // The clock of the machine is well past 1970.
    assert!(panel.notification_start > 1_600_000_000_000);
    assert!(!panel.update_notification());
    panel.notification_start = i64::MIN;
    assert!(panel.update_notification());
}

fn runtime(id: &str) -> SessionRuntime {
    SessionRuntime {
        id: id.to_string(),
        name: id.to_string(),
        selected_agent: None,
        chat: ChatArea {
            messages: vec![],
            input_text: String::new(),
            stream_buffer: String::new(),
            current_thinking: String::new(),
            is_generating: false,
            pending_error: None,
            pending_image: None,
            queued_messages: vec![],
            active_tools: vec![],
            prompt_progress: None,
            token_count: 0,
            status: AppStatus::Stopped,
            expanded_messages: vec![],
            editing_message_index: None,
            editing_message_content: String::new(),
            message_ratings: vec![],
            feedback_comment_for: None,
            feedback_comment: String::new(),
        },
        conversation: vec![],
    }
}

#[test]
fn finished_actions_are_taken_in() {
    let mut cfg = config();
    let mut panel = SessionsPanel::new("dir".to_string(), two_sessions());
    let mut app = ChatApp::new(
        vec![runtime("a"), runtime("b")],
        Some("b".to_string()),
        ReasoningEffort::Off,
    );
    assert_eq!(app.save_session().as_deref(), Some("b"));

    let done = FinishedAction::Renamed {
        id: "a".to_string(),
        new_name: "other".to_string(),
        listed: two_sessions(),
    };
    apply_sessions_action(&mut app, &mut panel, &mut cfg, done, 1);
    assert_eq!(app.sessions[0].name, "other");

    let done = FinishedAction::Created { runtime: runtime("c"), listed: vec![] };
    apply_sessions_action(&mut app, &mut panel, &mut cfg, done, 1);
    assert_eq!(app.sessions.len(), 3);
    assert_eq!(app.sessions[2].selected_agent.as_deref(), Some("general"));
    assert_eq!(panel.selected_id.as_deref(), Some("c"));
    assert_eq!(cfg.session_id.as_deref(), Some("c"));
    assert!(panel.sessions.is_empty());

    let done = FinishedAction::Deleted {
        id: "c".to_string(),
        outcome: Err("busy".to_string()),
        listed: two_sessions(),
    };
    apply_sessions_action(&mut app, &mut panel, &mut cfg, done, 2);
    assert_eq!(app.sessions.len(), 3);
    assert_eq!(panel.selected_id, None);
    assert_eq!(
        panel.notification,
        Some(("Failed to delete session: busy".to_string(), false))
    );

    let done = FinishedAction::Deleted {
        id: "b".to_string(),
        outcome: Ok(()),
        listed: two_sessions(),
    };
    apply_sessions_action(&mut app, &mut panel, &mut cfg, done, 3);
    let ids: Vec<&str> = app.sessions.iter().map(|s| s.id.as_str()).collect();
    assert_eq!(ids, vec!["a", "c"]);
    assert_eq!(app.selected_session_id, None);
    assert_eq!(cfg.session_id, None);
    assert_eq!(panel.notification, Some(("Session deleted".to_string(), true)));
    assert_eq!(app.save_session(), None);

    for (outcome, text, good) in [
        (Ok(()), "Exported to p", true),
        (Err("full".to_string()), "Export failed: full", false),
    ] {
        let done = FinishedAction::Exported { output_path: "p".to_string(), outcome };
        apply_sessions_action(&mut app, &mut panel, &mut cfg, done, 4);
        assert_eq!(panel.notification, Some((text.to_string(), good)));
    }
    for (imported, text, good) in [
        (Ok("n".to_string()), "Imported session: n", true),
        (Err("bad".to_string()), "Import failed: bad", false),
    ] {
        let done = FinishedAction::Imported { imported, listed: vec![] };
        apply_sessions_action(&mut app, &mut panel, &mut cfg, done, 5);
        assert_eq!(panel.notification, Some((text.to_string(), good)));
    }
}

#[test]
fn actions_name_their_files() {
    let mut panel = SessionsPanel::new("dir".to_string(), vec![]);
    let export = PanelAction::Export { session_id: "s".to_string() };
    assert!(matches!(panel.request(&export), FileRequest::Export { output_path, .. } if output_path == "s.json"));
    assert!(matches!(panel.request(&PanelAction::Import), FileRequest::Import { dir, input_path } if dir == "dir" && input_path == "session.json"));
    panel.export_path = "out".to_string();
    panel.import_path = "in".to_string();
    assert!(matches!(panel.request(&export), FileRequest::Export { output_path, .. } if output_path == "out"));
    assert!(matches!(panel.request(&PanelAction::Import), FileRequest::Import { input_path, .. } if input_path == "in"));
}

fn agent(name: &str, tools: &[&str]) -> AgentConfig {
    AgentConfig {
        name: name.to_string(),
        description: "d".to_string(),
        system_prompt: format!("prompt of {}", name),
        allowed_tools: tools.iter().map(|t| t.to_string()).collect(),
        enabled: true,
        task_timeout_ms: 1000,
        shell_config: ShellConfig {
            allowed_commands: vec!["ls".to_string()],
            shell_type: "bash".to_string(),
            shell_timeout_ms: 500,
            shell_enabled: true,
            working_dir: None,
        },
        agents_dir: String::new(),
        agents_search_dirs: vec![],
        custom_prompts: vec![],
        reasoning_effort: ReasoningEffort::Medium,
        trim_config: None,
        handoff_enabled: true,
        handoff_targets: vec!["x".to_string(), "y".to_string()],
        restart_enabled: false,
    }
}

#[test]
fn agents_are_edited() {
    // The shell has a switch of its own and is not among the tools.
    let tools = vec!["shell".to_string(), "file_io".to_string(), "time".to_string()];
    let listed = || Some(vec![agent("one", &["time"]), agent("two", &["shell", "gone"])]);
    let mut d = AgentConfigDialog::new(listed(), &tools);
    assert_eq!(d.available_tools, vec!["file_io", "time"]);
    d.select_agent(0);
    assert_eq!(d.name, "one");
    assert_eq!(d.tool_checkboxes, vec![false, true]);
    assert_eq!(d.handoff_targets, "x, y");
    d.system_prompt = "changed".to_string();
    let request = d.save().unwrap();
    assert_eq!(request.config.system_prompt, "changed");
    assert_eq!(request.config.allowed_tools, vec!["time"]);
    assert_eq!(request.config.handoff_targets, vec!["x", "y"]);
    assert!(matches!(request.target, SaveTarget::Edit { old_name } if old_name == "one"));
    assert!(!d.finish_save(&SaveOutcome::Refused { error: "x".to_string() }, None));
    assert_eq!(d.message.as_deref(), Some("Error: x"));
    assert!(!d.finish_save(&SaveOutcome::LockFailed { error: "x".to_string() }, None));
    assert_eq!(d.message.as_deref(), Some("Lock error: x"));
    assert!(d.finish_save(&SaveOutcome::Saved, listed()));
    assert_eq!(d.name, "");

    d.start_new();
    assert_eq!(d.name, "");
    assert!(d.save().is_none());
    assert_eq!(d.message.as_deref(), Some("Name is required."));
    d.name = "three".to_string();
    assert!(matches!(d.save().unwrap().target, SaveTarget::Add));
    assert_eq!(snapshot_label("t", 0), "t");
    assert_eq!(snapshot_label("t", 2), "t#2");
}

#[test]
fn profiles_are_found() {
    assert_eq!(
        agents_dirs("c".to_string(), Some("c".to_string()), Some("e".to_string())),
        vec!["c", "e"]
    );
    // Paths are compared by their components.
    assert_eq!(
        agents_dirs("a/b".to_string(), Some("a//b/.".to_string()), Some("./a/b".to_string())),
        vec!["a/b", "./a/b"]
    );
    assert_eq!(candidate_names(""), vec!["general", "generalist"]);
    assert_eq!(candidate_names("x"), vec!["x"]);
    let file = |name: &str, prompt: &str| ProfileFile {
        name: name.to_string(),
        system_prompt: prompt.to_string(),
        enabled: true,
    };
    let dirs = vec![
        AgentsDir { path: "a".to_string(), profiles: vec![file("x", "px")] },
        AgentsDir { path: "b".to_string(), profiles: vec![file("general", "pg"), file("x", "other")] },
    ];
    assert_eq!(resolve_agent_prompt(&dirs, "x"), "px");
    assert_eq!(resolve_agent_prompt(&dirs, ""), "pg");
    assert_eq!(resolve_agent_prompt(&dirs, "none"), "");
    let names = get_agent_names(&dirs);
    assert!(names.contains(&"x".to_string()) && names.contains(&"general".to_string()));
    assert_eq!(names.iter().filter(|n| n.as_str() == "x").count(), 1);

    assert!(matches!(resolve_tool_policy("two", &vec![None]), ToolPolicy::Unrestricted));
    // "Auto" is unrestricted, whatever the general profile says.
    let general = vec![Some(agent("general", &["time"]))];
    assert!(matches!(resolve_tool_policy("", &general), ToolPolicy::Unrestricted));
    match resolve_tool_policy("two", &vec![None, Some(agent("two", &["shell"]))]) {
        ToolPolicy::Profile { agent_name, allowed_tools, .. } => {
            assert_eq!(agent_name, "two");
            assert_eq!(allowed_tools, vec!["shell"]);
        }
        ToolPolicy::Unrestricted => panic!("no policy"),
    }
}

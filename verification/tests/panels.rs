//! Tests of the status bar, the usage, MCP and memory panels.

use wuffagent_egui::agent_chain::{AgentChainEntry, AgentChainState, Expanded};
use wuffagent_egui::chat_state::{
    ActiveTool, AppStatus, ChatApp, ChatArea, PromptProgress,
};
use wuffagent_egui::mcp_edit::{
    parse_env_lines, parse_header_lines, split_space_separated, McpServerConfig, McpTransport,
    ServerEditState, TransportKind,
};
use wuffagent_egui::mcp_panel::{
    connects_now, is_success, operation_ended, remove_server, row_buttons, save_server, server_counts, set_server_enabled,
    status_line, timeout_message, JobPoll, McpOp, McpPanel, McpServerStatus, RowButtons,
};
use wuffagent_egui::memory_panel::{
    age_between, age_of, can_run_maintenance, format_age, maintenance_hint, short_id, tags_label, DeleteOutcome,
    InjectionMode, MaintenancePoll, MaintenanceProgress, MemoryPanel, MemorySettings,
};
use wuffagent_egui::status::{
    mcp_label, memory_hover, memory_label, messages_label, running_tools, server_detail,
    status_text, tokens_label,
};
use wuffagent_egui::theme::{Rgba, Theme};
use wuffagent_egui::types::ReasoningEffort;
use wuffagent_egui::usage_panel::{
    axis_stamp, bucket_stamp, fmt_tokens, Granularity, LogRead, Range, UsageEntry, UsagePanel,
    UsageSums,
};

fn chat(tools: &[&str]) -> ChatArea {
    ChatArea {
        messages: vec![],
        input_text: String::new(),
        stream_buffer: String::new(),
        current_thinking: String::new(),
        is_generating: false,
        pending_error: None,
        pending_image: None,
        queued_messages: vec![],
        active_tools: tools
            .iter()
            .map(|t| ActiveTool {
                tool_name: t.to_string(),
                call_id: t.to_string(),
                args_preview: String::new(),
                started_ms: 0,
                live_output: String::new(),
            })
            .collect(),
        prompt_progress: None,
        token_count: 1234,
        status: AppStatus::Ready,
        expanded_messages: vec![],
        editing_message_index: None,
        editing_message_content: String::new(),
        message_ratings: vec![],
        feedback_comment_for: None,
        feedback_comment: String::new(),
    }
}

#[test]
fn the_status_bar() {
    let theme = Theme::dark();
    assert_eq!(status_text(&AppStatus::Ready, &theme), Some(("● Ready", theme.success)));
    assert_eq!(status_text(&AppStatus::Generating, &theme), Some(("● Generating...", theme.primary)));
    assert_eq!(status_text(&AppStatus::Error("x".to_string()), &theme), None);
    assert_eq!(running_tools(&chat(&[])), None);
    assert_eq!(
        running_tools(&chat(&["a"])),
        Some(("🔧 1 tool running".to_string(), "a".to_string()))
    );
    assert_eq!(
        running_tools(&chat(&["a", "b"])),
        Some(("🔧 2 tools running".to_string(), "a\nb".to_string()))
    );
    assert_eq!(messages_label(&chat(&[])), "Messages: 0");
    assert_eq!(tokens_label(&chat(&[])), "Tokens: 1234");
    assert_eq!(memory_label(3), "🧠 3");
    assert_eq!(
        memory_hover(3, "p", 10, false),
        "3 active memories (project 'p', max 10)\nMaintenance: disabled"
    );
    assert_eq!(server_detail("s", "Connected", &vec![true, false, true]), "s: Connected (2 enabled tools)");
    assert_eq!(mcp_label(2, 2, &theme), ("MCP 2/2".to_string(), theme.success));
    assert_eq!(mcp_label(0, 2, &theme), ("MCP 0/2".to_string(), theme.text_dim));
    assert_eq!(mcp_label(1, 2, &theme), ("MCP 1/2".to_string(), theme.warning));
}

#[test]
fn the_bottom_bar() {
    let mut app = ChatApp::new(vec![], None, ReasoningEffort::Off);
    assert!(app.remote_props_unknown());
    assert_eq!(app.server_label("99", 8), "Ctx: … | GPU: 99 | Threads: 8");
    app.remote_n_ctx = 4096;
    assert_eq!(app.get_effective_n_ctx(), 4096);
    assert_eq!(app.server_label("-1", 8), "Ctx: 4096 | GPU: -1 | Threads: 8");
    let p = PromptProgress { total: 100, cache: 20, processed: 60 };
    assert_eq!(p.uncached(), (40, 80));
    assert_eq!(p.label("50"), "PP 50% (40/80)");
    assert_eq!(
        p.hover(),
        "Prompt processing progress (llama.cpp)\n40/80 uncached tokens processed (20 cached, 100 total)\nSpeed in the PP t/s readout beside it"
    );
    assert_eq!(PromptProgress { total: 5, cache: 9, processed: 1 }.uncached(), (0, 0));
}

#[test]
fn themes() {
    assert_eq!(Theme::from_name("light"), Theme::light());
    assert_eq!(Theme::from_name("dark"), Theme::dark());
    assert_eq!(Theme::from_name("anything"), Theme::dark());
    assert_eq!(Theme::from_name(Theme::light().name()), Theme::light());
    assert_eq!(Theme::dark().primary, Rgba { r: 59, g: 130, b: 246, a: 255 });
    assert_eq!(Theme::light().hover_bg, Rgba { r: 0, g: 0, b: 0, a: 16 });
}

#[test]
fn token_counts_are_short() {
    assert_eq!(fmt_tokens(1234), "1.2k");
    assert_eq!(fmt_tokens(1_500_000), "1.5M");
    let wanted = |n: u64| match n {
        0..=999 => n.to_string(),
        1_000..=9_999 => format!("{:.1}k", n as f64 / 1e3),
        10_000..=999_999 => format!("{:.0}k", n as f64 / 1e3),
        _ => format!("{:.1}M", n as f64 / 1e6),
    };
    let mut n: u64 = 0;
    while n < 3_000_000 {
        assert_eq!(fmt_tokens(n), wanted(n));
        n += if n < 12_000 { 1 } else { 50 };
    }
    for n in [u64::MAX, 1 << 53, (1 << 60) + 1, 12_349_999, 12_350_000, 12_350_001] {
        assert_eq!(fmt_tokens(n), wanted(n));
    }
}

#[test]
fn the_usage_panel_reads_the_log_in_steps() {
    let entry = |at: u64| UsageEntry { at, prompt_tokens: 1, completion_tokens: 2, total_tokens: 3 };
    let mut p = UsagePanel::default();
    assert_eq!(p.wanted_read(), LogRead::Nothing);
    p.show_panel = true;
    assert_eq!(p.wanted_read(), LogRead::All);
    p.take_entries(vec![entry(1)]);
    assert_eq!(p.wanted_read(), LogRead::Nothing);
    p.take_entries(vec![entry(9)]);
    assert_eq!(p.entries.len(), 1);
    p.mark_dirty();
    assert_eq!(p.wanted_read(), LogRead::Appended);
    p.take_entries(vec![entry(2), entry(3)]);
    assert_eq!(p.entries, vec![entry(1), entry(2), entry(3)]);
    p.select_range(Range::Week);
    assert_eq!(p.range.window_label(), "last 12 weeks");
    assert_eq!(p.range.granularity(), Granularity::Week);
    assert_eq!(Range::options()[1], ("Day", Range::Day));
}

#[test]
fn usage_lines() {
    let s = UsageSums { prompt_tokens: 1500, completion_tokens: 20, total_tokens: 1520, calls: 1 };
    assert!(!s.is_empty());
    assert_eq!(s.summary(), "1.5k in · 20 out · 1.5k total · 1 call");
    let two = UsageSums { calls: 2, ..s };
    assert_eq!(two.bucket_line("d"), "d — in 1.5k · out 20 · total 1.5k · 2 calls");
    assert_eq!(bucket_stamp(1577836800, Granularity::Hour).unwrap(), "2020-01-01 00:00");
    assert_eq!(bucket_stamp(1577836800, Granularity::Day).unwrap(), "2020-01-01");
    assert_eq!(bucket_stamp(1577836800, Granularity::Week).unwrap(), "2020-01-01 (Mon)");
    assert_eq!(axis_stamp(1577840460).unwrap(), "01:01");
    assert_eq!(bucket_stamp(9_000_000_000_000_000, Granularity::Day), None);
}

#[test]
fn the_agent_chain() {
    let mut state = AgentChainState { entries: vec![], current_agent: None, cancelled: false };
    assert!(state.is_idle());
    assert_eq!(state.running_label(), None);
    state.current_agent = Some("x".to_string());
    state.cancelled = true;
    assert!(!state.is_idle());
    assert_eq!(state.running_label(), Some(("Running: x".to_string(), true)));
    let mut e = AgentChainEntry {
        agent_name: "x".to_string(),
        depth: 2,
        result: "é".repeat(100),
        error: None,
    };
    assert_eq!(e.line(), ("✅", "depth=2".to_string()));
    assert!(matches!(e.expanded(), Expanded::Preview(p) if p == "é".repeat(100)));
    e.result = "é".repeat(101);
    assert!(matches!(e.expanded(), Expanded::Preview(p) if p == format!("{}...", "é".repeat(100))));
    e.error = Some("bad".to_string());
    assert_eq!(e.line().0, "❌");
    assert!(matches!(e.expanded(), Expanded::Failure(p) if p == "Error: bad"));
}

fn server(name: &str) -> McpServerConfig {
    McpServerConfig {
        name: name.to_string(),
        transport: McpTransport::Stdio {
            command: "npx".to_string(),
            args: vec!["-y".to_string(), "pkg".to_string()],
            env: vec![("KEY".to_string(), "a=b".to_string())],
            working_dir: None,
        },
        enabled: true,
        timeout_secs: 30,
        allowed_tools: vec!["t".to_string()],
    }
}

#[test]
fn server_fields_are_read() {
    assert_eq!(split_space_separated(" a  b\tc "), vec!["a", "b", "c"]);
    assert_eq!(
        parse_env_lines("A=1\n\nnone\n B = x=y \n"),
        "A=1\n\nnone\n B = x=y \n"
            .lines()
            .filter_map(|l| l.split_once('=').map(|(k, v)| (k.trim().to_string(), v.trim().to_string())))
            .filter(|(k, _)| !k.is_empty())
            .collect::<Vec<_>>()
    );
    // The last value of a name counts.
    assert_eq!(parse_env_lines("A=1\nB=2\nA=3"), vec![
        ("A".to_string(), "3".to_string()),
        ("B".to_string(), "2".to_string()),
    ]);
    assert_eq!(parse_header_lines("X: 1\nbad").first().map(|p| p.0.as_str()), Some("X"));
}

#[test]
fn an_untouched_server_keeps_its_settings() {
    let edit = ServerEditState::from_config(&server("s"));
    assert!(!edit.is_new());
    assert_eq!(edit.transport_kind, TransportKind::Stdio);
    let back = edit.build("s".to_string()).unwrap();
    assert_eq!(back.name, "s");
    assert_eq!(back.timeout_secs, 30);
    assert_eq!(back.allowed_tools, vec!["t"]);
    match back.transport {
        McpTransport::Stdio { command, args, env, working_dir } => {
            assert_eq!(command, "npx");
            assert_eq!(args, vec!["-y", "pkg"]);
            assert_eq!(env, vec![("KEY".to_string(), "a=b".to_string())]);
            assert_eq!(working_dir, None);
        }
        McpTransport::Http { .. } => panic!("wrong transport"),
    }
    let mut fresh = ServerEditState::new();
    assert!(fresh.is_new());
    assert!(fresh.build("n".to_string()).is_none());
    fresh.transport_kind = TransportKind::Http;
    fresh.url = "http://z".to_string();
    fresh.headers = "A: b".to_string();
    assert!(matches!(
        fresh.build("n".to_string()).unwrap().transport,
        McpTransport::Http { url, headers }
            if url == "http://z" && headers == vec![("A".to_string(), "b".to_string())]
    ));
}

#[test]
fn the_mcp_panel() {
    let mut panel = McpPanel::new();
    assert!(!panel.show_panel);
    let op = McpOp::Connect("s".to_string());
    let (label, secs) = panel.start_job(&op).unwrap();
    assert_eq!(label, op.label());
    assert_eq!(secs, op.timeout_secs());
    panel.job_spawned(label, &Ok(()));
    assert!(panel.job.is_some());
    // One job at a time.
    assert!(panel.start_job(&McpOp::Disconnect("s".to_string())).is_none());
    panel.collect_job(&JobPoll::Running);
    assert!(panel.job.is_some());
    panel.collect_job(&JobPoll::Ended(Ok("✓ done".to_string())));
    assert!(panel.job.is_none());
    assert_eq!(panel.message.as_deref(), Some("✓ done"));
    let (label, _) = panel.start_job(&McpOp::Connect("s".to_string())).unwrap();
    panel.job_spawned(label, &Ok(()));
    panel.collect_job(&JobPoll::Ended(Err("no".to_string())));
    assert_eq!(panel.message.as_deref(), Some("✗ connecting s failed: no"));
    let (label, _) = panel.start_job(&McpOp::Remove("s".to_string())).unwrap();
    panel.job_spawned(label, &Ok(()));
    panel.collect_job(&JobPoll::Lost);
    assert_eq!(panel.message.as_deref(), Some("✗ removing s failed (worker exited)"));
    panel.toggle_tools("s");
    assert!(panel.is_expanded("s"));
    panel.toggle_tools("s");
    assert!(!panel.is_expanded("s"));
    panel.ask_delete("s");
    assert!(panel.asks_delete("s"));
    assert!(panel.answer_delete("s", false).is_none());
    panel.ask_delete("s");
    assert!(matches!(panel.answer_delete("s", true), Some(McpOp::Remove(n)) if n == "s"));
    assert_eq!(timeout_message(30), "timed out after 30s");
    assert!(is_success("✓ done"));
    assert!(!is_success("✗ failed"));
    assert_eq!(McpOp::Refresh("s".to_string()).success_message(4), "✓ s: 4 tools registered");
    assert_eq!(McpOp::SetEnabled("s".to_string(), false).label(), "disabling s");
}

#[test]
fn server_rows_and_lists() {
    assert_eq!(row_buttons(&McpServerStatus::Connected), RowButtons::Disconnect);
    assert_eq!(row_buttons(&McpServerStatus::Connecting), RowButtons::Nothing);
    assert_eq!(row_buttons(&McpServerStatus::Error("x".to_string())), RowButtons::Connect);
    assert!(!connects_now(false, &None));
    assert_eq!(status_line(&McpServerStatus::Connected, true), ("●", "connected"));
    assert_eq!(status_line(&McpServerStatus::Configured, false), ("⊘", "disabled"));
    assert_eq!(
        server_counts(&vec![McpServerStatus::Connected, McpServerStatus::Configured]),
        "2 configured · 1 connected"
    );
    let mut servers = vec![server("a"), server("b")];
    let mut changed = server("b");
    changed.timeout_secs = 99;
    save_server(&mut servers, changed, false);
    assert_eq!(servers.len(), 2);
    assert_eq!((servers[0].timeout_secs, servers[1].timeout_secs), (30, 99));
    save_server(&mut servers, server("c"), true);
    assert_eq!(servers.len(), 3);
    set_server_enabled(&mut servers, "a", false);
    assert!(!servers[0].enabled && servers[1].enabled);
    // A server leaves the list once its removal has succeeded.
    let remove = McpOp::Remove("b".to_string());
    assert!(!operation_ended(&mut servers, &remove, false));
    assert!(!operation_ended(&mut servers, &McpOp::Disconnect("b".to_string()), true));
    assert_eq!(servers.len(), 3);
    assert!(operation_ended(&mut servers, &remove, true));
    let names: Vec<&str> = servers.iter().map(|s| s.name.as_str()).collect();
    assert_eq!(names, vec!["a", "c"]);
    remove_server(&mut servers, "none");
    assert_eq!(servers.len(), 2);
}

fn memory_settings() -> MemorySettings {
    MemorySettings {
        enabled: true,
        injection_mode: InjectionMode::Smart,
        max_entries: 100,
        injection_max_entries: 5,
        memory_maintenance: true,
        memory_maintenance_threshold: 10,
        memory_maintenance_batch_size: 20,
        memory_maintenance_timeout_secs: 300,
        auto_improve: false,
        improvement_cooldown_tasks: 3,
    }
}

#[test]
fn the_memory_panel() {
    let mut p = MemoryPanel::new();
    assert!(p.shows_all());
    p.edit_entry("id", "text", &vec!["a".to_string(), "b".to_string()]);
    assert_eq!(p.selected_id.as_deref(), Some("id"));
    assert_eq!(p.edit_content, "text");
    assert_eq!(p.edited_tags(), vec!["a", "b"]);
    p.close_editor();
    assert_eq!(p.selected_id, None);
    p.ask_delete("id");
    assert_eq!(p.pending_delete.as_deref(), Some("id"));
    p.cancel_delete();
    assert_eq!(p.pending_delete, None);
    p.finish_delete("id", &DeleteOutcome::Failed("x".to_string()));
    assert!(p.message.is_some());
    p.maintenance_spawned(&Ok(()));
    assert!(p.maintenance);
    p.collect_maintenance(&MaintenancePoll::Running);
    assert!(p.maintenance);
    p.collect_maintenance(&MaintenancePoll::Ended(Ok("report".to_string())));
    assert!(!p.maintenance);
    assert_eq!(p.maintenance_report.as_deref(), Some("report"));
}

#[test]
fn memory_settings_and_maintenance() {
    let s = memory_settings();
    assert!(can_run_maintenance(&s, 10, false));
    assert!(!can_run_maintenance(&s, 9, false));
    assert!(!can_run_maintenance(&s, 10, true));
    assert_eq!(s.step_timeout_secs(), 300);
    assert_eq!(s.total_timeout_secs(0), 300);
    assert_eq!(s.total_timeout_secs(20), 300);
    assert_eq!(s.total_timeout_secs(21), 600);
    let narrow = MemorySettings { memory_maintenance_batch_size: 1, ..s };
    assert_eq!(narrow.batch_size(), 5);
    let wide = MemorySettings { memory_maintenance_batch_size: 1000, ..s };
    assert_eq!(wide.batch_size(), 100);
    assert_eq!(maintenance_hint(&s, 10, None), "ready (runs in batches of 20)");
    assert_eq!(maintenance_hint(&s, 9, None), "below threshold (10)");
    let progress = MaintenanceProgress { elapsed_secs: 7, current: 2, total: 3 };
    assert_eq!(
        maintenance_hint(&s, 10, Some(progress)),
        "running in background: step 2/3 (7s elapsed, 300s limit per step)"
    );
    let off = MemorySettings { memory_maintenance: false, ..s };
    assert_eq!(maintenance_hint(&off, 10, None), "disabled in settings");
    let mut p = MemoryPanel::new();
    assert_eq!(p.settings_after(&s, &s), None);
    // Any change counts, that of the injection mode too.
    let changed = MemorySettings { injection_mode: InjectionMode::Off, ..s };
    assert_eq!(p.settings_after(&s, &changed), Some(changed));
    assert_eq!(tags_label(&vec![]), None);
    assert_eq!(tags_label(&vec!["a".to_string(), "b".to_string()]).unwrap(), "#a #b");
    assert_eq!(short_id("0123456789abcdef"), "01234567");
    assert_eq!(format_age(None), 0);
    let now = chrono::Utc::now().timestamp();
    assert_eq!(format_age(Some((now, 0))), 0);
    assert_eq!(format_age(Some((now + 1_000_000, 0))), 0);
    assert_eq!(format_age(Some((now - 3 * 86_400 - 60, 999_999_999))), 3);
    assert_eq!(format_age(Some((now - 3 * 86_400 + 60, 0))), 2);
    assert!(format_age(Some((-86_400, 0))) > 18_000);
    assert!(format_age(Some((-1_000_000_000_000, 0))) >= 11_574_074);
    assert_eq!(format_age(Some((i64::MAX, 0))), 0);
    let day = 86_400;
    assert_eq!(age_between((0, 1), (day, 0)), 0);
    assert_eq!(age_between((0, 1), (day, 1)), 1);
    assert_eq!(age_between((day, 0), (0, 0)), 0);
    assert_eq!(age_between((-1, 0), (10 * day, 0)), 10);
    // The whole range of times can be counted over.
    assert_eq!(
        age_between((-8_000_000_000_000, 0), (8_210_266_876_799, 999_999_999)),
        (16_210_266_876_799 / day) as u64
    );
    assert_eq!((age_of(Some(7)), age_of(Some(-7)), age_of(None)), (7, 0, 0));
}

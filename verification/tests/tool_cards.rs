//! Tests of the tool cards and of the results that they show.

use wuffagent_egui::theme::Theme;
use wuffagent_egui::chat_area::{format_duration, live_tail, tool_icon};
use wuffagent_egui::event_handler::{tool_complete_message, tool_error_message};
use wuffagent_egui::json::{json_value_to_string, read_json};
use wuffagent_egui::tool_cards::{elide_path, parse_tool_card, tool_result_summary};
use wuffagent_egui::tool_json::{tool_result_view, ToolResultView};

#[test]
fn summaries_of_shell_results() {
    assert_eq!(tool_result_summary("  \n"), "(no output)");
    assert_eq!(tool_result_summary("{\"exit_code\":0}"), "✓ exit 0");
    assert_eq!(
        tool_result_summary("{\"exit_code\":0,\"stdout\":\"a\\nb\\n\",\"stderr\":\"\"}"),
        "✓ exit 0 · 2 stdout lines"
    );
    assert_eq!(
        tool_result_summary("{\"exit_code\":2,\"stdout\":\"a\",\"stderr\":\"b\"}"),
        "✗ exit 2 · 1 stdout line · 1 stderr line"
    );
    assert_eq!(tool_result_summary("{\"exit_code\":1,\"stderr\":\"b\\nc\"}"), "✗ exit 1 · 2 stderr lines");
    // A negative code is no unsigned number.
    assert_eq!(tool_result_summary("{\"exit_code\":-1}"), "16 chars");
}

#[test]
fn summaries_of_file_results() {
    assert_eq!(tool_result_summary("{\"path\":\"a\",\"entries\":[1,2,3]}"), "a · 3 entries");
    assert_eq!(tool_result_summary("{\"path\":\"a\",\"content\":\"x\\ny\"}"), "a · 2 lines");
    assert_eq!(
        tool_result_summary("{\"path\":\"a\",\"content\":\"x\",\"total_lines\":77}"),
        "a · 77 lines"
    );
    assert_eq!(tool_result_summary("{\"path\":\"a\",\"bytes_written\":5}"), "✓ 5 bytes written");
    assert_eq!(tool_result_summary("{\"path\":\"a\",\"success\":true}"), "✓ done");
    assert_eq!(tool_result_summary("{\"path\":\"a\",\"success\":false}"), "a");
    assert_eq!(tool_result_summary("{\"matches\":[1]}"), "1 match");
    assert_eq!(tool_result_summary("{\"matches\":[],\"files_searched\":4}"), "0 matches in 4 files");
    assert_eq!(tool_result_summary("{\"expression\":\"1+1\",\"result\":2}"), "1+1 = 2");
    assert_eq!(tool_result_summary("{\"expression\":\"1/4\",\"result\":0.25}"), "1/4 = 0.25");
    assert_eq!(tool_result_summary("{\"expression\":\"x\"}"), "18 chars");
    // The length is in bytes.
    assert_eq!(tool_result_summary("[\"é\"]"), "6 chars");
}

#[test]
fn summaries_of_plain_results() {
    assert_eq!(tool_result_summary(" one line "), "one line");
    assert_eq!(tool_result_summary("first \nsecond\nthird"), "first … (3 lines)");
    let long = "é".repeat(73);
    assert_eq!(tool_result_summary(&long), format!("{}…", "é".repeat(72)));
    assert_eq!(tool_result_summary(&"é".repeat(72)), "é".repeat(72));
}

#[test]
fn cards_read_back_from_messages() {
    let done = tool_complete_message("shell", "call-1", "{\"exit_code\":0}", "unused", "ls -la", 42);
    assert_eq!(done, "🔧 shell: ls -la||call-1||{\"exit_code\":0}||42");
    let card = parse_tool_card(&done);
    assert_eq!(card.name, "shell");
    assert_eq!(card.args, "ls -la");
    assert_eq!(card.summary, "✓ exit 0");
    assert!(!card.is_error);
    assert_eq!(card.duration_ms, Some(42));
    assert_eq!(card.raw_result, "{\"exit_code\":0}");

    let untimed = tool_complete_message("shell", "call-1", "ok", "🔧 shell: ok", "", 0);
    assert_eq!(untimed, "🔧 shell: ok||call-1||ok");
    let card = parse_tool_card(&untimed);
    assert_eq!((card.name.as_str(), card.args.as_str()), ("shell", ""));
    assert_eq!(card.duration_ms, None);

    let failed = tool_error_message("shell", "call-1", "denied", "rm x", 7);
    assert_eq!(failed, "✗ shell: rm x — denied||call-1||denied||7");
    let card = parse_tool_card(&failed);
    assert!(card.is_error);
    assert_eq!(
        (card.name.as_str(), card.args.as_str(), card.summary.as_str()),
        ("shell", "rm x", "denied")
    );
    assert_eq!(card.duration_ms, Some(7));

    let bare = tool_error_message("shell", "call-1", "denied", "", 0);
    assert_eq!(bare, "Tool 'shell' error: denied||call-1||denied||");
    let card = parse_tool_card(&bare);
    assert!(card.is_error);
    assert_eq!((card.name.as_str(), card.summary.as_str()), ("shell", "denied"));
    assert_eq!(card.duration_ms, None);
}

#[test]
fn cards_of_odd_messages() {
    let card = parse_tool_card("just text");
    assert_eq!((card.name.as_str(), card.summary.as_str()), ("Tool", "just text"));
    let card = parse_tool_card("||id||result");
    assert_eq!((card.name.as_str(), card.summary.as_str()), ("Tool", "result"));
    // Two parts only: the whole content is the result.
    let card = parse_tool_card("🔧 time||x");
    assert_eq!((card.name.as_str(), card.raw_result.as_str()), ("time", "🔧 time||x"));
    // A header of symbols alone names no tool.
    let card = parse_tool_card(": !||id||r");
    assert_eq!(card.name, "Tool");
    // A letter beyond ASCII starts a name; a symbol beyond ASCII does not.
    let card = parse_tool_card("🔧 élan(x)||id||r");
    assert_eq!(card.name, "élan");
    // An error with nothing behind the dash.
    let card = parse_tool_card("✗ a: b — ||id||r");
    assert_eq!((card.args.as_str(), card.summary.as_str()), ("b —", ""));
}

#[test]
fn views_of_results() {
    match tool_result_view("{\"exit_code\":3,\"stdout\":\"a\\nb\",\"duration_ms\":5,\"truncated\":true}") {
        ToolResultView::Shell { exit_code, duration_ms, truncated, stdout, stderr } => {
            assert_eq!((exit_code, duration_ms, truncated), (3, Some(5), true));
            assert_eq!(stdout.unwrap().lines, vec!["a", "b"]);
            assert!(stderr.is_none());
        }
        _ => panic!("not a shell result"),
    }
    let lines: Vec<String> = (0..301).map(|i| i.to_string()).collect();
    let text = format!("{{\"exit_code\":0,\"stdout\":\"{}\"}}", lines.join("\\n"));
    match tool_result_view(&text) {
        ToolResultView::Shell { stdout, .. } => {
            let block = stdout.unwrap();
            assert_eq!(block.lines.len(), 300);
            assert_eq!(block.more.as_deref(), Some("… (1 more lines)"));
        }
        _ => panic!("not a shell result"),
    }
    match tool_result_view("{\"path\":\"p\",\"entries\":[\"x\",{\"name\":\"n\",\"type\":\"dir\",\"size\":4},{}]}") {
        ToolResultView::Directory { path, entries } => {
            assert_eq!(path, "p");
            assert_eq!(entries.unwrap().lines, vec!["x", "n  [dir  4 bytes]", "?  [file]"]);
        }
        _ => panic!("not a directory"),
    }
    match tool_result_view("{\"path\":\"p\",\"bytes_written\":1}") {
        ToolResultView::Written { note, .. } => {
            assert_eq!(note.as_deref(), Some("✓ Written 1 byte"));
        }
        _ => panic!("not a write"),
    }
    match tool_result_view("{\"path\":\"p\",\"success\":true}") {
        ToolResultView::Written { note, .. } => {
            assert_eq!(note.as_deref(), Some("✓ File written successfully"));
        }
        _ => panic!("not a write"),
    }
    match tool_result_view("{\"b\":[1,null],\"a\":{\"c\":true}}") {
        ToolResultView::Fields { rows } => {
            let shown: Vec<(String, String)> =
                rows.into_iter().map(|r| (r.key.unwrap(), r.value)).collect();
            let wanted: Vec<(String, String)> = serde_json::from_str::<serde_json::Value>(
                "{\"b\":[1,null],\"a\":{\"c\":true}}",
            )
            .unwrap()
            .as_object()
            .unwrap()
            .iter()
            .map(|(k, _)| {
                let v = if k == "a" { "{c: true}" } else { "[1, null]" };
                (format!("{}:", k), v.to_string())
            })
            .collect();
            assert_eq!(shown, wanted);
        }
        _ => panic!("not fields"),
    }
    match tool_result_view("{\"expression\":\"2*3\",\"result\":6.5}") {
        ToolResultView::Calculation { expression, result } => {
            assert_eq!((expression.as_str(), result.as_str()), ("2*3", "6.5"));
        }
        _ => panic!("not a calculation"),
    }
    assert!(matches!(tool_result_view("[1]"), ToolResultView::Plain { .. }));
    assert!(matches!(tool_result_view("text"), ToolResultView::Plain { .. }));
    assert!(matches!(tool_result_view(" "), ToolResultView::NoOutput));
}

#[test]
fn json_values_as_text() {
    for (json, shown) in [
        ("null", "null"),
        ("true", "true"),
        ("-3", "-3"),
        ("2.50", "2.5"),
        ("1e3", "1000.0"),
        ("\"q\\\"\"", "q\""),
        ("[]", "[]"),
        ("[1, \"a\", {}]", "[1, a, {}]"),
        ("{\"k\": [false]}", "{k: [false]}"),
    ] {
        assert_eq!(json_value_to_string(&read_json(json).unwrap()), shown);
    }
    assert!(read_json("{").is_none());
    assert!(read_json("").is_none());
}

#[test]
fn durations_and_icons() {
    assert_eq!(format_duration(42), "42ms");
    assert_eq!(format_duration(999), "999ms");
    assert_eq!(format_duration(1300), "1.3s");
    assert_eq!(format_duration(125_000), "2m 05s");
    for ms in (1000..60_000).step_by(7) {
        assert_eq!(format_duration(ms), format!("{:.1}s", ms as f64 / 1000.0));
    }
    for ms in [60_000, 61_999, 3_599_999, u64::MAX] {
        let wanted = format!("{}m {:02}s", ms / 60_000, (ms % 60_000) / 1000);
        assert_eq!(format_duration(ms), wanted);
    }
    assert_eq!(tool_icon("shell"), "⚡");
    assert_eq!(tool_icon("apply_diff"), "✏️");
    assert_eq!(tool_icon("delete_memory"), "🧠");
    assert_eq!(tool_icon("unknown"), "🔧");
}

#[test]
fn paths_and_tails_are_cut() {
    assert_eq!(elide_path("short", 10), "short");
    assert_eq!(elide_path("/a/long/path/to/file.rs", 8), "…file.rs");
    assert_eq!(elide_path("abc", 1), "abc");
    assert!(live_tail("").is_empty());
    assert_eq!(live_tail("only"), vec!["only"]);
    assert_eq!(live_tail("1\n2\n3\n4\n5\n6\n7\n"), vec!["2", "3", "4", "5", "6", "7"]);
}

#[test]
fn headers_of_cards() {
    let theme = Theme::dark();
    let header = parse_tool_card("🔧 shell: ls||1||{\"exit_code\":0}||1300").header(false, &theme);
    assert_eq!((header.chevron, header.title.as_str()), ("▸", "⚡ shell"));
    assert_eq!((header.args.as_str(), header.summary.as_str()), ("ls", "✓ exit 0"));
    assert_eq!(header.duration.as_deref(), Some("· 1.3s"));
    assert_eq!(header.title_color, theme.accent);
    let header = parse_tool_card("✗ x: a — bad||1||bad||").header(true, &theme);
    assert_eq!((header.chevron, header.summary.as_str()), ("▾", "✗ bad"));
    assert_eq!(header.duration, None);
    assert_eq!((header.title_color, header.summary_color), (theme.warning, theme.warning));
}

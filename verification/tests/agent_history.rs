//! Tests of the snapshot history.

use wuffagent_egui::agent_history::{
    format_ts, label_time, list_history, parse_ts_seq, preview_of, prompt_preview, revert,
    SnapshotFile, SnapshotList,
};

fn file(dir: &str, name: &str) -> SnapshotFile {
    SnapshotFile {
        path: format!("{}/history/{}", dir, name),
        file_name: Some(name.to_string()),
    }
}

fn listing(dir: &str, names: &[&str]) -> SnapshotList {
    SnapshotList {
        dir: dir.to_string(),
        files: Some(names.iter().map(|n| file(dir, n)).collect()),
    }
}

#[test]
fn test_parse_ts_seq() {
    assert_eq!(parse_ts_seq("1234"), (1234, 0));
    assert_eq!(parse_ts_seq("1234-7"), (1234, 7));
    assert_eq!(parse_ts_seq("junk"), (0, 0));
    assert_eq!(parse_ts_seq(""), (0, 0));
    assert_eq!(parse_ts_seq("12-abc"), (12, 0));
}

#[test]
fn parse_ts_seq_reads_numbers_as_std_does() {
    for tail in [
        "+5", "+", "-5", "5-+7", "007", "18446744073709551615", "18446744073709551616",
        "1-4294967295", "1-4294967296", "1-2-3", "1 ", "٣",
    ] {
        let mut parts = tail.splitn(2, '-');
        let ts = parts.next().and_then(|t| t.parse::<u64>().ok()).unwrap_or(0);
        let seq = parts.next().and_then(|s| s.parse::<u32>().ok()).unwrap_or(0);
        assert_eq!(parse_ts_seq(tail), (ts, seq), "{}", tail);
    }
}

#[test]
fn test_format_ts() {
    assert_eq!(format_ts(0), "1970-01-01 00:00 UTC");
    // 2020-01-01 00:00:00 UTC
    assert_eq!(format_ts(1577836800), "2020-01-01 00:00 UTC");
}

#[test]
fn a_time_out_of_range_is_shown_as_a_number() {
    assert_eq!(format_ts(9_000_000_000_000_000), "timestamp 9000000000000000");
    assert_eq!(label_time(7, None), "timestamp 7");
    assert_eq!(label_time(7, Some("then".to_string())), "then");
}

#[test]
fn test_list_history_spans_dirs_newest_first() {
    // "cap" lives in dir_b, "other" in dir_a.
    let lists = |name: &str| {
        vec![
            listing("dir_a", if name == "other" { &["other-100.json"] } else { &[] }),
            listing("dir_b", if name == "cap" { &["cap-100.json", "cap-101.json"] } else { &[] }),
        ]
    };
    let cap = list_history(&lists("cap"), "cap");
    assert_eq!(cap.len(), 2, "expected 2 snapshots of 'cap'");
    assert!(cap[0].ts >= cap[1].ts, "newest first");
    assert!(cap.iter().all(|e| e.dir == "dir_b"), "snapshots belong to dir_b");
    assert!(cap.iter().all(|e| e.path.starts_with("dir_b/history")));

    let other = list_history(&lists("other"), "other");
    assert_eq!(other.len(), 1);
    assert_eq!(other[0].dir, "dir_a");

    // Unknown agent -> empty, not an error.
    assert!(list_history(&lists("ghost"), "ghost").is_empty());
}

#[test]
fn history_order_and_filters() {
    let lists = vec![
        listing("a", &["cap-5.json", "cap-9-2.json", "cap-9.json", "other-99.json", "cap-junk.json"]),
        SnapshotList { dir: "b".to_string(), files: None },
        // The same directory listed twice gives each snapshot once.
        listing("a/.", &["cap-5.json"]),
        listing("c", &["cap-9-1", "cap-9-2.json"]),
        SnapshotList {
            dir: "d".to_string(),
            files: Some(vec![SnapshotFile { path: "d/x".to_string(), file_name: None }]),
        },
    ];
    let shown: Vec<(String, u64, u32)> = list_history(&lists, "cap")
        .iter()
        .map(|e| (e.path.clone(), e.ts, e.seq))
        .collect();
    assert_eq!(
        shown,
        vec![
            ("a/history/cap-9-2.json".to_string(), 9, 2),
            ("c/history/cap-9-2.json".to_string(), 9, 2),
            ("c/history/cap-9-1".to_string(), 9, 1),
            ("a/history/cap-9.json".to_string(), 9, 0),
            ("a/history/cap-5.json".to_string(), 5, 0),
        ]
    );
}

#[test]
fn a_revert_goes_to_the_directory_of_the_snapshot() {
    let lists = vec![listing("dir", &["cap-1.json", "cap-2.json"])];
    let entries = list_history(&lists, "cap");
    let oldest = &entries[entries.len() - 1];
    let request = revert(&oldest.dir, "cap", oldest);
    assert_eq!(request.dir, "dir");
    assert_eq!(request.name, "cap");
    assert_eq!(request.path, "dir/history/cap-1.json");
}

#[test]
fn test_prompt_preview_truncates_and_flattens() {
    let long = format!("You are a very specific agent. {}", "lorem ipsum dolor sit amet ".repeat(10));
    let content = format!("{{\"name\":\"cap\",\"system_prompt\":\"{}\"}}", long);
    let preview = prompt_preview(Some(&content));
    assert!(!preview.contains('\n'), "preview must be single-line");
    assert!(preview.ends_with("..."), "long preview must be truncated: {}", preview);
    assert!(preview.starts_with("You are a very specific agent."));
    assert_eq!(preview.chars().count(), 60);

    // Unreadable file.
    assert_eq!(prompt_preview(None), "(unreadable)");
}

#[test]
fn previews_of_odd_files() {
    assert_eq!(prompt_preview(Some("no json")), "");
    assert_eq!(prompt_preview(Some("{\"name\":\"x\"}")), "");
    assert_eq!(prompt_preview(Some("{\"system_prompt\":7}")), "");
    assert_eq!(prompt_preview(Some("{\"system_prompt\":\"a\\n\\t b\"}")), "a b");
    assert_eq!(preview_of(&"x".repeat(60)), "x".repeat(60));
    assert_eq!(preview_of(&"x".repeat(61)), format!("{}...", "x".repeat(57)));
}

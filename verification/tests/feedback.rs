//! Tests of the ratings and the lessons that they leave.

use wuffagent_egui::chat_feedback::{
    feedback_lesson, lesson_to_store, remember_feedback, task_snippet_for,
};
use wuffagent_egui::types::{ChatMessage, MemoryType, MessageKind};

fn snippet(messages: &[ChatMessage], index: usize) -> String {
    task_snippet_for(messages, index)
}

fn msg(role: &str, content: &str) -> ChatMessage {
    ChatMessage {
        role: role.to_string(),
        content: content.to_string(),
        timestamp: String::new(),
        image: None,
        kind: MessageKind::Normal,
    }
}

/// The lesson entry names the rating, the agent (in content AND tag), the task
/// snippet, and the comment (or "none").
#[test]
fn test_feedback_lesson_shape() {
    let entry = feedback_lesson("coder", true, "list the directory", "");
    assert!(matches!(entry.kind, MemoryType::Lesson));
    assert_eq!(entry.source, "user-feedback");
    assert!(entry.tags.contains(&"user-feedback".to_string()), "tags: {:?}", entry.tags);
    assert!(entry.tags.contains(&"agent:coder".to_string()), "tags: {:?}", entry.tags);
    assert!(entry.content.contains("good"), "{}", entry.content);
    assert!(entry.content.contains("coder"), "{}", entry.content);
    assert!(entry.content.contains("list the directory"), "{}", entry.content);
    assert!(entry.content.contains("none"), "{}", entry.content);

    let bad = feedback_lesson("researcher", false, "summarize the docs", "missed the key API");
    assert!(bad.content.contains("bad"), "{}", bad.content);
    assert!(bad.content.contains("missed the key API"), "{}", bad.content);
    assert!(bad.tags.contains(&"agent:researcher".to_string()));
}

/// With memory disabled the rating is skipped and nothing is stored.
#[test]
fn test_remember_feedback_skipped_when_disabled() {
    assert!(lesson_to_store(false, "coder", true, "t", "").is_none());
    assert_eq!(remember_feedback(false, Ok(())).unwrap(), false);
    assert_eq!(remember_feedback(false, Err("full".to_string())).unwrap(), false);
}

#[test]
fn a_rating_gives_the_same_lesson_each_time() {
    let a = lesson_to_store(true, "coder", false, "list the directory", "").unwrap();
    let b = lesson_to_store(true, "coder", false, "list the directory", "").unwrap();
    assert_eq!(a.content, b.content);
    assert_eq!(a.tags, vec!["user-feedback".to_string(), "agent:coder".to_string()]);
    let other = lesson_to_store(true, "coder", true, "implement the retry logic", "").unwrap();
    assert_ne!(a.content, other.content);
}

#[test]
fn a_rating_is_stored_or_the_error_is_passed_on() {
    assert_eq!(remember_feedback(true, Ok(())), Ok(true));
    assert_eq!(remember_feedback(true, Err("full".to_string())), Err("full".to_string()));
}

/// The task snippet is the nearest PRECEDING user message, truncated to ~200
/// chars; empty when there is none.
#[test]
fn test_task_snippet_for() {
    let messages = vec![
        msg("user", "first request"),
        msg("assistant", "first answer"),
        msg("user", "second request"),
        msg("assistant", "second answer"),
    ];
    assert_eq!(snippet(&messages, 1), "first request");
    // The assistant at index 3 was answering the "second" request.
    assert_eq!(snippet(&messages, 3), "second request");
    // No preceding user message.
    assert_eq!(snippet(&messages, 0), "");

    let long = vec![msg("user", &"x".repeat(500)), msg("assistant", "a")];
    let s = snippet(&long, 1);
    assert!(s.chars().count() <= 201, "snippet must be bounded: {} chars", s.chars().count());
    assert!(s.ends_with('…'));
}

#[test]
fn snippets_at_the_edges() {
    let exact = vec![msg("user", &"é".repeat(200)), msg("assistant", "a")];
    assert_eq!(snippet(&exact, 1), "é".repeat(200));
    let over = vec![msg("user", &"é".repeat(201)), msg("assistant", "a")];
    assert_eq!(snippet(&over, 1), format!("{}…", "é".repeat(200)));
    // An index past the end looks at the whole chat.
    assert_eq!(snippet(&over, 99), format!("{}…", "é".repeat(200)));
    assert_eq!(snippet(&[], 3), "");
}

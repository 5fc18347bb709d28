//! Tests of the chat: sending, events, messages and images.

use wuffagent_egui::bubbles::bubble_colors;
use wuffagent_egui::chat_area::{
    date_separators, day_label, display_content, label_day, shows_feedback_row, shows_tool_card,
    strip_thinking_tags, DisplaySnapshot,
};
use wuffagent_egui::chat_feedback::remember_feedback;
use wuffagent_egui::chat_state::{
    AppStatus, ChatApp, ChatArea, ChatEffect, PromptProgress, QueuedMessage, SessionRuntime,
    ToolPolicy,
};
use wuffagent_egui::event_handler::AppEvent;
use wuffagent_egui::image_loader::{BytesPoll, ImageBytesLoader, ImagePoll};
use wuffagent_egui::images::{
    check_pixels, image_data_uri, message_image, pending_image_b64, uri_of_hash,
};
use wuffagent_egui::input_bar::RunButton;
use wuffagent_egui::theme::{Rgba, Theme};
use wuffagent_egui::input::{continue_note, length_notice, validate_input};
use wuffagent_egui::messages::{is_expanded, toggle_expanded, FeedbackClicks};
use wuffagent_egui::types::{ChatMessage, MessageKind, ReasoningEffort};

fn message(role: &str, content: &str) -> ChatMessage {
    ChatMessage {
        kind: MessageKind::Normal,
        role: role.to_string(),
        content: content.to_string(),
        timestamp: "t".to_string(),
        image: None,
    }
}

fn chat() -> ChatArea {
    ChatArea {
        messages: vec![],
        input_text: String::new(),
        stream_buffer: String::new(),
        current_thinking: String::new(),
        is_generating: false,
        pending_error: None,
        pending_image: None,
        queued_messages: vec![],
        active_tools: vec![],
        prompt_progress: None,
        token_count: 0,
        status: AppStatus::Stopped,
        expanded_messages: vec![],
        editing_message_index: None,
        editing_message_content: String::new(),
        message_ratings: vec![],
        feedback_comment_for: None,
        feedback_comment: String::new(),
    }
}

fn session(id: &str) -> SessionRuntime {
    SessionRuntime {
        id: id.to_string(),
        name: id.to_string(),
        selected_agent: None,
        chat: chat(),
        conversation: vec![],
    }
}

fn app() -> ChatApp {
    ChatApp::new(vec![session("a"), session("b")], Some("a".to_string()), ReasoningEffort::Low)
}

fn send(app: &mut ChatApp, text: &str, effects: &mut Vec<ChatEffect>) -> bool {
    app.sessions[0].chat.input_text = text.to_string();
    app.handle_send_input(text, "prompt".to_string(), ToolPolicy::Unrestricted, "now", effects)
}

fn started(effects: &[ChatEffect]) -> Vec<String> {
    effects
        .iter()
        .filter_map(|e| match e {
            ChatEffect::StartPipeline { text, .. } => Some(text.clone()),
            _ => None,
        })
        .collect()
}

fn event(app: &mut ChatApp, e: AppEvent) -> Vec<ChatEffect> {
    let mut effects = vec![];
    app.handle_event(e, 2000, "now", &mut effects);
    effects
}

#[test]
fn messages_are_checked() {
    assert!(validate_input("hello").is_ok());
    assert_eq!(validate_input(" \n").unwrap_err(), "Message cannot be empty");
    assert!(validate_input(&"x".repeat(4000)).is_ok());
    assert_eq!(
        validate_input(&"x".repeat(4001)).unwrap_err(),
        "Message too long (max 4000 characters)"
    );
    // The limit counts bytes.
    assert!(validate_input(&"é".repeat(2000)).is_ok());
    assert!(validate_input(&"é".repeat(2001)).is_err());
    assert_eq!(length_notice(4000), None);
    assert_eq!(
        length_notice(4001).unwrap(),
        "Message too long (max 4000 characters, current: 4001)"
    );
    assert_eq!(continue_note(), "Continue from where you left off.");
}

#[test]
fn a_message_starts_a_run_and_the_next_one_waits() {
    let mut app = app();
    let mut effects = vec![];
    send(&mut app, "first", &mut effects);
    assert!(app.sessions[0].chat.is_generating);
    assert_eq!(app.sessions[0].chat.messages.len(), 1);
    assert_eq!(app.sessions[0].chat.messages[0].content, "first");
    assert_eq!(app.sessions[0].chat.messages[0].role, "user");
    assert!(matches!(app.status, AppStatus::Generating));
    assert_eq!(started(&effects), vec!["first"]);

    effects.clear();
    send(&mut app, "second", &mut effects);
    send(&mut app, "third", &mut effects);
    assert!(started(&effects).is_empty());
    let notices: Vec<&str> = effects
        .iter()
        .filter_map(|e| match e {
            ChatEffect::Notify { text, .. } => Some(text.as_str()),
            _ => None,
        })
        .collect();
    assert_eq!(
        notices,
        vec![
            "Queued — will run after the current task (1 waiting)",
            "Queued — will run after the current task (2 waiting)",
        ]
    );
    let waiting: Vec<&str> =
        app.sessions[0].chat.queued_messages.iter().map(|q| q.text.as_str()).collect();
    assert_eq!(waiting, vec!["second", "third"]);

    // The end of the run takes up the queue, first in first out.
    let done = AppEvent::StreamComplete {
        session_id: "a".to_string(),
        content: "answer".to_string(),
        total_tokens: Some(12),
    };
    let effects = event(&mut app, done);
    assert_eq!(started(&effects), vec!["second"]);
    assert!(app.sessions[0].chat.is_generating);
    assert_eq!(app.sessions[0].chat.queued_messages.len(), 1);
    assert_eq!(app.sessions[0].chat.token_count, 12);
    assert!(effects.iter().any(|e| matches!(e, ChatEffect::SaveSession { .. })));
    // The other session is as it was.
    assert!(!app.sessions[1].chat.is_generating);
    assert!(app.sessions[1].chat.messages.is_empty());
}

#[test]
fn a_refused_message_leaves_an_error() {
    let mut app = app();
    let mut effects = vec![];
    app.sessions[0].chat.input_text = "  ".to_string();
    app.send_message_to_session("a", String::new(), ToolPolicy::Unrestricted, "now", &mut effects);
    assert_eq!(app.sessions[0].chat.pending_error.as_deref(), Some("Message cannot be empty"));
    assert!(!app.sessions[0].chat.is_generating);
    assert!(effects.is_empty());
    // An unknown session is left alone.
    app.send_message_to_session("zz", String::new(), ToolPolicy::Unrestricted, "now", &mut effects);
    assert!(effects.is_empty());
}

#[test]
fn a_run_asks_for_what_it_needs() {
    let mut app = app();
    app.remote_n_ctx = 8192;
    let mut effects = vec![];
    app.sessions[0].chat.input_text = " hi ".to_string();
    app.send_message_to_session("a", "p".to_string(), ToolPolicy::Unrestricted, "now", &mut effects);
    let run = effects
        .iter()
        .find_map(|e| match e {
            ChatEffect::StartPipeline { session_id, text, agent_prompt, n_ctx, reasoning_effort, image_data_uri, .. } => {
                Some((session_id.clone(), text.clone(), agent_prompt.clone(), *n_ctx, *reasoning_effort, image_data_uri.clone()))
            }
            _ => None,
        })
        .unwrap();
    assert_eq!(
        run,
        ("a".to_string(), "hi".to_string(), "p".to_string(), 8192, ReasoningEffort::Low, None)
    );
    assert!(effects.iter().any(|e| matches!(e, ChatEffect::CancelPipeline { .. })));
}

#[test]
fn a_stop_keeps_the_queue() {
    let mut app = app();
    let mut effects = vec![];
    send(&mut app, "first", &mut effects);
    app.sessions[0].chat.queued_messages.push(QueuedMessage {
        text: "later".to_string(),
        image: None,
        agent_prompt: String::new(),
        tool_policy: ToolPolicy::Unrestricted,
    });
    let effects = event(
        &mut app,
        AppEvent::StreamError { session_id: "a".to_string(), error: "Cancelled".to_string() },
    );
    assert!(started(&effects).is_empty());
    assert_eq!(app.sessions[0].chat.queued_messages.len(), 1);
    assert!(!app.sessions[0].chat.is_generating);
    assert!(matches!(&app.sessions[0].chat.status, AppStatus::Error(e) if e == "Cancelled"));

    // Another error lets the queue go on.
    let effects = event(
        &mut app,
        AppEvent::StreamError { session_id: "a".to_string(), error: "lost".to_string() },
    );
    assert_eq!(started(&effects), vec!["later"]);
}

#[test]
fn tool_calls_open_and_close_cards() {
    let mut app = app();
    let start = |args: &str| AppEvent::ToolCallStart {
        session_id: "b".to_string(),
        tool_name: "shell".to_string(),
        call_id: "1".to_string(),
        args_preview: args.to_string(),
    };
    let mut effects = vec![];
    app.handle_event(start("ls"), 1000, "now", &mut effects);
    app.handle_event(start("again"), 1500, "now", &mut effects);
    assert_eq!(app.sessions[1].chat.active_tools.len(), 1);
    assert_eq!(app.sessions[1].chat.active_tools[0].args_preview, "ls");
    event(
        &mut app,
        AppEvent::ToolCallProgress {
            session_id: "b".to_string(),
            tool_name: "shell".to_string(),
            call_id: "1".to_string(),
            text: "tail".to_string(),
        },
    );
    assert_eq!(app.sessions[1].chat.active_tools[0].live_output, "tail");
    let effects = event(
        &mut app,
        AppEvent::ToolCallComplete {
            session_id: "b".to_string(),
            tool_name: "shell".to_string(),
            call_id: "1".to_string(),
            result: "done".to_string(),
            fallback_header: "unused".to_string(),
        },
    );
    assert!(app.sessions[1].chat.active_tools.is_empty());
    assert!(effects.iter().any(|e| matches!(
        e,
        ChatEffect::PushMessage { kind: MessageKind::Tool, content, .. }
            if content == "🔧 shell: ls||1||done||1000"
    )));
    let effects = event(
        &mut app,
        AppEvent::ToolCallError {
            session_id: "b".to_string(),
            tool_name: "shell".to_string(),
            call_id: "2".to_string(),
            error: "no".to_string(),
        },
    );
    assert!(effects.iter().any(|e| matches!(
        e,
        ChatEffect::PushMessage { content, .. } if content == "Tool 'shell' error: no||2||no||"
    )));
}

#[test]
fn other_events() {
    let mut app = app();
    let effects = event(
        &mut app,
        AppEvent::AgentHandoff {
            session_id: "a".to_string(),
            from: "x".to_string(),
            to: "y".to_string(),
            task: "do".to_string(),
        },
    );
    assert_eq!(app.sessions[0].selected_agent.as_deref(), Some("y"));
    assert!(effects.iter().any(|e| matches!(
        e,
        ChatEffect::PushMessage { role, content, .. }
            if role == "system" && content == "🔀 Handoff: x → y — do"
    )));
    app.sessions[0].chat.current_thinking = "hm".to_string();
    let effects = event(&mut app, AppEvent::StreamThinkingComplete { session_id: "a".to_string() });
    assert_eq!(app.sessions[0].chat.current_thinking, "");
    assert!(effects.iter().any(|e| matches!(
        e,
        ChatEffect::PushMessage { kind: MessageKind::Thinking, content, .. } if content == "hm"
    )));
    let progress = PromptProgress { total: 10, cache: 2, processed: 4 };
    event(
        &mut app,
        AppEvent::StreamPromptProgress { session_id: "a".to_string(), progress, has_speed: false },
    );
    assert_eq!(app.sessions[0].chat.prompt_progress, Some(progress));
    event(
        &mut app,
        AppEvent::StreamRoundComplete { session_id: "a".to_string(), total_tokens: None },
    );
    assert_eq!(app.sessions[0].chat.prompt_progress, None);
    let effects = event(
        &mut app,
        AppEvent::RestartRequested {
            session_id: "a".to_string(),
            reason: "new build".to_string(),
            exe_path: None,
        },
    );
    assert!(effects.iter().any(|e| matches!(e, ChatEffect::Restart { reason, .. } if reason == "new build")));
}

#[test]
fn a_lost_run_is_swept() {
    let mut app = app();
    let mut effects = vec![];
    send(&mut app, "first", &mut effects);
    effects.clear();
    app.sweep_finished_pipelines(&vec![false, true], "now", &mut effects);
    assert!(app.sessions[0].chat.is_generating);
    assert!(effects.is_empty());
    app.sweep_finished_pipelines(&vec![true, true], "now", &mut effects);
    assert!(!app.sessions[0].chat.is_generating);
    assert!(matches!(app.status, AppStatus::Ready));
}

#[test]
fn edits_and_deletions_keep_the_conversation_aligned() {
    let mut app = app();
    for (role, text) in [("user", "q"), ("assistant", "a"), ("user", "r")] {
        app.sessions[0].chat.messages.push(message(role, text));
        app.sessions[0].conversation.push(message(role, text));
    }
    app.begin_edit(1, "a");
    app.sessions[0].chat.editing_message_content = "A".to_string();
    app.commit_message_edit(1);
    assert_eq!(app.sessions[0].chat.messages[1].content, "A");
    assert_eq!(app.sessions[0].conversation[1].content, "A");
    assert_eq!(app.sessions[0].chat.editing_message_index, None);

    // Ratings follow their messages; that of the deleted one is dropped.
    app.sessions[0].chat.message_ratings = vec![(0, false), (1, true), (2, true)];
    app.delete_message(0);
    assert_eq!(app.sessions[0].chat.messages.len(), 2);
    assert_eq!(app.sessions[0].conversation.len(), 2);
    assert_eq!(app.sessions[0].chat.rating(0), Some(true));
    assert_eq!(app.sessions[0].chat.rating(1), Some(true));
    assert_eq!(app.sessions[0].chat.rating(2), None);

    // A conversation of another length is left alone.
    app.sessions[0].conversation.pop();
    app.delete_message(1);
    assert_eq!(app.sessions[0].chat.messages.len(), 1);
    assert_eq!(app.sessions[0].conversation.len(), 1);
}

#[test]
fn ratings() {
    let mut c = chat();
    let clicks = |good: bool, open: bool, save: bool, cancel: bool| FeedbackClicks {
        save_good: good,
        open_bad: open,
        save_bad: save,
        cancel,
        comment: "why".to_string(),
    };
    let saved = c.click_feedback(3, &clicks(true, false, false, false)).unwrap();
    assert!(saved.good);
    assert_eq!(saved.comment, "");
    assert!(c.click_feedback(3, &clicks(false, true, false, false)).is_none());
    assert_eq!(c.feedback_comment_for, Some(3));
    let saved = c.click_feedback(3, &clicks(false, false, true, false)).unwrap();
    assert!(!saved.good);
    assert_eq!(saved.comment, "why");
    c.record_rating(3, false);
    // A rated message takes no second rating.
    assert!(c.click_feedback(3, &clicks(true, false, false, false)).is_none());
    assert!(c.click_feedback(3, &clicks(false, true, true, false)).is_none());
    assert_eq!((c.rating(3), c.feedback_comment_for), (Some(false), None));
    c.record_rating(4, true);
    c.record_rating(3, true);
    assert_eq!((c.rating(3), c.rating(4), c.rating(5)), (Some(true), Some(true), None));
}

#[test]
fn expanded_cards_toggle() {
    let open = toggle_expanded(&vec![1, 4], 2);
    assert!(is_expanded(&open, 2));
    assert_eq!(toggle_expanded(&open, 2), vec![1, 4]);
}

#[test]
fn the_snapshot_follows_the_messages() {
    let mut app = app();
    app.sessions[0].chat.messages.push(message("user", "q"));
    let mut snap = DisplaySnapshot { messages: vec![], session: None, len: 0 };
    app.refresh_snapshot(&mut snap);
    assert_eq!(snap.messages.len(), 1);
    assert_eq!(snap.session.as_deref(), Some("a"));
    app.sessions[0].chat.messages[0].content = "changed".to_string();
    app.display_dirty = true;
    app.refresh_snapshot(&mut snap);
    assert_eq!(snap.messages[0].content, "changed");
    assert!(!app.display_dirty);
}

#[test]
fn shown_texts() {
    assert_eq!(strip_thinking_tags(" <think> a </think> "), "a");
    assert_eq!(strip_thinking_tags("b</think>"), "b");
    let mut m = message("assistant", "<think>x</think>");
    assert_eq!(display_content(&m), "x");
    m.kind = MessageKind::Thinking;
    assert_eq!(display_content(&m), "<think>x</think>");
    assert!(!shows_feedback_row(&m, false));
    m.kind = MessageKind::Tool;
    assert!(shows_tool_card(&m, false));
    assert!(!shows_tool_card(&m, true));
    assert!(shows_feedback_row(&message("assistant", "x"), false));
    assert!(!shows_feedback_row(&message("user", "x"), false));
}

#[test]
fn days() {
    let some = |s: &str| Some(s.to_string());
    assert_eq!(
        date_separators(&vec![some("1"), None, some("1"), some("2"), None, some("1")]),
        vec![false, false, false, true, false, true]
    );
    assert_eq!(label_day("d", "d", "c", some("x")), "Today");
    assert_eq!(label_day("c", "d", "c", some("x")), "Yesterday");
    assert_eq!(label_day("b", "d", "c", some("x")), "x");
    assert_eq!(label_day("b", "d", "c", None), "b");
    assert_eq!(day_label("2026-07-10"), "Fri, Jul 10");
    assert_eq!(day_label("2026-07-03"), "Fri, Jul  3");
    assert_eq!(day_label("no day"), "no day");
    assert_eq!(day_label(""), "");
    let today = chrono::Local::now().format("%Y-%m-%d").to_string();
    let label = day_label(&today);
    assert!(label == "Today" || label == "Yesterday", "{}", label);
    // Three days ago is neither.
    let earlier = (chrono::Local::now() - chrono::TimeDelta::days(3)).format("%Y-%m-%d").to_string();
    let label = day_label(&earlier);
    assert!(label != "Today" && label != "Yesterday", "{}", label);
}

#[test]
fn images_are_attached_and_sent() {
    let mut app = app();
    let pixels: Vec<u8> = vec![255, 0, 0, 255, 0, 255, 0, 128];
    assert!(!app.attach_rgba(2, 1, &vec![0; 7]));
    assert!(!app.attach_rgba(0, 1, &vec![]));
    assert!(app.attach_rgba(2, 1, &pixels));
    let png = {
        let image = app.sessions[0].chat.pending_image.as_ref().unwrap();
        assert_eq!(&image.bytes[..8], &[0x89, b'P', b'N', b'G', 0x0d, 0x0a, 0x1a, 0x0a]);
        assert!(image.uri.starts_with("bytes://attached_image_"), "{}", image.uri);
        assert_eq!(image.uri.len(), "bytes://attached_image_.png".len() + 16);
        image.bytes.clone()
    };
    // The text of a message gives the bytes back, and they decode to the
    // pixels.
    let text = pending_image_b64(&app.sessions[0].chat.pending_image).unwrap();
    assert_eq!(message_image(&text), Some(png.clone()));
    assert_eq!(message_image("!!"), None);
    assert!(image_data_uri(&Some(text)).unwrap().starts_with("data:image/png;base64,iVBORw0KGgo"));
    match ImageBytesLoader.load(&BytesPoll::Ready(png.clone())) {
        ImagePoll::Ready(image) => {
            assert_eq!((image.width, image.height), (2, 1));
            assert_eq!(image.rgba, pixels);
        }
        _ => panic!("not decoded"),
    }
    assert!(matches!(
        ImageBytesLoader.load(&BytesPoll::Ready(b"no image".to_vec())),
        ImagePoll::FormatNotSupported(e) if !e.is_empty()
    ));
    assert!(matches!(ImageBytesLoader.load(&BytesPoll::Pending), ImagePoll::Pending));
    assert!(matches!(ImageBytesLoader.load(&BytesPoll::Missing), ImagePoll::NotMine));

    // Another image has another URI; the same one has the same.
    let uri = app.sessions[0].chat.pending_image.as_ref().unwrap().uri.clone();
    assert!(app.attach_rgba(1, 2, &pixels));
    assert_ne!(app.sessions[0].chat.pending_image.as_ref().unwrap().uri, uri);
    assert!(app.attach_rgba(2, 1, &pixels));
    assert_eq!(app.sessions[0].chat.pending_image.as_ref().unwrap().uri, uri);

    let mut effects = vec![];
    app.sessions[0].chat.input_text = "look".to_string();
    app.send_message_to_session("a", String::new(), ToolPolicy::Unrestricted, "now", &mut effects);
    assert!(app.sessions[0].chat.pending_image.is_none());
    assert!(app.sessions[0].chat.messages[0].image.is_some());

    assert!(app.attach_rgba(2, 1, &pixels));
    app.detach_image();
    assert!(app.sessions[0].chat.pending_image.is_none());
    app.selected_session_id = None;
    assert!(!app.attach_rgba(2, 1, &pixels));
}

#[test]
fn image_sizes() {
    assert!(check_pixels(3, 2, 24));
    assert!(!check_pixels(3, 2, 23));
    assert_eq!(uri_of_hash(0xabc), "bytes://attached_image_0000000000000abc.png");
    assert_eq!(uri_of_hash(u64::MAX), "bytes://attached_image_ffffffffffffffff.png");
}

#[test]
fn the_input_area() {
    let mut app = app();
    let bar = app.input_bar().unwrap();
    assert_eq!(bar.agent_label, "Auto");
    assert_eq!(bar.run_button, RunButton::Nothing);
    assert_eq!(bar.notice, None);
    app.choose_agent(Some("coder".to_string()));
    app.set_input("x".repeat(4001));
    app.sessions[0].chat.messages.push(message("user", "q"));
    let bar = app.input_bar().unwrap();
    assert_eq!(bar.agent_label, "coder");
    assert_eq!(bar.run_button, RunButton::Continue);
    assert_eq!(bar.notice.unwrap(), "Message too long (max 4000 characters, current: 4001)");
    assert_eq!(bar.attach_tooltip, "Attach image (from clipboard, or pick a file)");

    // Blank text is not sent; an accepted message leaves the box empty.
    let mut effects = vec![];
    app.set_input("  ".to_string());
    app.press_send(String::new(), ToolPolicy::Unrestricted, "now", &mut effects);
    assert!(effects.is_empty());
    app.set_input(" go ".to_string());
    app.press_send(String::new(), ToolPolicy::Unrestricted, "now", &mut effects);
    assert_eq!(started(&effects), vec!["go"]);
    assert_eq!(app.input_text_snapshot(), "");
    assert_eq!(app.input_bar().unwrap().run_button, RunButton::Stop);

    // The shortcut queues behind the run; without it the text stays.
    effects.clear();
    let typed = |s: &str| s.to_string();
    app.edit_box(typed("next"), false, typed(""), ToolPolicy::Unrestricted, "now", &mut effects);
    assert_eq!(app.input_text_snapshot(), "next");
    app.edit_box(typed("next"), true, typed(""), ToolPolicy::Unrestricted, "now", &mut effects);
    assert_eq!(app.input_text_snapshot(), "");
    assert_eq!(app.sessions[0].chat.queued_messages.len(), 1);
    app.edit_box("x".repeat(4001), true, typed(""), ToolPolicy::Unrestricted, "now", &mut effects);
    assert_eq!(app.input_text_snapshot().len(), 4001);

    app.selected_session_id = None;
    assert!(app.input_bar().is_none());
}

#[test]
fn the_chat_area() {
    let mut app = app();
    let theme = Theme::dark();
    let frame = app.chat_frame();
    assert!(frame.is_empty && frame.error.is_none() && frame.streaming.is_none());
    app.sessions[0].chat.pending_error = Some("bad".to_string());
    app.sessions[0].chat.is_generating = true;
    let frame = app.chat_frame();
    assert_eq!(frame.error.as_deref(), Some("⚠  bad"));
    assert!(!frame.is_empty);
    assert!(frame.streaming.unwrap().dots);
    app.sessions[0].chat.stream_buffer = "so far".to_string();
    let line = app.chat_frame().streaming.unwrap();
    assert!(!line.dots);
    assert_eq!((line.thinking, line.text.as_deref()), (None, Some("so far")));

    let white = Rgba { r: 255, g: 255, b: 255, a: 255 };
    assert_eq!(bubble_colors(&message("user", "x"), &theme), (theme.user_bg, white));
    assert_eq!(
        bubble_colors(&message("assistant", "x"), &theme),
        (theme.ai_bg, theme.text_primary)
    );
}

#[test]
fn a_rating_is_marked_when_stored_or_skipped() {
    let failed = Err("full".to_string());
    for (enabled, stored, marked) in
        [(true, Ok(()), true), (true, failed.clone(), false), (false, failed, true)]
    {
        let mut app = app();
        app.sessions[0].chat.messages.push(message("user", "q"));
        app.sessions[0].chat.messages.push(message("assistant", "a"));
        let entry = app.feedback_entry(1, true, "", enabled);
        assert_eq!(entry.is_some(), enabled);
        let outcome = remember_feedback(enabled, stored);
        assert_eq!(outcome.is_ok(), marked);
        app.save_message_feedback(1, true, &outcome);
        assert_eq!(app.sessions[0].chat.rating(1), if marked { Some(true) } else { None });
    }
}

#[test]
fn what_is_given_is_what_is_sent() {
    // The box still holds other text when the message is sent.
    for boxed in ["", "older"] {
        let mut app = app();
        app.set_input(boxed.to_string());
        let mut effects = vec![];
        let policy = ToolPolicy::Unrestricted;
        assert!(app.handle_send_input(" hello ", String::new(), policy, "now", &mut effects));
        assert_eq!(started(&effects), vec!["hello"]);
        assert_eq!(app.sessions[0].chat.messages[0].content, "hello");
        assert_eq!(app.sessions[0].chat.pending_error, None);
    }
    // A session that is gone takes no message.
    let mut app = app();
    app.selected_session_id = Some("gone".to_string());
    let mut effects = vec![];
    assert!(!app.handle_send_input("x", String::new(), ToolPolicy::Unrestricted, "now", &mut effects));
    assert!(effects.is_empty());
}

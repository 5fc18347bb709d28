//! User feedback on assistant answers.
//!
//! Each rating is recorded as a lesson in the memory, tagged with the agent
//! profile that produced the answer, so that the self-improvement can weigh it.

use vstd::prelude::*;

use crate::pieces::{char_count, first_chars, take_chars};
use crate::text::{is_blank, same_text, trim, trimmed};
use crate::types::{message_views, ChatMessage, MemoryEntry, MemoryType, MemoryView, MessageView};

verus! {

/// The lesson that a rating leaves.
pub open spec fn rating_lesson(
    profile_name: Seq<char>,
    good: bool,
    task_snippet: Seq<char>,
    comment: Seq<char>,
) -> MemoryView {
    MemoryView {
        kind: MemoryType::Lesson,
        content: "User rated assistant answer "@ + (if good {
            "good"@
        } else {
            "bad"@
        }) + " from agent '"@ + profile_name + "' on '"@ + task_snippet + "'. Comment: "@ + (
        if trim(comment).len() == 0 {
            "none"@
        } else {
            trim(comment)
        }),
        source: "user-feedback"@,
        tags: seq!["user-feedback"@, "agent:"@ + profile_name],
    }
}

/// Build the lesson entry recording a user rating.
///
/// `profile_name` is the agent profile that produced the answer,
/// `task_snippet` a short excerpt of the user request it answered,
/// `comment` the optional comment (empty = none).
pub fn feedback_lesson(profile_name: &str, good: bool, task_snippet: &str, comment: &str) -> (r:
    MemoryEntry)
    ensures
        r@ == rating_lesson(profile_name@, good, task_snippet@, comment@),
{
    let comment = trimmed(comment);
    let mut content = "User rated assistant answer ".to_owned();
    content.append(if good {
        "good"
    } else {
        "bad"
    });
    content.append(" from agent '");
    content.append(profile_name);
    content.append("' on '");
    content.append(task_snippet);
    content.append("'. Comment: ");
    content.append(if comment.as_str().is_empty() {
        "none"
    } else {
        comment.as_str()
    });
    MemoryEntry::about_agent(
        MemoryType::Lesson,
        content,
        "user-feedback",
        "user-feedback",
        profile_name,
    )
}

/// The entry to add to the memory for a rating; `None` where the memory is
/// disabled and the rating is skipped.
pub fn lesson_to_store(
    memory_enabled: bool,
    profile_name: &str,
    good: bool,
    task_snippet: &str,
    comment: &str,
) -> (r: Option<MemoryEntry>)
    ensures
        match r {
            Some(e) => memory_enabled && e@ == rating_lesson(
                profile_name@,
                good,
                task_snippet@,
                comment@,
            ),
            None => !memory_enabled,
        },
{
    if !memory_enabled {
        return None;
    }
    Some(feedback_lesson(profile_name, good, task_snippet, comment))
}

/// Whether a message is a request of the user.
pub open spec fn is_request(m: MessageView) -> bool {
    m.role == "user"@ && trim(m.content).len() > 0
}

/// The last request of the user among the first `n` messages, without white
/// space at its ends; empty where there is none.
pub open spec fn request_before(messages: Seq<MessageView>, n: int) -> Seq<char>
    decreases n,
{
    if n <= 0 {
        Seq::empty()
    } else if is_request(messages[n - 1]) {
        trim(messages[n - 1].content)
    } else {
        request_before(messages, n - 1)
    }
}

/// The excerpt of a request: its first 200 characters.
pub open spec fn excerpt(text: Seq<char>) -> Seq<char> {
    if text.len() > 200 {
        first_chars(text, 200).push('…')
    } else {
        text
    }
}

/// The excerpt of the request that the message at `index` answers.
pub open spec fn snippet_for(messages: Seq<MessageView>, index: int) -> Seq<char> {
    excerpt(
        request_before(
            messages,
            if index < messages.len() {
                index
            } else {
                messages.len() as int
            },
        ),
    )
}

/// What became of a rating: skipped, because the memory is off; stored; or
/// refused by the store, with the store's error.
pub open spec fn rating_outcome(memory_enabled: bool, stored: Result<(), String>) -> Result<
    bool,
    String,
> {
    if !memory_enabled {
        Ok(false)
    } else {
        match stored {
            Ok(_) => Ok(true),
            Err(e) => Err(e),
        }
    }
}

/// Take in how the store took the lesson of a rating; with the memory off none
/// was handed to it. `Ok(true)` = saved, `Ok(false)` = skipped (memory
/// disabled), `Err` = store failure.
pub fn remember_feedback(memory_enabled: bool, stored: Result<(), String>) -> (r: Result<
    bool,
    String,
>)
    ensures
        r == rating_outcome(memory_enabled, stored),
        !memory_enabled <==> r == Ok::<bool, String>(false),
        memory_enabled && stored is Ok <==> r == Ok::<bool, String>(true),
{
    if !memory_enabled {
        return Ok(false);
    }
    match stored {
        Ok(_) => Ok(true),
        Err(e) => Err(e),
    }
}

/// A short snippet of the user request the assistant message at
/// `assistant_index` was answering (the nearest preceding user message,
/// truncated). Empty when there is no preceding user message.
pub fn task_snippet_for(messages: &[ChatMessage], assistant_index: usize) -> (r: String)
    ensures
        r@ == snippet_for(message_views(messages@), assistant_index as int),
{
    let mut n: usize = if assistant_index < messages.len() {
        assistant_index
    } else {
        messages.len()
    };
    let ghost views = message_views(messages@);
    let ghost goal = request_before(views, n as int);
    let mut text = String::new();
    let mut searching = true;
    while searching && n > 0
        invariant
            views == message_views(messages@),
            n <= messages@.len(),
            searching ==> goal == request_before(views, n as int),
            searching ==> text@ == Seq::<char>::empty(),
            !searching ==> text@ == goal,
        decreases n,
    {
        n -= 1;
        let m = &messages[n];
        assert(m@ == views[n as int]);
        if same_text(m.role.as_str(), "user") && !is_blank(m.content.as_str()) {
            text = trimmed(m.content.as_str());
            searching = false;
        }
    }
    if char_count(text.as_str()) > 200 {
        let mut t = take_chars(text.as_str(), 200);
        t.push('…');
        t
    } else {
        text
    }
}

// ---------------------------------------------------------------------------
// Laws
// ---------------------------------------------------------------------------

/// A snippet takes at most 201 characters.
pub proof fn snippet_is_bounded(messages: Seq<MessageView>, index: int)
    ensures
        snippet_for(messages, index).len() <= 201,
{
}

/// What stands at or behind the rated message does not change its snippet.
pub proof fn snippet_looks_only_back(a: Seq<MessageView>, b: Seq<MessageView>, index: int)
    requires
        0 <= index <= a.len(),
        index <= b.len(),
        forall|i: int| 0 <= i < index ==> a[i] == b[i],
    ensures
        snippet_for(a, index) == snippet_for(b, index),
{
    lemma_request_before(a, b, index);
}

proof fn lemma_request_before(a: Seq<MessageView>, b: Seq<MessageView>, n: int)
    requires
        0 <= n <= a.len(),
        n <= b.len(),
        forall|i: int| 0 <= i < n ==> a[i] == b[i],
    ensures
        request_before(a, n) == request_before(b, n),
    decreases n,
{
    if n > 0 {
        lemma_request_before(a, b, n - 1);
    }
}

} // verus!

//! What editing, deleting and rating a message does, and what a chat shows.

use vstd::prelude::*;

use crate::bubbles::{card_title, frames, ChatFrame};
use crate::chat_area::{
    bubble_text, days_at, duration_text, icon_of, label_of_day, last_day, rewritten_day,
    selected_messages, separated, short_date, snapshot_stale, tail_lines, SnapshotState,
};
use crate::chat_feedback::{excerpt, rating_lesson, rating_outcome, request_before, snippet_for};
use crate::chat_state::{AppView, ChatView, SessionView};
use crate::clock::utc_text;
use crate::messages::{
    asked_rating, deleting_keeps_ratings_aligned, edit_committed,
    message_deleted, rated_profile, rating_at, rating_of, rating_saved, row_clicked, toggled_card,
    without_index, FeedbackClicks,
};
use crate::numbers::{decimal, quotient_text};
use crate::pieces::lines;
use crate::send_laws::selected_at;
use crate::stream_laws::lemma_stands;
use crate::text::{find, opt_text, trim};
use crate::types::{MemoryType, MessageKind, MessageView};

verus! {

// ---------------------------------------------------------------------------
// Editing
// ---------------------------------------------------------------------------

/// Whether `b` is `a` with another content at `index`: that message keeps its kind,
/// role, time and image, and every other message is as it was.
pub open spec fn only_content_at(
    a: Seq<MessageView>,
    b: Seq<MessageView>,
    index: int,
    content: Seq<char>,
) -> bool {
    &&& b.len() == a.len()
    &&& b[index].content == content
    &&& b[index].kind == a[index].kind
    &&& b[index].role == a[index].role
    &&& b[index].timestamp == a[index].timestamp
    &&& b[index].image == a[index].image
    &&& forall|i: int| 0 <= i < a.len() && i != index ==> #[trigger] b[i] == a[i]
}

/// A committed edit puts what stood in the editor into the edited message, in the
/// shown messages and in a stored conversation of the same length, and changes no
/// other message. The editor is closed and empty then. A stored conversation of
/// another length stays as it was.
pub proof fn a_committed_edit_is_kept(s: SessionView, index: int)
    requires
        0 <= index < s.chat.messages.len(),
    ensures
        ({
            let after = edit_committed(s, index);
            let typed = s.chat.editing_message_content;
            &&& only_content_at(s.chat.messages, after.chat.messages, index, typed)
            &&& s.conversation.len() == s.chat.messages.len() ==> only_content_at(
                s.conversation,
                after.conversation,
                index,
                typed,
            )
            &&& s.conversation.len() != s.chat.messages.len() ==> after.conversation
                == s.conversation
            &&& after.chat == (ChatView {
                messages: after.chat.messages,
                editing_message_index: None,
                editing_message_content: Seq::empty(),
                ..s.chat
            })
            &&& after == (SessionView {
                chat: after.chat,
                conversation: after.conversation,
                ..s
            })
        }),
{
}

/// Committing an edit of a message that is not there only closes the editor.
pub proof fn an_edit_of_no_message_changes_none(s: SessionView, index: int)
    requires
        index >= s.chat.messages.len(),
    ensures
        edit_committed(s, index) == (SessionView {
            chat: ChatView {
                editing_message_index: None,
                editing_message_content: Seq::empty(),
                ..s.chat
            },
            ..s
        }),
{
}

/// Whether `b` is `a` without the message at `index`: those before it stay, and
/// those behind it move up by one.
pub open spec fn only_without(a: Seq<MessageView>, b: Seq<MessageView>, index: int) -> bool {
    &&& b.len() == a.len() - 1
    &&& forall|i: int| 0 <= i < index ==> #[trigger] b[i] == a[i]
    &&& forall|i: int| index <= i < b.len() ==> #[trigger] b[i] == a[i + 1]
}

/// A deleted message is gone from the shown messages and from a stored
/// conversation of the same length, and no other message is. Its rating and its
/// open comment field go with it; those of the other messages stay with their
/// messages. A stored conversation of another length stays as it was.
pub proof fn a_deleted_message_is_gone(s: SessionView, index: int, j: usize)
    requires
        0 <= index < s.chat.messages.len(),
        s.chat.messages.len() <= usize::MAX,
        j < usize::MAX,
    ensures
        ({
            let after = message_deleted(s, index);
            &&& only_without(s.chat.messages, after.chat.messages, index)
            &&& s.conversation.len() == s.chat.messages.len() ==> only_without(
                s.conversation,
                after.conversation,
                index,
            )
            &&& s.conversation.len() != s.chat.messages.len() ==> after.conversation
                == s.conversation
            &&& rating_of(after.chat.message_ratings, j as int) == rating_of(
                s.chat.message_ratings,
                if j < index {
                    j as int
                } else {
                    j + 1
                },
            )
            &&& s.chat.feedback_comment_for == Some(index as usize)
                ==> after.chat.feedback_comment_for is None
            &&& s.chat.feedback_comment_for is None ==> after.chat.feedback_comment_for is None
            &&& s.chat.feedback_comment_for matches Some(f) ==> f < index
                ==> after.chat.feedback_comment_for == s.chat.feedback_comment_for
            &&& s.chat.feedback_comment_for matches Some(f) ==> f > index
                ==> after.chat.feedback_comment_for == Some((f - 1) as usize)
            &&& after.chat == (ChatView {
                messages: after.chat.messages,
                message_ratings: after.chat.message_ratings,
                feedback_comment_for: after.chat.feedback_comment_for,
                ..s.chat
            })
            &&& after == (SessionView {
                chat: after.chat,
                conversation: after.conversation,
                ..s
            })
        }),
{
    deleting_keeps_ratings_aligned(s.chat.message_ratings, index as usize, j);
}

/// Deleting a message that is not there changes nothing.
pub proof fn deleting_no_message_changes_nothing(s: SessionView, index: int)
    requires
        index >= s.chat.messages.len(),
    ensures
        message_deleted(s, index) == s,
{
}

// ---------------------------------------------------------------------------
// Rating
// ---------------------------------------------------------------------------

/// The rating of a message is the first that the list holds for it, and none where
/// the list holds none.
pub proof fn a_rating_is_looked_up(ratings: Seq<(usize, bool)>, index: int)
    ensures
        match rating_of(ratings, index) {
            Some(good) => exists|i: int|
                0 <= i < ratings.len() && (#[trigger] ratings[i]).0 == index && ratings[i].1 == good
                    && forall|j: int| 0 <= j < i ==> (#[trigger] ratings[j]).0 != index,
            None => forall|i: int| 0 <= i < ratings.len() ==> (#[trigger] ratings[i]).0 != index,
        },
{
    lemma_rating_at(ratings, index, 0);
}

proof fn lemma_rating_at(ratings: Seq<(usize, bool)>, index: int, from: int)
    requires
        0 <= from,
    ensures
        match rating_at(ratings, index, from) {
            Some(good) => exists|i: int|
                from <= i < ratings.len() && (#[trigger] ratings[i]).0 == index && ratings[i].1
                    == good && forall|j: int| from <= j < i ==> (#[trigger] ratings[j]).0 != index,
            None => forall|i: int|
                from <= i < ratings.len() ==> (#[trigger] ratings[i]).0 != index,
        },
    decreases ratings.len() - from,
{
    if from < ratings.len() {
        if ratings[from].0 != index {
            lemma_rating_at(ratings, index, from + 1);
            if rating_at(ratings, index, from + 1) is Some {
                let i = choose|i: int|
                    from + 1 <= i < ratings.len() && (#[trigger] ratings[i]).0 == index
                        && ratings[i].1 == rating_at(ratings, index, from + 1)->Some_0 && forall|
                        j: int,
                    |
                        from + 1 <= j < i ==> (#[trigger] ratings[j]).0 != index;
                assert(ratings[i].0 == index);
            }
        } else {
            assert(ratings[from].0 == index);
        }
    }
}

/// On a message without a rating, "good" asks to save a good rating without a
/// comment; "save" asks to save a bad one with the comment that was typed; "bad"
/// alone saves nothing and opens an empty comment field for that message.
pub proof fn clicks_ask_for_what_they_say(chat: ChatView, index: usize, c: FeedbackClicks)
    requires
        rating_of(chat.message_ratings, index as int) is None,
    ensures
        c.save_good ==> asked_rating(chat, index, c) == Some((true, Seq::<char>::empty())),
        !c.save_good && c.save_bad ==> asked_rating(chat, index, c) == Some((false, c.comment@)),
        !c.save_good && !c.save_bad ==> asked_rating(chat, index, c) is None,
        !c.save_good && !c.save_bad && c.open_bad ==> row_clicked(chat, index, c) == (ChatView {
            feedback_comment_for: Some(index),
            feedback_comment: Seq::empty(),
            ..chat
        }),
        c.cancel && !c.open_bad ==> row_clicked(chat, index, c) == (ChatView {
            feedback_comment_for: None,
            feedback_comment: Seq::empty(),
            ..chat
        }),
        !c.save_good && !c.save_bad && !c.open_bad && !c.cancel && chat.feedback_comment_for
            == Some(index) ==> row_clicked(chat, index, c) == (ChatView {
            feedback_comment: c.comment@,
            ..chat
        }),
        !c.save_good && !c.save_bad && !c.open_bad && !c.cancel && chat.feedback_comment_for
            != Some(index) ==> row_clicked(chat, index, c) == chat,
        (c.save_good || c.save_bad) && !c.cancel ==> row_clicked(chat, index, c) == chat,
{
}

/// A saved rating is that of its message, changes that of no other message, and
/// closes the comment field.
pub proof fn a_saved_rating_is_shown(chat: ChatView, index: usize, good: bool, j: int)
    ensures
        ({
            let after = rating_saved(chat, index, good);
            &&& rating_of(after.message_ratings, index as int) == Some(good)
            &&& j != index ==> rating_of(after.message_ratings, j) == rating_of(
                chat.message_ratings,
                j,
            )
            &&& after == (ChatView {
                message_ratings: after.message_ratings,
                feedback_comment_for: None,
                feedback_comment: Seq::empty(),
                ..chat
            })
        }),
{
    crate::messages::a_rating_is_read_back(chat.message_ratings, index, good, j);
}

/// The lesson of a rating names the rating, the agent, the task and the comment,
/// or that there is none; it can be found by the agent.
pub proof fn a_lesson_names_what_was_rated(
    profile: Seq<char>,
    good: bool,
    task: Seq<char>,
    comment: Seq<char>,
)
    ensures
        ({
            let lesson = rating_lesson(profile, good, task, comment);
            let verdict = if good {
                "good"@
            } else {
                "bad"@
            };
            let said = if trim(comment).len() == 0 {
                "none"@
            } else {
                trim(comment)
            };
            &&& lesson.kind == MemoryType::Lesson
            &&& lesson.source == "user-feedback"@
            &&& lesson.tags == seq!["user-feedback"@, "agent:"@ + profile]
            &&& lesson.content == "User rated assistant answer "@ + verdict + " from agent '"@
                + profile + "' on '"@ + task + "'. Comment: "@ + said
        }),
{
}

/// A rating is attributed to the session's agent, or to nobody known.
pub proof fn a_rating_names_the_sessions_agent(s: SessionView)
    ensures
        s.selected_agent matches Some(a) ==> rated_profile(s) == a,
        s.selected_agent is None ==> rated_profile(s) == "unknown"@,
{
}

/// The task of an answer is the nearest request of the user before it, cut to its
/// first 200 characters; there is none where no request stands before it.
pub proof fn a_snippet_is_the_nearest_request(messages: Seq<MessageView>, index: int, m: int)
    requires
        0 <= index <= messages.len(),
        0 <= m < index,
        messages[m].role == "user"@,
        trim(messages[m].content).len() > 0,
        forall|i: int|
            m < i < index ==> (#[trigger] messages[i]).role != "user"@ || trim(
                messages[i].content,
            ).len() == 0,
    ensures
        trim(messages[m].content).len() <= 200 ==> snippet_for(messages, index) == trim(
            messages[m].content,
        ),
        trim(messages[m].content).len() > 200 ==> snippet_for(messages, index) == trim(
            messages[m].content,
        ).take(200).push('…'),
    decreases index - m,
{
    lemma_nearest(messages, index, m);
    if index == messages.len() {
        assert(snippet_for(messages, index) == excerpt(request_before(messages, index)));
    }
}

proof fn lemma_nearest(messages: Seq<MessageView>, n: int, m: int)
    requires
        0 <= m < n <= messages.len(),
        messages[m].role == "user"@,
        trim(messages[m].content).len() > 0,
        forall|i: int|
            m < i < n ==> (#[trigger] messages[i]).role != "user"@ || trim(
                messages[i].content,
            ).len() == 0,
    ensures
        request_before(messages, n) == trim(messages[m].content),
    decreases n,
{
    if n - 1 > m {
        assert(messages[n - 1].role != "user"@ || trim(messages[n - 1].content).len() == 0);
        lemma_nearest(messages, n - 1, m);
    }
}

/// Without a request of the user before it, an answer has no task. A position behind
/// the last message has the task of the last.
pub proof fn without_a_request_there_is_no_snippet(messages: Seq<MessageView>, index: int)
    requires
        0 <= index <= messages.len(),
        forall|i: int|
            0 <= i < index ==> (#[trigger] messages[i]).role != "user"@ || trim(
                messages[i].content,
            ).len() == 0,
    ensures
        snippet_for(messages, index).len() == 0,
        forall|beyond: int|
            beyond > messages.len() ==> #[trigger] snippet_for(messages, beyond) == snippet_for(
                messages,
                messages.len() as int,
            ),
{
    lemma_no_request(messages, index);
}

proof fn lemma_no_request(messages: Seq<MessageView>, n: int)
    requires
        0 <= n <= messages.len(),
        forall|i: int|
            0 <= i < n ==> (#[trigger] messages[i]).role != "user"@ || trim(
                messages[i].content,
            ).len() == 0,
    ensures
        request_before(messages, n).len() == 0,
    decreases n,
{
    if n > 0 {
        assert(messages[n - 1].role != "user"@ || trim(messages[n - 1].content).len() == 0);
        lemma_no_request(messages, n - 1);
    }
}

/// With the memory off a rating is skipped; else it is stored, or the store's error
/// is passed on.
pub proof fn a_rating_ends_in_one_of_three_ways(memory_enabled: bool, stored: Result<(), String>)
    ensures
        !memory_enabled ==> rating_outcome(memory_enabled, stored) == Ok::<bool, String>(false),
        memory_enabled && stored is Ok ==> rating_outcome(memory_enabled, stored) == Ok::<
            bool,
            String,
        >(true),
        memory_enabled ==> (stored matches Err(e) ==> rating_outcome(memory_enabled, stored)
            == Err::<bool, String>(e)),
{
}

/// A click on a card opens it where it is closed and closes it where it is open;
/// every other card stays as it is.
pub proof fn a_click_toggles_one_card(expanded: Seq<usize>, index: usize, other: usize)
    ensures
        toggled_card(expanded, index).contains(index) <==> !expanded.contains(index),
        other != index ==> (toggled_card(expanded, index).contains(other) <==> expanded.contains(
            other,
        )),
{
    lemma_without_index(expanded, index, index);
    lemma_without_index(expanded, index, other);
    let pushed = expanded.push(index);
    assert(pushed[pushed.len() - 1] == index);
    if expanded.contains(other) {
        let m = choose|m: int| 0 <= m < expanded.len() && expanded[m] == other;
        assert(pushed[m] == other);
    }
    if pushed.contains(other) && other != index {
        let m = choose|m: int| 0 <= m < pushed.len() && pushed[m] == other;
        assert(expanded[m] == other);
    }
}

proof fn lemma_without_index(v: Seq<usize>, index: usize, x: usize)
    ensures
        without_index(v, index).contains(x) <==> v.contains(x) && x != index,
    decreases v.len(),
{
    if v.len() > 0 {
        let t = v.drop_last();
        lemma_without_index(t, index, x);
        let before = without_index(t, index);
        let now = without_index(v, index);
        if t.contains(x) {
            let m = choose|m: int| 0 <= m < t.len() && t[m] == x;
            assert(v[m] == x);
        }
        if v.contains(x) && !t.contains(x) {
            let m = choose|m: int| 0 <= m < v.len() && v[m] == x;
            if m < t.len() {
                assert(t[m] == x);
            }
            assert(v.last() == x);
            if x != index {
                assert(now[now.len() - 1] == x);
            }
        }
        if before.contains(x) {
            let m = choose|m: int| 0 <= m < before.len() && before[m] == x;
            assert(now[m] == x);
        }
        if now.contains(x) && !before.contains(x) {
            let m = choose|m: int| 0 <= m < now.len() && now[m] == x;
            if m < before.len() {
                assert(before[m] == x);
            }
            assert(v[v.len() - 1] == x);
        }
    }
}

// ---------------------------------------------------------------------------
// What a chat shows
// ---------------------------------------------------------------------------

/// The chat area shows the error of the last input, the greeting of an empty idle
/// chat, and, while a run is in progress, what it has thought and written so far.
pub proof fn the_chat_area_shows_its_chat(f: ChatFrame, chat: ChatView)
    requires
        frames(f, chat),
    ensures
        chat.pending_error matches Some(e) ==> opt_text(f.error) == Some("⚠  "@ + e),
        chat.pending_error is None ==> f.error is None,
        f.is_empty <==> chat.messages.len() == 0 && !chat.is_generating,
        f.streaming is Some <==> chat.is_generating,
        f.streaming matches Some(line) ==> {
            &&& chat.current_thinking.len() > 0 ==> opt_text(line.thinking) == Some(
                chat.current_thinking,
            )
            &&& chat.current_thinking.len() == 0 ==> line.thinking is None
            &&& chat.stream_buffer.len() > 0 ==> opt_text(line.text) == Some(chat.stream_buffer)
            &&& chat.stream_buffer.len() == 0 ==> line.text is None
            &&& line.dots <==> line.thinking is None && line.text is None
        },
{
}

/// A bubble shows the content of its message as it is, unless the content has
/// thinking tags and the message is no thinking: then it shows what stands between
/// the tags, without space at its ends.
pub proof fn a_bubble_shows_its_message(m: MessageView, inner: Seq<char>)
    ensures
        m.kind == MessageKind::Thinking ==> bubble_text(m) == m.content,
        find(m.content, "<think>"@) is None && find(m.content, "</think>"@) is None
            ==> bubble_text(m) == m.content,
        m.kind != MessageKind::Thinking && (find(m.content, "<think>"@) is Some || find(
            m.content,
            "</think>"@,
        ) is Some) && trim(m.content) == "<think>"@ + inner + "</think>"@ ==> bubble_text(m)
            == trim(inner),
{
    if trim(m.content) == "<think>"@ + inner + "</think>"@ {
        let t = trim(m.content);
        assert("<think>"@.is_prefix_of(t));
        let rest = t.skip("<think>"@.len() as int);
        assert(rest =~= inner + "</think>"@);
        assert("</think>"@.is_suffix_of(rest));
        assert(rest.take(rest.len() - "</think>"@.len()) =~= inner);
    }
}

/// A day that is today's is called today; one that is yesterday's, and not today's,
/// yesterday; any other is written out, or stays as it is where it cannot be.
pub proof fn a_day_is_called_by_its_name(
    day: Seq<char>,
    today: Seq<char>,
    yesterday: Seq<char>,
    written: Option<Seq<char>>,
)
    ensures
        day == today ==> label_of_day(day, today, yesterday, written) == "Today"@,
        day != today && day == yesterday ==> label_of_day(day, today, yesterday, written)
            == "Yesterday"@,
        day != today && day != yesterday ==> (written matches Some(w) ==> label_of_day(
            day,
            today,
            yesterday,
            written,
        ) == w),
        day != today && day != yesterday && written is None ==> label_of_day(
            day,
            today,
            yesterday,
            written,
        ) == day,
{
}

/// A day that is neither is written as a weekday, a month and a day; the days are
/// those of the clock, the second `back` times a day earlier.
pub proof fn a_day_is_written_out(
    day: Seq<char>,
    now: int,
    a: int,
    b: int,
    today: Seq<char>,
    earlier: Seq<char>,
    back: int,
)
    ensures
        short_date(day) == rewritten_day(day, "%Y-%m-%d"@, "%a, %b %e"@),
        days_at(now, a, b, today, earlier, back) <==> {
            &&& now >= 0
            &&& -86_400 < a < 86_400 && -86_400 < b < 86_400
            &&& utc_text((now + a) as i64, "%Y-%m-%d"@) == Some(today)
            &&& utc_text((now - 86_400 * back + b) as i64, "%Y-%m-%d"@) == Some(earlier)
        },
{
}

/// A separator stands before a message exactly where its day differs from that of
/// the nearest message before it that has one.
pub proof fn a_separator_marks_a_new_day(days: Seq<Option<Seq<char>>>, i: int, m: int)
    requires
        0 <= m < i < days.len(),
        days[m] is Some,
        forall|k: int| m < k < i ==> (#[trigger] days[k]) is None,
        days[i] is Some,
    ensures
        separated(days, i) <==> days[i] != days[m],
{
    lemma_last_day(days, i, m);
}

proof fn lemma_last_day(days: Seq<Option<Seq<char>>>, n: int, m: int)
    requires
        0 <= m < n <= days.len(),
        days[m] is Some,
        forall|k: int| m < k < n ==> (#[trigger] days[k]) is None,
    ensures
        last_day(days, n) == days[m],
    decreases n,
{
    if n - 1 > m {
        assert(days[n - 1] is None);
        lemma_last_day(days, n - 1, m);
    }
}

/// The live output of a tool shows its last lines, at most six, in their order.
pub proof fn the_live_tail_is_the_end(output: Seq<char>)
    ensures
        ({
            let all = lines(output);
            let shown = tail_lines(output);
            &&& shown.len() == (if all.len() < 6 {
                all.len() as int
            } else {
                6
            })
            &&& forall|i: int|
                0 <= i < shown.len() ==> #[trigger] shown[i] == all[all.len() - shown.len() + i]
        }),
{
}

/// A duration is shown in milliseconds below a second, in seconds with one decimal
/// below a minute, and in minutes and two digits of seconds from there on.
pub proof fn durations_are_shown_by_their_size(ms: u64)
    ensures
        ms < 1000 ==> duration_text(ms) == decimal(ms as nat) + "ms"@,
        1000 <= ms < 60_000 ==> duration_text(ms) == quotient_text(ms as nat, 1000, true) + "s"@,
        ms >= 60_000 && ms % 60_000 < 10_000 ==> duration_text(ms) == decimal((ms / 60_000) as nat)
            + "m "@ + ("0"@ + decimal((ms % 60_000 / 1000) as nat)) + "s"@,
        ms >= 60_000 && ms % 60_000 >= 10_000 ==> duration_text(ms) == decimal(
            (ms / 60_000) as nat,
        ) + "m "@ + decimal((ms % 60_000 / 1000) as nat) + "s"@,
{
}

/// The shown messages are those of the selected session; they are taken anew where
/// another session is selected, where a message was changed in place, and where
/// their number changed.
pub proof fn the_snapshot_is_that_of_the_selected_session(
    app: AppView,
    snap: SnapshotState,
    k: int,
)
    requires
        selected_at(app, k),
    ensures
        selected_messages(app) == app.sessions[k].chat.messages,
        snapshot_stale(app, snap) <==> snap.session != app.selected_session_id
            || app.display_dirty || snap.len != app.sessions[k].chat.messages.len(),
{
    lemma_stands(app, app.selected_session_id->Some_0, k);
}

/// Each known tool has the icon of its group; the title of a card is the icon and
/// the name. No known tool has a name of more than twenty characters, so such a name
/// has the icon of any other tool.
pub proof fn the_icons_of_the_tools()
    ensures
        icon_of("shell"@) == "⚡"@,
        icon_of("read_file"@) == "📄"@,
        icon_of("write_file"@) == "✏️"@ && icon_of("append_file"@) == "✏️"@ && icon_of(
            "apply_diff"@,
        ) == "✏️"@,
        icon_of("list_dir"@) == "📁"@ && icon_of("mkdir"@) == "📁"@,
        icon_of("search_files"@) == "🔍"@ && icon_of("search_content"@) == "🔍"@,
        icon_of("copy"@) == "📦"@ && icon_of("move"@) == "📦"@ && icon_of("delete"@) == "📦"@
            && icon_of("file_info"@) == "📦"@,
        icon_of("web_search"@) == "🌐"@,
        icon_of("fetch_url"@) == "🔗"@,
        icon_of("calculation"@) == "🧮"@,
        icon_of("time"@) == "🕐"@,
        icon_of("save_memory"@) == "🧠"@ && icon_of("update_memory"@) == "🧠"@ && icon_of(
            "search_memory"@,
        ) == "🧠"@ && icon_of("consolidate_memories"@) == "🧠"@ && icon_of("delete_memory"@)
            == "🧠"@,
        icon_of("handoff"@) == "🔀"@,
        icon_of("restart"@) == "🔁"@,
        forall|name: Seq<char>| #[trigger] card_title(name) == icon_of(name) + " "@ + name,
        forall|name: Seq<char>|
            name.len() > 20 ==> #[trigger] icon_of(name) == "🔧"@,
{
    reveal_strlit("shell");
    reveal_strlit("read_file");
    reveal_strlit("write_file");
    reveal_strlit("append_file");
    reveal_strlit("apply_diff");
    reveal_strlit("list_dir");
    reveal_strlit("mkdir");
    reveal_strlit("search_files");
    reveal_strlit("search_content");
    reveal_strlit("copy");
    reveal_strlit("move");
    reveal_strlit("delete");
    reveal_strlit("file_info");
    reveal_strlit("web_search");
    reveal_strlit("fetch_url");
    reveal_strlit("calculation");
    reveal_strlit("time");
    reveal_strlit("save_memory");
    reveal_strlit("update_memory");
    reveal_strlit("search_memory");
    reveal_strlit("consolidate_memories");
    reveal_strlit("delete_memory");
    reveal_strlit("handoff");
    reveal_strlit("restart");
    assert("shell"@.len() == 5);
    assert("read_file"@.len() == 9);
    assert("write_file"@.len() == 10);
    assert("append_file"@.len() == 11);
    assert("apply_diff"@.len() == 10);
    assert("list_dir"@.len() == 8);
    assert("mkdir"@.len() == 5);
    assert("search_files"@.len() == 12);
    assert("search_content"@.len() == 14);
    assert("copy"@.len() == 4);
    assert("move"@.len() == 4);
    assert("delete"@.len() == 6);
    assert("file_info"@.len() == 9);
    assert("web_search"@.len() == 10);
    assert("fetch_url"@.len() == 9);
    assert("calculation"@.len() == 11);
    assert("time"@.len() == 4);
    assert("save_memory"@.len() == 11);
    assert("update_memory"@.len() == 13);
    assert("search_memory"@.len() == 13);
    assert("consolidate_memories"@.len() == 20);
    assert("delete_memory"@.len() == 13);
    assert("handoff"@.len() == 7);
    assert("restart"@.len() == 7);
    assert("copy"@[0] == 'c' && "move"@[0] == 'm' && "time"@[0] == 't');
    assert("shell"@[0] == 's' && "mkdir"@[0] == 'm');
    assert("handoff"@[0] == 'h' && "restart"@[0] == 'r');
    assert("read_file"@[1] == 'e' && "file_info"@[1] == 'i' && "fetch_url"@[1] == 'e');
    assert("read_file"@[0] == 'r' && "fetch_url"@[0] == 'f');
    assert("write_file"@[1] == 'r' && "apply_diff"@[1] == 'p' && "web_search"@[1] == 'e');
    assert("append_file"@[0] == 'a' && "calculation"@[0] == 'c' && "save_memory"@[0] == 's');
}

} // verus!

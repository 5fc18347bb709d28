//! Editing, deleting, expanding and rating the messages of a chat.

use vstd::prelude::*;

use crate::chat_feedback::{lesson_to_store, rating_lesson, snippet_for, task_snippet_for};
use crate::chat_state::{AppView, ChatApp, ChatArea, ChatView, SessionView};
use crate::text::{copy_opt, opt_text};
use crate::types::{message_views, ChatMessage, MemoryEntry, MessageView};

verus! {

// ---------------------------------------------------------------------------
// Ratings
// ---------------------------------------------------------------------------

/// The rating of message `index`, from position `from` of the list on.
pub open spec fn rating_at(ratings: Seq<(usize, bool)>, index: int, from: int) -> Option<bool>
    decreases ratings.len() - from,
{
    if from < 0 || from >= ratings.len() {
        None
    } else if ratings[from].0 == index {
        Some(ratings[from].1)
    } else {
        rating_at(ratings, index, from + 1)
    }
}

/// The rating of message `index`.
pub open spec fn rating_of(ratings: Seq<(usize, bool)>, index: int) -> Option<bool> {
    rating_at(ratings, index, 0)
}

/// The ratings without those of message `index`.
pub open spec fn unrated(ratings: Seq<(usize, bool)>, index: usize) -> Seq<(usize, bool)>
    decreases ratings.len(),
{
    if ratings.len() == 0 {
        Seq::empty()
    } else {
        let before = unrated(ratings.drop_last(), index);
        if ratings.last().0 == index {
            before
        } else {
            before.push(ratings.last())
        }
    }
}

/// The ratings with that of message `index` set.
pub open spec fn rated(ratings: Seq<(usize, bool)>, index: usize, good: bool) -> Seq<
    (usize, bool),
> {
    unrated(ratings, index).push((index, good))
}

/// The index of a message after another one was deleted before it.
pub open spec fn shifted(k: usize, deleted: usize) -> usize {
    if k > deleted {
        (k - 1) as usize
    } else {
        k
    }
}

/// The ratings after a message was deleted: indices below stay, the deleted
/// one drops, higher ones shift.
pub open spec fn ratings_without(ratings: Seq<(usize, bool)>, deleted: usize) -> Seq<
    (usize, bool),
>
    decreases ratings.len(),
{
    if ratings.len() == 0 {
        Seq::empty()
    } else {
        let before = ratings_without(ratings.drop_last(), deleted);
        let (k, good) = ratings.last();
        if k == deleted {
            before
        } else {
            before.push((shifted(k, deleted), good))
        }
    }
}

fn set_rating(ratings: &Vec<(usize, bool)>, index: usize, good: bool) -> (r: Vec<(usize, bool)>)
    ensures
        r@ == rated(ratings@, index, good),
{
    let mut r: Vec<(usize, bool)> = Vec::new();
    let mut i: usize = 0;
    assert(r@ =~= unrated(ratings@.take(0), index));
    while i < ratings.len()
        invariant
            i <= ratings@.len(),
            r@ == unrated(ratings@.take(i as int), index),
        decreases ratings.len() - i,
    {
        assert(ratings@.take(i + 1).drop_last() =~= ratings@.take(i as int));
        if ratings[i].0 != index {
            r.push((ratings[i].0, ratings[i].1));
        }
        i += 1;
    }
    assert(ratings@.take(ratings@.len() as int) =~= ratings@);
    r.push((index, good));
    r
}

fn drop_rating(ratings: &Vec<(usize, bool)>, deleted: usize) -> (r: Vec<(usize, bool)>)
    ensures
        r@ == ratings_without(ratings@, deleted),
{
    let mut r: Vec<(usize, bool)> = Vec::new();
    let mut i: usize = 0;
    assert(r@ =~= ratings_without(ratings@.take(0), deleted));
    while i < ratings.len()
        invariant
            i <= ratings@.len(),
            r@ == ratings_without(ratings@.take(i as int), deleted),
        decreases ratings.len() - i,
    {
        assert(ratings@.take(i + 1).drop_last() =~= ratings@.take(i as int));
        let k: usize = ratings[i].0;
        if k != deleted {
            let shift: usize = if k > deleted {
                k - 1
            } else {
                k
            };
            r.push((shift, ratings[i].1));
        }
        i += 1;
    }
    assert(ratings@.take(ratings@.len() as int) =~= ratings@);
    r
}

impl ChatArea {
    /// The rating of message `index`.
    pub fn rating(&self, index: usize) -> (r: Option<bool>)
        ensures
            r == rating_of(self@.message_ratings, index as int),
    {
        let mut i: usize = 0;
        while i < self.message_ratings.len()
            invariant
                i <= self.message_ratings@.len(),
                rating_of(self.message_ratings@, index as int) == rating_at(
                    self.message_ratings@,
                    index as int,
                    i as int,
                ),
            decreases self.message_ratings.len() - i,
        {
            if self.message_ratings[i].0 == index {
                return Some(self.message_ratings[i].1);
            }
            i += 1;
        }
        None
    }
}

// ---------------------------------------------------------------------------
// Editing and deleting
// ---------------------------------------------------------------------------

/// The messages with another content at `index`, where there is one.
pub open spec fn edited_at(messages: Seq<MessageView>, index: int, content: Seq<char>) -> Seq<
    MessageView,
> {
    if 0 <= index < messages.len() {
        messages.update(index, MessageView { content, ..messages[index] })
    } else {
        messages
    }
}

/// The session after the edit of a shown message was committed. The stored
/// conversation follows only while it has as many messages as are shown:
/// otherwise the index would point at another message there.
pub open spec fn edit_committed(s: SessionView, index: int) -> SessionView {
    let content = s.chat.editing_message_content;
    SessionView {
        chat: ChatView {
            messages: edited_at(s.chat.messages, index, content),
            editing_message_index: None,
            editing_message_content: Seq::empty(),
            ..s.chat
        },
        conversation: if s.chat.messages.len() == s.conversation.len() {
            edited_at(s.conversation, index, content)
        } else {
            s.conversation
        },
        ..s
    }
}

/// The message whose comment field is open after a message was deleted.
pub open spec fn comment_shifted(f: Option<usize>, deleted: usize) -> Option<usize> {
    match f {
        Some(k) => if k == deleted {
            None
        } else {
            Some(shifted(k, deleted))
        },
        None => None,
    }
}

/// The session after a shown message was deleted; the stored conversation
/// follows only while it has as many messages as are shown.
pub open spec fn message_deleted(s: SessionView, index: int) -> SessionView {
    if 0 <= index < s.chat.messages.len() {
        SessionView {
            chat: ChatView {
                messages: s.chat.messages.remove(index),
                message_ratings: ratings_without(s.chat.message_ratings, index as usize),
                feedback_comment_for: comment_shifted(
                    s.chat.feedback_comment_for,
                    index as usize,
                ),
                ..s.chat
            },
            conversation: if s.chat.messages.len() == s.conversation.len() {
                s.conversation.remove(index)
            } else {
                s.conversation
            },
            ..s
        }
    } else {
        s
    }
}

fn edit_message(messages: &mut Vec<ChatMessage>, index: usize, content: &String)
    ensures
        message_views(final(messages)@) == edited_at(
            message_views(old(messages)@),
            index as int,
            content@,
        ),
{
    if index < messages.len() {
        messages[index].content = content.clone();
    }
    assert(message_views(messages@) =~= edited_at(
        message_views(old(messages)@),
        index as int,
        content@,
    ));
}

fn remove_message(messages: &mut Vec<ChatMessage>, index: usize)
    requires
        index < old(messages)@.len(),
    ensures
        message_views(final(messages)@) == message_views(old(messages)@).remove(index as int),
{
    messages.remove(index);
    assert(message_views(messages@) =~= message_views(old(messages)@).remove(index as int));
}

/// The application with one session changed.
proof fn lemma_session_changed(start: AppView, now: AppView, k: int)
    requires
        0 <= k < start.sessions.len(),
        now.sessions.len() == start.sessions.len(),
        forall|i: int|
            0 <= i < start.sessions.len() && i != k ==> #[trigger] now.sessions[i]
                == start.sessions[i],
        now == (AppView { sessions: now.sessions, ..start }),
    ensures
        now == start.with_session(k, now.sessions[k]),
{
    assert(now.sessions =~= start.sessions.update(k, now.sessions[k]));
}

impl ChatApp {
    /// Commit the edit of the message at `index` in the selected session.
    /// Returns the session to save. The list of shown messages has to be made
    /// again, for its length tells nothing of the change.
    pub fn commit_message_edit(&mut self, index: usize) -> (r: Option<String>)
        ensures
            match old(self)@.selected() {
                Some(k) => {
                    &&& final(self)@ == (AppView {
                        display_dirty: true,
                        ..old(self)@.with_session(
                            k,
                            edit_committed(old(self)@.sessions[k], index as int),
                        )
                    })
                    &&& opt_text(r) == old(self)@.selected_session_id
                },
                None => final(self)@ == old(self)@ && r is None,
            },
    {
        let ghost start = self@;
        match self.find_selected() {
            Some(k) => {
                let ghost s = self.sessions@[k as int]@;
                let content = self.sessions[k].chat.editing_message_content.clone();
                let aligned = self.sessions[k].chat.messages.len()
                    == self.sessions[k].conversation.len();
                edit_message(&mut self.sessions[k].chat.messages, index, &content);
                if aligned {
                    edit_message(&mut self.sessions[k].conversation, index, &content);
                }
                self.sessions[k].chat.editing_message_index = None;
                self.sessions[k].chat.editing_message_content = String::new();
                proof {
                    assert(s.chat.messages.len() == start.sessions[k as int].chat.messages.len());
                    assert(self.sessions@[k as int]@ =~= edit_committed(s, index as int));
                    lemma_session_changed(start, self@, k as int);
                }
                self.display_dirty = true;
                copy_opt(&self.selected_session_id)
            },
            None => None,
        }
    }

    /// Delete the message at `index` in the selected session. Returns the
    /// session to save.
    pub fn delete_message(&mut self, index: usize) -> (r: Option<String>)
        ensures
            opt_text(r) == old(self)@.selected_session_id,
            final(self)@ == (match old(self)@.selected() {
                Some(k) => old(self)@.with_session(
                    k,
                    message_deleted(old(self)@.sessions[k], index as int),
                ),
                None => old(self)@,
            }),
    {
        let ghost start = self@;
        if let Some(k) = self.find_selected() {
            let ghost s = self.sessions@[k as int]@;
            if index < self.sessions[k].chat.messages.len() {
                let aligned = self.sessions[k].chat.messages.len()
                    == self.sessions[k].conversation.len();
                remove_message(&mut self.sessions[k].chat.messages, index);
                let ratings = drop_rating(&self.sessions[k].chat.message_ratings, index);
                self.sessions[k].chat.message_ratings = ratings;
                let open: Option<usize> = match self.sessions[k].chat.feedback_comment_for {
                    Some(f) => if f == index {
                        None
                    } else if f > index {
                        Some(f - 1)
                    } else {
                        Some(f)
                    },
                    None => None,
                };
                self.sessions[k].chat.feedback_comment_for = open;
                if aligned {
                    remove_message(&mut self.sessions[k].conversation, index);
                }
            }
            proof {
                assert(self.sessions@[k as int]@ =~= message_deleted(s, index as int));
                lemma_session_changed(start, self@, k as int);
            }
        }
        copy_opt(&self.selected_session_id)
    }

    /// Start the edit of the message at `index` in the selected session, with
    /// its content in the editor.
    pub fn begin_edit(&mut self, index: usize, content: &str)
        ensures
            final(self)@ == (match old(self)@.selected() {
                Some(k) => old(self)@.with_chat(
                    k,
                    ChatView {
                        editing_message_index: Some(index),
                        editing_message_content: content@,
                        ..old(self)@.sessions[k].chat
                    },
                ),
                None => old(self)@,
            }),
    {
        let ghost start = self@;
        if let Some(k) = self.find_selected() {
            self.sessions[k].chat.editing_message_index = Some(index);
            self.sessions[k].chat.editing_message_content = content.to_owned();
            proof {
                lemma_session_changed(start, self@, k as int);
            }
        }
    }

    /// Give up the edit in the selected session.
    pub fn cancel_edit(&mut self)
        ensures
            final(self)@ == (match old(self)@.selected() {
                Some(k) => old(self)@.with_chat(
                    k,
                    ChatView {
                        editing_message_index: None,
                        editing_message_content: Seq::empty(),
                        ..old(self)@.sessions[k].chat
                    },
                ),
                None => old(self)@,
            }),
    {
        let ghost start = self@;
        if let Some(k) = self.find_selected() {
            self.sessions[k].chat.editing_message_index = None;
            self.sessions[k].chat.editing_message_content = String::new();
            proof {
                assert(self.sessions@[k as int].chat@ =~= ChatView {
                    editing_message_index: None,
                    editing_message_content: Seq::empty(),
                    ..start.sessions[k as int].chat
                });
                lemma_session_changed(start, self@, k as int);
            }
        }
    }
}

// ---------------------------------------------------------------------------
// Expanding
// ---------------------------------------------------------------------------

/// A list without an index.
pub open spec fn without_index(v: Seq<usize>, index: usize) -> Seq<usize>
    decreases v.len(),
{
    if v.len() == 0 {
        Seq::empty()
    } else {
        let before = without_index(v.drop_last(), index);
        if v.last() == index {
            before
        } else {
            before.push(v.last())
        }
    }
}

/// The expanded cards after a click on card `index`.
pub open spec fn toggled_card(expanded: Seq<usize>, index: usize) -> Seq<usize> {
    if expanded.contains(index) {
        without_index(expanded, index)
    } else {
        expanded.push(index)
    }
}

/// Whether a list of expanded cards holds `index`.
pub fn is_expanded(expanded: &Vec<usize>, index: usize) -> (r: bool)
    ensures
        r == expanded@.contains(index),
{
    let mut i: usize = 0;
    while i < expanded.len()
        invariant
            i <= expanded@.len(),
            forall|k: int| 0 <= k < i ==> expanded@[k] != index,
        decreases expanded.len() - i,
    {
        if expanded[i] == index {
            assert(expanded@[i as int] == index);
            return true;
        }
        i += 1;
    }
    false
}

/// Expand a card that is collapsed, or collapse one that is expanded.
pub fn toggle_expanded(expanded: &Vec<usize>, index: usize) -> (r: Vec<usize>)
    ensures
        r@ == toggled_card(expanded@, index),
{
    let open = is_expanded(expanded, index);
    let mut r: Vec<usize> = Vec::new();
    let mut i: usize = 0;
    assert(r@ =~= without_index(expanded@.take(0), index));
    while i < expanded.len()
        invariant
            i <= expanded@.len(),
            r@ == without_index(expanded@.take(i as int), index),
        decreases expanded.len() - i,
    {
        assert(expanded@.take(i + 1).drop_last() =~= expanded@.take(i as int));
        if expanded[i] != index {
            r.push(expanded[i]);
        }
        i += 1;
    }
    assert(expanded@.take(expanded@.len() as int) =~= expanded@);
    if !open {
        proof {
            lemma_without_absent(expanded@, index);
        }
        r.push(index);
    }
    r
}

proof fn lemma_without_absent(v: Seq<usize>, index: usize)
    requires
        !v.contains(index),
    ensures
        without_index(v, index) == v,
    decreases v.len(),
{
    if v.len() > 0 {
        assert(v.contains(v.last()));
        assert forall|x: usize| v.drop_last().contains(x) implies v.contains(x) by {
            let i = choose|i: int| 0 <= i < v.drop_last().len() && v.drop_last()[i] == x;
            assert(v[i] == x);
        }
        lemma_without_absent(v.drop_last(), index);
        assert(v.drop_last().push(v.last()) =~= v);
    } else {
        assert(v =~= Seq::empty());
    }
}

// ---------------------------------------------------------------------------
// Feedback
// ---------------------------------------------------------------------------

/// The clicks on a feedback row in one frame, with the comment as it stands in
/// its field.
pub struct FeedbackClicks {
    /// The good button.
    pub save_good: bool,
    /// The bad button, which opens the comment field.
    pub open_bad: bool,
    /// The button that saves the bad rating with its comment.
    pub save_bad: bool,
    /// The button that closes the comment field.
    pub cancel: bool,
    pub comment: String,
}

/// A rating to save.
pub struct FeedbackSave {
    pub good: bool,
    pub comment: String,
}

/// What a rating to save says.
pub open spec fn save_view(s: Option<FeedbackSave>) -> Option<(bool, Seq<char>)> {
    match s {
        Some(x) => Some((x.good, x.comment@)),
        None => None,
    }
}

/// The rating that some clicks on the feedback row of message `index` ask to
/// save; a good rating has no comment. A rated message takes no second rating.
pub open spec fn asked_rating(chat: ChatView, index: usize, c: FeedbackClicks) -> Option<
    (bool, Seq<char>),
> {
    if rating_of(chat.message_ratings, index as int) is Some {
        None
    } else if c.save_good {
        Some((true, Seq::empty()))
    } else if c.save_bad {
        Some((false, c.comment@))
    } else {
        None
    }
}

/// The chat after some clicks on the feedback row of message `index`, before a
/// rating is saved. The buttons of a rated message do nothing.
pub open spec fn row_clicked(chat: ChatView, index: usize, c: FeedbackClicks) -> ChatView {
    let was_open = chat.feedback_comment_for == Some(index);
    let closed = if c.cancel {
        ChatView { feedback_comment_for: None, feedback_comment: Seq::empty(), ..chat }
    } else {
        chat
    };
    let can_rate = rating_of(chat.message_ratings, index as int) is None;
    if can_rate && (c.save_good || c.save_bad) {
        closed
    } else if can_rate && c.open_bad {
        ChatView {
            feedback_comment_for: Some(index),
            feedback_comment: Seq::empty(),
            ..closed
        }
    } else if was_open && closed.feedback_comment_for == Some(index) {
        ChatView { feedback_comment: c.comment@, ..closed }
    } else {
        closed
    }
}

/// The chat after a rating was saved (or skipped, where the memory is off).
pub open spec fn rating_saved(chat: ChatView, index: usize, good: bool) -> ChatView {
    ChatView {
        message_ratings: rated(chat.message_ratings, index, good),
        feedback_comment_for: None,
        feedback_comment: Seq::empty(),
        ..chat
    }
}

/// The agent profile that a rating is attributed to.
pub open spec fn rated_profile(s: SessionView) -> Seq<char> {
    match s.selected_agent {
        Some(a) => a,
        None => "unknown"@,
    }
}

impl ChatArea {
    /// Take in the clicks on the feedback row of message `index`. Returns the
    /// rating to save; a rated message takes no second one. A field that stays
    /// open keeps the typed comment.
    pub fn click_feedback(&mut self, index: usize, clicks: &FeedbackClicks) -> (r: Option<
        FeedbackSave,
    >)
        ensures
            final(self)@ == row_clicked(old(self)@, index, *clicks),
            save_view(r) == asked_rating(old(self)@, index, *clicks),
    {
        let can_rate = self.rating(index).is_none();
        let was_open = match self.feedback_comment_for {
            Some(f) => f == index,
            None => false,
        };
        if clicks.cancel {
            self.feedback_comment_for = None;
            self.feedback_comment = String::new();
        }
        if can_rate && clicks.save_good {
            return Some(FeedbackSave { good: true, comment: String::new() });
        }
        if can_rate && clicks.save_bad {
            return Some(FeedbackSave { good: false, comment: clicks.comment.clone() });
        }
        if can_rate && clicks.open_bad {
            self.feedback_comment_for = Some(index);
            self.feedback_comment = String::new();
        } else if was_open && !clicks.cancel {
            self.feedback_comment = clicks.comment.clone();
        }
        None
    }

    /// Note that the rating of message `index` was saved.
    pub fn record_rating(&mut self, index: usize, good: bool)
        ensures
            final(self)@ == rating_saved(old(self)@, index, good),
    {
        let ratings = set_rating(&self.message_ratings, index, good);
        self.message_ratings = ratings;
        self.feedback_comment_for = None;
        self.feedback_comment = String::new();
        assert(self@ =~= rating_saved(old(self)@, index, good));
    }
}

impl ChatApp {
    /// The entry that a rating of message `index` in the selected session adds
    /// to the memory; `None` where no session is selected or the memory is
    /// off. Messages do not carry their agent, so the session's current one is
    /// named.
    pub fn feedback_entry(
        &self,
        index: usize,
        good: bool,
        comment: &str,
        memory_enabled: bool,
    ) -> (r: Option<MemoryEntry>)
        ensures
            match r {
                Some(e) => memory_enabled && (self@.selected() matches Some(k) && e@
                    == rating_lesson(
                    rated_profile(self@.sessions[k]),
                    good,
                    snippet_for(self@.sessions[k].chat.messages, index as int),
                    comment@,
                )),
                None => !memory_enabled || self@.selected() is None,
            },
    {
        match self.find_selected() {
            Some(k) => {
                let profile = match &self.sessions[k].selected_agent {
                    Some(a) => a.clone(),
                    None => "unknown".to_owned(),
                };
                let snippet = task_snippet_for(self.sessions[k].chat.messages.as_slice(), index);
                lesson_to_store(
                    memory_enabled,
                    profile.as_str(),
                    good,
                    snippet.as_str(),
                    comment,
                )
            },
            None => None,
        }
    }

    /// Take in what became of a rating of message `index` in the selected
    /// session. A stored or skipped rating is marked. On a failure nothing is
    /// marked, so that the user can retry.
    pub fn save_message_feedback(
        &mut self,
        index: usize,
        good: bool,
        outcome: &Result<bool, String>,
    )
        ensures
            final(self)@ == (match old(self)@.selected() {
                Some(k) => if *outcome is Ok {
                    old(self)@.with_chat(
                        k,
                        rating_saved(old(self)@.sessions[k].chat, index, good),
                    )
                } else {
                    old(self)@
                },
                None => old(self)@,
            }),
    {
        let ghost start = self@;
        if outcome.is_ok() {
            if let Some(k) = self.find_selected() {
                self.sessions[k].chat.record_rating(index, good);
                proof {
                    lemma_session_changed(start, self@, k as int);
                }
            }
        }
    }
}

// ---------------------------------------------------------------------------
// Laws
// ---------------------------------------------------------------------------

proof fn lemma_rating_at_end(ratings: Seq<(usize, bool)>, index: int, from: int)
    requires
        0 <= from <= ratings.len(),
        ratings.len() > 0,
    ensures
        rating_at(ratings, index, from) == (match rating_at(ratings.drop_last(), index, from) {
            Some(g) => Some(g),
            None => if from < ratings.len() && ratings.last().0 == index {
                Some(ratings.last().1)
            } else {
                None
            },
        }),
    decreases ratings.len() - from,
{
    if from < ratings.len() {
        if from < ratings.len() - 1 {
            assert(ratings.drop_last()[from] == ratings[from]);
        }
        if ratings[from].0 != index {
            lemma_rating_at_end(ratings, index, from + 1);
        }
    }
}

/// Deleting a message keeps the ratings with their messages: every other
/// message has the rating it had, at its new index.
pub proof fn deleting_keeps_ratings_aligned(
    ratings: Seq<(usize, bool)>,
    deleted: usize,
    j: usize,
)
    requires
        j < usize::MAX,
    ensures
        rating_of(ratings_without(ratings, deleted), j as int) == rating_of(
            ratings,
            if j < deleted {
                j as int
            } else {
                j + 1
            },
        ),
    decreases ratings.len(),
{
    if ratings.len() > 0 {
        let t = ratings.drop_last();
        deleting_keeps_ratings_aligned(t, deleted, j);
        let before = ratings_without(t, deleted);
        let now = ratings_without(ratings, deleted);
        let (k, good) = ratings.last();
        let source = if j < deleted {
            j as int
        } else {
            j + 1
        };
        lemma_rating_at_end(ratings, source, 0);
        if k != deleted {
            lemma_rating_at_end(now, j as int, 0);
            assert(now.drop_last() =~= before);
        }
    }
}

proof fn lemma_unrated(ratings: Seq<(usize, bool)>, index: usize, j: int)
    ensures
        rating_of(unrated(ratings, index), j) == (if j == index {
            None
        } else {
            rating_of(ratings, j)
        }),
    decreases ratings.len(),
{
    if ratings.len() > 0 {
        let t = ratings.drop_last();
        lemma_unrated(t, index, j);
        lemma_rating_at_end(ratings, j, 0);
        let before = unrated(t, index);
        let now = unrated(ratings, index);
        if ratings.last().0 != index {
            lemma_rating_at_end(now, j, 0);
            assert(now.drop_last() =~= before);
        }
    }
}

/// A saved rating is the rating of its message, and changes that of no other.
pub proof fn a_rating_is_read_back(
    ratings: Seq<(usize, bool)>,
    index: usize,
    good: bool,
    j: int,
)
    ensures
        rating_of(rated(ratings, index, good), index as int) == Some(good),
        j != index ==> rating_of(rated(ratings, index, good), j) == rating_of(ratings, j),
{
    let now = rated(ratings, index, good);
    assert(now.drop_last() =~= unrated(ratings, index));
    lemma_unrated(ratings, index, index as int);
    lemma_unrated(ratings, index, j);
    lemma_rating_at_end(now, index as int, 0);
    lemma_rating_at_end(now, j, 0);
}

/// Whether each message has at most one rating.
pub open spec fn rated_once(ratings: Seq<(usize, bool)>) -> bool {
    forall|i: int, j: int|
        0 <= i < j < ratings.len() ==> (#[trigger] ratings[i]).0 != (#[trigger] ratings[j]).0
}

proof fn lemma_unrated_once(ratings: Seq<(usize, bool)>, index: usize)
    ensures
        rated_once(ratings) ==> rated_once(unrated(ratings, index)),
        forall|i: int|
            0 <= i < unrated(ratings, index).len() ==> ratings.contains(
                #[trigger] unrated(ratings, index)[i],
            ) && unrated(ratings, index)[i].0 != index,
    decreases ratings.len(),
{
    if ratings.len() > 0 {
        let t = ratings.drop_last();
        lemma_unrated_once(t, index);
        let before = unrated(t, index);
        let now = unrated(ratings, index);
        assert forall|i: int| 0 <= i < now.len() implies ratings.contains(#[trigger] now[i])
            && now[i].0 != index by {
            if i < before.len() {
                assert(now[i] == before[i]);
                assert(t.contains(before[i]));
                let m = choose|m: int| 0 <= m < t.len() && t[m] == before[i];
                assert(ratings[m] == now[i]);
            } else {
                assert(ratings[ratings.len() - 1] == now[i]);
            }
        }
        if rated_once(ratings) {
            assert forall|i: int, j: int| 0 <= i < j < t.len() implies (#[trigger] t[i]).0 != (
            #[trigger] t[j]).0 by {
                assert(t[i] == ratings[i] && t[j] == ratings[j]);
            }
            assert forall|i: int, j: int| 0 <= i < j < now.len() implies (#[trigger] now[i]).0
                != (#[trigger] now[j]).0 by {
                assert(now[i] == before[i]);
                if j < before.len() {
                    assert(now[j] == before[j]);
                } else {
                    assert(t.contains(before[i]));
                    let m = choose|m: int| 0 <= m < t.len() && t[m] == before[i];
                    assert(ratings[m].0 != ratings[ratings.len() - 1].0);
                }
            }
        }
    }
}

proof fn lemma_without_once(ratings: Seq<(usize, bool)>, deleted: usize)
    ensures
        rated_once(ratings) ==> rated_once(ratings_without(ratings, deleted)),
        forall|i: int|
            0 <= i < ratings_without(ratings, deleted).len() ==> exists|m: int|
                0 <= m < ratings.len() && (#[trigger] ratings[m]).0 != deleted && shifted(
                    ratings[m].0,
                    deleted,
                ) == (#[trigger] ratings_without(ratings, deleted)[i]).0,
    decreases ratings.len(),
{
    if ratings.len() > 0 {
        let t = ratings.drop_last();
        lemma_without_once(t, deleted);
        let before = ratings_without(t, deleted);
        let now = ratings_without(ratings, deleted);
        let last = ratings.len() - 1;
        assert forall|i: int| 0 <= i < now.len() implies exists|m: int|
            0 <= m < ratings.len() && (#[trigger] ratings[m]).0 != deleted && shifted(
                ratings[m].0,
                deleted,
            ) == (#[trigger] now[i]).0 by {
            if i < before.len() {
                assert(now[i] == before[i]);
                let m = choose|m: int|
                    0 <= m < t.len() && (#[trigger] t[m]).0 != deleted && shifted(t[m].0, deleted)
                        == before[i].0;
                assert(ratings[m] == t[m]);
            } else {
                assert(ratings[last].0 != deleted);
            }
        }
        if rated_once(ratings) {
            assert forall|i: int, j: int| 0 <= i < j < t.len() implies (#[trigger] t[i]).0 != (
            #[trigger] t[j]).0 by {
                assert(t[i] == ratings[i] && t[j] == ratings[j]);
            }
            assert forall|i: int, j: int| 0 <= i < j < now.len() implies (#[trigger] now[i]).0
                != (#[trigger] now[j]).0 by {
                assert(now[i] == before[i]);
                if j < before.len() {
                    assert(now[j] == before[j]);
                } else {
                    let m = choose|m: int|
                        0 <= m < t.len() && (#[trigger] t[m]).0 != deleted && shifted(
                            t[m].0,
                            deleted,
                        ) == before[i].0;
                    assert(ratings[m].0 == t[m].0);
                    assert(ratings[m].0 != ratings[last].0);
                }
            }
        }
    }
}

/// Rating a message and deleting one both leave at most one rating for each
/// message.
pub proof fn a_message_has_one_rating(
    ratings: Seq<(usize, bool)>,
    index: usize,
    good: bool,
    deleted: usize,
)
    requires
        rated_once(ratings),
    ensures
        rated_once(rated(ratings, index, good)),
        rated_once(ratings_without(ratings, deleted)),
{
    lemma_unrated_once(ratings, index);
    lemma_without_once(ratings, deleted);
}

/// An edit or a deletion never touches the stored conversation while it has
/// another number of messages than are shown.
pub proof fn a_misaligned_conversation_is_left_alone(s: SessionView, index: int)
    requires
        s.chat.messages.len() != s.conversation.len(),
    ensures
        edit_committed(s, index).conversation == s.conversation,
        message_deleted(s, index).conversation == s.conversation,
{
}

/// While the conversation is aligned, an edit and a deletion keep it so.
pub proof fn an_aligned_conversation_stays_aligned(s: SessionView, index: int)
    requires
        s.chat.messages.len() == s.conversation.len(),
    ensures
        edit_committed(s, index).chat.messages.len() == edit_committed(s, index).conversation.len(),
        message_deleted(s, index).chat.messages.len() == message_deleted(
            s,
            index,
        ).conversation.len(),
{
}

/// A second click on a card undoes the first, where no card is listed twice.
pub proof fn toggling_twice_undoes(expanded: Seq<usize>, index: usize)
    requires
        expanded.no_duplicates(),
    ensures
        !expanded.contains(index) ==> toggled_card(toggled_card(expanded, index), index)
            == expanded,
        toggled_card(expanded, index).contains(index) == !expanded.contains(index),
{
    if !expanded.contains(index) {
        let once = expanded.push(index);
        assert(once[expanded.len() as int] == index);
        assert(once.contains(index));
        assert(once.drop_last() =~= expanded);
        lemma_without_absent(expanded, index);
    } else {
        lemma_without_gone(expanded, index);
    }
}

proof fn lemma_without_gone(v: Seq<usize>, index: usize)
    ensures
        !without_index(v, index).contains(index),
    decreases v.len(),
{
    if v.len() > 0 {
        lemma_without_gone(v.drop_last(), index);
        let before = without_index(v.drop_last(), index);
        if v.last() != index {
            let now = before.push(v.last());
            if now.contains(index) {
                let i = choose|i: int| 0 <= i < now.len() && now[i] == index;
                assert(before[i] == index);
            }
        }
    }
}

/// A rated message takes no second rating: whatever is clicked, none is asked to
/// be saved, the rating stays, and no comment field opens.
pub proof fn a_rating_is_given_once(chat: ChatView, index: usize, good: bool, c: FeedbackClicks)
    requires
        rating_of(chat.message_ratings, index as int) == Some(good),
    ensures
        asked_rating(chat, index, c) is None,
        row_clicked(chat, index, c).message_ratings == chat.message_ratings,
        chat.feedback_comment_for is None ==> row_clicked(chat, index, c).feedback_comment_for
            is None,
{
}

} // verus!

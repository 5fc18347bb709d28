//! What the chat area shows: icons, durations, day labels, message texts and
//! the cached list of messages.

use vstd::prelude::*;

use crate::chat_state::{AppView, ChatApp};
use crate::clock::utc_text;
use crate::numbers::{decimal, decimal_text, float_quotient_text, quotient_text};
use crate::pieces::{lines, split_lines};
use crate::text::{
    copy_opt, cut_prefix, cut_suffix, find, has_text, opt_text, same_opt_text, same_text, texts,
    trim, trimmed, without_prefix, without_suffix,
};
use crate::types::{message_views, ChatMessage, MessageKind, MessageView};

verus! {

// ---------------------------------------------------------------------------
// Icons and durations
// ---------------------------------------------------------------------------

/// The glyph of a tool.
pub open spec fn icon_of(name: Seq<char>) -> Seq<char> {
    if name == "shell"@ {
        "⚡"@
    } else if name == "read_file"@ {
        "📄"@
    } else if name == "write_file"@ || name == "append_file"@ || name == "apply_diff"@ {
        "✏️"@
    } else if name == "list_dir"@ || name == "mkdir"@ {
        "📁"@
    } else if name == "search_files"@ || name == "search_content"@ {
        "🔍"@
    } else if name == "copy"@ || name == "move"@ || name == "delete"@ || name == "file_info"@ {
        "📦"@
    } else if name == "web_search"@ {
        "🌐"@
    } else if name == "fetch_url"@ {
        "🔗"@
    } else if name == "calculation"@ {
        "🧮"@
    } else if name == "time"@ {
        "🕐"@
    } else if name == "save_memory"@ || name == "update_memory"@ || name == "search_memory"@
        || name == "consolidate_memories"@ || name == "delete_memory"@ {
        "🧠"@
    } else if name == "handoff"@ {
        "🔀"@
    } else if name == "restart"@ {
        "🔁"@
    } else {
        "🔧"@
    }
}

/// Small per-tool glyph for the tool card headers.
pub fn tool_icon(name: &str) -> (r: &'static str)
    ensures
        r@ == icon_of(name@),
{
    if same_text(name, "shell") {
        "⚡"
    } else if same_text(name, "read_file") {
        "📄"
    } else if same_text(name, "write_file") || same_text(name, "append_file") || same_text(
        name,
        "apply_diff",
    ) {
        "✏️"
    } else if same_text(name, "list_dir") || same_text(name, "mkdir") {
        "📁"
    } else if same_text(name, "search_files") || same_text(name, "search_content") {
        "🔍"
    } else if same_text(name, "copy") || same_text(name, "move") || same_text(name, "delete")
        || same_text(name, "file_info") {
        "📦"
    } else if same_text(name, "web_search") {
        "🌐"
    } else if same_text(name, "fetch_url") {
        "🔗"
    } else if same_text(name, "calculation") {
        "🧮"
    } else if same_text(name, "time") {
        "🕐"
    } else if same_text(name, "save_memory") || same_text(name, "update_memory") || same_text(
        name,
        "search_memory",
    ) || same_text(name, "consolidate_memories") || same_text(name, "delete_memory") {
        "🧠"
    } else if same_text(name, "handoff") {
        "🔀"
    } else if same_text(name, "restart") {
        "🔁"
    } else {
        "🔧"
    }
}

/// A number with at least two digits.
pub open spec fn two_digits(n: nat) -> Seq<char> {
    if n < 10 {
        "0"@ + decimal(n)
    } else {
        decimal(n)
    }
}

/// A duration as `42ms`, `1.3s` or `2m 05s`.
pub open spec fn duration_text(ms: u64) -> Seq<char> {
    if ms < 1000 {
        decimal(ms as nat) + "ms"@
    } else if ms < 60_000 {
        quotient_text(ms as nat, 1000, true) + "s"@
    } else {
        decimal((ms / 60_000) as nat) + "m "@ + two_digits(((ms % 60_000) / 1000) as nat) + "s"@
    }
}

/// Compact duration for chips: `42ms`, `1.3s`, `2m 05s`.
pub fn format_duration(ms: u64) -> (r: String)
    ensures
        r@ == duration_text(ms),
{
    if ms < 1000 {
        let mut r = decimal_text(ms);
        r.append("ms");
        r
    } else if ms < 60_000 {
        let mut r = float_quotient_text(ms, 1000, true);
        r.append("s");
        r
    } else {
        let mut r = decimal_text(ms / 60_000);
        r.append("m ");
        let s: u64 = (ms % 60_000) / 1000;
        if s < 10 {
            let mut t = "0".to_owned();
            t.append(decimal_text(s).as_str());
            r.append(t.as_str());
        } else {
            r.append(decimal_text(s).as_str());
        }
        r.append("s");
        r
    }
}

// ---------------------------------------------------------------------------
// Days
// ---------------------------------------------------------------------------

/// What chrono makes of a day that it reads by one pattern and writes by
/// another; `None` where the text is no day by the first.
pub uninterp spec fn rewritten_day(
    day: Seq<char>,
    read: Seq<char>,
    written: Seq<char>,
) -> Option<Seq<char>>;

/// A `YYYY-MM-DD` day, written like `Fri, Jul 10`; `None` where the text is no
/// such day.
pub open spec fn short_date(day: Seq<char>) -> Option<Seq<char>> {
    rewritten_day(day, "%Y-%m-%d"@, "%a, %b %e"@)
}

/// Calls `chrono::NaiveDate::parse_from_str` and formats the date with
/// `NaiveDate::format`. The contract names the text; a text that is no date
/// gives `None`. Formatting panics on a malformed pattern, so only the one that
/// is used is taken.
#[verifier::external_body]
fn rewrite_day(day: &str, read: &str, written: &str) -> (r: Option<String>)
    requires
        written@ == "%a, %b %e"@,
    ensures
        opt_text(r) == rewritten_day(day@, read@, written@),
{
    chrono::NaiveDate::parse_from_str(day, read).map(|d| d.format(written).to_string()).ok()
}

/// The day, like `2026-07-10`, of a number of seconds since 1970.
pub open spec fn day_text(secs: int) -> Option<Seq<char>> {
    utc_text(secs as i64, "%Y-%m-%d"@)
}

/// Whether two texts are the local days of the time `now` and of the time `back`
/// days before, where the local clock is `a` and `b` seconds ahead of UTC then.
pub open spec fn days_at(
    now: int,
    a: int,
    b: int,
    today: Seq<char>,
    earlier: Seq<char>,
    back: int,
) -> bool {
    &&& now >= 0
    &&& -86_400 < a < 86_400
    &&& -86_400 < b < 86_400
    &&& day_text(now + a) == Some(today)
    &&& day_text(now - 86_400 * back + b) == Some(earlier)
}

/// Whether two texts are the local days of one time of the clock and of the time
/// `back` days before.
pub open spec fn one_clock(today: Seq<char>, earlier: Seq<char>, back: int) -> bool {
    exists|now: int, a: int, b: int| #[trigger] days_at(now, a, b, today, earlier, back)
}

/// Calls `chrono::Local::now` once, and formats that time and the one `back`
/// days earlier with `DateTime::format`. `now` is not before 1970; subtracting
/// works on the UTC time, and formatting shows the local one, which is less than
/// a day away from it. A day takes four or more digits for the year, two for the
/// month and two for the day, with hyphens between. Formatting panics on a
/// malformed pattern, so only the one that is used is taken.
#[verifier::external_body]
fn local_days(back: i64, pattern: &str) -> (r: (String, String))
    requires
        0 <= back <= 366,
        pattern@ == "%Y-%m-%d"@,
    ensures
        one_clock(r.0@, r.1@, back as int),
        r.0@.len() >= 10,
        r.1@.len() >= 10,
{
    let now = chrono::Local::now();
    let earlier = now - chrono::TimeDelta::days(back);
    (now.format(pattern).to_string(), earlier.format(pattern).to_string())
}

/// The label of a day, seen from a day and the one before it.
pub open spec fn label_of_day(
    day: Seq<char>,
    today: Seq<char>,
    yesterday: Seq<char>,
    written: Option<Seq<char>>,
) -> Seq<char> {
    if day == today {
        "Today"@
    } else if day == yesterday {
        "Yesterday"@
    } else {
        match written {
            Some(s) => s,
            None => day,
        }
    }
}

/// The label of a day, seen from a day and the one before it.
pub fn label_day(day: &str, today: &str, yesterday: &str, written: Option<String>) -> (r: String)
    ensures
        r@ == label_of_day(day@, today@, yesterday@, opt_text(written)),
{
    if same_text(day, today) {
        "Today".to_owned()
    } else if same_text(day, yesterday) {
        "Yesterday".to_owned()
    } else {
        match written {
            Some(s) => s,
            None => day.to_owned(),
        }
    }
}

/// Human label for a `YYYY-MM-DD` day string, seen from now: the local day of
/// the clock is today, and that of a day before is yesterday. A text that is too
/// short for a day is neither.
pub fn day_label(day: &str) -> (r: String)
    ensures
        exists|today: Seq<char>, yesterday: Seq<char>|
            one_clock(today, yesterday, 1) && r@ == #[trigger] label_of_day(
                day@,
                today,
                yesterday,
                short_date(day@),
            ),
        day@.len() < 10 ==> r@ == (match short_date(day@) {
            Some(written) => written,
            None => day@,
        }),
{
    let (today, yesterday) = local_days(1, "%Y-%m-%d");
    let written = rewrite_day(day, "%Y-%m-%d", "%a, %b %e");
    label_day(day, today.as_str(), yesterday.as_str(), written)
}

/// The day of the last message, among the first `n`, that has one.
pub open spec fn last_day(days: Seq<Option<Seq<char>>>, n: int) -> Option<Seq<char>>
    decreases n,
{
    if n <= 0 {
        None
    } else {
        match days[n - 1] {
            Some(d) => Some(d),
            None => last_day(days, n - 1),
        }
    }
}

/// Whether a date separator stands before message `i`: the message has another
/// day than the last one before it that has a day.
pub open spec fn separated(days: Seq<Option<Seq<char>>>, i: int) -> bool {
    days[i] is Some && last_day(days, i) is Some && days[i] != last_day(days, i)
}

/// What the days of a list are.
pub open spec fn day_views(days: Seq<Option<String>>) -> Seq<Option<Seq<char>>> {
    Seq::new(days.len(), |i: int| opt_text(days[i]))
}

/// Before which messages a date separator stands, given the day of each.
pub fn date_separators(days: &Vec<Option<String>>) -> (r: Vec<bool>)
    ensures
        r@.len() == days@.len(),
        forall|i: int| 0 <= i < days@.len() ==> #[trigger] r@[i] == separated(day_views(days@), i),
{
    let ghost views = day_views(days@);
    let mut r: Vec<bool> = Vec::new();
    let mut prev: Option<String> = None;
    let mut i: usize = 0;
    while i < days.len()
        invariant
            views == day_views(days@),
            i <= days@.len(),
            r@.len() == i,
            opt_text(prev) == last_day(views, i as int),
            forall|k: int| 0 <= k < i ==> #[trigger] r@[k] == separated(views, k),
        decreases days.len() - i,
    {
        assert(views[i as int] == opt_text(days@[i as int]));
        match &days[i] {
            Some(day) => {
                let same = same_opt_text(&prev, day.as_str());
                r.push(prev.is_some() && !same);
                prev = Some(day.clone());
            },
            None => {
                r.push(false);
            },
        }
        i += 1;
    }
    r
}

// ---------------------------------------------------------------------------
// Message texts
// ---------------------------------------------------------------------------

/// A text without the tags that wrapped thinking in older sessions.
pub open spec fn without_think_tags(content: Seq<char>) -> Seq<char> {
    let t = trim(content);
    let t = match without_prefix(t, "<think>"@) {
        Some(s) => s,
        None => t,
    };
    let t = match without_suffix(t, "</think>"@) {
        Some(s) => s,
        None => t,
    };
    trim(t)
}

/// Strip the thinking tags around a content for display.
pub fn strip_thinking_tags(content: &str) -> (r: String)
    ensures
        r@ == without_think_tags(content@),
{
    let t = trimmed(content);
    let t = match cut_prefix(t.as_str(), "<think>") {
        Some(s) => s,
        None => t,
    };
    let t = match cut_suffix(t.as_str(), "</think>") {
        Some(s) => s,
        None => t,
    };
    trimmed(t.as_str())
}

/// The text that the bubble of a message shows.
pub open spec fn bubble_text(m: MessageView) -> Seq<char> {
    if m.kind != MessageKind::Thinking && (find(m.content, "<think>"@) is Some || find(
        m.content,
        "</think>"@,
    ) is Some) {
        without_think_tags(m.content)
    } else {
        m.content
    }
}

/// The text that the bubble of a message shows.
pub fn display_content(message: &ChatMessage) -> (r: String)
    ensures
        r@ == bubble_text(message@),
{
    let thinking = match message.kind {
        MessageKind::Thinking => true,
        _ => false,
    };
    if !thinking && (has_text(message.content.as_str(), "<think>") || has_text(
        message.content.as_str(),
        "</think>",
    )) {
        strip_thinking_tags(message.content.as_str())
    } else {
        message.content.clone()
    }
}

/// Whether a message is shown as a tool card: a tool message that is not being
/// edited.
pub fn shows_tool_card(message: &ChatMessage, is_editing: bool) -> (r: bool)
    ensures
        r == (message@.kind == MessageKind::Tool && !is_editing),
{
    match message.kind {
        MessageKind::Tool => !is_editing,
        _ => false,
    }
}

/// Whether a message has a feedback row: only answers of the assistant that
/// are not being edited have one.
pub fn shows_feedback_row(message: &ChatMessage, is_editing: bool) -> (r: bool)
    ensures
        r == (message@.role != "user"@ && !is_editing && message@.kind == MessageKind::Normal),
{
    let normal = match message.kind {
        MessageKind::Normal => true,
        _ => false,
    };
    !same_text(message.role.as_str(), "user") && !is_editing && normal
}

/// The last lines of a text, at most six.
pub open spec fn tail_lines(output: Seq<char>) -> Seq<Seq<char>> {
    let all = lines(output);
    if all.len() > 6 {
        all.skip(all.len() - 6)
    } else {
        all
    }
}

/// The live output that a running tool's card shows.
pub fn live_tail(output: &str) -> (r: Vec<String>)
    ensures
        texts(r@) == tail_lines(output@),
{
    let all = split_lines(output);
    let n: usize = all.len();
    assert(texts(all@).len() == n);
    let start: usize = if n > 6 {
        n - 6
    } else {
        0
    };
    let mut r: Vec<String> = Vec::new();
    let mut i: usize = start;
    while i < n
        invariant
            start <= i <= n,
            n == all@.len(),
            r@.len() == i - start,
            forall|k: int| 0 <= k < r@.len() ==> (#[trigger] r@[k])@ == texts(all@)[start + k],
        decreases n - i,
    {
        r.push(all[i].clone());
        i += 1;
    }
    assert(texts(r@) =~= tail_lines(output@));
    r
}

// ---------------------------------------------------------------------------
// The cached messages
// ---------------------------------------------------------------------------

/// The messages that are shown, as they were when the list was last made.
pub struct DisplaySnapshot {
    pub messages: Vec<ChatMessage>,
    /// Session id the snapshot belongs to (None = empty).
    pub session: Option<String>,
    /// Message count the snapshot was built from.
    pub len: usize,
}

/// What a snapshot holds.
#[verifier::ext_equal]
pub struct SnapshotState {
    pub messages: Seq<MessageView>,
    pub session: Option<Seq<char>>,
    pub len: usize,
}

impl View for DisplaySnapshot {
    type V = SnapshotState;

    open spec fn view(&self) -> SnapshotState {
        SnapshotState {
            messages: message_views(self.messages@),
            session: opt_text(self.session),
            len: self.len,
        }
    }
}

/// The messages of the selected session.
pub open spec fn selected_messages(app: AppView) -> Seq<MessageView> {
    match app.selected() {
        Some(k) => app.sessions[k].chat.messages,
        None => Seq::empty(),
    }
}

/// Whether the snapshot has to be made again: another session is selected, a
/// message was changed in place, or the number of messages is another one.
pub open spec fn snapshot_stale(app: AppView, snap: SnapshotState) -> bool {
    app.selected_session_id != snap.session || app.display_dirty || selected_messages(app).len()
        != snap.len
}

fn copy_messages(v: &Vec<ChatMessage>) -> (r: Vec<ChatMessage>)
    ensures
        message_views(r@) == message_views(v@),
{
    let mut r: Vec<ChatMessage> = Vec::new();
    let mut i: usize = 0;
    while i < v.len()
        invariant
            i <= v@.len(),
            r@.len() == i,
            forall|k: int| 0 <= k < i ==> (#[trigger] r@[k])@ == v@[k]@,
        decreases v.len() - i,
    {
        r.push(
            ChatMessage {
                kind: v[i].kind,
                role: v[i].role.clone(),
                content: v[i].content.clone(),
                timestamp: v[i].timestamp.clone(),
                image: copy_opt(&v[i].image),
            },
        );
        i += 1;
    }
    assert(message_views(r@) =~= message_views(v@));
    r
}

impl ChatApp {
    /// Make the snapshot of the shown messages again where it is stale. It is
    /// then that of the selected session, and no change is outstanding.
    pub fn refresh_snapshot(&mut self, snap: &mut DisplaySnapshot)
        ensures
            final(self)@ == (AppView { display_dirty: false, ..old(self)@ }),
            final(snap)@ == (if snapshot_stale(old(self)@, old(snap)@) {
                SnapshotState {
                    messages: selected_messages(old(self)@),
                    session: old(self)@.selected_session_id,
                    len: selected_messages(old(self)@).len() as usize,
                }
            } else {
                old(snap)@
            }),
    {
        let found = self.find_selected();
        let len: usize = match found {
            Some(k) => self.sessions[k].chat.messages.len(),
            None => 0,
        };
        let same_session = match &self.selected_session_id {
            Some(id) => same_opt_text(&snap.session, id.as_str()),
            None => snap.session.is_none(),
        };
        if !same_session || self.display_dirty || len != snap.len {
            let messages = match found {
                Some(k) => copy_messages(&self.sessions[k].chat.messages),
                None => Vec::new(),
            };
            proof {
                if found is None {
                    assert(message_views(messages@) =~= Seq::empty());
                }
            }
            snap.messages = messages;
            snap.session = copy_opt(&self.selected_session_id);
            snap.len = len;
            self.display_dirty = false;
        }
    }
}

// ---------------------------------------------------------------------------
// Laws
// ---------------------------------------------------------------------------

/// A refreshed snapshot is not stale.
pub proof fn a_refreshed_snapshot_is_fresh(app: AppView, snap: SnapshotState)
    requires
        selected_messages(app).len() <= usize::MAX,
        !snapshot_stale(app, snap) || snap == (SnapshotState {
            messages: selected_messages(app),
            session: app.selected_session_id,
            len: selected_messages(app).len() as usize,
        }),
    ensures
        !snapshot_stale(AppView { display_dirty: false, ..app }, snap),
{
}

/// The first message with a day has no separator before it, and none stands
/// before a message without a day.
pub proof fn no_separator_without_a_change(days: Seq<Option<Seq<char>>>, i: int)
    requires
        0 <= i < days.len(),
    ensures
        days[i] is None ==> !separated(days, i),
        (forall|k: int| 0 <= k < i ==> (#[trigger] days[k]) is None) ==> !separated(days, i),
{
    if forall|k: int| 0 <= k < i ==> (#[trigger] days[k]) is None {
        lemma_no_day(days, i);
    }
}

proof fn lemma_no_day(days: Seq<Option<Seq<char>>>, n: int)
    requires
        0 <= n <= days.len(),
        forall|k: int| 0 <= k < n ==> (#[trigger] days[k]) is None,
    ensures
        last_day(days, n) is None,
    decreases n,
{
    if n > 0 {
        assert(days[n - 1] is None);
        lemma_no_day(days, n - 1);
    }
}

} // verus!

//! Prompt-history helpers for the agent editor and the improvements panel.
//!
//! Snapshots of a profile lie next to the profile's file, so those of one
//! agent can sit in several known agents directories. These helpers merge the
//! lists and say through which directory a revert goes.

use vstd::prelude::*;

use crate::clock::{as_signed, format_utc, signed, utc_text};
use crate::json::{parsed_json, read_json, JsonTree};
use crate::numbers::{decimal, decimal_text, parse_unsigned, read_unsigned};
use crate::paths::{is_same_path, same_path};
use crate::pieces::{
    char_count, first_chars, join, joined, split_at_most, split_words, splitn, take_chars, words,
};
use crate::text::{cut_prefix, cut_suffix, opt_text, texts, without_prefix, without_suffix};

verus! {

// ---------------------------------------------------------------------------
// Snapshot names
// ---------------------------------------------------------------------------

/// One prompt-history snapshot, tagged with the agents directory that owns
/// it (a revert must go through a manager bound to that directory).
pub struct HistoryEntry {
    /// Agents directory containing the snapshot (its `history/` subdir).
    pub dir: String,
    /// Path to the snapshot file.
    pub path: String,
    /// Unix timestamp parsed from the filename (0 = unparseable).
    pub ts: u64,
    /// Same-second sequence suffix (0 = base name).
    pub seq: u32,
}

/// What a history entry holds.
#[verifier::ext_equal]
pub struct HistoryView {
    pub dir: Seq<char>,
    pub path: Seq<char>,
    pub ts: u64,
    pub seq: u32,
}

impl View for HistoryEntry {
    type V = HistoryView;

    open spec fn view(&self) -> HistoryView {
        HistoryView { dir: self.dir@, path: self.path@, ts: self.ts, seq: self.seq }
    }
}

/// What the entries of a list hold.
pub open spec fn history_views(v: Seq<HistoryEntry>) -> Seq<HistoryView> {
    Seq::new(v.len(), |i: int| v[i]@)
}

/// A number of a snapshot name; what is no number counts as 0.
pub open spec fn name_number(s: Seq<char>, max: int) -> int {
    match parse_unsigned(s, max) {
        Some(n) => n,
        None => 0,
    }
}

/// The time and the sequence number in a snapshot-filename tail.
pub open spec fn ts_seq(tail: Seq<char>) -> (int, int) {
    let parts = splitn(tail, "-"@, 2);
    (
        name_number(parts[0], u64::MAX as int),
        if parts.len() > 1 {
            name_number(parts[1], u32::MAX as int)
        } else {
            0
        },
    )
}

/// Parse `(unix_ts, seq)` out of a snapshot-filename tail — the part after
/// the `<name>-` prefix, i.e. `<unixts>` or `<unixts>-<seq>`; non-numeric
/// parts yield 0.
pub fn parse_ts_seq(tail: &str) -> (r: (u64, u32))
    ensures
        (r.0 as int, r.1 as int) == ts_seq(tail@),
{
    let parts = split_at_most(tail, "-", 2);
    assert(texts(parts@).len() == parts@.len());
    let ts: u64 = match read_unsigned(parts[0].as_str(), u64::MAX) {
        Some(n) => n,
        None => 0,
    };
    let seq: u32 = if parts.len() > 1 {
        match read_unsigned(parts[1].as_str(), u32::MAX as u64) {
            Some(n) => n as u32,
            None => 0,
        }
    } else {
        0
    };
    (ts, seq)
}

// ---------------------------------------------------------------------------
// Times
// ---------------------------------------------------------------------------

/// The label of a time: the formatted one where there is one.
pub open spec fn time_label(ts: u64, formatted: Option<Seq<char>>) -> Seq<char> {
    match formatted {
        Some(s) => s,
        None => "timestamp "@ + decimal(ts as nat),
    }
}

/// The label of a time: the formatted one where there is one.
pub fn label_time(ts: u64, formatted: Option<String>) -> (r: String)
    ensures
        r@ == time_label(ts, opt_text(formatted)),
{
    match formatted {
        Some(s) => s,
        None => {
            let mut r = "timestamp ".to_owned();
            r.append(decimal_text(ts).as_str());
            r
        },
    }
}

/// Format a unix timestamp for display (UTC, e.g. `2026-07-10 14:05 UTC`).
pub fn format_ts(ts: u64) -> (r: String)
    ensures
        r@ == time_label(ts, utc_text(signed(ts), "%Y-%m-%d %H:%M UTC"@)),
{
    label_time(ts, format_utc(as_signed(ts), "%Y-%m-%d %H:%M UTC"))
}

// ---------------------------------------------------------------------------
// Listing
// ---------------------------------------------------------------------------

/// A snapshot file that a directory lists.
pub struct SnapshotFile {
    pub path: String,
    /// The last component of the path, where it is valid text.
    pub file_name: Option<String>,
}

/// The snapshot files of an agent in one agents directory, `None` where the
/// directory could not be listed.
pub struct SnapshotList {
    pub dir: String,
    pub files: Option<Vec<SnapshotFile>>,
}

/// What a listed snapshot holds: its directory, path and file name.
#[verifier::ext_equal]
pub struct SnapshotView {
    pub dir: Seq<char>,
    pub path: Seq<char>,
    pub file_name: Seq<char>,
}

impl SnapshotList {
    /// The snapshots of the directory, in the order of the list.
    pub open spec fn snapshots(self) -> Seq<SnapshotView> {
        match self.files {
            Some(v) => Seq::new(
                v@.len(),
                |i: int|
                    SnapshotView {
                        dir: self.dir@,
                        path: v@[i].path@,
                        file_name: match v@[i].file_name {
                            Some(f) => f@,
                            None => Seq::empty(),
                        },
                    },
            ),
            None => Seq::empty(),
        }
    }
}

/// The snapshots of all directories, in their order.
pub open spec fn all_snapshots(lists: Seq<SnapshotList>) -> Seq<SnapshotView>
    decreases lists.len(),
{
    if lists.len() == 0 {
        Seq::empty()
    } else {
        all_snapshots(lists.drop_last()) + lists.last().snapshots()
    }
}

/// The time and the sequence number that a snapshot's file name gives.
pub open spec fn snapshot_order(file_name: Seq<char>, name: Seq<char>) -> (int, int) {
    let stem = match without_suffix(file_name, ".json"@) {
        Some(s) => s,
        None => file_name,
    };
    match without_prefix(stem, name + "-"@) {
        Some(tail) => ts_seq(tail),
        None => ts_seq(Seq::empty()),
    }
}

/// Whether an entry of the list has this path.
pub open spec fn has_path(entries: Seq<HistoryView>, path: Seq<char>) -> bool {
    exists|i: int| 0 <= i < entries.len() && same_path((#[trigger] entries[i]).path, path)
}

/// The history entries that some snapshots give: those with a time, each path
/// once.
pub open spec fn dated(snapshots: Seq<SnapshotView>, name: Seq<char>) -> Seq<HistoryView>
    decreases snapshots.len(),
{
    if snapshots.len() == 0 {
        Seq::empty()
    } else {
        let before = dated(snapshots.drop_last(), name);
        let s = snapshots.last();
        let order = snapshot_order(s.file_name, name);
        if has_path(before, s.path) || order.0 <= 0 {
            before
        } else {
            before.push(
                HistoryView { dir: s.dir, path: s.path, ts: order.0 as u64, seq: order.1 as u32 },
            )
        }
    }
}

/// Whether `a` was taken after `b`.
pub open spec fn newer(a: HistoryView, b: HistoryView) -> bool {
    a.ts > b.ts || (a.ts == b.ts && a.seq > b.seq)
}

/// How many entries precede the first that is older than `x`.
pub open spec fn not_older(entries: Seq<HistoryView>, x: HistoryView) -> nat
    decreases entries.len(),
{
    if entries.len() == 0 || newer(x, entries[0]) {
        0
    } else {
        1 + not_older(entries.drop_first(), x)
    }
}

/// The entries, newest first; those of the same time keep their order.
pub open spec fn newest_first(entries: Seq<HistoryView>) -> Seq<HistoryView>
    decreases entries.len(),
{
    if entries.len() == 0 {
        Seq::empty()
    } else {
        let before = newest_first(entries.drop_last());
        before.insert(not_older(before, entries.last()) as int, entries.last())
    }
}

/// The history of an agent: what the snapshots give, newest first.
pub open spec fn history(lists: Seq<SnapshotList>, name: Seq<char>) -> Seq<HistoryView> {
    newest_first(dated(all_snapshots(lists), name))
}

proof fn lemma_not_older(entries: Seq<HistoryView>, x: HistoryView)
    ensures
        not_older(entries, x) <= entries.len(),
        forall|i: int| 0 <= i < not_older(entries, x) ==> !newer(x, #[trigger] entries[i]),
        not_older(entries, x) < entries.len() ==> newer(
            x,
            entries[not_older(entries, x) as int],
        ),
    decreases entries.len(),
{
    if entries.len() > 0 && !newer(x, entries[0]) {
        let t = entries.drop_first();
        lemma_not_older(t, x);
        assert forall|i: int| 0 <= i < not_older(entries, x) implies !newer(
            x,
            #[trigger] entries[i],
        ) by {
            if i > 0 {
                assert(t[i - 1] == entries[i]);
            }
        }
    }
}

fn copy_entry(e: &HistoryEntry) -> (r: HistoryEntry)
    ensures
        r@ == e@,
{
    HistoryEntry { dir: e.dir.clone(), path: e.path.clone(), ts: e.ts, seq: e.seq }
}

fn path_listed(entries: &Vec<HistoryEntry>, path: &str) -> (r: bool)
    ensures
        r == has_path(history_views(entries@), path@),
{
    let mut i: usize = 0;
    while i < entries.len()
        invariant
            i <= entries@.len(),
            forall|k: int|
                0 <= k < i ==> !same_path((#[trigger] history_views(entries@)[k]).path, path@),
        decreases entries.len() - i,
    {
        if is_same_path(entries[i].path.as_str(), path) {
            assert(same_path(history_views(entries@)[i as int].path, path@));
            return true;
        }
        i += 1;
    }
    false
}

fn read_snapshot_order(file_name: &str, name: &str) -> (r: (u64, u32))
    ensures
        (r.0 as int, r.1 as int) == snapshot_order(file_name@, name@),
{
    let stem = match cut_suffix(file_name, ".json") {
        Some(s) => s,
        None => file_name.to_owned(),
    };
    let mut prefix = name.to_owned();
    prefix.append("-");
    match cut_prefix(stem.as_str(), prefix.as_str()) {
        Some(tail) => parse_ts_seq(tail.as_str()),
        None => {
            let empty = String::new();
            assert(empty@ =~= Seq::<char>::empty());
            parse_ts_seq(empty.as_str())
        },
    }
}

fn collect_snapshots(lists: &Vec<SnapshotList>, name: &str) -> (r: Vec<HistoryEntry>)
    ensures
        history_views(r@) == dated(all_snapshots(lists@), name@),
{
    let mut entries: Vec<HistoryEntry> = Vec::new();
    let mut i: usize = 0;
    assert(history_views(entries@) =~= dated(all_snapshots(lists@.take(0)), name@));
    while i < lists.len()
        invariant
            i <= lists@.len(),
            history_views(entries@) == dated(all_snapshots(lists@.take(i as int)), name@),
        decreases lists.len() - i,
    {
        let ghost before = all_snapshots(lists@.take(i as int));
        let ghost mine = lists@[i as int].snapshots();
        assert(lists@.take(i + 1).drop_last() =~= lists@.take(i as int));
        assert(before + mine.take(0) =~= before);
        if let Some(files) = &lists[i].files {
            let mut k: usize = 0;
            while k < files.len()
                invariant
                    i < lists@.len(),
                    lists@[i as int].files == Some(*files),
                    mine == lists@[i as int].snapshots(),
                    k <= files@.len(),
                    history_views(entries@) == dated(before + mine.take(k as int), name@),
                decreases files.len() - k,
            {
                let ghost now = before + mine.take(k + 1);
                assert(now.drop_last() =~= before + mine.take(k as int));
                assert(now.last() == mine[k as int]);
                let file_name = match &files[k].file_name {
                    Some(f) => f.clone(),
                    None => String::new(),
                };
                assert(file_name@ =~= mine[k as int].file_name);
                if !path_listed(&entries, files[k].path.as_str()) {
                    let (ts, seq) = read_snapshot_order(file_name.as_str(), name);
                    if ts > 0 {
                        let ghost old_entries = entries@;
                        entries.push(
                            HistoryEntry {
                                dir: lists[i].dir.clone(),
                                path: files[k].path.clone(),
                                ts,
                                seq,
                            },
                        );
                        assert(history_views(entries@) =~= history_views(old_entries).push(
                            entries@.last()@,
                        ));
                    }
                }
                k += 1;
            }
            assert(mine.take(mine.len() as int) =~= mine);
        } else {
            assert(before + mine =~= before);
        }
        i += 1;
    }
    assert(lists@.take(lists@.len() as int) =~= lists@);
    entries
}

fn sort_newest_first(entries: &Vec<HistoryEntry>) -> (r: Vec<HistoryEntry>)
    ensures
        history_views(r@) == newest_first(history_views(entries@)),
{
    let ghost all = history_views(entries@);
    let mut r: Vec<HistoryEntry> = Vec::new();
    let mut i: usize = 0;
    assert(history_views(r@) =~= newest_first(all.take(0)));
    while i < entries.len()
        invariant
            all == history_views(entries@),
            i <= entries@.len(),
            history_views(r@) == newest_first(all.take(i as int)),
        decreases entries.len() - i,
    {
        let ghost sorted = history_views(r@);
        let x = copy_entry(&entries[i]);
        let mut k: usize = 0;
        assert(sorted.skip(0) =~= sorted);
        while k < r.len() && !(x.ts > r[k].ts || (x.ts == r[k].ts && x.seq > r[k].seq))
            invariant
                k <= r@.len(),
                sorted == history_views(r@),
                not_older(sorted, x@) == k + not_older(sorted.skip(k as int), x@),
            decreases r.len() - k,
        {
            assert(sorted.skip(k as int)[0] == r@[k as int]@);
            assert(sorted.skip(k as int).drop_first() =~= sorted.skip(k + 1));
            k += 1;
        }
        proof {
            if k < r@.len() {
                assert(sorted.skip(k as int)[0] == r@[k as int]@);
            }
            assert(not_older(sorted.skip(k as int), x@) == 0);
            assert(all.take(i + 1).drop_last() =~= all.take(i as int));
        }
        let ghost old_r = r@;
        let ghost xv = x@;
        r.insert(k, x);
        assert(history_views(r@) =~= history_views(old_r).insert(k as int, xv));
        i += 1;
    }
    assert(all.take(all.len() as int) =~= all);
    r
}

/// List the prompt-history snapshots of `name` across all directories
/// (ordered, primary first), newest first. Paths are compared as texts.
///
/// An empty result means the agent has no history anywhere — not an error.
pub fn list_history(lists: &Vec<SnapshotList>, name: &str) -> (r: Vec<HistoryEntry>)
    ensures
        history_views(r@) == history(lists@, name@),
{
    sort_newest_first(&collect_snapshots(lists, name))
}

/// A request to restore a profile from a snapshot through the manager of one
/// agents directory.
pub struct RevertRequest {
    pub dir: String,
    pub name: String,
    pub path: String,
}

/// Restore `name` from `entry` via a manager bound to `dir` (normally
/// `entry.dir`).
pub fn revert(dir: &str, name: &str, entry: &HistoryEntry) -> (r: RevertRequest)
    ensures
        r.dir@ == dir@,
        r.name@ == name@,
        r.path@ == entry@.path,
{
    RevertRequest { dir: dir.to_owned(), name: name.to_owned(), path: entry.path.clone() }
}

// ---------------------------------------------------------------------------
// Preview
// ---------------------------------------------------------------------------

/// The words of a prompt on one line, cut to 60 characters.
pub open spec fn preview(prompt: Seq<char>) -> Seq<char> {
    let flat = join(words(prompt), " "@);
    if flat.len() <= 60 {
        flat
    } else {
        first_chars(flat, 57) + "..."@
    }
}

/// The system prompt in a profile file.
pub open spec fn prompt_in(document: Option<JsonTree>) -> Seq<char> {
    match document {
        Some(t) => match t.text_at("system_prompt"@) {
            Some(s) => s,
            None => Seq::empty(),
        },
        None => Seq::empty(),
    }
}

/// The words of a prompt on one line, cut to 60 characters.
pub fn preview_of(prompt: &str) -> (r: String)
    ensures
        r@ == preview(prompt@),
{
    let parts = split_words(prompt);
    let flat = joined(&parts, " ");
    if char_count(flat.as_str()) <= 60 {
        flat
    } else {
        let mut r = take_chars(flat.as_str(), 57);
        r.append("...");
        r
    }
}

/// Single-line, truncated preview of a snapshot's system prompt for the
/// history list; `content` is what the snapshot file holds, where it could be
/// read.
pub fn prompt_preview(content: Option<&str>) -> (r: String)
    ensures
        r@ == (match content {
            Some(c) => preview(prompt_in(parsed_json(c@))),
            None => "(unreadable)"@,
        }),
{
    match content {
        Some(c) => match read_json(c) {
            Some(json) => match json.text_at("system_prompt") {
                Some(s) => preview_of(s.as_str()),
                None => {
                    let empty = String::new();
                    assert(empty@ =~= Seq::<char>::empty());
                    preview_of(empty.as_str())
                },
            },
            None => {
                let empty = String::new();
                assert(empty@ =~= Seq::<char>::empty());
                preview_of(empty.as_str())
            },
        },
        None => "(unreadable)".to_owned(),
    }
}

// ---------------------------------------------------------------------------
// Laws
// ---------------------------------------------------------------------------

/// A preview never takes more than 60 characters.
pub proof fn preview_is_bounded(prompt: Seq<char>)
    ensures
        preview(prompt).len() <= 60,
{
    reveal_strlit("...");
}

/// No entry of a history is followed by a newer one.
pub proof fn history_is_newest_first(entries: Seq<HistoryView>)
    ensures
        forall|i: int, j: int|
            0 <= i < j < newest_first(entries).len() ==> !newer(
                #[trigger] newest_first(entries)[j],
                #[trigger] newest_first(entries)[i],
            ),
    decreases entries.len(),
{
    if entries.len() > 0 {
        history_is_newest_first(entries.drop_last());
        let before = newest_first(entries.drop_last());
        let x = entries.last();
        lemma_not_older(before, x);
        let k = not_older(before, x) as int;
        let now = newest_first(entries);
        assert forall|i: int, j: int| 0 <= i < j < now.len() implies !newer(
            #[trigger] now[j],
            #[trigger] now[i],
        ) by {
            let a = if i < k { i } else { i - 1 };
            let b = if j < k { j } else { j - 1 };
            if i != k && j != k {
                assert(!newer(before[b], before[a]));
            } else if j == k {
                assert(!newer(x, before[i]));
            } else {
                assert(newer(x, before[k]));
                if j > k + 1 {
                    assert(!newer(before[j - 1], before[k]));
                }
            }
        }
    }
}

/// Sorting neither drops nor adds an entry.
pub proof fn sorting_keeps_the_entries(entries: Seq<HistoryView>)
    ensures
        newest_first(entries).to_multiset() == entries.to_multiset(),
        newest_first(entries).len() == entries.len(),
    decreases entries.len(),
{
    broadcast use vstd::seq_lib::group_to_multiset_ensures;

    if entries.len() > 0 {
        sorting_keeps_the_entries(entries.drop_last());
        let before = newest_first(entries.drop_last());
        let x = entries.last();
        lemma_not_older(before, x);
        let k = not_older(before, x) as int;
        assert(before.insert(k, x).to_multiset() =~= before.to_multiset().insert(x));
        assert(entries =~= entries.drop_last().push(x));
        assert(newest_first(entries).to_multiset() =~= entries.to_multiset());
    } else {
        assert(newest_first(entries) =~= entries);
    }
}

/// Every entry has a time, no path is listed twice, and every entry is one of
/// the snapshots with the directory that listed it.
pub proof fn dated_entries_are_distinct(snapshots: Seq<SnapshotView>, name: Seq<char>)
    ensures
        forall|i: int| 0 <= i < dated(snapshots, name).len() ==> (#[trigger] dated(
            snapshots,
            name,
        )[i]).ts > 0,
        forall|i: int, j: int|
            0 <= i < j < dated(snapshots, name).len() ==> !same_path(
                (#[trigger] dated(snapshots, name)[i]).path,
                (#[trigger] dated(snapshots, name)[j]).path,
            ),
        forall|i: int|
            0 <= i < dated(snapshots, name).len() ==> listed_in(
                snapshots,
                #[trigger] dated(snapshots, name)[i],
            ),
    decreases snapshots.len(),
{
    if snapshots.len() > 0 {
        let rest = snapshots.drop_last();
        dated_entries_are_distinct(rest, name);
        let before = dated(rest, name);
        let now = dated(snapshots, name);
        let s = snapshots.last();
        let order = snapshot_order(s.file_name, name);
        assert forall|i: int| 0 <= i < now.len() implies listed_in(snapshots, #[trigger] now[i]) by {
            if i < before.len() {
                assert(now[i] == before[i]);
                assert(listed_in(rest, before[i]));
                let k = choose|k: int|
                    0 <= k < rest.len() && (#[trigger] rest[k]).path == before[i].path
                        && rest[k].dir == before[i].dir;
                assert(snapshots[k] == rest[k]);
            } else {
                assert(snapshots[snapshots.len() - 1].path == now[i].path);
            }
        }
        assert forall|i: int, j: int| 0 <= i < j < now.len() implies !same_path(
            (#[trigger] now[i]).path,
            (#[trigger] now[j]).path,
        ) by {
            assert(now[i] == before[i]);
            if j < before.len() {
                assert(now[j] == before[j]);
            } else {
                assert(!has_path(before, s.path));
            }
        }
    }
}

/// Whether a snapshot with the entry's path was listed in its directory.
pub open spec fn listed_in(snapshots: Seq<SnapshotView>, e: HistoryView) -> bool {
    exists|k: int|
        0 <= k < snapshots.len() && (#[trigger] snapshots[k]).path == e.path && snapshots[k].dir
            == e.dir
}

/// Whether no two entries of a list have the same path.
pub open spec fn distinct_paths(entries: Seq<HistoryView>) -> bool {
    forall|i: int, j: int|
        0 <= i < j < entries.len() ==> !same_path(
            (#[trigger] entries[i]).path,
            (#[trigger] entries[j]).path,
        )
}

proof fn lemma_sorted_members(entries: Seq<HistoryView>)
    ensures
        forall|i: int|
            0 <= i < newest_first(entries).len() ==> entries.contains(
                #[trigger] newest_first(entries)[i],
            ),
        distinct_paths(entries) ==> distinct_paths(newest_first(entries)),
    decreases entries.len(),
{
    if entries.len() > 0 {
        let rest = entries.drop_last();
        lemma_sorted_members(rest);
        let before = newest_first(rest);
        let x = entries.last();
        lemma_not_older(before, x);
        let k = not_older(before, x) as int;
        let now = newest_first(entries);
        assert forall|i: int| 0 <= i < before.len() implies exists|m: int|
            0 <= m < rest.len() && entries[m] == #[trigger] before[i] by {
            assert(rest.contains(before[i]));
            let m = choose|m: int| 0 <= m < rest.len() && rest[m] == before[i];
            assert(entries[m] == before[i]);
        }
        assert forall|i: int| 0 <= i < now.len() implies entries.contains(#[trigger] now[i]) by {
            if i == k {
                assert(entries[entries.len() - 1] == now[i]);
            } else {
                let a = if i < k { i } else { i - 1 };
                assert(now[i] == before[a]);
            }
        }
        if distinct_paths(entries) {
            assert(distinct_paths(rest)) by {
                assert forall|i: int, j: int| 0 <= i < j < rest.len() implies !same_path(
                    (#[trigger] rest[i]).path,
                    (#[trigger] rest[j]).path,
                ) by {
                    assert(rest[i] == entries[i] && rest[j] == entries[j]);
                }
            }
            assert forall|i: int, j: int| 0 <= i < j < now.len() implies !same_path(
                (#[trigger] now[i]).path,
                (#[trigger] now[j]).path,
            ) by {
                let a = if i < k { i } else { i - 1 };
                let b = if j < k { j } else { j - 1 };
                if i != k && j != k {
                    assert(!same_path(before[a].path, before[b].path));
                } else {
                    let c = if i == k { b } else { a };
                    let m = choose|m: int| 0 <= m < rest.len() && entries[m] == before[c];
                    assert(!same_path(entries[m].path, entries[entries.len() - 1].path));
                }
            }
        }
    }
}

/// An agent's history is ordered newest first; every entry has a time and was
/// listed in its directory, and no snapshot appears twice.
pub proof fn history_keeps_its_promises(lists: Seq<SnapshotList>, name: Seq<char>)
    ensures
        forall|i: int, j: int|
            0 <= i < j < history(lists, name).len() ==> !newer(
                #[trigger] history(lists, name)[j],
                #[trigger] history(lists, name)[i],
            ),
        distinct_paths(history(lists, name)),
        forall|i: int|
            0 <= i < history(lists, name).len() ==> (#[trigger] history(lists, name)[i]).ts > 0
                && listed_in(all_snapshots(lists), history(lists, name)[i]),
{
    let snapshots = all_snapshots(lists);
    let entries = dated(snapshots, name);
    dated_entries_are_distinct(snapshots, name);
    history_is_newest_first(entries);
    lemma_sorted_members(entries);
    assert forall|i: int| 0 <= i < history(lists, name).len() implies (#[trigger] history(
        lists,
        name,
    )[i]).ts > 0 && listed_in(snapshots, history(lists, name)[i]) by {
        assert(entries.contains(newest_first(entries)[i]));
        let k = choose|k: int| 0 <= k < entries.len() && entries[k] == newest_first(entries)[i];
        assert(entries[k].ts > 0);
    }
}

} // verus!

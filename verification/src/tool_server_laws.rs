//! What is read from the form of a tool server, what the list of servers keeps, and
//! what the memory panel and an attached image do.

use vstd::prelude::*;

use crate::chat_state::ImageView;
use crate::image_loader::{answers, BytesPoll, Decoding, ImagePoll};
use crate::images::{
    attached_uri, data_uri, hex, hex_digit, image_text, pixel_bytes, pixels_fit, base64_text,
};
use crate::mcp_edit::{
    blank_edit, edit_of, key_at, line_pair, line_pairs, with_pair, EditView, ServerView,
    TransportKind, TransportView,
};
use crate::mcp_panel::{
    connected_among, op_done, op_label, op_timeout, polled, server_at, servers_after,
    servers_enabled, servers_removed, servers_saved, should_connect, status_words, toggled_name,
    JobPoll, McpOp, McpPanelView, McpServerStatus,
};
use crate::memory_panel::{
    age_at, age_in_days, entry_deleted, fresh_panel, instant, maintenance_note, maintenance_polled,
    whole_days, DeleteOutcome, MaintenancePoll, MaintenanceProgress, MemoryPanelView,
    MemorySettings,
};
use crate::numbers::decimal;
use crate::pieces::{comma_list, join, lines, words};
use crate::text::{split_once, trim};

verus! {

// ---------------------------------------------------------------------------
// The form of a server
// ---------------------------------------------------------------------------

/// A line gives the name before its first separator and the value behind it, without
/// space at their ends; a line without a separator or without a name gives nothing.
pub proof fn a_line_gives_a_name_and_a_value(
    line: Seq<char>,
    sep: Seq<char>,
    name: Seq<char>,
    text: Seq<char>,
)
    ensures
        split_once(trim(line), sep) == Some((name, text)) && trim(name).len() > 0 ==> line_pair(
            line,
            sep,
        ) == Some((trim(name), trim(text))),
        split_once(trim(line), sep) == Some((name, text)) && trim(name).len() == 0 ==> line_pair(
            line,
            sep,
        ) is None,
        split_once(trim(line), sep) is None ==> line_pair(line, sep) is None,
{
}

proof fn lemma_key_at(pairs: Seq<(Seq<char>, Seq<char>)>, key: Seq<char>, from: int)
    requires
        0 <= from,
    ensures
        match key_at(pairs, key, from) {
            Some(i) => from <= i < pairs.len() && pairs[i].0 == key && forall|j: int|
                from <= j < i ==> (#[trigger] pairs[j]).0 != key,
            None => forall|j: int| from <= j < pairs.len() ==> (#[trigger] pairs[j]).0 != key,
        },
    decreases pairs.len() - from,
{
    if from < pairs.len() && pairs[from].0 != key {
        lemma_key_at(pairs, key, from + 1);
    }
}

/// Whether a name stands for a value in a list.
pub open spec fn gives(
    pairs: Seq<(Seq<char>, Seq<char>)>,
    name: Seq<char>,
    text: Seq<char>,
) -> bool {
    exists|i: int| 0 <= i < pairs.len() && #[trigger] pairs[i] == (name, text)
}

/// A further line with a name sets its value, in place where the name is there, else
/// behind the others; a line that gives nothing changes nothing.
pub proof fn a_further_line_sets_its_name(
    all: Seq<Seq<char>>,
    line: Seq<char>,
    sep: Seq<char>,
    k: int,
)
    ensures
        ({
            let before = line_pairs(all, sep);
            let after = line_pairs(all.push(line), sep);
            &&& line_pairs(Seq::empty(), sep).len() == 0
            &&& line_pair(line, sep) is None ==> after == before
            &&& line_pair(line, sep) matches Some(pair) ==> {
                &&& gives(after, pair.0, pair.1)
                &&& (forall|j: int| 0 <= j < before.len() ==> (#[trigger] before[j]).0 != pair.0)
                    ==> after == before.push(pair)
                &&& 0 <= k < before.len() && before[k].0 != pair.0 ==> after[k] == before[k]
                &&& (exists|j: int| 0 <= j < before.len() && (#[trigger] before[j]).0 == pair.0)
                    ==> after.len() == before.len()
            }
        }),
{
    assert(all.push(line).drop_last() =~= all);
    if let Some(pair) = line_pair(line, sep) {
        let before = line_pairs(all, sep);
        let after = with_pair(before, pair);
        lemma_key_at(before, pair.0, 0);
        match key_at(before, pair.0, 0) {
            Some(i) => {
                assert(after[i] == (pair.0, pair.1));
            },
            None => {
                assert(after[before.len() as int] == (pair.0, pair.1));
            },
        }
    }
}

/// The form of a server shows what is configured.
pub proof fn the_form_shows_the_server(cfg: ServerView)
    ensures
        ({
            let e = edit_of(cfg);
            &&& e.existing == Some(cfg.name)
            &&& e.name == cfg.name
            &&& e.enabled == cfg.enabled
            &&& e.timeout_secs == cfg.timeout_secs
            &&& e.allowed_tools == join(cfg.allowed_tools, ", "@)
            &&& cfg.transport matches TransportView::Stdio { command, args, working_dir, .. } ==> {
                &&& e.transport_kind == TransportKind::Stdio
                &&& e.command == command
                &&& e.args == join(args, " "@)
                &&& working_dir matches Some(d) ==> e.working_dir == d
                &&& working_dir is None ==> e.working_dir.len() == 0
                &&& e.url.len() == 0 && e.headers.len() == 0
            }
            &&& cfg.transport matches TransportView::Http { url, .. } ==> {
                &&& e.transport_kind == TransportKind::Http
                &&& e.url == url
                &&& e.command.len() == 0 && e.args.len() == 0 && e.env.len() == 0
                &&& e.working_dir.len() == 0
            }
        }),
{
}

/// A new form is empty: an enabled local server with a minute's patience.
pub proof fn a_new_form_is_empty()
    ensures
        ({
            let e = blank_edit();
            &&& e.existing is None
            &&& e.name.len() == 0 && e.command.len() == 0 && e.args.len() == 0
            &&& e.env.len() == 0 && e.working_dir.len() == 0 && e.url.len() == 0
            &&& e.headers.len() == 0 && e.allowed_tools.len() == 0
            &&& e.transport_kind == TransportKind::Stdio
            &&& e.enabled
            &&& e.timeout_secs == 60
        }),
{
}

/// A server is built exactly where it has a name and its transport: a command that is
/// not blank, or an address that starts as a web address does. It has what was typed,
/// and a patience between one second and ten minutes.
pub proof fn a_server_is_built_from_its_form(e: EditView, name: Seq<char>)
    ensures
        e.server(name) is Some <==> name.len() > 0 && (if e.transport_kind == TransportKind::Stdio {
            trim(e.command).len() > 0
        } else {
            "http"@.is_prefix_of(trim(e.url))
        }),
        e.server(name) matches Some(s) ==> {
            &&& s.name == name
            &&& s.enabled == e.enabled
            &&& s.allowed_tools == comma_list(e.allowed_tools)
            &&& 1 <= e.timeout_secs <= 600 ==> s.timeout_secs == e.timeout_secs
            &&& e.timeout_secs < 1 ==> s.timeout_secs == 1
            &&& e.timeout_secs > 600 ==> s.timeout_secs == 600
            &&& e.transport_kind == TransportKind::Stdio ==> s.transport == (
            TransportView::Stdio {
                command: trim(e.command),
                args: words(e.args),
                env: line_pairs(lines(e.env), "="@),
                working_dir: if trim(e.working_dir).len() > 0 {
                    Some(trim(e.working_dir))
                } else {
                    None
                },
            })
            &&& e.transport_kind == TransportKind::Http ==> s.transport == (TransportView::Http {
                url: trim(e.url),
                headers: line_pairs(lines(e.headers), ":"@),
            })
        },
{
}

// ---------------------------------------------------------------------------
// The list of servers
// ---------------------------------------------------------------------------

proof fn lemma_server_at(servers: Seq<ServerView>, name: Seq<char>, from: int)
    requires
        0 <= from,
    ensures
        match server_at(servers, name, from) {
            Some(i) => from <= i < servers.len() && servers[i].name == name && forall|j: int|
                from <= j < i ==> (#[trigger] servers[j]).name != name,
            None => forall|j: int|
                from <= j < servers.len() ==> (#[trigger] servers[j]).name != name,
        },
    decreases servers.len() - from,
{
    if from < servers.len() && servers[from].name != name {
        lemma_server_at(servers, name, from + 1);
    }
}

/// A new server goes behind the others; a changed one takes the place of the first
/// with its name, and is not added where there is none.
pub proof fn a_saved_server_is_listed(servers: Seq<ServerView>, cfg: ServerView, k: int)
    ensures
        servers_saved(servers, cfg, true) == servers.push(cfg),
        0 <= k < servers.len() && servers[k].name == cfg.name && (forall|j: int|
            0 <= j < k ==> (#[trigger] servers[j]).name != cfg.name) ==> servers_saved(
            servers,
            cfg,
            false,
        ) == servers.update(k, cfg),
        (forall|j: int| 0 <= j < servers.len() ==> (#[trigger] servers[j]).name != cfg.name)
            ==> servers_saved(servers, cfg, false) == servers,
{
    lemma_server_at(servers, cfg.name, 0);
}

/// Switching a server on or off changes its switch alone, and no other server.
pub proof fn a_switch_changes_one_server(
    servers: Seq<ServerView>,
    name: Seq<char>,
    enabled: bool,
    k: int,
)
    requires
        0 <= k < servers.len(),
    ensures
        servers_enabled(servers, name, enabled).len() == servers.len(),
        servers[k].name == name && (forall|j: int|
            0 <= j < k ==> (#[trigger] servers[j]).name != name) ==> servers_enabled(
            servers,
            name,
            enabled,
        )[k] == (ServerView { enabled, ..servers[k] }),
        servers[k].name != name ==> servers_enabled(servers, name, enabled)[k] == servers[k],
{
    lemma_server_at(servers, name, 0);
}

/// Only a removal that succeeded takes a server off the list.
pub proof fn only_a_removal_shortens_the_list(
    servers: Seq<ServerView>,
    op: McpOp,
    succeeded: bool,
)
    ensures
        !succeeded || !(op is Remove) ==> servers_after(servers, op, succeeded) == servers,
        succeeded ==> (op matches McpOp::Remove(name) ==> servers_after(servers, op, succeeded)
            == servers_removed(servers, name@)),
{
}

/// A click on a server opens its tools where they are closed, and closes them where
/// they are open once; the others stay.
pub proof fn a_click_toggles_one_servers_tools(
    names: Seq<Seq<char>>,
    name: Seq<char>,
    other: Seq<char>,
)
    requires
        names.no_duplicates(),
    ensures
        toggled_name(names, name, 0).contains(name) <==> !names.contains(name),
        other != name ==> (toggled_name(names, name, 0).contains(other) <==> names.contains(
            other,
        )),
        toggled_name(names, name, 0).no_duplicates(),
{
    lemma_toggled(names, name, 0);
    let after = toggled_name(names, name, 0);
    if names.contains(name) {
        let k = choose|k: int| 0 <= k < names.len() && names[k] == name;
        assert(after == names.remove(k));
        assert forall|x: Seq<char>| x != name implies (after.contains(x) <==> names.contains(x)) by {
            if names.contains(x) {
                let i = choose|i: int| 0 <= i < names.len() && names[i] == x;
                if i < k {
                    assert(after[i] == x);
                } else {
                    assert(after[i - 1] == x);
                }
            }
            if after.contains(x) {
                let i = choose|i: int| 0 <= i < after.len() && after[i] == x;
                if i < k {
                    assert(names[i] == x);
                } else {
                    assert(names[i + 1] == x);
                }
            }
        }
        if after.contains(name) {
            let i = choose|i: int| 0 <= i < after.len() && after[i] == name;
            if i < k {
                assert(names[i] == name);
            } else {
                assert(names[i + 1] == name);
            }
        }
    } else {
        assert(after == names.push(name));
        assert(after[names.len() as int] == name);
        if names.contains(other) {
            let i = choose|i: int| 0 <= i < names.len() && names[i] == other;
            assert(after[i] == other);
        }
        if other != name && after.contains(other) {
            let i = choose|i: int| 0 <= i < after.len() && after[i] == other;
            assert(names[i] == other);
        }
        assert forall|i: int, j: int|
            0 <= i < after.len() && 0 <= j < after.len() && i != j implies after[i] != after[j] by {
            if i < names.len() && j < names.len() {
                assert(names[i] != names[j]);
            } else if i < names.len() {
                assert(names.contains(names[i]));
            } else {
                assert(names.contains(names[j]));
            }
        }
    }
}

proof fn lemma_toggled(names: Seq<Seq<char>>, name: Seq<char>, from: int)
    requires
        names.no_duplicates(),
        0 <= from <= names.len(),
        forall|i: int| 0 <= i < from ==> #[trigger] names[i] != name,
    ensures
        forall|k: int|
            0 <= k < names.len() && #[trigger] names[k] == name ==> toggled_name(names, name, from)
                == names.remove(k),
        !names.contains(name) ==> toggled_name(names, name, from) == names.push(name),
    decreases names.len() - from,
{
    if from < names.len() && names[from] != name {
        lemma_toggled(names, name, from + 1);
    } else if from < names.len() {
        assert(names.contains(name));
        assert forall|k: int| 0 <= k < names.len() && #[trigger] names[k] == name implies k
            == from by {}
    }
}

/// Exactly the connected servers are counted.
pub proof fn exactly_the_connected_servers_are_counted(statuses: Seq<McpServerStatus>)
    ensures
        connected_among(statuses, statuses.len() as int) == statuses.filter(
            |s: McpServerStatus| s is Connected,
        ).len(),
    decreases statuses.len(),
{
    reveal(Seq::filter);
    if statuses.len() > 0 {
        let rest = statuses.drop_last();
        exactly_the_connected_servers_are_counted(rest);
        lemma_connected_prefix(statuses, rest.len() as int);
        assert(statuses.take(rest.len() as int) =~= rest);
    }
}

proof fn lemma_connected_prefix(statuses: Seq<McpServerStatus>, n: int)
    requires
        0 <= n <= statuses.len(),
    ensures
        connected_among(statuses, n) == connected_among(statuses.take(n), n),
    decreases n,
{
    if n > 0 {
        lemma_connected_prefix(statuses, n - 1);
        lemma_connected_prefix(statuses.take(n), n - 1);
        assert(statuses.take(n).take(n - 1) =~= statuses.take(n - 1));
        assert(statuses.take(n)[n - 1] == statuses[n - 1]);
    }
}

/// Each status of a server has its mark and its word; a server that is only
/// configured says whether it is switched off.
pub proof fn each_server_status_has_its_words(e: String, on: bool)
    ensures
        status_words(McpServerStatus::Connected, on) == ("●"@, "connected"@),
        status_words(McpServerStatus::Connecting, on) == ("◌"@, "connecting…"@),
        status_words(McpServerStatus::Configured, true) == ("○"@, "configured"@),
        status_words(McpServerStatus::Configured, false) == ("⊘"@, "disabled"@),
        status_words(McpServerStatus::Error(e), on) == ("⚠"@, "error"@),
{
}

/// A saved server is connected exactly where it is switched on and neither connected
/// nor being connected.
pub proof fn an_enabled_idle_server_is_connected(e: String)
    ensures
        should_connect(true, None),
        should_connect(true, Some(McpServerStatus::Configured)),
        should_connect(true, Some(McpServerStatus::Error(e))),
        !should_connect(true, Some(McpServerStatus::Connected)),
        !should_connect(true, Some(McpServerStatus::Connecting)),
        forall|s: Option<McpServerStatus>| !#[trigger] should_connect(false, s),
{
}

/// What the panel says while an operation runs and once it is done, and how long it
/// may take.
pub proof fn an_operation_says_what_it_does(n: String, count: u64)
    ensures
        op_label(McpOp::Connect(n)) == "connecting "@ + n@,
        op_label(McpOp::Disconnect(n)) == "disconnecting "@ + n@,
        op_label(McpOp::Refresh(n)) == "refreshing "@ + n@,
        op_label(McpOp::Remove(n)) == "removing "@ + n@,
        op_label(McpOp::SetEnabled(n, true)) == "enabling"@ + " "@ + n@,
        op_label(McpOp::SetEnabled(n, false)) == "disabling"@ + " "@ + n@,
        op_done(McpOp::Connect(n), count) == "✓ "@ + n@ + " connected ("@ + decimal(count as nat)
            + " tools registered)"@,
        op_done(McpOp::Disconnect(n), count) == "✓ "@ + n@ + " disconnected"@,
        op_done(McpOp::Refresh(n), count) == "✓ "@ + n@ + ": "@ + decimal(count as nat)
            + " tools registered"@,
        op_done(McpOp::Remove(n), count) == "✓ "@ + n@ + " removed"@,
        op_done(McpOp::SetEnabled(n, true), count) == "✓ "@ + n@ + " "@ + "enabled"@,
        op_done(McpOp::SetEnabled(n, false), count) == "✓ "@ + n@ + " "@ + "disabled"@,
        op_timeout(McpOp::Disconnect(n)) == 10 && op_timeout(McpOp::Remove(n)) == 10,
        op_timeout(McpOp::Connect(n)) == 30 && op_timeout(McpOp::Refresh(n)) == 30,
        op_timeout(McpOp::SetEnabled(n, true)) == 30 && op_timeout(McpOp::SetEnabled(n, false))
            == 30,
{
}

/// An operation that ended frees the panel and leaves its message; one that runs
/// leaves all as it is, and so does any report without an operation.
pub proof fn an_ended_operation_leaves_its_message(
    p: McpPanelView,
    label: Seq<char>,
    m: String,
    poll: JobPoll,
)
    ensures
        p.job == Some(label) ==> {
            &&& polled(p, JobPoll::Ended(Ok(m))) == (McpPanelView {
                message: Some(m@),
                job: None,
                ..p
            })
            &&& polled(p, JobPoll::Ended(Err(m))) == (McpPanelView {
                message: Some("✗ "@ + label + " failed: "@ + m@),
                job: None,
                ..p
            })
            &&& polled(p, JobPoll::Lost) == (McpPanelView {
                message: Some("✗ "@ + label + " failed (worker exited)"@),
                job: None,
                ..p
            })
            &&& polled(p, JobPoll::Running) == p
        },
        p.job is None ==> polled(p, poll) == p,
{
}

// ---------------------------------------------------------------------------
// Memories
// ---------------------------------------------------------------------------

/// An age is the number of whole days between two times, and none where the second is
/// the earlier.
pub proof fn an_age_is_in_whole_days(then: int, now: int, days: i64)
    ensures
        now >= then ==> {
            &&& age_at(then, now) >= 0
            &&& age_at(then, now) * 86_400_000_000_000 <= now - then
            &&& now - then < (age_at(then, now) + 1) * 86_400_000_000_000
        },
        now < then ==> age_at(then, now) == 0,
        whole_days(then - now) == -whole_days(now - then),
        days >= 0 ==> age_in_days(Some(days)) == days,
        days < 0 ==> age_in_days(Some(days)) == 0,
        age_in_days(None) == 0,
        instant(1, 0) == 1_000_000_000,
        forall|s: i64, n: u32| #[trigger] instant(s, n) == s * 1_000_000_000 + n,
{
}

/// A step of the maintenance has at least ten seconds, and a batch between five and a
/// hundred entries; within these bounds the settings decide.
pub proof fn the_maintenance_keeps_its_bounds(s: MemorySettings)
    ensures
        s.step_timeout() >= 10,
        s.memory_maintenance_timeout_secs >= 10 ==> s.step_timeout()
            == s.memory_maintenance_timeout_secs,
        s.memory_maintenance_timeout_secs < 10 ==> s.step_timeout() == 10,
        5 <= s.batch() <= 100,
        5 <= s.memory_maintenance_batch_size <= 100 ==> s.batch()
            == s.memory_maintenance_batch_size,
        s.memory_maintenance_batch_size < 5 ==> s.batch() == 5,
        s.memory_maintenance_batch_size > 100 ==> s.batch() == 100,
{
}

/// What the panel says of the maintenance: how far it is while it runs, else whether
/// it is switched off, not needed yet, or ready.
pub proof fn the_maintenance_says_how_it_stands(
    s: MemorySettings,
    count: nat,
    p: MaintenanceProgress,
)
    ensures
        p.total == 0 ==> maintenance_note(s, count, Some(p)) == "running in background: "@
            + "starting"@ + " ("@ + decimal(p.elapsed_secs as nat) + "s elapsed, "@ + decimal(
            s.step_timeout() as nat,
        ) + "s limit per step)"@,
        p.total > 0 ==> maintenance_note(s, count, Some(p)) == "running in background: "@ + (
        "step "@ + decimal(p.current as nat) + "/"@ + decimal(p.total as nat)) + " ("@ + decimal(
            p.elapsed_secs as nat,
        ) + "s elapsed, "@ + decimal(s.step_timeout() as nat) + "s limit per step)"@,
        !s.memory_maintenance ==> maintenance_note(s, count, None) == "disabled in settings"@,
        s.memory_maintenance && count < s.memory_maintenance_threshold ==> maintenance_note(
            s,
            count,
            None,
        ) == "below threshold ("@ + decimal(s.memory_maintenance_threshold as nat) + ")"@,
        s.memory_maintenance && count >= s.memory_maintenance_threshold ==> maintenance_note(
            s,
            count,
            None,
        ) == "ready (runs in batches of "@ + decimal(s.batch() as nat) + ")"@,
{
}

/// A maintenance that ended frees the panel and leaves its report or its error; one
/// that runs leaves all as it is, and so does any report without one.
pub proof fn an_ended_maintenance_leaves_its_report(
    p: MemoryPanelView,
    m: String,
    poll: MaintenancePoll,
)
    ensures
        p.maintenance ==> {
            &&& maintenance_polled(p, MaintenancePoll::Ended(Ok(m))) == (MemoryPanelView {
                maintenance_report: Some(m@),
                message: Some("✓ Maintenance: "@ + m@),
                maintenance: false,
                ..p
            })
            &&& maintenance_polled(p, MaintenancePoll::Ended(Err(m))) == (MemoryPanelView {
                message: Some("✗ Maintenance failed: "@ + m@),
                maintenance: false,
                ..p
            })
            &&& maintenance_polled(p, MaintenancePoll::Lost) == (MemoryPanelView {
                maintenance: false,
                ..p
            })
            &&& maintenance_polled(p, MaintenancePoll::Running) == p
        },
        !p.maintenance ==> maintenance_polled(p, poll) == p,
{
}

/// A deletion is over once it was tried, and says how it ended; the editor of a
/// deleted memory closes, and any other stays open.
pub proof fn a_deleted_memory_is_not_edited(
    p: MemoryPanelView,
    id: Seq<char>,
    e: String,
)
    requires
        id.len() >= 8,
    ensures
        entry_deleted(p, id, DeleteOutcome::Deleted) == (MemoryPanelView {
            pending_delete: None,
            message: Some("✓ Deleted "@ + id.take(8)),
            selected_id: if p.selected_id == Some(id) {
                None
            } else {
                p.selected_id
            },
            ..p
        }),
        entry_deleted(p, id, DeleteOutcome::NotFound) == (MemoryPanelView {
            pending_delete: None,
            message: Some("Entry "@ + id.take(8) + " not found"@),
            ..p
        }),
        entry_deleted(p, id, DeleteOutcome::Failed(e)) == (MemoryPanelView {
            pending_delete: None,
            message: Some("✗ Delete failed: "@ + e@),
            ..p
        }),
{
}

/// A new memory panel is hidden and empty, and nothing runs in it.
pub proof fn a_new_memory_panel_is_empty()
    ensures
        ({
            let p = fresh_panel();
            &&& !p.show_panel && !p.maintenance && !p.scroll_to_editor
            &&& p.search.len() == 0 && p.edit_content.len() == 0 && p.edit_tags.len() == 0
            &&& p.selected_id is None && p.pending_delete is None
            &&& p.message is None && p.maintenance_report is None
        }),
{
}

// ---------------------------------------------------------------------------
// Images
// ---------------------------------------------------------------------------

/// An image is handed over as a data URI of its bytes; without an image there is none.
pub proof fn an_image_is_handed_over(i: ImageView)
    ensures
        data_uri(image_text(Some(i))) == Some("data:image/png;base64,"@ + base64_text(i.bytes)),
        data_uri(image_text(None)) is None,
{
}

proof fn lemma_hex(v: int, w: int, n: nat)
    requires
        v >= 0,
        w >= 0,
    ensures
        hex(v, n).len() == n,
        n > 0 && hex(v, n) == hex(w, n) ==> v % 16 == w % 16 && hex(v / 16, (n - 1) as nat) == hex(
            w / 16,
            (n - 1) as nat,
        ),
    decreases n,
{
    if n > 0 {
        lemma_hex(v / 16, w / 16, (n - 1) as nat);
        let a = hex(v / 16, (n - 1) as nat);
        let b = hex(w / 16, (n - 1) as nat);
        if hex(v, n) == hex(w, n) {
            assert(a.push(hex_digit(v % 16)).last() == b.push(hex_digit(w % 16)).last());
            lemma_hex_digit(v % 16, w % 16);
            lemma_hex(w / 16, w / 16, (n - 1) as nat);
            assert(a.push(hex_digit(v % 16)).drop_last() =~= a);
            assert(b.push(hex_digit(w % 16)).drop_last() =~= b);
        }
    }
}

proof fn lemma_hex_digit(a: int, b: int)
    requires
        0 <= a < 16,
        0 <= b < 16,
        hex_digit(a) == hex_digit(b),
    ensures
        a == b,
{
}

proof fn lemma_hex_differs(v: int, w: int, n: nat, bound: int)
    requires
        0 <= v < bound,
        0 <= w < bound,
        bound == sixteens(n),
        hex(v, n) == hex(w, n),
    ensures
        v == w,
    decreases n,
{
    if n > 0 {
        lemma_hex(v, w, n);
        lemma_hex_differs(v / 16, w / 16, (n - 1) as nat, sixteens((n - 1) as nat));
    }
}

spec fn sixteens(n: nat) -> int
    decreases n,
{
    if n == 0 {
        1
    } else {
        16 * sixteens((n - 1) as nat)
    }
}

/// The digits of an image's name go from 0 to 9 and then from a to f.
pub proof fn the_digits_of_a_name(d: int)
    ensures
        hex_digit(0) == '0' && hex_digit(9) == '9' && hex_digit(10) == 'a' && hex_digit(15) == 'f',
        0 <= d < 15 && d != 9 ==> hex_digit(d + 1) as u32 == hex_digit(d) as u32 + 1,
{
}

/// Images with different hashes have different names, each of sixteen digits.
pub proof fn different_images_have_different_names(a: u64, b: u64)
    requires
        a != b,
    ensures
        attached_uri(a) != attached_uri(b),
        exists|digits: Seq<char>|
            digits.len() == 16 && attached_uri(a) == #[trigger] ("bytes://attached_image_"@
                + digits) + ".png"@,
{
    lemma_hex(a as int, b as int, 16);
    lemma_hex(b as int, a as int, 16);
    let x = hex(a as int, 16);
    let y = hex(b as int, 16);
    assert(attached_uri(a) == ("bytes://attached_image_"@ + x) + ".png"@);
    if attached_uri(a) == attached_uri(b) {
        let n = "bytes://attached_image_"@.len() as int;
        assert(attached_uri(a).subrange(n, n + 16) =~= x);
        assert(attached_uri(b).subrange(n, n + 16) =~= y);
        assert(sixteens(16) == 0x1_0000_0000_0000_0000) by {
            reveal_with_fuel(sixteens, 17);
        }
        lemma_hex_differs(a as int, b as int, 16, sixteens(16));
    }
}

/// The pixels of an image fit exactly where it has an extent and four bytes for each
/// pixel, as long as these can be counted.
pub proof fn four_bytes_make_a_pixel(w: u32, h: u32, len: nat)
    requires
        w * h * 4 <= u32::MAX,
    ensures
        pixels_fit(w, h, len) <==> w > 0 && h > 0 && len == w * h * 4,
        pixel_bytes(w, h) == w * h * 4,
{
    assert(w * h >= 0) by (nonlinear_arith);
}

/// Bytes that are there are decoded, or refused with the reason; bytes on their way
/// are waited for; where there are none, others have a turn.
pub proof fn an_image_is_answered_for(d: Decoding, r: ImagePoll, bytes: Vec<u8>)
    ensures
        answers(BytesPoll::Ready(bytes), d, r) ==> (d matches Decoding::Pixels {
            width,
            height,
            rgba,
        } ==> (r matches ImagePoll::Ready(i) && i.width == width && i.height == height && i.rgba@
            == rgba)),
        answers(BytesPoll::Ready(bytes), d, r) ==> (d matches Decoding::Refused(e) ==> (
        r matches ImagePoll::FormatNotSupported(f) && f@ == e)),
        answers(BytesPoll::Pending, d, r) ==> r is Pending,
        answers(BytesPoll::Missing, d, r) ==> r is NotMine,
{
}

} // verus!

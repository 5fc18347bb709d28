//! The memory panel: list, search, edit, delete, settings and maintenance.
//!
//! All reads and writes go through the memory manager; what came of them is
//! taken in here.

use vstd::prelude::*;

use crate::clock::{clock_time, ordinary};
use crate::numbers::{count_text, decimal, decimal_text};
use crate::pieces::{
    comma_list, comma_list_reads_back, first_chars, join, joined, list_entry, split_commas,
    take_chars,
};
use crate::text::{is_blank, opt_text, same_opt_text, texts, trim};

verus! {

/// Floor for the maintenance timeout so a misconfigured 0 can't cancel the
/// pass instantly.
pub const MIN_MAINTENANCE_TIMEOUT_SECS: u64 = 10;

// ---------------------------------------------------------------------------
// Entries
// ---------------------------------------------------------------------------

/// Short display id (first 8 chars).
pub fn short_id(id: &str) -> (r: String)
    ensures
        r@ == first_chars(id@, 8),
{
    take_chars(id, 8)
}

/// The age of an entry in days: an entry without a time counts as new, as does
/// one from the future.
pub open spec fn age_in_days(elapsed_days: Option<i64>) -> int {
    match elapsed_days {
        Some(d) => if d > 0 {
            d as int
        } else {
            0
        },
        None => 0,
    }
}

/// The age of an entry of which so many whole days have passed.
pub fn age_of(elapsed_days: Option<i64>) -> (r: u64)
    ensures
        r as int == age_in_days(elapsed_days),
{
    match elapsed_days {
        Some(d) => if d > 0 {
            d as u64
        } else {
            0
        },
        None => 0,
    }
}

/// A time in nanoseconds since 1970, given its whole seconds and the
/// nanoseconds beyond them.
pub open spec fn instant(secs: i64, nanos: u32) -> int {
    secs * 1_000_000_000 + nanos
}

/// The whole days in a span of nanoseconds; a part of a day does not count, in
/// either direction.
pub open spec fn whole_days(span: int) -> int {
    if span >= 0 {
        span / 86_400_000_000_000
    } else {
        -((-span) / 86_400_000_000_000)
    }
}

/// Whether `r` is the count of the whole days from one ordinary time to another.
pub open spec fn counts_days(r: Option<i64>, then: (i64, u32), now: (i64, u32)) -> bool {
    ordinary(then.0, then.1) && ordinary(now.0, now.1) ==> match r {
        Some(days) => days == whole_days(instant(now.0, now.1) - instant(then.0, then.1)),
        None => false,
    }
}

/// Calls `chrono::DateTime::from_timestamp` on two times, each in seconds since
/// 1970 and nanoseconds, and counts the whole days from the first to the second
/// with `signed_duration_since` and `num_days`. Of ordinary times the count is
/// exact; times that chrono cannot hold give `None`.
#[verifier::external_body]
fn days_between(then: (i64, u32), now: (i64, u32)) -> (r: Option<i64>)
    ensures
        counts_days(r, then, now),
{
    let then = chrono::DateTime::from_timestamp(then.0, then.1)?;
    let now = chrono::DateTime::from_timestamp(now.0, now.1)?;
    Some(now.signed_duration_since(then).num_days())
}

/// The age in days, at the time `now`, of an entry from the given time; one
/// from the future counts as new. Times are in nanoseconds since 1970.
pub open spec fn age_at(then: int, now: int) -> int {
    if now >= then {
        whole_days(now - then)
    } else {
        0
    }
}

/// The age in days, at the time `now`, of an entry from the time `then`. Times
/// are in seconds since 1970 and the nanoseconds beyond them.
pub fn age_between(then: (i64, u32), now: (i64, u32)) -> (r: u64)
    ensures
        ordinary(then.0, then.1) && ordinary(now.0, now.1) ==> r == age_at(
            instant(then.0, then.1),
            instant(now.0, now.1),
        ),
{
    age_of(days_between(then, now))
}

/// Whether a number is the age of an entry at some time of the clock, which is
/// not before 1970.
pub open spec fn age_by_the_clock(age: u64, then: (i64, u32)) -> bool {
    exists|secs: i64, nanos: u32|
        ordinary(secs, nanos) && secs >= 0 && age == age_at(
            instant(then.0, then.1),
            #[trigger] instant(secs, nanos),
        )
}

/// Human age label in days, seen from now. The entry's time is given in seconds
/// since 1970 and the nanoseconds beyond them; an entry without a time counts
/// as new. The clock is not before 1970, so an entry from before that is at
/// least as old as 1970 is to it.
pub fn format_age(timestamp: Option<(i64, u32)>) -> (r: u64)
    ensures
        match timestamp {
            Some(then) => ordinary(then.0, then.1) ==> age_by_the_clock(r, then),
            None => r == 0,
        },
        match timestamp {
            Some(then) => ordinary(then.0, then.1) && then.0 < 0 ==> r >= (-instant(
                then.0,
                then.1,
            )) / 86_400_000_000_000,
            None => true,
        },
{
    match timestamp {
        Some(then) => {
            let now = clock_time();
            let age: u64 = age_between(then, now);
            proof {
                let t = instant(then.0, then.1);
                let n = instant(now.0, now.1);
                if ordinary(then.0, then.1) {
                    assert(age == age_at(t, n));
                    if then.0 < 0 {
                        assert(t <= 0 && n >= 0);
                        assert(n - t >= -t);
                    }
                }
            }
            age
        },
        None => 0,
    }
}

/// The label of an entry's tags, where it has some.
pub fn tags_label(tags: &Vec<String>) -> (r: Option<String>)
    ensures
        opt_text(r) == (if tags@.len() == 0 {
            None
        } else {
            Some("#"@ + join(texts(tags@), " #"@))
        }),
{
    if tags.len() == 0 {
        None
    } else {
        let mut r = "#".to_owned();
        r.append(joined(tags, " #").as_str());
        Some(r)
    }
}

// ---------------------------------------------------------------------------
// Settings
// ---------------------------------------------------------------------------

/// When memories are put into a prompt.
#[derive(Clone, Copy, Debug, PartialEq, Eq, Structural)]
pub enum InjectionMode {
    Always,
    Smart,
    Off,
}

/// The settings of the memory that the panel edits.
#[derive(Clone, Copy, Debug, PartialEq, Eq, Structural)]
pub struct MemorySettings {
    pub enabled: bool,
    pub injection_mode: InjectionMode,
    pub max_entries: usize,
    pub injection_max_entries: usize,
    pub memory_maintenance: bool,
    pub memory_maintenance_threshold: usize,
    pub memory_maintenance_batch_size: usize,
    pub memory_maintenance_timeout_secs: u64,
    pub auto_improve: bool,
    pub improvement_cooldown_tasks: u64,
}

// ---------------------------------------------------------------------------
// Maintenance
// ---------------------------------------------------------------------------

/// The larger of two numbers.
pub open spec fn at_least(n: int, low: int) -> int {
    if n < low {
        low
    } else {
        n
    }
}

/// A number moved into a range.
pub open spec fn clamped(n: int, low: int, high: int) -> int {
    if n < low {
        low
    } else if n > high {
        high
    } else {
        n
    }
}

impl MemorySettings {
    /// The time limit of one maintenance step, in seconds.
    pub open spec fn step_timeout(self) -> int {
        at_least(self.memory_maintenance_timeout_secs as int, MIN_MAINTENANCE_TIMEOUT_SECS as int)
    }

    /// How many entries one maintenance step takes.
    pub open spec fn batch(self) -> int {
        clamped(self.memory_maintenance_batch_size as int, 5, 100)
    }

    /// How many steps a maintenance pass over `count` entries has.
    pub open spec fn steps(self, count: int) -> int {
        at_least((count + self.batch() - 1) / self.batch(), 1)
    }

    /// The time limit of one maintenance step, in seconds.
    pub fn step_timeout_secs(&self) -> (r: u64)
        ensures
            r as int == self.step_timeout(),
    {
        if self.memory_maintenance_timeout_secs < MIN_MAINTENANCE_TIMEOUT_SECS {
            MIN_MAINTENANCE_TIMEOUT_SECS
        } else {
            self.memory_maintenance_timeout_secs
        }
    }

    /// How many entries one maintenance step takes.
    pub fn batch_size(&self) -> (r: usize)
        ensures
            r as int == self.batch(),
    {
        let n: usize = self.memory_maintenance_batch_size;
        if n < 5 {
            5
        } else if n > 100 {
            100
        } else {
            n
        }
    }

    /// The time limit of a whole maintenance pass over `count` entries: that of
    /// a step for each estimated step.
    pub fn total_timeout_secs(&self, count: usize) -> (r: u64)
        requires
            count + self.batch() <= usize::MAX,
            self.step_timeout() * self.steps(count as int) <= u64::MAX,
        ensures
            r as int == self.step_timeout() * self.steps(count as int),
    {
        let batch: usize = self.batch_size();
        let rounded: usize = (count + batch - 1) / batch;
        let steps: usize = if rounded < 1 {
            1
        } else {
            rounded
        };
        let step: u64 = self.step_timeout_secs();
        assert(steps as int == self.steps(count as int));
        assert(step as int * steps as int == self.step_timeout() * self.steps(count as int));
        step * steps as u64
    }
}

/// How far a running maintenance pass is.
#[derive(Clone, Copy, Debug, PartialEq, Eq, Structural)]
pub struct MaintenanceProgress {
    pub elapsed_secs: u64,
    pub current: usize,
    pub total: usize,
}

/// The note beside the maintenance button.
pub open spec fn maintenance_note(
    settings: MemorySettings,
    count: nat,
    running: Option<MaintenanceProgress>,
) -> Seq<char> {
    match running {
        Some(p) => "running in background: "@ + (if p.total == 0 {
            "starting"@
        } else {
            "step "@ + decimal(p.current as nat) + "/"@ + decimal(p.total as nat)
        }) + " ("@ + decimal(p.elapsed_secs as nat) + "s elapsed, "@ + decimal(
            settings.step_timeout() as nat,
        ) + "s limit per step)"@,
        None => if !settings.memory_maintenance {
            "disabled in settings"@
        } else if count < settings.memory_maintenance_threshold {
            "below threshold ("@ + decimal(settings.memory_maintenance_threshold as nat) + ")"@
        } else {
            "ready (runs in batches of "@ + decimal(settings.batch() as nat) + ")"@
        },
    }
}

/// Whether a maintenance pass can be started: it is switched on, there are
/// enough entries, and none is running.
pub fn can_run_maintenance(settings: &MemorySettings, count: usize, running: bool) -> (r: bool)
    ensures
        r == (settings.memory_maintenance && count >= settings.memory_maintenance_threshold
            && !running),
{
    settings.memory_maintenance && count >= settings.memory_maintenance_threshold && !running
}

/// The note beside the maintenance button.
pub fn maintenance_hint(
    settings: &MemorySettings,
    count: usize,
    running: Option<MaintenanceProgress>,
) -> (r: String)
    ensures
        r@ == maintenance_note(*settings, count as nat, running),
{
    match running {
        Some(p) => {
            let mut r = "running in background: ".to_owned();
            if p.total == 0 {
                r.append("starting");
            } else {
                let mut step = "step ".to_owned();
                step.append(count_text(p.current).as_str());
                step.append("/");
                step.append(count_text(p.total).as_str());
                r.append(step.as_str());
            }
            r.append(" (");
            r.append(decimal_text(p.elapsed_secs).as_str());
            r.append("s elapsed, ");
            r.append(decimal_text(settings.step_timeout_secs()).as_str());
            r.append("s limit per step)");
            r
        },
        None => if !settings.memory_maintenance {
            "disabled in settings".to_owned()
        } else if count < settings.memory_maintenance_threshold {
            let mut r = "below threshold (".to_owned();
            r.append(count_text(settings.memory_maintenance_threshold).as_str());
            r.append(")");
            r
        } else {
            let mut r = "ready (runs in batches of ".to_owned();
            r.append(count_text(settings.batch_size()).as_str());
            r.append(")");
            r
        },
    }
}

/// The error of a maintenance pass that took too long.
pub fn maintenance_timeout_message(secs: u64) -> (r: String)
    ensures
        r@ == "Maintenance timed out after "@ + decimal(secs as nat)
            + "s total (raise the step limit in Settings)"@,
{
    let mut r = "Maintenance timed out after ".to_owned();
    r.append(decimal_text(secs).as_str());
    r.append("s total (raise the step limit in Settings)");
    r
}

// ---------------------------------------------------------------------------
// The panel
// ---------------------------------------------------------------------------

/// Full memory panel: list, search, edit, delete, and run-maintenance.
pub struct MemoryPanel {
    pub show_panel: bool,
    /// Keyword filter; empty shows everything.
    pub search: String,
    /// Id of the entry currently being edited, if any.
    pub selected_id: Option<String>,
    /// Editable content for the selected entry.
    pub edit_content: String,
    /// Editable tags (comma separated) for the selected entry.
    pub edit_tags: String,
    /// One-shot: on the next frame, scroll to the editor of the selected entry.
    pub scroll_to_editor: bool,
    /// Confirmation dialog: pending delete id.
    pub pending_delete: Option<String>,
    /// Result message shown at the top of the panel (success/error).
    pub message: Option<String>,
    /// Latest maintenance summary.
    pub maintenance_report: Option<String>,
    /// Whether a maintenance pass is running.
    pub maintenance: bool,
}

/// What the panel holds.
#[verifier::ext_equal]
pub struct MemoryPanelView {
    pub show_panel: bool,
    pub search: Seq<char>,
    pub selected_id: Option<Seq<char>>,
    pub edit_content: Seq<char>,
    pub edit_tags: Seq<char>,
    pub scroll_to_editor: bool,
    pub pending_delete: Option<Seq<char>>,
    pub message: Option<Seq<char>>,
    pub maintenance_report: Option<Seq<char>>,
    pub maintenance: bool,
}

impl View for MemoryPanel {
    type V = MemoryPanelView;

    open spec fn view(&self) -> MemoryPanelView {
        MemoryPanelView {
            show_panel: self.show_panel,
            search: self.search@,
            selected_id: opt_text(self.selected_id),
            edit_content: self.edit_content@,
            edit_tags: self.edit_tags@,
            scroll_to_editor: self.scroll_to_editor,
            pending_delete: opt_text(self.pending_delete),
            message: opt_text(self.message),
            maintenance_report: opt_text(self.maintenance_report),
            maintenance: self.maintenance,
        }
    }
}

/// The closed panel.
pub open spec fn fresh_panel() -> MemoryPanelView {
    MemoryPanelView {
        show_panel: false,
        search: Seq::empty(),
        selected_id: None,
        edit_content: Seq::empty(),
        edit_tags: Seq::empty(),
        scroll_to_editor: false,
        pending_delete: None,
        message: None,
        maintenance_report: None,
        maintenance: false,
    }
}

/// What a look for the result of a maintenance pass found.
pub enum MaintenancePoll {
    /// The pass ended: with a summary, or with an error.
    Ended(Result<String, String>),
    /// It is still running.
    Running,
    /// Its thread ended without a result.
    Lost,
}

/// The panel after a look for the result of a maintenance pass.
pub open spec fn maintenance_polled(p: MemoryPanelView, poll: MaintenancePoll) -> MemoryPanelView {
    if !p.maintenance {
        p
    } else {
        match poll {
            MaintenancePoll::Ended(Ok(summary)) => MemoryPanelView {
                maintenance_report: Some(summary@),
                message: Some("✓ Maintenance: "@ + summary@),
                maintenance: false,
                ..p
            },
            MaintenancePoll::Ended(Err(e)) => MemoryPanelView {
                message: Some("✗ Maintenance failed: "@ + e@),
                maintenance: false,
                ..p
            },
            MaintenancePoll::Running => p,
            MaintenancePoll::Lost => MemoryPanelView { maintenance: false, ..p },
        }
    }
}

/// How deleting an entry ended.
pub enum DeleteOutcome {
    Deleted,
    NotFound,
    Failed(String),
}

/// The panel after the deletion of an entry was confirmed.
pub open spec fn entry_deleted(p: MemoryPanelView, id: Seq<char>, outcome: DeleteOutcome) ->
    MemoryPanelView {
    MemoryPanelView {
        pending_delete: None,
        message: Some(
            match outcome {
                DeleteOutcome::Deleted => "✓ Deleted "@ + first_chars(id, 8),
                DeleteOutcome::NotFound => "Entry "@ + first_chars(id, 8) + " not found"@,
                DeleteOutcome::Failed(e) => "✗ Delete failed: "@ + e@,
            },
        ),
        selected_id: if outcome is Deleted && p.selected_id == Some(id) {
            None
        } else {
            p.selected_id
        },
        ..p
    }
}

impl MemoryPanel {
    /// A closed panel.
    pub fn new() -> (r: Self)
        ensures
            r@ == fresh_panel(),
    {
        MemoryPanel {
            show_panel: false,
            search: String::new(),
            selected_id: None,
            edit_content: String::new(),
            edit_tags: String::new(),
            scroll_to_editor: false,
            pending_delete: None,
            message: None,
            maintenance_report: None,
            maintenance: false,
        }
    }

    /// Take in a look for the result of a maintenance pass.
    pub fn collect_maintenance(&mut self, poll: &MaintenancePoll)
        ensures
            final(self)@ == maintenance_polled(old(self)@, *poll),
    {
        if !self.maintenance {
            return;
        }
        match poll {
            MaintenancePoll::Ended(Ok(summary)) => {
                self.maintenance_report = Some(summary.clone());
                let mut m = "✓ Maintenance: ".to_owned();
                m.append(summary.as_str());
                self.message = Some(m);
                self.maintenance = false;
            },
            MaintenancePoll::Ended(Err(e)) => {
                let mut m = "✗ Maintenance failed: ".to_owned();
                m.append(e.as_str());
                self.message = Some(m);
                self.maintenance = false;
            },
            MaintenancePoll::Running => {},
            MaintenancePoll::Lost => {
                self.maintenance = false;
            },
        }
    }

    /// Note whether the thread of a maintenance pass could be started.
    pub fn maintenance_spawned(&mut self, spawned: &Result<(), String>)
        ensures
            final(self)@ == (match *spawned {
                Ok(_) => MemoryPanelView {
                    maintenance: true,
                    message: Some("✓ Maintenance started (running in background)"@),
                    ..old(self)@
                },
                Err(e) => MemoryPanelView {
                    message: Some("✗ Failed to start maintenance: "@ + e@),
                    ..old(self)@
                },
            }),
    {
        match spawned {
            Ok(_) => {
                self.maintenance = true;
                self.message = Some("✓ Maintenance started (running in background)".to_owned());
            },
            Err(e) => {
                let mut m = "✗ Failed to start maintenance: ".to_owned();
                m.append(e.as_str());
                self.message = Some(m);
            },
        }
    }

    /// Whether all entries are listed: nothing is searched for.
    pub fn shows_all(&self) -> (r: bool)
        ensures
            r == (trim(self@.search).len() == 0),
    {
        is_blank(self.search.as_str())
    }

    /// The note where no entry is listed.
    pub fn empty_note(&self) -> (r: &'static str)
        ensures
            r@ == (if trim(self@.search).len() == 0 {
                "No memories yet. The agent writes them via the save_memory tool."@
            } else {
                "No memories match the search."@
            }),
    {
        if is_blank(self.search.as_str()) {
            "No memories yet. The agent writes them via the save_memory tool."
        } else {
            "No memories match the search."
        }
    }

    /// Open an entry in the editor, which is scrolled to.
    pub fn edit_entry(&mut self, id: &str, content: &str, tags: &Vec<String>)
        ensures
            final(self)@ == (MemoryPanelView {
                selected_id: Some(id@),
                edit_content: content@,
                edit_tags: join(texts(tags@), ", "@),
                scroll_to_editor: true,
                ..old(self)@
            }),
    {
        self.selected_id = Some(id.to_owned());
        self.edit_content = content.to_owned();
        self.edit_tags = joined(tags, ", ");
        self.scroll_to_editor = true;
    }

    /// The tags in the editor.
    pub fn edited_tags(&self) -> (r: Vec<String>)
        ensures
            texts(r@) == comma_list(self@.edit_tags),
    {
        split_commas(self.edit_tags.as_str())
    }

    /// Take in how saving the edited entry ended: the id of the entry, or an
    /// error. A saved entry closes the editor.
    pub fn finish_update(&mut self, outcome: &Result<String, String>)
        ensures
            final(self)@ == (match *outcome {
                Ok(id) => MemoryPanelView {
                    message: Some("✓ Updated "@ + first_chars(id@, 8)),
                    selected_id: None,
                    ..old(self)@
                },
                Err(e) => MemoryPanelView {
                    message: Some("✗ Update failed: "@ + e@),
                    ..old(self)@
                },
            }),
    {
        match outcome {
            Ok(id) => {
                let mut m = "✓ Updated ".to_owned();
                m.append(short_id(id.as_str()).as_str());
                self.message = Some(m);
                self.selected_id = None;
            },
            Err(e) => {
                let mut m = "✗ Update failed: ".to_owned();
                m.append(e.as_str());
                self.message = Some(m);
            },
        }
    }

    /// Close the editor.
    pub fn close_editor(&mut self)
        ensures
            final(self)@ == (MemoryPanelView { selected_id: None, ..old(self)@ }),
    {
        self.selected_id = None;
    }

    /// Ask for the confirmation of deleting an entry.
    pub fn ask_delete(&mut self, id: &str)
        ensures
            final(self)@ == (MemoryPanelView { pending_delete: Some(id@), ..old(self)@ }),
    {
        self.pending_delete = Some(id.to_owned());
    }

    /// Give up the deletion.
    pub fn cancel_delete(&mut self)
        ensures
            final(self)@ == (MemoryPanelView { pending_delete: None, ..old(self)@ }),
    {
        self.pending_delete = None;
    }

    /// Take in how the confirmed deletion of an entry ended. The editor of a
    /// deleted entry closes.
    pub fn finish_delete(&mut self, id: &str, outcome: &DeleteOutcome)
        ensures
            final(self)@ == entry_deleted(old(self)@, id@, *outcome),
    {
        match outcome {
            DeleteOutcome::Deleted => {
                let mut m = "✓ Deleted ".to_owned();
                m.append(short_id(id).as_str());
                self.message = Some(m);
                if same_opt_text(&self.selected_id, id) {
                    self.selected_id = None;
                }
            },
            DeleteOutcome::NotFound => {
                let mut m = "Entry ".to_owned();
                m.append(short_id(id).as_str());
                m.append(" not found");
                self.message = Some(m);
            },
            DeleteOutcome::Failed(e) => {
                let mut m = "✗ Delete failed: ".to_owned();
                m.append(e.as_str());
                self.message = Some(m);
            },
        }
        self.pending_delete = None;
    }

    /// Compare the settings after a frame with those before it. Where the user
    /// changed anything, the new ones are to be set and kept, and the message
    /// says so.
    pub fn settings_after(&mut self, before: &MemorySettings, after: &MemorySettings) -> (r: Option<
        MemorySettings,
    >)
        ensures
            *before == *after ==> r is None && final(self)@ == old(self)@,
            *before != *after ==> r == Some(*after) && final(self)@ == (MemoryPanelView {
                message: Some("✓ Memory settings updated"@),
                ..old(self)@
            }),
    {
        if *before == *after {
            None
        } else {
            self.message = Some("✓ Memory settings updated".to_owned());
            Some(*after)
        }
    }
}

impl Default for MemoryPanel {
    fn default() -> (r: Self)
        ensures
            r@ == fresh_panel(),
    {
        MemoryPanel::new()
    }
}

// ---------------------------------------------------------------------------
// Laws
// ---------------------------------------------------------------------------

/// The tags of an entry that was opened in the editor read back unchanged.
pub proof fn untouched_tags_read_back(tags: Seq<Seq<char>>)
    requires
        forall|i: int| 0 <= i < tags.len() ==> list_entry(#[trigger] tags[i]),
    ensures
        comma_list(join(tags, ", "@)) == tags,
{
    comma_list_reads_back(tags);
}

/// A maintenance pass has a step for every batch: its steps are enough for all
/// entries, and one less would not be.
pub proof fn steps_cover_the_entries(settings: MemorySettings, count: int)
    requires
        count >= 0,
    ensures
        settings.steps(count) * settings.batch() >= count,
        settings.steps(count) >= 1,
        count > 0 ==> (settings.steps(count) - 1) * settings.batch() < count,
{
    let b = settings.batch();
    let q = (count + b - 1) / b;
    assert(q * b <= count + b - 1 < (q + 1) * b) by (nonlinear_arith)
        requires
            q == (count + b - 1) / b,
            b > 0,
            count >= 0,
    ;
    assert((q + 1) * b == q * b + b) by (nonlinear_arith);
    assert((q - 1) * b == q * b - b) by (nonlinear_arith);
    if count == 0 {
        assert(settings.steps(count) * b >= 0) by (nonlinear_arith)
            requires
                settings.steps(count) >= 1,
                b > 0,
        ;
    } else {
        assert(q >= 1) by (nonlinear_arith)
            requires
                count > 0,
                b > 0,
                q * b + b > count + b - 1,
        ;
    }
}

} // verus!

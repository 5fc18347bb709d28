//! The token usage panel.

use vstd::prelude::*;

use crate::clock::{as_signed, format_utc, signed, utc_text};
use crate::numbers::{decimal, decimal_text, float_quotient_text, quotient_text};
use crate::text::opt_text;

verus! {

/// Aggregation window shown in the chart.
#[derive(Clone, Copy, Debug, PartialEq, Eq, Structural)]
pub enum Range {
    Hour,
    Day,
    Week,
}

/// What one bucket of the chart covers.
#[derive(Clone, Copy, Debug, PartialEq, Eq, Structural)]
pub enum Granularity {
    Hour,
    Day,
    Week,
}

/// The window of a range, in words.
pub open spec fn window_words(range: Range) -> Seq<char> {
    match range {
        Range::Hour => "last 24 hours"@,
        Range::Day => "last 30 days"@,
        Range::Week => "last 12 weeks"@,
    }
}

/// The pattern by which the start of a bucket is shown.
pub open spec fn stamp_pattern(granularity: Granularity) -> Seq<char> {
    match granularity {
        Granularity::Hour => "%Y-%m-%d %H:%M"@,
        Granularity::Day => "%Y-%m-%d"@,
        Granularity::Week => "%Y-%m-%d (Mon)"@,
    }
}

impl Range {
    /// The ranges to choose from, with their labels.
    pub fn options() -> (r: Vec<(&'static str, Range)>)
        ensures
            r@.len() == 3,
            r@[0].0@ == "Hour"@ && r@[0].1 == Range::Hour,
            r@[1].0@ == "Day"@ && r@[1].1 == Range::Day,
            r@[2].0@ == "Week"@ && r@[2].1 == Range::Week,
    {
        let mut r: Vec<(&'static str, Range)> = Vec::new();
        r.push(("Hour", Range::Hour));
        r.push(("Day", Range::Day));
        r.push(("Week", Range::Week));
        r
    }

    /// What one bucket of the chart covers.
    pub fn granularity(self) -> (r: Granularity)
        ensures
            r == (match self {
                Range::Hour => Granularity::Hour,
                Range::Day => Granularity::Day,
                Range::Week => Granularity::Week,
            }),
    {
        match self {
            Range::Hour => Granularity::Hour,
            Range::Day => Granularity::Day,
            Range::Week => Granularity::Week,
        }
    }

    /// The window of the range, in words.
    pub fn window_label(self) -> (r: &'static str)
        ensures
            r@ == window_words(self),
    {
        match self {
            Range::Hour => "last 24 hours",
            Range::Day => "last 30 days",
            Range::Week => "last 12 weeks",
        }
    }
}

/// One logged call.
#[derive(Clone, Copy, Debug, PartialEq, Eq, Structural)]
pub struct UsageEntry {
    /// When the call ended, in seconds since 1970.
    pub at: u64,
    pub prompt_tokens: u64,
    pub completion_tokens: u64,
    pub total_tokens: u64,
}

/// Floating panel with the LLM token usage, read from the usage log.
///
/// Data is loaded lazily on first open and then incrementally: stream
/// completions mark the panel dirty, and the next frame takes only the new
/// lines of the log.
pub struct UsagePanel {
    pub show_panel: bool,
    pub range: Range,
    /// All parsed log entries (in file order).
    pub entries: Vec<UsageEntry>,
    /// Set on stream completions: on the next frame the log is polled.
    pub dirty: bool,
    /// True once the initial full load has happened.
    pub loaded: bool,
}

/// What the panel holds.
#[verifier::ext_equal]
pub struct UsageView {
    pub show_panel: bool,
    pub range: Range,
    pub entries: Seq<UsageEntry>,
    pub dirty: bool,
    pub loaded: bool,
}

impl View for UsagePanel {
    type V = UsageView;

    open spec fn view(&self) -> UsageView {
        UsageView {
            show_panel: self.show_panel,
            range: self.range,
            entries: self.entries@,
            dirty: self.dirty,
            loaded: self.loaded,
        }
    }
}

/// What a frame needs of the log.
#[derive(Clone, Copy, Debug, PartialEq, Eq, Structural)]
pub enum LogRead {
    Nothing,
    /// The whole log.
    All,
    /// What was appended since the last read.
    Appended,
}

/// What a frame needs of the log.
pub open spec fn wanted(p: UsageView) -> LogRead {
    if !p.show_panel {
        LogRead::Nothing
    } else if !p.loaded {
        LogRead::All
    } else if p.dirty {
        LogRead::Appended
    } else {
        LogRead::Nothing
    }
}

/// The panel after a frame that read these entries.
pub open spec fn after_read(p: UsageView, read: Seq<UsageEntry>) -> UsageView {
    match wanted(p) {
        LogRead::Nothing => p,
        LogRead::All => UsageView { entries: read, loaded: true, dirty: false, ..p },
        LogRead::Appended => UsageView { entries: p.entries + read, dirty: false, ..p },
    }
}

impl Default for UsagePanel {
    fn default() -> (r: Self)
        ensures
            r@ == fresh_panel(),
    {
        UsagePanel::new()
    }
}

/// A panel that has read nothing.
pub open spec fn fresh_panel() -> UsageView {
    UsageView {
        show_panel: false,
        range: Range::Day,
        entries: Seq::empty(),
        dirty: true,
        loaded: false,
    }
}

impl UsagePanel {
    /// A panel that has read nothing.
    pub fn new() -> (r: Self)
        ensures
            r@ == fresh_panel(),
    {
        UsagePanel {
            show_panel: false,
            range: Range::Day,
            entries: Vec::new(),
            dirty: true,
            loaded: false,
        }
    }

    /// Flag the panel to pick up newly logged calls.
    pub fn mark_dirty(&mut self)
        ensures
            final(self)@ == (UsageView { dirty: true, ..old(self)@ }),
    {
        self.dirty = true;
    }

    /// Choose a range.
    pub fn select_range(&mut self, range: Range)
        ensures
            final(self)@ == (UsageView { range, ..old(self)@ }),
    {
        self.range = range;
    }

    /// What this frame needs of the log.
    pub fn wanted_read(&self) -> (r: LogRead)
        ensures
            r == wanted(self@),
    {
        if !self.show_panel {
            LogRead::Nothing
        } else if !self.loaded {
            LogRead::All
        } else if self.dirty {
            LogRead::Appended
        } else {
            LogRead::Nothing
        }
    }

    /// Take in what was read of the log.
    pub fn take_entries(&mut self, read: Vec<UsageEntry>)
        ensures
            final(self)@ == after_read(old(self)@, read@),
    {
        match self.wanted_read() {
            LogRead::Nothing => {},
            LogRead::All => {
                self.entries = read;
                self.loaded = true;
                self.dirty = false;
            },
            LogRead::Appended => {
                let mut i: usize = 0;
                let ghost before = self@;
                while i < read.len()
                    invariant
                        i <= read@.len(),
                        self@ == (UsageView {
                            entries: before.entries + read@.take(i as int),
                            ..before
                        }),
                    decreases read.len() - i,
                {
                    self.entries.push(read[i]);
                    i += 1;
                    assert(self.entries@ =~= before.entries + read@.take(i as int));
                }
                assert(read@.take(i as int) =~= read@);
                self.dirty = false;
            },
        }
    }
}

/// A token count in a short form.
pub open spec fn token_words(n: nat) -> Seq<char> {
    if n <= 999 {
        decimal(n)
    } else if n <= 9_999 {
        quotient_text(n, 1000, true) + "k"@
    } else if n <= 999_999 {
        quotient_text(n, 1000, false) + "k"@
    } else {
        quotient_text(n, 1000000, true) + "M"@
    }
}

/// Format a token count compactly (1234 → "1.2k", 1_500_000 → "1.5M").
pub fn fmt_tokens(n: u64) -> (r: String)
    ensures
        r@ == token_words(n as nat),
{
    if n <= 999 {
        decimal_text(n)
    } else if n <= 9_999 {
        let mut r = float_quotient_text(n, 1000, true);
        r.append("k");
        r
    } else if n <= 999_999 {
        let mut r = float_quotient_text(n, 1000, false);
        r.append("k");
        r
    } else {
        let mut r = float_quotient_text(n, 1000000, true);
        r.append("M");
        r
    }
}

/// The number of calls in words.
pub open spec fn call_words(calls: nat) -> Seq<char> {
    decimal(calls) + " call"@ + (if calls == 1 {
        ""@
    } else {
        "s"@
    })
}

/// What was used in a span of time.
#[derive(Clone, Copy, Debug, PartialEq, Eq, Structural)]
pub struct UsageSums {
    pub prompt_tokens: u64,
    pub completion_tokens: u64,
    pub total_tokens: u64,
    pub calls: u64,
}

fn append_calls(r: &mut String, calls: u64)
    ensures
        final(r)@ == old(r)@ + call_words(calls as nat),
{
    let digits = decimal_text(calls);
    r.append(digits.as_str());
    r.append(" call");
    if calls != 1 {
        r.append("s");
    } else {
        r.append("");
    }
    assert(r@ =~= old(r)@ + call_words(calls as nat));
}

impl UsageSums {
    /// Whether nothing was used, so that the chart is left out.
    pub fn is_empty(&self) -> (r: bool)
        ensures
            r == (self.calls == 0),
    {
        self.calls == 0
    }

    /// The summary line below the chart.
    pub fn summary(&self) -> (r: String)
        ensures
            r@ == token_words(self.prompt_tokens as nat) + " in · "@ + token_words(
                self.completion_tokens as nat,
            ) + " out · "@ + token_words(self.total_tokens as nat) + " total · "@ + call_words(
                self.calls as nat,
            ),
    {
        let mut r = fmt_tokens(self.prompt_tokens);
        r.append(" in · ");
        r.append(fmt_tokens(self.completion_tokens).as_str());
        r.append(" out · ");
        r.append(fmt_tokens(self.total_tokens).as_str());
        r.append(" total · ");
        append_calls(&mut r, self.calls);
        r
    }

    /// The details of the bucket under the pointer.
    pub fn bucket_line(&self, stamp: &str) -> (r: String)
        ensures
            r@ == stamp@ + " — in "@ + token_words(self.prompt_tokens as nat) + " · out "@
                + token_words(self.completion_tokens as nat) + " · total "@ + token_words(
                self.total_tokens as nat,
            ) + " · "@ + call_words(self.calls as nat),
    {
        let mut r = stamp.to_owned();
        r.append(" — in ");
        r.append(fmt_tokens(self.prompt_tokens).as_str());
        r.append(" · out ");
        r.append(fmt_tokens(self.completion_tokens).as_str());
        r.append(" · total ");
        r.append(fmt_tokens(self.total_tokens).as_str());
        r.append(" · ");
        append_calls(&mut r, self.calls);
        r
    }
}

/// The start of a bucket as it is shown; `None` where it is out of the range of
/// times.
pub fn bucket_stamp(start: u64, granularity: Granularity) -> (r: Option<String>)
    ensures
        opt_text(r) == utc_text(signed(start), stamp_pattern(granularity)),
{
    match granularity {
        Granularity::Hour => format_utc(as_signed(start), "%Y-%m-%d %H:%M"),
        Granularity::Day => format_utc(as_signed(start), "%Y-%m-%d"),
        Granularity::Week => format_utc(as_signed(start), "%Y-%m-%d (Mon)"),
    }
}

/// The start of a bucket on the axis; `None` where it is out of the range of
/// times.
pub fn axis_stamp(start: u64) -> (r: Option<String>)
    ensures
        opt_text(r) == utc_text(signed(start), "%H:%M"@),
{
    format_utc(as_signed(start), "%H:%M")
}

// ---------------------------------------------------------------------------
// Laws
// ---------------------------------------------------------------------------

/// A shown panel that read the log once and later reads what was appended holds
/// the whole log in order, and asks for nothing more until it is marked again.
pub proof fn reading_in_steps_reads_the_log(
    p: UsageView,
    log: Seq<UsageEntry>,
    appended: Seq<UsageEntry>,
)
    requires
        p.show_panel,
        !p.loaded,
    ensures
        ({
            let first = after_read(p, log);
            let second = after_read(UsageView { dirty: true, ..first }, appended);
            &&& wanted(p) == LogRead::All
            &&& wanted(first) == LogRead::Nothing
            &&& wanted(UsageView { dirty: true, ..first }) == LogRead::Appended
            &&& second.entries == log + appended
            &&& wanted(second) == LogRead::Nothing
        }),
{
}

/// A hidden panel reads nothing.
pub proof fn a_hidden_panel_reads_nothing(p: UsageView, read: Seq<UsageEntry>)
    requires
        !p.show_panel,
    ensures
        wanted(p) == LogRead::Nothing,
        after_read(p, read) == p,
{
}

} // verus!

//! The expanded view of a tool's result: smart field extraction for shell,
//! file and search results, and key-value lists.

use vstd::prelude::*;

use crate::json::{
    json_value_to_string, parsed_json, read_json, trees, Json, JsonTree,
};
use crate::numbers::{count_text, decimal, decimal_text};
use crate::pieces::{lines, split_lines};
use crate::text::{is_blank, opt_text, texts, trim};

verus! {

/// How many lines of an output stream are shown.
pub const MAX_STREAM_LINES: usize = 300;

/// How many entries of a directory are shown.
pub const MAX_ENTRIES: usize = 50;

/// Lines of text, and the note on those that were left out.
pub struct LineBlock {
    pub lines: Vec<String>,
    pub more: Option<String>,
}

/// What a block of lines shows.
#[verifier::ext_equal]
pub struct LineBlockView {
    pub lines: Seq<Seq<char>>,
    pub more: Option<Seq<char>>,
}

impl View for LineBlock {
    type V = LineBlockView;

    open spec fn view(&self) -> LineBlockView {
        LineBlockView { lines: texts(self.lines@), more: opt_text(self.more) }
    }
}

/// One row of a key-value list; an item of an array has no key.
pub struct KvRow {
    pub key: Option<String>,
    pub value: String,
}

impl View for KvRow {
    type V = (Option<Seq<char>>, Seq<char>);

    open spec fn view(&self) -> (Option<Seq<char>>, Seq<char>) {
        (opt_text(self.key), self.value@)
    }
}

/// What the rows of a list show.
pub open spec fn rows_view(v: Seq<KvRow>) -> Seq<(Option<Seq<char>>, Seq<char>)> {
    Seq::new(v.len(), |i: int| v[i]@)
}

/// What an expanded tool card shows of the result.
pub enum ToolResultView {
    /// The tool gave no output.
    NoOutput,
    /// Shell output: the status line and the two output streams.
    Shell {
        exit_code: u64,
        duration_ms: Option<u64>,
        truncated: bool,
        stdout: Option<LineBlock>,
        stderr: Option<LineBlock>,
    },
    /// A directory listing.
    Directory { path: String, entries: Option<LineBlock> },
    /// The content of a file.
    File { path: String, content: Option<String> },
    /// A written file, with the note on the success.
    Written { path: String, note: Option<String> },
    /// Another result about a path, as a key-value list.
    PathFields { path: String, rows: Vec<KvRow> },
    /// A calculation and its result.
    Calculation { expression: String, result: String },
    /// An object, as a key-value list.
    Fields { rows: Vec<KvRow> },
    /// The text itself.
    Plain { text: String },
}

/// What an expanded tool card shows of the result.
#[verifier::ext_equal]
pub enum ShownResult {
    NoOutput,
    Shell {
        exit_code: u64,
        duration_ms: Option<u64>,
        truncated: bool,
        stdout: Option<LineBlockView>,
        stderr: Option<LineBlockView>,
    },
    Directory { path: Seq<char>, entries: Option<LineBlockView> },
    File { path: Seq<char>, content: Option<Seq<char>> },
    Written { path: Seq<char>, note: Option<Seq<char>> },
    PathFields { path: Seq<char>, rows: Seq<(Option<Seq<char>>, Seq<char>)> },
    Calculation { expression: Seq<char>, result: Seq<char> },
    Fields { rows: Seq<(Option<Seq<char>>, Seq<char>)> },
    Plain { text: Seq<char> },
}

/// What an optional block of lines shows.
pub open spec fn opt_block(b: Option<LineBlock>) -> Option<LineBlockView> {
    match b {
        Some(x) => Some(x@),
        None => None,
    }
}

impl View for ToolResultView {
    type V = ShownResult;

    open spec fn view(&self) -> ShownResult {
        match *self {
            ToolResultView::NoOutput => ShownResult::NoOutput,
            ToolResultView::Shell { exit_code, duration_ms, truncated, stdout, stderr } =>
                ShownResult::Shell {
                exit_code,
                duration_ms,
                truncated,
                stdout: opt_block(stdout),
                stderr: opt_block(stderr),
            },
            ToolResultView::Directory { path, entries } => ShownResult::Directory {
                path: path@,
                entries: opt_block(entries),
            },
            ToolResultView::File { path, content } => ShownResult::File {
                path: path@,
                content: opt_text(content),
            },
            ToolResultView::Written { path, note } => ShownResult::Written {
                path: path@,
                note: opt_text(note),
            },
            ToolResultView::PathFields { path, rows } => ShownResult::PathFields {
                path: path@,
                rows: rows_view(rows@),
            },
            ToolResultView::Calculation { expression, result } => ShownResult::Calculation {
                expression: expression@,
                result: result@,
            },
            ToolResultView::Fields { rows } => ShownResult::Fields { rows: rows_view(rows@) },
            ToolResultView::Plain { text } => ShownResult::Plain { text: text@ },
        }
    }
}

/// The first `max` of some lines, and `note` on how many were left out.
pub open spec fn capped(
    all: Seq<Seq<char>>,
    max: int,
    before: Seq<char>,
    after: Seq<char>,
) -> LineBlockView {
    if all.len() > max {
        LineBlockView {
            lines: all.take(max),
            more: Some(before + decimal((all.len() - max) as nat) + after),
        }
    } else {
        LineBlockView { lines: all, more: None }
    }
}

/// The block that shows an output stream, unless the stream is blank.
pub open spec fn stream_block(value: Seq<char>) -> Option<LineBlockView> {
    if trim(value).len() == 0 {
        None
    } else {
        Some(capped(lines(value), MAX_STREAM_LINES as int, "… ("@, " more lines)"@))
    }
}

/// The line that shows a directory entry: a plain name, or an object with
/// name, type and size.
pub open spec fn entry_line(t: JsonTree) -> Seq<char> {
    match t {
        JsonTree::Text(s) => s,
        _ => {
            let name = match t.text_at("name"@) {
                Some(s) => s,
                None => "?"@,
            };
            let kind = match t.text_at("type"@) {
                Some(s) => s,
                None => "file"@,
            };
            let size = match t.unsigned_at("size"@) {
                Some(n) => "  "@ + decimal(n as nat) + " bytes"@,
                None => ""@,
            };
            name + "  ["@ + kind + size + "]"@
        },
    }
}

/// The lines that show directory entries.
pub open spec fn entry_lines(items: Seq<JsonTree>) -> Seq<Seq<char>> {
    Seq::new(items.len(), |i: int| entry_line(items[i]))
}

/// A value as a key-value list.
pub open spec fn kv_rows(t: JsonTree) -> Seq<(Option<Seq<char>>, Seq<char>)> {
    match t {
        JsonTree::Object(m) => Seq::new(m.len(), |i: int| (Some(m[i].0 + ":"@), m[i].1.shown())),
        JsonTree::Array(v) => Seq::new(v.len(), |i: int| (None, v[i].shown())),
        _ => seq![(None, t.shown())],
    }
}

/// The note on a written file.
pub open spec fn written_note(t: JsonTree) -> Option<Seq<char>> {
    match t.unsigned_at("bytes_written"@) {
        Some(bytes) => Some("✓ Written "@ + decimal(bytes as nat) + " byte"@ + if bytes == 1 {
            ""@
        } else {
            "s"@
        }),
        None => if t.bool_at("success"@) == Some(true) {
            Some("✓ File written successfully"@)
        } else {
            None
        },
    }
}

/// What the card shows of a JSON result with the text `raw`.
pub open spec fn shown_json(t: JsonTree, raw: Seq<char>) -> ShownResult {
    if t.get("exit_code"@) is Some {
        ShownResult::Shell {
            exit_code: match t.unsigned_at("exit_code"@) {
                Some(c) => c,
                None => 0,
            },
            duration_ms: t.unsigned_at("duration_ms"@),
            truncated: t.bool_at("truncated"@) == Some(true),
            stdout: match t.text_at("stdout"@) {
                Some(s) => stream_block(s),
                None => None,
            },
            stderr: match t.text_at("stderr"@) {
                Some(s) => stream_block(s),
                None => None,
            },
        }
    } else if let Some(path) = t.text_at("path"@) {
        if t.get("entries"@) is Some {
            ShownResult::Directory {
                path,
                entries: match t.items_at("entries"@) {
                    Some(items) => Some(
                        capped(
                            entry_lines(items),
                            MAX_ENTRIES as int,
                            "... and "@,
                            " more entries"@,
                        ),
                    ),
                    None => None,
                },
            }
        } else if t.get("content"@) is Some {
            ShownResult::File { path, content: t.text_at("content"@) }
        } else if t.get("bytes_written"@) is Some || t.get("success"@) is Some {
            ShownResult::Written { path, note: written_note(t) }
        } else {
            ShownResult::PathFields { path, rows: kv_rows(t) }
        }
    } else if t.text_at("expression"@) is Some && t.float_text_at("result"@) is Some {
        ShownResult::Calculation {
            expression: t.text_at("expression"@)->Some_0,
            result: t.float_text_at("result"@)->Some_0,
        }
    } else if t is Object {
        ShownResult::Fields { rows: kv_rows(t) }
    } else {
        ShownResult::Plain { text: raw }
    }
}

/// What the card shows of a result.
pub open spec fn shown_result(raw: Seq<char>) -> ShownResult {
    if trim(raw).len() == 0 {
        ShownResult::NoOutput
    } else {
        match parsed_json(raw) {
            Some(t) => shown_json(t, raw),
            None => ShownResult::Plain { text: raw },
        }
    }
}

fn cap_lines(all: Vec<String>, max: usize, before: &str, after: &str) -> (r: LineBlock)
    ensures
        r@ == capped(texts(all@), max as int, before@, after@),
{
    let n: usize = all.len();
    if n > max {
        let mut more = before.to_owned();
        more.append(count_text(n - max).as_str());
        more.append(after);
        let mut kept = all;
        kept.truncate(max);
        assert(texts(kept@) =~= texts(all@).take(max as int));
        LineBlock { lines: kept, more: Some(more) }
    } else {
        LineBlock { lines: all, more: None }
    }
}

fn read_stream(value: Option<&String>) -> (r: Option<LineBlock>)
    ensures
        opt_block(r) == match value {
            Some(s) => stream_block(s@),
            None => None,
        },
{
    match value {
        Some(s) => if is_blank(s.as_str()) {
            None
        } else {
            Some(cap_lines(split_lines(s.as_str()), MAX_STREAM_LINES, "… (", " more lines)"))
        },
        None => None,
    }
}

fn entry_text(entry: &Json) -> (r: String)
    ensures
        r@ == entry_line(entry.tree()),
{
    if let Json::Text(s) = entry {
        return s.clone();
    }
    let mut out = match entry.text_at("name") {
        Some(s) => s.clone(),
        None => "?".to_owned(),
    };
    out.append("  [");
    out.append(match entry.text_at("type") {
        Some(s) => s.as_str(),
        None => "file",
    });
    let size = match entry.unsigned_at("size") {
        Some(n) => {
            let mut t = "  ".to_owned();
            t.append(decimal_text(n).as_str());
            t.append(" bytes");
            t
        },
        None => "".to_owned(),
    };
    out.append(size.as_str());
    out.append("]");
    out
}

fn entry_texts(items: &Vec<Json>) -> (r: Vec<String>)
    ensures
        texts(r@) == entry_lines(trees(items@)),
{
    let mut r: Vec<String> = Vec::new();
    let mut i: usize = 0;
    while i < items.len()
        invariant
            i <= items@.len(),
            r@.len() == i,
            forall|k: int| 0 <= k < i ==> (#[trigger] r@[k])@ == entry_line(items@[k].tree()),
        decreases items.len() - i,
    {
        r.push(entry_text(&items[i]));
        i += 1;
    }
    assert(texts(r@) =~= entry_lines(trees(items@)));
    r
}

/// A value as a key-value list.
pub fn json_kv(json: &Json) -> (r: Vec<KvRow>)
    ensures
        rows_view(r@) == kv_rows(json.tree()),
{
    let mut r: Vec<KvRow> = Vec::new();
    match json {
        Json::Object(members) => {
            let mut i: usize = 0;
            while i < members.len()
                invariant
                    *json == Json::Object(*members),
                    i <= members@.len(),
                    r@.len() == i,
                    forall|k: int|
                        0 <= k < i ==> (#[trigger] r@[k])@ == (
                            Some(members@[k].0@ + ":"@),
                            members@[k].1.tree().shown(),
                        ),
                decreases members.len() - i,
            {
                let mut key = members[i].0.clone();
                key.append(":");
                r.push(KvRow { key: Some(key), value: json_value_to_string(&members[i].1) });
                i += 1;
            }
            assert(rows_view(r@) =~= kv_rows(json.tree()));
        },
        Json::Array(items) => {
            let mut i: usize = 0;
            while i < items.len()
                invariant
                    *json == Json::Array(*items),
                    i <= items@.len(),
                    r@.len() == i,
                    forall|k: int|
                        0 <= k < i ==> (#[trigger] r@[k])@ == (
                            None::<Seq<char>>,
                            items@[k].tree().shown(),
                        ),
                decreases items.len() - i,
            {
                r.push(KvRow { key: None, value: json_value_to_string(&items[i]) });
                i += 1;
            }
            assert(rows_view(r@) =~= kv_rows(json.tree()));
        },
        _ => {
            r.push(KvRow { key: None, value: json_value_to_string(json) });
            assert(rows_view(r@) =~= kv_rows(json.tree()));
        },
    }
    r
}

fn written_text(json: &Json) -> (r: Option<String>)
    ensures
        opt_text(r) == written_note(json.tree()),
{
    match json.unsigned_at("bytes_written") {
        Some(bytes) => {
            let mut out = "✓ Written ".to_owned();
            out.append(decimal_text(bytes).as_str());
            out.append(" byte");
            out.append(if bytes == 1 {
                ""
            } else {
                "s"
            });
            Some(out)
        },
        None => match json.bool_at("success") {
            Some(true) => Some("✓ File written successfully".to_owned()),
            _ => None,
        },
    }
}

/// What the card shows of a JSON result with the text `raw`.
pub fn json_result_view(json: &Json, raw: &str) -> (r: ToolResultView)
    ensures
        r@ == shown_json(json.tree(), raw@),
{
    if json.get("exit_code").is_some() {
        return ToolResultView::Shell {
            exit_code: match json.unsigned_at("exit_code") {
                Some(c) => c,
                None => 0,
            },
            duration_ms: json.unsigned_at("duration_ms"),
            truncated: match json.bool_at("truncated") {
                Some(b) => b,
                None => false,
            },
            stdout: read_stream(json.text_at("stdout")),
            stderr: read_stream(json.text_at("stderr")),
        };
    }
    if let Some(path) = json.text_at("path") {
        let path = path.clone();
        if json.get("entries").is_some() {
            return ToolResultView::Directory {
                path,
                entries: match json.items_at("entries") {
                    Some(items) => Some(
                        cap_lines(entry_texts(items), MAX_ENTRIES, "... and ", " more entries"),
                    ),
                    None => None,
                },
            };
        }
        if json.get("content").is_some() {
            return ToolResultView::File {
                path,
                content: match json.text_at("content") {
                    Some(s) => Some(s.clone()),
                    None => None,
                },
            };
        }
        if json.get("bytes_written").is_some() || json.get("success").is_some() {
            return ToolResultView::Written { path, note: written_text(json) };
        }
        return ToolResultView::PathFields { path, rows: json_kv(json) };
    }
    if let Some(expr) = json.text_at("expression") {
        if let Some(result) = json.float_text_at("result") {
            return ToolResultView::Calculation { expression: expr.clone(), result };
        }
    }
    match json {
        Json::Object(_) => ToolResultView::Fields { rows: json_kv(json) },
        _ => ToolResultView::Plain { text: raw.to_owned() },
    }
}

/// What an expanded tool card shows of a result.
pub fn tool_result_view(raw: &str) -> (r: ToolResultView)
    ensures
        r@ == shown_result(raw@),
{
    if is_blank(raw) {
        return ToolResultView::NoOutput;
    }
    match read_json(raw) {
        Some(json) => json_result_view(&json, raw),
        None => ToolResultView::Plain { text: raw.to_owned() },
    }
}

} // verus!

//! Tool cards: what a persisted tool message says, and the one-line summary of
//! a tool's result.

use vstd::prelude::*;
use vstd::utf8::encode_utf8;

use crate::json::{parsed_json, read_json, Json, JsonTree};
use crate::numbers::{count_text, decimal, decimal_text, parse_unsigned, read_unsigned};
use crate::pieces::{
    char_count, count_lines, first_chars, lines, split_at_most, split_lines, splitn, take_chars,
};
use crate::text::{
    chars_of, cut_first, cut_last, cut_prefix, opt_text, rsplit_once, split_once, string_of, texts,
    trim, trimmed, without_prefix,
};

verus! {

// ---------------------------------------------------------------------------
// Result summary
// ---------------------------------------------------------------------------

/// The volume of one output stream of a shell result, where it has lines.
pub open spec fn stream_volume(t: JsonTree, key: Seq<char>) -> Option<Seq<char>> {
    match t.text_at(key) {
        Some(s) => {
            let n = lines(s).len();
            if n == 0 {
                None
            } else {
                Some(decimal(n) + " "@ + key + " line"@ + if n == 1 {
                    ""@
                } else {
                    "s"@
                })
            }
        },
        None => None,
    }
}

/// The volumes of both output streams of a shell result, each led by a dot.
pub open spec fn shell_volume(t: JsonTree) -> Seq<char> {
    match (stream_volume(t, "stdout"@), stream_volume(t, "stderr"@)) {
        (Some(d), Some(e)) => " · "@ + (d + " · "@ + e),
        (Some(d), None) => " · "@ + d,
        (None, Some(e)) => " · "@ + e,
        (None, None) => ""@,
    }
}

/// The summary of a JSON result whose trimmed text takes `size` bytes.
pub open spec fn json_summary(t: JsonTree, size: nat) -> Seq<char> {
    if let Some(code) = t.unsigned_at("exit_code"@) {
        if code == 0 {
            "✓ exit 0"@ + shell_volume(t)
        } else {
            "✗ exit "@ + decimal(code as nat) + shell_volume(t)
        }
    } else if let Some(path) = t.text_at("path"@) {
        if let Some(entries) = t.items_at("entries"@) {
            path + " · "@ + decimal(entries.len()) + " entries"@
        } else if let Some(content) = t.text_at("content"@) {
            let count = match t.unsigned_at("total_lines"@) {
                Some(n) => n as nat,
                None => lines(content).len(),
            };
            path + " · "@ + decimal(count) + " lines"@
        } else if let Some(bytes) = t.unsigned_at("bytes_written"@) {
            "✓ "@ + decimal(bytes as nat) + " bytes written"@
        } else if t.bool_at("success"@) == Some(true) {
            "✓ done"@
        } else {
            path
        }
    } else if let Some(matches) = t.items_at("matches"@) {
        let files = match t.unsigned_at("files_searched"@) {
            Some(f) => " in "@ + decimal(f as nat) + " files"@,
            None => ""@,
        };
        decimal(matches.len()) + " match"@ + (if matches.len() == 1 {
            ""@
        } else {
            "es"@
        }) + files
    } else if t.text_at("expression"@) is Some && t.float_text_at("result"@) is Some {
        t.text_at("expression"@)->Some_0 + " = "@ + t.float_text_at("result"@)->Some_0
    } else {
        decimal(size) + " chars"@
    }
}

/// The summary of a result that is no JSON: its first line, cut where it is
/// long, with the number of lines where there are more.
pub open spec fn plain_summary(s: Seq<char>) -> Seq<char> {
    let all = lines(s);
    let line = if all.len() > 0 {
        trim(all[0])
    } else {
        Seq::empty()
    };
    if line.len() > 72 {
        first_chars(line, 72) + "…"@
    } else if all.len() > 1 {
        line + " … ("@ + decimal(all.len()) + " lines)"@
    } else {
        line
    }
}

/// The one-line summary of a tool result.
pub open spec fn result_summary(raw: Seq<char>) -> Seq<char> {
    let s = trim(raw);
    if s.len() == 0 {
        "(no output)"@
    } else {
        match parsed_json(s) {
            Some(t) => json_summary(t, encode_utf8(s).len()),
            None => plain_summary(s),
        }
    }
}

fn stream_volume_text(json: &Json, key: &str) -> (r: Option<String>)
    ensures
        opt_text(r) == stream_volume(json.tree(), key@),
{
    match json.text_at(key) {
        Some(s) => {
            let n: usize = count_lines(s.as_str());
            if n == 0 {
                None
            } else {
                let mut out = count_text(n);
                out.append(" ");
                out.append(key);
                out.append(" line");
                out.append(if n == 1 {
                    ""
                } else {
                    "s"
                });
                Some(out)
            }
        },
        None => None,
    }
}

fn shell_volume_text(json: &Json) -> (r: String)
    ensures
        r@ == shell_volume(json.tree()),
{
    let mut out = " · ".to_owned();
    match (stream_volume_text(json, "stdout"), stream_volume_text(json, "stderr")) {
        (Some(d), Some(e)) => {
            let mut both = d;
            both.append(" · ");
            both.append(e.as_str());
            out.append(both.as_str());
            out
        },
        (Some(d), None) => {
            out.append(d.as_str());
            out
        },
        (None, Some(e)) => {
            out.append(e.as_str());
            out
        },
        (None, None) => "".to_owned(),
    }
}

/// The summary of a JSON result whose trimmed text takes `size` bytes.
pub fn json_result_summary(json: &Json, size: usize) -> (r: String)
    ensures
        r@ == json_summary(json.tree(), size as nat),
{
    if let Some(code) = json.unsigned_at("exit_code") {
        let mut out = if code == 0 {
            "✓ exit 0".to_owned()
        } else {
            let mut head = "✗ exit ".to_owned();
            head.append(decimal_text(code).as_str());
            head
        };
        out.append(shell_volume_text(json).as_str());
        return out;
    }
    if let Some(path) = json.text_at("path") {
        let mut out = path.clone();
        if let Some(entries) = json.items_at("entries") {
            out.append(" · ");
            out.append(count_text(entries.len()).as_str());
            out.append(" entries");
            return out;
        }
        if let Some(content) = json.text_at("content") {
            let count = match json.unsigned_at("total_lines") {
                Some(n) => decimal_text(n),
                None => count_text(count_lines(content.as_str())),
            };
            out.append(" · ");
            out.append(count.as_str());
            out.append(" lines");
            return out;
        }
        if let Some(bytes) = json.unsigned_at("bytes_written") {
            let mut out = "✓ ".to_owned();
            out.append(decimal_text(bytes).as_str());
            out.append(" bytes written");
            return out;
        }
        if let Some(true) = json.bool_at("success") {
            return "✓ done".to_owned();
        }
        return out;
    }
    if let Some(matches) = json.items_at("matches") {
        let mut out = count_text(matches.len());
        out.append(" match");
        out.append(if matches.len() == 1 {
            ""
        } else {
            "es"
        });
        match json.unsigned_at("files_searched") {
            Some(f) => {
                let mut files = " in ".to_owned();
                files.append(decimal_text(f).as_str());
                files.append(" files");
                out.append(files.as_str());
            },
            None => {
                out.append("");
            },
        }
        return out;
    }
    if let Some(expr) = json.text_at("expression") {
        if let Some(result) = json.float_text_at("result") {
            let mut out = expr.clone();
            out.append(" = ");
            out.append(result.as_str());
            return out;
        }
    }
    let mut out = count_text(size);
    out.append(" chars");
    out
}

/// The summary of a result that is no JSON.
pub fn plain_result_summary(text: &str) -> (r: String)
    ensures
        r@ == plain_summary(text@),
{
    let all = split_lines(text);
    assert(texts(all@).len() == all@.len());
    let line = if all.len() > 0 {
        trimmed(all[0].as_str())
    } else {
        String::new()
    };
    if char_count(line.as_str()) > 72 {
        let mut out = take_chars(line.as_str(), 72);
        out.append("…");
        out
    } else if all.len() > 1 {
        let mut out = line;
        out.append(" … (");
        out.append(count_text(all.len()).as_str());
        out.append(" lines)");
        out
    } else {
        line
    }
}

/// One-line summary of a tool result shown in the collapsed tool card.
pub fn tool_result_summary(raw: &str) -> (r: String)
    ensures
        r@ == result_summary(raw@),
{
    let text = trimmed(raw);
    if text.as_str().is_empty() {
        return "(no output)".to_owned();
    }
    match read_json(text.as_str()) {
        Some(json) => json_result_summary(&json, text.as_str().as_bytes().len()),
        None => plain_result_summary(text.as_str()),
    }
}

// ---------------------------------------------------------------------------
// The card of a tool message
// ---------------------------------------------------------------------------

/// What `char::is_alphanumeric` answers outside ASCII.
pub uninterp spec fn alphanumeric_beyond_ascii(c: char) -> bool;

/// Whether a character is a letter or a number.
pub open spec fn letter_or_number(c: char) -> bool {
    let n = c as u32;
    if n < 128 {
        48 <= n <= 57 || 65 <= n <= 90 || 97 <= n <= 122
    } else if c == '🔧' {
        false
    } else {
        alphanumeric_beyond_ascii(c)
    }
}

/// `char::is_alphanumeric` answers whether a character is alphabetic or
/// numeric by its Unicode properties. In ASCII these are the letters and the
/// digits; the wrench, a symbol, is neither. Of other characters the contract
/// says only that the answer depends on the character alone.
pub assume_specification[ char::is_alphanumeric ](c: char) -> (r: bool)
    ensures
        r == letter_or_number(c),
        c as u32 >= 128 && c != '🔧' ==> r == alphanumeric_beyond_ascii(c),
;

/// Parsed fields of a persisted tool message (for the collapsed card).
pub struct ToolCardInfo {
    pub name: String,
    /// One-line preview of the call's arguments (new-format calls);
    /// empty for legacy calls.
    pub args: String,
    /// One-line result summary (success) or error text (failure).
    pub summary: String,
    pub is_error: bool,
    pub duration_ms: Option<u64>,
    pub raw_result: String,
}

/// What a tool card says.
#[verifier::ext_equal]
pub struct ToolCardView {
    pub name: Seq<char>,
    pub args: Seq<char>,
    pub summary: Seq<char>,
    pub is_error: bool,
    pub duration_ms: Option<u64>,
    pub raw_result: Seq<char>,
}

impl View for ToolCardInfo {
    type V = ToolCardView;

    open spec fn view(&self) -> ToolCardView {
        ToolCardView {
            name: self.name@,
            args: self.args@,
            summary: self.summary@,
            is_error: self.is_error,
            duration_ms: self.duration_ms,
            raw_result: self.raw_result@,
        }
    }
}

/// The duration that the fourth part of a tool message gives.
pub open spec fn card_duration(parts: Seq<Seq<char>>) -> Option<u64> {
    if parts.len() > 3 {
        match parse_unsigned(trim(parts[3]), u64::MAX as int) {
            Some(n) => Some(n as u64),
            None => None,
        }
    } else {
        None
    }
}

/// The name and the message of a header `Tool '<name>' error: <msg>`.
pub open spec fn legacy_error(header: Seq<char>) -> Option<(Seq<char>, Seq<char>)> {
    match without_prefix(header, "Tool '"@) {
        Some(quoted) => match split_once(quoted, "'"@) {
            Some(cut) => {
                let rest = trim(cut.1);
                let message = match without_prefix(rest, "error:"@) {
                    Some(m) => trim(m),
                    None => rest,
                };
                Some((cut.0, message))
            },
            None => None,
        },
        None => None,
    }
}

/// The name, the arguments and the message of a header
/// `✗ <name>: <args> — <error>`.
pub open spec fn marked_error(header: Seq<char>) -> Option<(Seq<char>, Seq<char>, Seq<char>)> {
    match without_prefix(header, "✗"@) {
        Some(tail) => match split_once(trim(tail), ": "@) {
            Some(cut) => match rsplit_once(cut.1, " — "@) {
                Some(last) => if last.1.len() > 0 {
                    Some((trim(cut.0), trim(last.0), trim(last.1)))
                } else {
                    Some((trim(cut.0), trim(cut.1), Seq::empty()))
                },
                None => Some((trim(cut.0), trim(cut.1), Seq::empty())),
            },
            None => None,
        },
        None => None,
    }
}

/// How many characters precede the first letter or number.
pub open spec fn decoration(s: Seq<char>) -> nat
    decreases s.len(),
{
    if s.len() == 0 || letter_or_number(s[0]) {
        0
    } else {
        1 + decoration(s.drop_first())
    }
}

/// Whether a character ends a tool's name.
pub open spec fn ends_name(c: char) -> bool {
    c == ':' || c == '(' || c == ' '
}

/// How many characters precede the first that ends a name.
pub open spec fn name_run(s: Seq<char>) -> nat
    decreases s.len(),
{
    if s.len() == 0 || ends_name(s[0]) {
        0
    } else {
        1 + name_run(s.drop_first())
    }
}

/// The tool's name in a header `🔧 <name>: <tail>`.
pub open spec fn header_name(header: Seq<char>) -> Seq<char> {
    let d = decoration(header) as int;
    let tail = if d < header.len() {
        header.skip(d)
    } else {
        header
    };
    let name = tail.take(name_run(tail) as int);
    if name.len() == 0 {
        "Tool"@
    } else {
        name
    }
}

/// What follows the name and its colon in a header.
pub open spec fn header_args(header: Seq<char>, name: Seq<char>) -> Seq<char> {
    match split_once(header, name + ": "@) {
        Some(cut) => trim(cut.1),
        None => Seq::empty(),
    }
}

/// The card of a tool message.
pub open spec fn tool_card(content: Seq<char>) -> ToolCardView {
    let parts = splitn(content, "||"@, 4);
    let header = trim(parts[0]);
    let raw = if parts.len() >= 3 {
        parts[2]
    } else {
        content
    };
    let duration_ms = card_duration(parts);
    if let Some(e) = legacy_error(header) {
        ToolCardView {
            name: e.0,
            args: Seq::empty(),
            summary: e.1,
            is_error: true,
            duration_ms,
            raw_result: trim(raw),
        }
    } else if let Some(e) = marked_error(header) {
        ToolCardView {
            name: e.0,
            args: e.1,
            summary: e.2,
            is_error: true,
            duration_ms,
            raw_result: trim(raw),
        }
    } else {
        let name = if parts.len() >= 2 && header.len() > 0 {
            header_name(header)
        } else {
            "Tool"@
        };
        ToolCardView {
            name,
            args: if duration_ms is Some {
                header_args(header, name)
            } else {
                Seq::empty()
            },
            summary: result_summary(raw),
            is_error: false,
            duration_ms,
            raw_result: trim(raw),
        }
    }
}

fn read_legacy_error(header: &str) -> (r: Option<(String, String)>)
    ensures
        match r {
            Some(e) => legacy_error(header@) == Some((e.0@, e.1@)),
            None => legacy_error(header@) is None,
        },
{
    match cut_prefix(header, "Tool '") {
        Some(quoted) => match cut_first(quoted.as_str(), "'") {
            Some((name, rest)) => {
                let rest = trimmed(rest.as_str());
                let message = match cut_prefix(rest.as_str(), "error:") {
                    Some(m) => trimmed(m.as_str()),
                    None => rest,
                };
                Some((name, message))
            },
            None => None,
        },
        None => None,
    }
}

fn read_marked_error(header: &str) -> (r: Option<(String, String, String)>)
    ensures
        match r {
            Some(e) => marked_error(header@) == Some((e.0@, e.1@, e.2@)),
            None => marked_error(header@) is None,
        },
{
    match cut_prefix(header, "✗") {
        Some(tail) => match cut_first(trimmed(tail.as_str()).as_str(), ": ") {
            Some((name, rest)) => {
                let name = trimmed(name.as_str());
                match cut_last(rest.as_str(), " — ") {
                    Some((args, message)) => {
                        if !message.as_str().is_empty() {
                            return Some((name, trimmed(args.as_str()), trimmed(message.as_str())));
                        }
                    },
                    None => {},
                }
                Some((name, trimmed(rest.as_str()), String::new()))
            },
            None => None,
        },
        None => None,
    }
}

fn read_header_name(header: &str) -> (r: String)
    ensures
        r@ == header_name(header@),
{
    let v = chars_of(header);
    let mut d: usize = 0;
    assert(v@.skip(0) =~= v@);
    while d < v.len() && !v[d].is_alphanumeric()
        invariant
            d <= v@.len(),
            decoration(v@) == d + decoration(v@.skip(d as int)),
        decreases v.len() - d,
    {
        assert(v@.skip(d as int).drop_first() =~= v@.skip(d + 1));
        d += 1;
    }
    assert(decoration(v@.skip(d as int)) == 0);
    let start: usize = if d < v.len() {
        d
    } else {
        0
    };
    let ghost tail = v@.skip(start as int);
    assert(start == 0 ==> tail =~= v@);
    let mut e: usize = start;
    assert(tail.skip(0) =~= tail);
    while e < v.len() && v[e] != ':' && v[e] != '(' && v[e] != ' '
        invariant
            start <= e <= v@.len(),
            tail == v@.skip(start as int),
            name_run(tail) == e - start + name_run(tail.skip(e - start)),
        decreases v.len() - e,
    {
        assert(tail.skip(e - start).drop_first() =~= tail.skip(e - start + 1));
        e += 1;
    }
    assert(name_run(tail.skip(e - start)) == 0);
    let name = string_of(&v, start, e);
    assert(name@ =~= tail.take(e - start));
    if name.as_str().is_empty() {
        "Tool".to_owned()
    } else {
        name
    }
}

fn read_header_args(header: &str, name: &str) -> (r: String)
    ensures
        r@ == header_args(header@, name@),
{
    let mut mark = name.to_owned();
    mark.append(": ");
    match cut_first(header, mark.as_str()) {
        Some((_, after)) => trimmed(after.as_str()),
        None => String::new(),
    }
}

/// Parse a tool message's content into card fields.
///
/// New format: `header||call_id||result||duration_ms` where header is
/// `🔧 <name>: <args>` (success) or `✗ <name>: <args> — <error>` (failure).
/// Legacy format: `🔧 <name>: <result preview>||call_id||result` or
/// `Tool '<name>' error: <msg>||call_id||`, or a bare result.
pub fn parse_tool_card(content: &str) -> (r: ToolCardInfo)
    ensures
        r@ == tool_card(content@),
{
    let parts = split_at_most(content, "||", 4);
    assert(texts(parts@).len() == parts@.len());
    let header = trimmed(parts[0].as_str());
    let raw = if parts.len() >= 3 {
        parts[2].clone()
    } else {
        content.to_owned()
    };
    let duration_ms: Option<u64> = if parts.len() > 3 {
        read_unsigned(trimmed(parts[3].as_str()).as_str(), u64::MAX)
    } else {
        None
    };
    assert(duration_ms == card_duration(texts(parts@)));
    if let Some((name, message)) = read_legacy_error(header.as_str()) {
        return ToolCardInfo {
            name,
            args: String::new(),
            summary: message,
            is_error: true,
            duration_ms,
            raw_result: trimmed(raw.as_str()),
        };
    }
    if let Some((name, args, message)) = read_marked_error(header.as_str()) {
        return ToolCardInfo {
            name,
            args,
            summary: message,
            is_error: true,
            duration_ms,
            raw_result: trimmed(raw.as_str()),
        };
    }
    let name = if parts.len() >= 2 && !header.as_str().is_empty() {
        read_header_name(header.as_str())
    } else {
        "Tool".to_owned()
    };
    let args = if duration_ms.is_some() {
        read_header_args(header.as_str(), name.as_str())
    } else {
        String::new()
    };
    ToolCardInfo {
        name,
        args,
        summary: tool_result_summary(raw.as_str()),
        is_error: false,
        duration_ms,
        raw_result: trimmed(raw.as_str()),
    }
}

/// A path as it fits into `max_chars` characters: where it is longer, an
/// ellipsis and its last characters.
pub open spec fn elided(path: Seq<char>, max_chars: int) -> Seq<char> {
    if path.len() > max_chars && max_chars >= 2 {
        seq!['…'] + path.skip(path.len() - (max_chars - 1))
    } else {
        path
    }
}

/// A path as it fits into `max_chars` characters.
pub fn elide_path(path: &str, max_chars: usize) -> (r: String)
    ensures
        r@ == elided(path@, max_chars as int),
{
    let v = chars_of(path);
    if v.len() > max_chars && max_chars >= 2 {
        let mut r = String::new();
        r.push('…');
        let from: usize = v.len() - (max_chars - 1);
        r.append(string_of(&v, from, v.len()).as_str());
        assert(r@ =~= seq!['…'] + path@.skip(from as int));
        r
    } else {
        path.to_owned()
    }
}

} // verus!

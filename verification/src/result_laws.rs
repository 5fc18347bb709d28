//! What the result of a tool call is shown as, and how its card sums it up.

use vstd::prelude::*;

use vstd::utf8::encode_utf8;

use crate::json::{member_of, parsed_json, shown_items, shown_members, JsonTree};
use crate::numbers::{decimal, decimal_reads_back};
use crate::pieces::{lines, splitn};
use crate::text::{find, trim};
use crate::tool_cards::{
    card_duration, decoration, elided, ends_name, header_name, json_summary, legacy_error,
    letter_or_number, marked_error, name_run, plain_summary, result_summary, tool_card,
    ToolCardView,
};
use crate::tool_json::{
    entry_line, kv_rows, shown_json, shown_result, LineBlockView, ShownResult,
};

verus! {

// ---------------------------------------------------------------------------
// Reading JSON
// ---------------------------------------------------------------------------

/// The first member with a name is the one that is read under it: as it is, and by
/// each reader exactly where it is of the reader's kind.
pub proof fn a_member_is_read(members: Seq<(Seq<char>, JsonTree)>, i: int)
    requires
        0 <= i < members.len(),
        forall|j: int| 0 <= j < i ==> (#[trigger] members[j]).0 != members[i].0,
    ensures
        ({
            let t = JsonTree::Object(members);
            let key = members[i].0;
            let value = members[i].1;
            &&& t.get(key) == Some(value)
            &&& value matches JsonTree::Text(s) ==> t.text_at(key) == Some(s)
            &&& !(value is Text) ==> t.text_at(key) is None
            &&& value matches JsonTree::Bool(b) ==> t.bool_at(key) == Some(b)
            &&& !(value is Bool) ==> t.bool_at(key) is None
            &&& value matches JsonTree::Array(v) ==> t.items_at(key) == Some(v)
            &&& !(value is Array) ==> t.items_at(key) is None
            &&& value matches JsonTree::Number { unsigned, float_text, .. } ==> {
                &&& t.unsigned_at(key) == unsigned
                &&& t.float_text_at(key) == float_text
            }
            &&& !(value is Number) ==> t.unsigned_at(key) is None && t.float_text_at(key) is None
        }),
    decreases i,
{
    if i > 0 {
        let rest = members.drop_first();
        assert(members[0].0 != members[i].0);
        assert(rest[i - 1] == members[i]);
        assert forall|j: int| 0 <= j < i - 1 implies (#[trigger] rest[j]).0 != rest[i - 1].0 by {
            assert(rest[j] == members[j + 1]);
        }
        a_member_is_read(rest, i - 1);
    }
}

/// A name that no member has, and any name on what is no object, reads as nothing.
pub proof fn a_missing_member_reads_as_nothing(t: JsonTree, key: Seq<char>)
    requires
        t matches JsonTree::Object(m) ==> forall|j: int|
            0 <= j < m.len() ==> (#[trigger] m[j]).0 != key,
    ensures
        t.get(key) is None,
        t.text_at(key) is None,
        t.bool_at(key) is None,
        t.items_at(key) is None,
        t.unsigned_at(key) is None,
        t.float_text_at(key) is None,
{
    if let JsonTree::Object(m) = t {
        lemma_no_member(m, key);
    }
}

proof fn lemma_no_member(m: Seq<(Seq<char>, JsonTree)>, key: Seq<char>)
    requires
        forall|j: int| 0 <= j < m.len() ==> (#[trigger] m[j]).0 != key,
    ensures
        member_of(m, key) is None,
    decreases m.len(),
{
    if m.len() > 0 {
        let rest = m.drop_first();
        assert(m[0].0 != key);
        assert forall|j: int| 0 <= j < rest.len() implies (#[trigger] rest[j]).0 != key by {
            assert(rest[j] == m[j + 1]);
        }
        lemma_no_member(rest, key);
    }
}

/// Plain values are written as they are.
pub proof fn plain_values_are_written_as_they_are(text: Seq<char>, t: JsonTree)
    ensures
        JsonTree::Null.shown() == "null"@,
        JsonTree::Bool(true).shown() == "true"@,
        JsonTree::Bool(false).shown() == "false"@,
        JsonTree::Text(text).shown() == text,
        t matches JsonTree::Number { text: digits, .. } ==> t.shown() == digits,
        JsonTree::Array(Seq::empty()).shown() == "["@ + Seq::<char>::empty() + "]"@,
        JsonTree::Object(Seq::empty()).shown() == "{"@ + Seq::<char>::empty() + "}"@,
{
    assert(shown_items(Seq::empty()) =~= Seq::<Seq<char>>::empty());
    assert(shown_members(Seq::empty()) =~= Seq::<Seq<char>>::empty());
}

/// One item more in an array is written behind the others: `inner` and `after` are
/// what stands between the brackets before and after.
pub proof fn an_item_more_is_written_behind(v: Seq<JsonTree>, x: JsonTree)
    ensures
        v.len() == 0 ==> JsonTree::Array(v.push(x)).shown() == "["@ + x.shown() + "]"@,
        v.len() > 0 ==> exists|inner: Seq<char>|
            JsonTree::Array(v).shown() == "["@ + inner + "]"@ && #[trigger] JsonTree::Array(
                v.push(x),
            ).shown() == "["@ + (inner + ", "@ + x.shown()) + "]"@,
{
    let w = v.push(x);
    let a = shown_items(v);
    let b = shown_items(w);
    assert(b.drop_last() =~= a) by {
        assert forall|i: int| 0 <= i < a.len() implies #[trigger] b.drop_last()[i] == a[i] by {
            assert(w[i] == v[i]);
        }
    }
    assert(b.last() == x.shown()) by {
        assert(w[v.len() as int] == x);
    }
    if v.len() > 0 {
        let inner = crate::pieces::join(a, ", "@);
        assert(crate::pieces::join(b, ", "@) == inner + ", "@ + x.shown());
        assert(JsonTree::Array(w).shown() == "["@ + (inner + ", "@ + x.shown()) + "]"@);
        assert(JsonTree::Array(v).shown() == "["@ + inner + "]"@);
    } else {
        assert(b[0] == x.shown());
    }
}

/// One member more in an object is written behind the others, with its name.
pub proof fn a_member_more_is_written_behind(
    m: Seq<(Seq<char>, JsonTree)>,
    name: Seq<char>,
    x: JsonTree,
)
    ensures
        m.len() == 0 ==> JsonTree::Object(m.push((name, x))).shown() == "{"@ + (name + ": "@
            + x.shown()) + "}"@,
        m.len() > 0 ==> exists|inner: Seq<char>|
            JsonTree::Object(m).shown() == "{"@ + inner + "}"@ && #[trigger] JsonTree::Object(
                m.push((name, x)),
            ).shown() == "{"@ + (inner + ", "@ + (name + ": "@ + x.shown())) + "}"@,
{
    let w = m.push((name, x));
    let a = shown_members(m);
    let b = shown_members(w);
    let line = name + ": "@ + x.shown();
    assert(b.drop_last() =~= a) by {
        assert forall|i: int| 0 <= i < a.len() implies #[trigger] b.drop_last()[i] == a[i] by {
            assert(w[i] == m[i]);
        }
    }
    assert(b.last() == line) by {
        assert(w[m.len() as int] == (name, x));
    }
    if m.len() > 0 {
        let inner = crate::pieces::join(a, ", "@);
        assert(crate::pieces::join(b, ", "@) == inner + ", "@ + line);
        assert(JsonTree::Object(w).shown() == "{"@ + (inner + ", "@ + line) + "}"@);
        assert(JsonTree::Object(m).shown() == "{"@ + inner + "}"@);
    } else {
        assert(b[0] == line);
    }
}

// ---------------------------------------------------------------------------
// Results
// ---------------------------------------------------------------------------

/// Whether `block` holds the first lines of `all`, at most `max`, in their order,
/// with a note of how many are left out where any is.
pub open spec fn first_lines(
    block: LineBlockView,
    all: Seq<Seq<char>>,
    max: int,
    before: Seq<char>,
    after: Seq<char>,
) -> bool {
    &&& block.lines.len() == (if all.len() < max {
        all.len() as int
    } else {
        max
    })
    &&& forall|i: int| 0 <= i < block.lines.len() ==> #[trigger] block.lines[i] == all[i]
    &&& all.len() <= max ==> block.more is None
    &&& all.len() > max ==> block.more == Some(
        before + decimal((all.len() - max) as nat) + after,
    )
}

/// Whether `block` shows the output stream that is named `key`: the first 300 lines
/// of its text where that is not blank, and nothing where it is or where there is
/// none.
pub open spec fn shows_stream(block: Option<LineBlockView>, t: JsonTree, key: Seq<char>) -> bool {
    &&& block is Some <==> (t.get(key) matches Some(JsonTree::Text(s)) && trim(s).len() > 0)
    &&& t.get(key) matches Some(JsonTree::Text(s)) ==> (block matches Some(b) ==> first_lines(
        b,
        lines(s),
        300,
        "… ("@,
        " more lines)"@,
    ))
}

/// A result with an exit code is shown as that of a command: with the code, the
/// duration where it is given, whether it was cut, and both output streams.
pub proof fn a_command_shows_both_streams(t: JsonTree, raw: Seq<char>)
    requires
        t.get("exit_code"@) is Some,
    ensures
        shown_json(t, raw) matches ShownResult::Shell {
            exit_code,
            duration_ms,
            truncated,
            stdout,
            stderr,
        } && {
            &&& t.get("exit_code"@) matches Some(JsonTree::Number { unsigned: Some(c), .. })
                ==> exit_code == c
            &&& t.unsigned_at("exit_code"@) is None ==> exit_code == 0
            &&& duration_ms == t.unsigned_at("duration_ms"@)
            &&& truncated <==> t.get("truncated"@) == Some(JsonTree::Bool(true))
            &&& shows_stream(stdout, t, "stdout"@)
            &&& shows_stream(stderr, t, "stderr"@)
        },
{
}

/// The line of a directory's entry: its name, its kind and, where it is known, its
/// size. A plain text stands for itself.
pub proof fn an_entry_shows_name_kind_and_size(t: JsonTree, name: Seq<char>, kind: Seq<char>)
    requires
        !(t is Text),
        t.text_at("name"@) == Some(name),
        t.text_at("type"@) == Some(kind),
    ensures
        t.unsigned_at("size"@) is None ==> entry_line(t) == name + "  ["@ + kind + ""@ + "]"@,
        t.unsigned_at("size"@) matches Some(n) ==> entry_line(t) == name + "  ["@ + kind + ("  "@
            + decimal(n as nat) + " bytes"@) + "]"@,
        forall|s: Seq<char>| #[trigger] entry_line(JsonTree::Text(s)) == s,
{
}

/// An entry without a name is shown with a question mark, and one without a kind as
/// a file.
pub proof fn an_entry_without_name_or_kind(t: JsonTree)
    requires
        !(t is Text),
        t.unsigned_at("size"@) is None,
    ensures
        t.text_at("name"@) is None ==> (t.text_at("type"@) matches Some(kind) ==> entry_line(t)
            == "?"@ + "  ["@ + kind + ""@ + "]"@),
        t.text_at("type"@) is None ==> (t.text_at("name"@) matches Some(name) ==> entry_line(t)
            == name + "  ["@ + "file"@ + ""@ + "]"@),
{
}

/// A result with a path and entries is shown as a directory, with its first 50
/// entries, one line each.
pub proof fn a_listing_shows_its_entries(
    t: JsonTree,
    raw: Seq<char>,
    path: Seq<char>,
    items: Seq<JsonTree>,
)
    requires
        t.get("exit_code"@) is None,
        t.text_at("path"@) == Some(path),
        t.items_at("entries"@) == Some(items),
    ensures
        shown_json(t, raw) matches ShownResult::Directory { path: shown, entries } && {
            &&& shown == path
            &&& entries matches Some(block) && first_lines(
                block,
                items.map_values(|e: JsonTree| entry_line(e)),
                50,
                "... and "@,
                " more entries"@,
            )
        },
{
    let all = items.map_values(|e: JsonTree| entry_line(e));
    assert(crate::tool_json::entry_lines(items) =~= all);
}

/// A result with a path and a content is shown as a file, with the content.
pub proof fn a_file_shows_its_content(
    t: JsonTree,
    raw: Seq<char>,
    path: Seq<char>,
    content: Seq<char>,
)
    requires
        t.get("exit_code"@) is None,
        t.text_at("path"@) == Some(path),
        t.get("entries"@) is None,
        t.text_at("content"@) == Some(content),
    ensures
        shown_json(t, raw) == (ShownResult::File { path, content: Some(content) }),
{
}

/// A result with a path and a number of written bytes is shown as a written file,
/// with that number; one that only reports success says so; one that reports the
/// contrary says nothing.
pub proof fn a_written_file_shows_how_much(t: JsonTree, raw: Seq<char>, path: Seq<char>)
    requires
        t.get("exit_code"@) is None,
        t.text_at("path"@) == Some(path),
        t.get("entries"@) is None,
        t.get("content"@) is None,
    ensures
        t.unsigned_at("bytes_written"@) == Some(1u64) ==> shown_json(t, raw) == (
        ShownResult::Written {
            path,
            note: Some("✓ Written "@ + decimal(1) + " byte"@ + ""@),
        }),
        t.unsigned_at("bytes_written"@) matches Some(n) ==> n != 1 ==> shown_json(t, raw) == (
        ShownResult::Written {
            path,
            note: Some("✓ Written "@ + decimal(n as nat) + " byte"@ + "s"@),
        }),
        t.get("bytes_written"@) is None && t.get("success"@) == Some(JsonTree::Bool(true))
            ==> shown_json(t, raw) == (ShownResult::Written {
            path,
            note: Some("✓ File written successfully"@),
        }),
        t.get("bytes_written"@) is None && t.get("success"@) == Some(JsonTree::Bool(false))
            ==> shown_json(t, raw) == (ShownResult::Written { path, note: None }),
{
}

/// The rows of an object are its members in their order, each with its name and its
/// value written out.
pub proof fn an_object_shows_its_members(
    members: Seq<(Seq<char>, JsonTree)>,
    items: Seq<JsonTree>,
    s: Seq<char>,
    i: int,
    j: int,
)
    requires
        0 <= i < members.len(),
        0 <= j < items.len(),
    ensures
        kv_rows(JsonTree::Object(members)).len() == members.len(),
        kv_rows(JsonTree::Object(members))[i] == (
            Some(members[i].0 + ":"@),
            members[i].1.shown(),
        ),
        kv_rows(JsonTree::Array(items)).len() == items.len(),
        kv_rows(JsonTree::Array(items))[j] == (None::<Seq<char>>, items[j].shown()),
        kv_rows(JsonTree::Text(s)) == seq![(None::<Seq<char>>, s)],
{
}

/// Any other result with a path is shown by its path and its members; a calculation
/// by its expression and its result; any other object by its members; and what is
/// no object as it came.
pub proof fn any_other_result_shows_its_members(t: JsonTree, raw: Seq<char>)
    requires
        t.get("exit_code"@) is None,
        t.get("entries"@) is None,
        t.get("content"@) is None,
        t.get("bytes_written"@) is None,
        t.get("success"@) is None,
    ensures
        t.text_at("path"@) matches Some(path) ==> shown_json(t, raw) == (ShownResult::PathFields {
            path,
            rows: kv_rows(t),
        }),
        t.text_at("path"@) is None ==> {
            &&& t.text_at("expression"@) matches Some(e) ==> (t.float_text_at("result"@) matches Some(
                r,
            ) ==> shown_json(t, raw) == (ShownResult::Calculation { expression: e, result: r }))
            &&& (t.text_at("expression"@) is None || t.float_text_at("result"@) is None) && t is Object
                ==> shown_json(t, raw) == (ShownResult::Fields { rows: kv_rows(t) })
        },
        !(t is Object) ==> shown_json(t, raw) == (ShownResult::Plain { text: raw }),
{
}

/// A blank result is shown as none; one that is JSON by what it holds; any other as
/// it is.
pub proof fn a_result_is_shown_by_what_it_is(raw: Seq<char>)
    ensures
        shown_result(raw) is NoOutput <==> trim(raw).len() == 0,
        trim(raw).len() > 0 && parsed_json(raw) is None ==> shown_result(raw) == (
        ShownResult::Plain { text: raw }),
        trim(raw).len() > 0 ==> (parsed_json(raw) matches Some(t) ==> shown_result(raw)
            == shown_json(t, raw)),
{
}

// ---------------------------------------------------------------------------
// Summaries
// ---------------------------------------------------------------------------

/// What a stream adds to the summary of a command: how many lines it has.
pub open spec fn says_lines(n: nat, key: Seq<char>) -> Seq<char> {
    decimal(n) + " "@ + key + " line"@ + if n == 1 {
        ""@
    } else {
        "s"@
    }
}

/// The summary of a command is its exit code, marked by whether it is zero, and how
/// many lines each stream has, without a stream that has none.
pub proof fn a_command_is_summed_up(t: JsonTree, size: nat, code: u64, o: Seq<char>, e: Seq<char>)
    requires
        t.unsigned_at("exit_code"@) == Some(code),
        t.text_at("stdout"@) == Some(o),
        t.text_at("stderr"@) == Some(e),
    ensures
        ({
            let head = if code == 0 {
                "✓ exit 0"@
            } else {
                "✗ exit "@ + decimal(code as nat)
            };
            let out = lines(o).len();
            let err = lines(e).len();
            &&& out > 0 && err > 0 ==> json_summary(t, size) == head + (" · "@ + (says_lines(
                out,
                "stdout"@,
            ) + " · "@ + says_lines(err, "stderr"@)))
            &&& out > 0 && err == 0 ==> json_summary(t, size) == head + (" · "@ + says_lines(
                out,
                "stdout"@,
            ))
            &&& out == 0 && err > 0 ==> json_summary(t, size) == head + (" · "@ + says_lines(
                err,
                "stderr"@,
            ))
            &&& out == 0 && err == 0 ==> json_summary(t, size) == head + ""@
        }),
{
}

/// The summary of a command without output streams is its exit code.
pub proof fn a_silent_command_is_summed_up(t: JsonTree, size: nat, code: u64)
    requires
        t.unsigned_at("exit_code"@) == Some(code),
        t.text_at("stdout"@) is None,
        t.text_at("stderr"@) is None,
    ensures
        code == 0 ==> json_summary(t, size) == "✓ exit 0"@ + ""@,
        code != 0 ==> json_summary(t, size) == "✗ exit "@ + decimal(code as nat) + ""@,
{
}

/// The summary of a result with a path: how many entries a directory has, how many
/// lines a file has, how many bytes were written, that it is done, or the path.
pub proof fn a_path_is_summed_up(t: JsonTree, size: nat, path: Seq<char>)
    requires
        t.unsigned_at("exit_code"@) is None,
        t.text_at("path"@) == Some(path),
    ensures
        t.items_at("entries"@) matches Some(entries) ==> json_summary(t, size) == path + " · "@
            + decimal(entries.len()) + " entries"@,
        t.items_at("entries"@) is None ==> {
            &&& t.text_at("content"@) is Some ==> (t.unsigned_at("total_lines"@) matches Some(n)
                ==> json_summary(t, size) == path + " · "@ + decimal(n as nat) + " lines"@)
            &&& t.unsigned_at("total_lines"@) is None ==> (t.text_at("content"@) matches Some(
                content,
            ) ==> json_summary(t, size) == path + " · "@ + decimal(lines(content).len())
                + " lines"@)
            &&& t.text_at("content"@) is None ==> (t.unsigned_at("bytes_written"@) matches Some(n)
                ==> json_summary(t, size) == "✓ "@ + decimal(n as nat) + " bytes written"@)
            &&& t.text_at("content"@) is None && t.unsigned_at("bytes_written"@) is None
                && t.bool_at("success"@) == Some(true) ==> json_summary(t, size) == "✓ done"@
            &&& t.text_at("content"@) is None && t.unsigned_at("bytes_written"@) is None
                && t.bool_at("success"@) != Some(true) ==> json_summary(t, size) == path
        },
{
}

/// The summary of a search is how many matches it has, and in how many files where
/// that is given; that of a calculation is the equation; that of anything else is
/// its size.
pub proof fn any_other_result_is_summed_up(t: JsonTree, size: nat)
    requires
        t.unsigned_at("exit_code"@) is None,
        t.text_at("path"@) is None,
    ensures
        t.items_at("matches"@) matches Some(found) ==> {
            let head = decimal(found.len()) + " match"@ + if found.len() == 1 {
                ""@
            } else {
                "es"@
            };
            &&& t.unsigned_at("files_searched"@) is None ==> json_summary(t, size) == head + ""@
            &&& t.unsigned_at("files_searched"@) matches Some(f) ==> json_summary(t, size) == head
                + (" in "@ + decimal(f as nat) + " files"@)
        },
        t.items_at("matches"@) is None ==> {
            &&& t.text_at("expression"@) matches Some(e) ==> (t.float_text_at("result"@) matches Some(
                r,
            ) ==> json_summary(t, size) == e + " = "@ + r)
            &&& t.text_at("expression"@) is None || t.float_text_at("result"@) is None
                ==> json_summary(t, size) == decimal(size) + " chars"@
        },
{
}

/// The summary of a plain text is its first line, without space at its ends: cut to
/// 72 characters where it is longer, else with the number of lines where there are
/// more.
pub proof fn a_plain_text_is_summed_up(s: Seq<char>)
    requires
        lines(s).len() > 0,
    ensures
        ({
            let line = trim(lines(s)[0]);
            &&& line.len() > 72 ==> plain_summary(s) == line.take(72) + "…"@
            &&& line.len() <= 72 && lines(s).len() > 1 ==> plain_summary(s) == line + " … ("@
                + decimal(lines(s).len()) + " lines)"@
            &&& line.len() <= 72 && lines(s).len() == 1 ==> plain_summary(s) == line
        }),
{
}

/// A blank result says that there is no output; any other is summed up without the
/// space at its ends, as JSON where it is that.
pub proof fn a_result_is_summed_up_by_what_it_is(raw: Seq<char>)
    ensures
        trim(raw).len() == 0 ==> result_summary(raw) == "(no output)"@,
        trim(raw).len() > 0 && parsed_json(trim(raw)) is None ==> result_summary(raw)
            == plain_summary(trim(raw)),
        trim(raw).len() > 0 ==> (parsed_json(trim(raw)) matches Some(t) ==> result_summary(raw)
            == json_summary(t, encode_utf8(trim(raw)).len())),
{
}

// ---------------------------------------------------------------------------
// Cards
// ---------------------------------------------------------------------------

/// A message without a separator that reports no error is shown as the result of
/// some tool: the whole of it is the result.
pub proof fn a_bare_message_is_a_result(content: Seq<char>)
    requires
        find(content, "||"@) is None,
        legacy_error(trim(content)) is None,
        marked_error(trim(content)) is None,
    ensures
        tool_card(content) == (ToolCardView {
            name: "Tool"@,
            args: Seq::empty(),
            summary: result_summary(content),
            is_error: false,
            duration_ms: None,
            raw_result: trim(content),
        }),
{
    assert(splitn(content, "||"@, 4) =~= seq![content]);
}

/// A tool's name begins at the first letter or digit and ends at a colon, a bracket or
/// a space; the wrench before it is neither.
pub proof fn a_name_has_its_ends(c: char)
    ensures
        ends_name(c) <==> c == ':' || c == '(' || c == ' ',
        (c as u32) < 128 ==> (letter_or_number(c) <==> '0' <= c <= '9' || 'A' <= c <= 'Z' || 'a'
            <= c <= 'z'),
        !letter_or_number('🔧'),
{
}

/// The name in a header stands behind its decoration and before the first character
/// that ends a name.
pub proof fn a_header_shows_its_name(before: Seq<char>, name: Seq<char>, end: char, rest: Seq<char>)
    requires
        forall|i: int| 0 <= i < before.len() ==> !letter_or_number(#[trigger] before[i]),
        name.len() > 0,
        letter_or_number(name[0]),
        forall|i: int| 0 <= i < name.len() ==> !ends_name(#[trigger] name[i]),
        end == ':' || end == '(' || end == ' ',
    ensures
        header_name(before + name.push(end) + rest) == name,
        header_name(before + name) == name,
{
    lemma_header_name(before, name, Seq::empty());
    lemma_header_name(before, name, seq![end] + rest);
    assert(before + name + Seq::empty() =~= before + name);
    assert(before + name + (seq![end] + rest) =~= before + name.push(end) + rest);
}

/// A header of decoration alone is its own name.
pub proof fn a_bare_decoration_is_a_name(header: Seq<char>)
    requires
        header.len() > 0,
        forall|i: int|
            0 <= i < header.len() ==> !letter_or_number(#[trigger] header[i]) && !ends_name(
                header[i],
            ),
    ensures
        header_name(header) == header,
{
    lemma_all_decoration(header);
    lemma_name_run(header, Seq::empty());
    assert(header + Seq::empty() =~= header);
    assert(header.take(header.len() as int) =~= header);
}

proof fn lemma_all_decoration(s: Seq<char>)
    requires
        forall|i: int| 0 <= i < s.len() ==> !letter_or_number(#[trigger] s[i]),
    ensures
        decoration(s) == s.len(),
    decreases s.len(),
{
    if s.len() > 0 {
        let t = s.drop_first();
        assert(!letter_or_number(s[0]));
        assert forall|i: int| 0 <= i < t.len() implies !letter_or_number(#[trigger] t[i]) by {
            assert(t[i] == s[i + 1]);
        }
        lemma_all_decoration(t);
    }
}

proof fn lemma_header_name(before: Seq<char>, name: Seq<char>, rest: Seq<char>)
    requires
        forall|i: int| 0 <= i < before.len() ==> !letter_or_number(#[trigger] before[i]),
        name.len() > 0,
        letter_or_number(name[0]),
        forall|i: int| 0 <= i < name.len() ==> !ends_name(#[trigger] name[i]),
        rest.len() > 0 ==> ends_name(rest[0]),
    ensures
        header_name(before + name + rest) == name,
{
    let s = before + name + rest;
    lemma_decoration(before, name + rest);
    assert(before + (name + rest) =~= s);
    assert(s.skip(before.len() as int) =~= name + rest);
    lemma_name_run(name, rest);
    assert((name + rest).take(name.len() as int) =~= name);
}

proof fn lemma_decoration(a: Seq<char>, b: Seq<char>)
    requires
        forall|i: int| 0 <= i < a.len() ==> !letter_or_number(#[trigger] a[i]),
        b.len() > 0,
        letter_or_number(b[0]),
    ensures
        decoration(a + b) == a.len(),
    decreases a.len(),
{
    if a.len() > 0 {
        let t = a.drop_first();
        assert(!letter_or_number(a[0]));
        assert forall|i: int| 0 <= i < t.len() implies !letter_or_number(#[trigger] t[i]) by {
            assert(t[i] == a[i + 1]);
        }
        lemma_decoration(t, b);
        assert((a + b).drop_first() =~= t + b);
    } else {
        assert(a + b =~= b);
    }
}

proof fn lemma_name_run(a: Seq<char>, b: Seq<char>)
    requires
        forall|i: int| 0 <= i < a.len() ==> !ends_name(#[trigger] a[i]),
        b.len() > 0 ==> ends_name(b[0]),
    ensures
        name_run(a + b) == a.len(),
    decreases a.len(),
{
    if a.len() > 0 {
        let t = a.drop_first();
        assert(!ends_name(a[0]));
        assert forall|i: int| 0 <= i < t.len() implies !ends_name(#[trigger] t[i]) by {
            assert(t[i] == a[i + 1]);
        }
        lemma_name_run(t, b);
        assert((a + b).drop_first() =~= t + b);
    } else {
        assert(a + b =~= b);
    }
}

/// The duration of a card is the number in its fourth part, and none where there is no
/// such part or no number in it.
pub proof fn a_duration_is_the_fourth_part(parts: Seq<Seq<char>>, ms: u64)
    ensures
        parts.len() > 3 && trim(parts[3]) == decimal(ms as nat) ==> card_duration(parts) == Some(
            ms,
        ),
        parts.len() <= 3 ==> card_duration(parts) is None,
        parts.len() > 3 && trim(parts[3]).len() == 0 ==> card_duration(parts) is None,
{
    decimal_reads_back(ms as nat, u64::MAX as int);
}

/// A path of at most `max` characters is shown whole; a longer one by an ellipsis
/// and its end, in `max` characters together.
pub proof fn a_long_path_shows_its_end(path: Seq<char>, max: int)
    ensures
        path.len() <= max ==> elided(path, max) == path,
        path.len() > max && max >= 2 ==> {
            let shown = elided(path, max);
            &&& shown.len() == max
            &&& shown[0] == '…'
            &&& forall|i: int|
                1 <= i < max ==> #[trigger] shown[i] == path[path.len() - max + i]
        },
        max < 2 ==> elided(path, max) == path,
{
}

} // verus!

//! Tool messages read back: the card of a message says what the call was.

use vstd::prelude::*;

use crate::event_handler::{complete_message, error_message};
use crate::numbers::{decimal, decimal_reads_back, is_digit, lemma_decimal_digits, parse_unsigned};
use crate::pieces::splitn;
use crate::text::{
    find, is_space, lemma_find_from, lemma_find_is, occurs_at, rfind, split_once, trim, trim_end,
    trim_start,
};
use crate::tool_cards::{
    card_duration, decoration, ends_name, header_args, header_name, letter_or_number, legacy_error,
    marked_error, name_run, result_summary, tool_card, ToolCardView,
};

verus! {

// ---------------------------------------------------------------------------
// Cutting
// ---------------------------------------------------------------------------

/// Whether the first `p` behind `s` is the one that is put there.
pub open spec fn fenced(s: Seq<char>, p: Seq<char>) -> bool {
    find(s + p, p) == Some(s.len() as int)
}

/// A fenced text is cut off at its fence, whatever follows.
pub proof fn lemma_cut_at_fence(a: Seq<char>, p: Seq<char>, b: Seq<char>)
    requires
        fenced(a, p),
    ensures
        split_once(a + p + b, p) == Some((a, b)),
{
    let s = a + p + b;
    let n = a.len() as int;
    lemma_find_from(a + p, p, 0);
    assert(s.subrange(n, n + p.len()) =~= p);
    assert forall|j: int| 0 <= j < n implies !occurs_at(s, p, j) by {
        if occurs_at(s, p, j) {
            assert((a + p).subrange(j, j + p.len()) =~= s.subrange(j, j + p.len()));
            assert(occurs_at(a + p, p, j));
        }
    }
    lemma_find_is(s, p, 0, n);
    assert(s.take(n) =~= a);
    assert(s.skip(n + p.len()) =~= b);
}

/// Three fenced parts and a rest are cut apart.
proof fn lemma_four_parts(a: Seq<char>, b: Seq<char>, c: Seq<char>, d: Seq<char>, p: Seq<char>)
    requires
        fenced(a, p),
        fenced(b, p),
        fenced(c, p),
    ensures
        splitn(a + p + b + p + c + p + d, p, 4) == seq![a, b, c, d],
{
    reveal_with_fuel(splitn, 5);
    lemma_cut_at_fence(a, p, b + p + c + p + d);
    lemma_cut_at_fence(b, p, c + p + d);
    lemma_cut_at_fence(c, p, d);
    assert(a + p + b + p + c + p + d =~= a + p + (b + p + c + p + d));
    assert(b + p + c + p + d =~= b + p + (c + p + d));
    assert(splitn(a + p + b + p + c + p + d, p, 4) =~= seq![a, b, c, d]);
}

/// Two fenced parts and a rest without a separator are cut apart.
proof fn lemma_three_parts(a: Seq<char>, b: Seq<char>, c: Seq<char>, p: Seq<char>)
    requires
        fenced(a, p),
        fenced(b, p),
        find(c, p) is None,
    ensures
        splitn(a + p + b + p + c, p, 4) == seq![a, b, c],
{
    reveal_with_fuel(splitn, 5);
    lemma_cut_at_fence(a, p, b + p + c);
    lemma_cut_at_fence(b, p, c);
    assert(a + p + b + p + c =~= a + p + (b + p + c));
    assert(b + p + c =~= b + p + (c));
    assert(splitn(a + p + b + p + c, p, 4) =~= seq![a, b, c]);
}

// ---------------------------------------------------------------------------
// Trimming
// ---------------------------------------------------------------------------

/// A text of white space trims to nothing.
pub proof fn lemma_trim_blank(s: Seq<char>)
    requires
        forall|i: int| 0 <= i < s.len() ==> is_space(#[trigger] s[i]),
    ensures
        trim_start(s) == Seq::<char>::empty(),
        trim_end(s) == Seq::<char>::empty(),
        trim(s) == Seq::<char>::empty(),
    decreases s.len(),
{
    if s.len() > 0 {
        assert(is_space(s[0]));
        assert(is_space(s[s.len() - 1]));
        assert forall|i: int| 0 <= i < s.drop_first().len() implies is_space(
            #[trigger] s.drop_first()[i],
        ) by {
            assert(s.drop_first()[i] == s[i + 1]);
        }
        assert forall|i: int| 0 <= i < s.drop_last().len() implies is_space(
            #[trigger] s.drop_last()[i],
        ) by {
            assert(s.drop_last()[i] == s[i]);
        }
        lemma_trim_blank(s.drop_first());
        lemma_trim_blank(s.drop_last());
    } else {
        assert(s =~= Seq::<char>::empty());
    }
}

/// Trimming the end of a longer text trims the end of its last part, where
/// that part is not blank.
proof fn lemma_trim_end_tail(a: Seq<char>, b: Seq<char>, k: int)
    requires
        0 <= k < b.len(),
        !is_space(b[k]),
    ensures
        trim_end(a + b) == a + trim_end(b),
        trim_end(b).len() > k,
        trim_end(b) == b.take(trim_end(b).len() as int),
    decreases b.len(),
{
    let s = a + b;
    assert(s.last() == b.last());
    if is_space(b.last()) {
        assert(s.drop_last() =~= a + b.drop_last());
        assert(b.drop_last()[k] == b[k]);
        lemma_trim_end_tail(a, b.drop_last(), k);
        let n = trim_end(b).len() as int;
        lemma_trim_end_len(b.drop_last());
        assert(b.drop_last().take(n) =~= b.take(n));
    } else {
        assert(b.take(b.len() as int) =~= b);
    }
}

/// Trimming the end of a text whose last part is blank.
proof fn lemma_trim_end_blank_tail(a: Seq<char>, b: Seq<char>)
    requires
        forall|i: int| 0 <= i < b.len() ==> is_space(#[trigger] b[i]),
    ensures
        trim_end(a + b) == trim_end(a),
    decreases b.len(),
{
    let s = a + b;
    if b.len() > 0 {
        assert(is_space(b[b.len() - 1]));
        assert(s.last() == b.last());
        assert(s.drop_last() =~= a + b.drop_last());
        assert forall|i: int| 0 <= i < b.drop_last().len() implies is_space(
            #[trigger] b.drop_last()[i],
        ) by {
            assert(b.drop_last()[i] == b[i]);
        }
        lemma_trim_end_blank_tail(a, b.drop_last());
    } else {
        assert(s =~= a);
    }
}

/// The start that trimming leaves is a part of the text.
proof fn lemma_trim_start_tail(a: Seq<char>, b: Seq<char>, k: int)
    requires
        0 <= k < a.len(),
        !is_space(a[k]),
    ensures
        trim_start(a + b) == trim_start(a) + b,
    decreases a.len(),
{
    let s = a + b;
    assert(s[0] == a[0]);
    if is_space(a[0]) {
        assert(s.drop_first() =~= a.drop_first() + b);
        assert(a.drop_first()[k - 1] == a[k]);
        lemma_trim_start_tail(a.drop_first(), b, k - 1);
    }
}

/// Trimming a text whose end is trimmed already.
pub proof fn lemma_trim_of_trim_end(s: Seq<char>)
    ensures
        trim(trim_end(s)) == trim(s),
    decreases s.len(),
{
    if s.len() > 0 && is_space(s.last()) {
        let t = s.drop_last();
        lemma_trim_of_trim_end(t);
        assert(trim(s) == trim(t)) by {
            let x = seq![s.last()];
            assert(s =~= t + x);
            if forall|i: int| 0 <= i < t.len() ==> is_space(#[trigger] t[i]) {
                assert forall|i: int| 0 <= i < s.len() implies is_space(#[trigger] s[i]) by {
                    if i < t.len() {
                        assert(s[i] == t[i]);
                    }
                }
                lemma_trim_blank(t);
                lemma_trim_blank(s);
            } else {
                let k = choose|k: int| 0 <= k < t.len() && !is_space(#[trigger] t[k]);
                lemma_trim_start_tail(t, x, k);
                assert forall|i: int| 0 <= i < x.len() implies is_space(#[trigger] x[i]) by {}
                lemma_trim_end_blank_tail(trim_start(t), x);
            }
        }
    }
}

/// A text without white space at its ends stays as it is.
pub proof fn lemma_trim_solid(s: Seq<char>)
    requires
        s.len() > 0,
        !is_space(s[0]),
        !is_space(s.last()),
    ensures
        trim(s) == s,
{
}

/// The digits of a number have no white space at their ends.
proof fn lemma_trim_decimal(n: nat)
    ensures
        trim(decimal(n)) == decimal(n),
{
    lemma_decimal_digits(n);
    let d = decimal(n);
    assert(is_digit(d[0]));
    assert(is_digit(d[d.len() - 1]));
    lemma_trim_solid(d);
}

// ---------------------------------------------------------------------------
// Headers
// ---------------------------------------------------------------------------

/// Whether a text can be a tool's name in the header of a completed call: it
/// begins with a letter or a number and holds no character that ends a name.
pub open spec fn tool_name_ok(name: Seq<char>) -> bool {
    &&& name.len() > 0
    &&& letter_or_number(name[0])
    &&& forall|i: int| 0 <= i < name.len() ==> !ends_name(#[trigger] name[i])
}

proof fn lemma_name_run(name: Seq<char>, rest: Seq<char>)
    requires
        forall|i: int| 0 <= i < name.len() ==> !ends_name(#[trigger] name[i]),
        rest.len() > 0,
        ends_name(rest[0]),
    ensures
        name_run(name + rest) == name.len(),
    decreases name.len(),
{
    let s = name + rest;
    if name.len() > 0 {
        assert(!ends_name(name[0]));
        let t = name.drop_first();
        assert forall|i: int| 0 <= i < t.len() implies !ends_name(#[trigger] t[i]) by {
            assert(t[i] == name[i + 1]);
        }
        lemma_name_run(t, rest);
        assert(s.drop_first() =~= t + rest);
    } else {
        assert(s[0] == rest[0]);
    }
}

/// The name in the header of a completed call.
proof fn lemma_header_name(name: Seq<char>, rest: Seq<char>)
    requires
        tool_name_ok(name),
        rest.len() > 0,
        rest[0] == ':',
    ensures
        header_name("🔧 "@ + name + rest) == name,
{
    reveal_strlit("🔧 ");
    reveal_with_fuel(decoration, 4);
    let header = "🔧 "@ + name + rest;
    assert(header[0] == '🔧' && header[1] == ' ');
    assert(header.drop_first()[0] == ' ');
    assert(header.drop_first().drop_first() =~= name + rest);
    assert((name + rest)[0] == name[0]);
    assert(decoration(name + rest) == 0);
    assert(decoration(header.drop_first()) == 1);
    assert(decoration(header) == 2);
    assert(header.skip(2) =~= name + rest);
    lemma_name_run(name, rest);
    assert((name + rest).take(name.len() as int) =~= name);
}

/// The arguments in the header of a completed call.
proof fn lemma_header_args(name: Seq<char>, args: Seq<char>)
    requires
        tool_name_ok(name),
    ensures
        header_args("🔧 "@ + name + ": "@ + args, name) == trim(args),
{
    reveal_strlit("🔧 ");
    reveal_strlit(": ");
    let mark = name + ": "@;
    let header = "🔧 "@ + name + ": "@ + args;
    assert(header.subrange(2, 2int + mark.len()) =~= mark);
    assert(!occurs_at(header, mark, 0)) by {
        if occurs_at(header, mark, 0) {
            assert(header.subrange(0, mark.len() as int)[0] == mark[0]);
            assert(header[0] == '🔧');
        }
    }
    assert(!occurs_at(header, mark, 1)) by {
        if occurs_at(header, mark, 1) {
            assert(header.subrange(1, 1int + mark.len())[0] == mark[0]);
            assert(header[1] == ' ');
        }
    }
    lemma_find_is(header, mark, 0, 2);
    assert(header.skip(2int + mark.len()) =~= args);
}

/// A blank header tail leaves no arguments.
proof fn lemma_no_args(name: Seq<char>)
    requires
        tool_name_ok(name),
    ensures
        header_args("🔧 "@ + name + ":"@, name) == Seq::<char>::empty(),
{
    reveal_strlit("🔧 ");
    reveal_strlit(": ");
    reveal_strlit(":");
    let mark = name + ": "@;
    let header = "🔧 "@ + name + ":"@;
    lemma_find_from(header, mark, 0);
    if let Some(k) = find(header, mark) {
        assert(occurs_at(header, mark, k));
        assert(header.subrange(k, k + mark.len()) == mark);
        if k == 0 {
            assert(header.subrange(0, mark.len() as int)[0] == mark[0]);
            assert(header[0] == '🔧');
        } else {
            assert(k == 1);
            assert(header.subrange(1, 1int + mark.len())[0] == mark[0]);
            assert(header[1] == ' ');
        }
    }
}

/// What a reader makes of the header of a completed call.
proof fn lemma_complete_header(name: Seq<char>, args: Seq<char>)
    requires
        tool_name_ok(name),
    ensures
        ({
            let header = trim("🔧 "@ + name + ": "@ + args);
            &&& header.len() > 0
            &&& legacy_error(header) is None
            &&& marked_error(header) is None
            &&& header_name(header) == name
            &&& header_args(header, name) == trim(args)
        }),
{
    reveal_strlit("🔧 ");
    reveal_strlit(": ");
    reveal_strlit(":");
    reveal_strlit("Tool '");
    reveal_strlit("✗");
    let full = "🔧 "@ + name + ": "@ + args;
    let prefix = "🔧 "@ + name + ": "@;
    assert(full =~= prefix + args);
    assert(full[0] == '🔧');
    assert(trim_start(full) == full);
    let header = trim(full);
    if forall|i: int| 0 <= i < args.len() ==> is_space(#[trigger] args[i]) {
        lemma_trim_blank(args);
        let short = "🔧 "@ + name + ":"@;
        let tail = seq![' '] + args;
        assert(full =~= short + tail);
        assert forall|i: int| 0 <= i < tail.len() implies is_space(#[trigger] tail[i]) by {
            if i > 0 {
                assert(tail[i] == args[i - 1]);
            }
        }
        lemma_trim_end_blank_tail(short, tail);
        assert(short.last() == ':');
        assert(header == short);
        lemma_header_name(name, ":"@);
        lemma_no_args(name);
        assert(header[0] == '🔧');
    } else {
        let k = choose|k: int| 0 <= k < args.len() && !is_space(#[trigger] args[k]);
        lemma_trim_end_tail(prefix, args, k);
        let kept = trim_end(args);
        assert(header == prefix + kept);
        assert(header =~= "🔧 "@ + name + (": "@ + kept));
        lemma_header_name(name, ": "@ + kept);
        lemma_header_args(name, kept);
        lemma_trim_of_trim_end(args);
        assert(header[0] == '🔧');
    }
    assert(!"Tool '"@.is_prefix_of(header)) by {
        if "Tool '"@.is_prefix_of(header) {
            assert("Tool '"@[0] == header[0]);
        }
    }
    assert(!"✗"@.is_prefix_of(header)) by {
        if "✗"@.is_prefix_of(header) {
            assert("✗"@[0] == header[0]);
        }
    }
}

/// A completed call with an argument preview and a duration reads back: its
/// card shows the tool's name, the arguments, the duration and the result. The
/// name is one that a header can show, and no part of the message holds the
/// separator or runs into it.
pub proof fn a_completed_call_reads_back(
    name: Seq<char>,
    call_id: Seq<char>,
    result: Seq<char>,
    fallback_header: Seq<char>,
    args: Seq<char>,
    ms: u64,
)
    requires
        tool_name_ok(name),
        args.len() > 0,
        ms > 0,
        fenced("🔧 "@ + name + ": "@ + args, "||"@),
        fenced(call_id, "||"@),
        fenced(result, "||"@),
    ensures
        tool_card(complete_message(name, call_id, result, fallback_header, (args, ms))) == (
        ToolCardView {
            name,
            args: trim(args),
            summary: result_summary(result),
            is_error: false,
            duration_ms: Some(ms),
            raw_result: trim(result),
        }),
{
    let header = "🔧 "@ + name + ": "@ + args;
    let digits = decimal(ms as nat);
    let content = complete_message(name, call_id, result, fallback_header, (args, ms));
    assert(content =~= header + "||"@ + call_id + "||"@ + result + "||"@ + digits);
    lemma_four_parts(header, call_id, result, digits, "||"@);
    lemma_complete_header(name, args);
    lemma_trim_decimal(ms as nat);
    decimal_reads_back(ms as nat, u64::MAX as int);
    let parts = splitn(content, "||"@, 4);
    assert(parts == seq![header, call_id, result, digits]);
    assert(card_duration(parts) == Some(ms));
}

/// A completed call with an argument preview but without a known duration
/// shows the tool's name and the result.
pub proof fn an_untimed_call_reads_back(
    name: Seq<char>,
    call_id: Seq<char>,
    result: Seq<char>,
    fallback_header: Seq<char>,
    args: Seq<char>,
)
    requires
        tool_name_ok(name),
        args.len() > 0,
        fenced("🔧 "@ + name + ": "@ + args, "||"@),
        fenced(call_id, "||"@),
        find(result, "||"@) is None,
    ensures
        tool_card(complete_message(name, call_id, result, fallback_header, (args, 0))) == (
        ToolCardView {
            name,
            args: Seq::empty(),
            summary: result_summary(result),
            is_error: false,
            duration_ms: None,
            raw_result: trim(result),
        }),
{
    let header = "🔧 "@ + name + ": "@ + args;
    let content = complete_message(name, call_id, result, fallback_header, (args, 0));
    assert(content =~= header + "||"@ + call_id + "||"@ + result);
    lemma_three_parts(header, call_id, result, "||"@);
    lemma_complete_header(name, args);
    let parts = splitn(content, "||"@, 4);
    assert(parts == seq![header, call_id, result]);
}

// ---------------------------------------------------------------------------
// Failed calls
// ---------------------------------------------------------------------------

/// Trimming the start stops at a part that begins without white space.
proof fn lemma_trim_start_stops(a: Seq<char>, b: Seq<char>)
    requires
        b.len() > 0,
        !is_space(b[0]),
    ensures
        trim_start(a + b) == trim_start(a) + b,
    decreases a.len(),
{
    let s = a + b;
    if a.len() > 0 {
        assert(s[0] == a[0]);
        if is_space(a[0]) {
            assert(s.drop_first() =~= a.drop_first() + b);
            lemma_trim_start_stops(a.drop_first(), b);
        }
    } else {
        assert(s =~= b);
        assert(trim_start(a) + b =~= b);
    }
}

/// The end of a fenced text is fenced.
proof fn lemma_fenced_end(a: Seq<char>, p: Seq<char>)
    requires
        fenced(a, p),
    ensures
        fenced(trim_start(a), p),
    decreases a.len(),
{
    if a.len() > 0 && is_space(a[0]) {
        let b = a.drop_first();
        lemma_find_from(a + p, p, 0);
        let n = b.len() as int;
        assert((b + p).subrange(n, n + p.len()) =~= p);
        assert forall|j: int| 0 <= j < n implies !occurs_at(b + p, p, j) by {
            if occurs_at(b + p, p, j) {
                assert((a + p).subrange(j + 1, j + 1 + p.len()) =~= (b + p).subrange(
                    j,
                    j + p.len(),
                ));
                assert(occurs_at(a + p, p, j + 1));
            }
        }
        lemma_find_is(b + p, p, 0, n);
        lemma_fenced_end(b, p);
    }
}

/// Trimming the start twice is trimming it once.
proof fn lemma_trim_start_twice(s: Seq<char>)
    ensures
        trim_start(trim_start(s)) == trim_start(s),
    decreases s.len(),
{
    if s.len() > 0 && is_space(s[0]) {
        lemma_trim_start_twice(s.drop_first());
    }
}

/// A text that is not blank ends without white space once its end is trimmed.
proof fn lemma_trim_end_solid(s: Seq<char>)
    requires
        trim(s).len() > 0,
    ensures
        trim_end(s).len() > 0,
        !is_space(trim_end(s).last()),
        exists|k: int| 0 <= k < s.len() && !is_space(#[trigger] s[k]),
    decreases s.len(),
{
    if forall|k: int| 0 <= k < s.len() ==> is_space(#[trigger] s[k]) {
        lemma_trim_blank(s);
    }
    let k = choose|k: int| 0 <= k < s.len() && !is_space(#[trigger] s[k]);
    lemma_trim_end_tail(Seq::empty(), s, k);
    lemma_trim_end_last(s);
}

proof fn lemma_trim_end_last(s: Seq<char>)
    ensures
        trim_end(s).len() > 0 ==> !is_space(trim_end(s).last()),
    decreases s.len(),
{
    if s.len() > 0 && is_space(s.last()) {
        lemma_trim_end_last(s.drop_last());
    }
}

/// What a reader makes of the header of a failed call with an argument
/// preview.
proof fn lemma_marked_header(name: Seq<char>, args: Seq<char>, error: Seq<char>)
    requires
        fenced(name, ": "@),
        trim(error).len() > 0,
        rfind(args + " — "@ + trim_end(error), " — "@) == Some(args.len() as int),
    ensures
        ({
            let header = trim("✗ "@ + name + ": "@ + args + " — "@ + error);
            &&& legacy_error(header) is None
            &&& marked_error(header) == Some((trim(name), trim(args), trim(error)))
        }),
{
    reveal_strlit("✗ ");
    reveal_strlit("✗");
    reveal_strlit(": ");
    reveal_strlit(" — ");
    reveal_strlit("Tool '");
    let e = trim_end(error);
    lemma_trim_end_solid(error);
    lemma_trim_of_trim_end(error);
    let front = "✗ "@ + name + ": "@ + args + " — "@;
    let full = front + error;
    assert(full =~= "✗ "@ + name + ": "@ + args + " — "@ + error);
    assert(full[0] == '✗');
    assert(trim_start(full) == full);
    let k = choose|k: int| 0 <= k < error.len() && !is_space(#[trigger] error[k]);
    lemma_trim_end_tail(front, error, k);
    let header = front + e;
    assert(trim(full) == header);
    let rest = args + " — "@ + e;
    let body = ": "@ + rest;
    let tail = header.skip(1);
    let spaced = seq![' '] + name;
    assert(tail =~= spaced + body);
    assert(body[0] == ':');
    lemma_trim_start_stops(spaced, body);
    assert(spaced.drop_first() =~= name);
    assert(trim_start(spaced) == trim_start(name));
    let inner = trim_start(name) + body;
    assert(trim_start(tail) == inner);
    assert(inner.last() == e.last());
    assert(trim(tail) == inner);
    assert("✗"@.is_prefix_of(header)) by {
        assert(header.take(1) =~= "✗"@);
    }
    lemma_fenced_end(name, ": "@);
    assert(inner =~= trim_start(name) + ": "@ + rest);
    lemma_cut_at_fence(trim_start(name), ": "@, rest);
    lemma_trim_start_twice(name);
    assert(rest.take(args.len() as int) =~= args);
    assert(rest.skip(args.len() as int + " — "@.len()) =~= e);
    assert(!"Tool '"@.is_prefix_of(header)) by {
        if "Tool '"@.is_prefix_of(header) {
            assert("Tool '"@[0] == header[0]);
        }
    }
}

proof fn lemma_trim_end_len(s: Seq<char>)
    ensures
        trim_end(s).len() <= s.len(),
    decreases s.len(),
{
    if s.len() > 0 && is_space(s.last()) {
        lemma_trim_end_len(s.drop_last());
    }
}

/// A failed call with an argument preview reads back: its card is an error
/// with the tool's name, the arguments and the message, and with the duration
/// where it is known.
pub proof fn a_failed_call_reads_back(
    name: Seq<char>,
    call_id: Seq<char>,
    error: Seq<char>,
    args: Seq<char>,
    ms: u64,
)
    requires
        fenced(name, ": "@),
        args.len() > 0,
        trim(error).len() > 0,
        rfind(args + " — "@ + trim_end(error), " — "@) == Some(args.len() as int),
        fenced("✗ "@ + name + ": "@ + args + " — "@ + error, "||"@),
        fenced(call_id, "||"@),
        fenced(error, "||"@),
    ensures
        tool_card(error_message(name, call_id, error, (args, ms))) == (ToolCardView {
            name: trim(name),
            args: trim(args),
            summary: trim(error),
            is_error: true,
            duration_ms: if ms > 0 {
                Some(ms)
            } else {
                None
            },
            raw_result: trim(error),
        }),
{
    let header = "✗ "@ + name + ": "@ + args + " — "@ + error;
    let content = error_message(name, call_id, error, (args, ms));
    lemma_marked_header(name, args, error);
    lemma_error_parts(header, call_id, error, ms);
}

/// The parts of the message of a failed call.
proof fn lemma_error_parts(header: Seq<char>, call_id: Seq<char>, error: Seq<char>, ms: u64)
    requires
        fenced(header, "||"@),
        fenced(call_id, "||"@),
        fenced(error, "||"@),
    ensures
        ({
            let content = if ms > 0 {
                header + "||"@ + call_id + "||"@ + error + "||"@ + decimal(ms as nat)
            } else {
                header + "||"@ + call_id + "||"@ + error + "||"@
            };
            let parts = splitn(content, "||"@, 4);
            &&& parts.len() == 4
            &&& parts[0] == header
            &&& parts[2] == error
            &&& card_duration(parts) == if ms > 0 {
                Some(ms)
            } else {
                None
            }
        }),
{
    if ms > 0 {
        lemma_four_parts(header, call_id, error, decimal(ms as nat), "||"@);
        lemma_trim_decimal(ms as nat);
        decimal_reads_back(ms as nat, u64::MAX as int);
    } else {
        let e = Seq::<char>::empty();
        lemma_four_parts(header, call_id, error, e, "||"@);
        assert(header + "||"@ + call_id + "||"@ + error + "||"@ + e =~= header + "||"@ + call_id
            + "||"@ + error + "||"@);
        lemma_trim_blank(e);
        assert(parse_unsigned(e, u64::MAX as int) is None);
    }
}

/// A failed call without an argument preview reads back: its card is an error
/// with the tool's name and the message.
pub proof fn a_failed_call_without_preview_reads_back(
    name: Seq<char>,
    call_id: Seq<char>,
    error: Seq<char>,
    ms: u64,
)
    requires
        fenced(name, "'"@),
        trim(error).len() > 0,
        fenced("Tool '"@ + name + "' error: "@ + error, "||"@),
        fenced(call_id, "||"@),
        fenced(error, "||"@),
    ensures
        tool_card(error_message(name, call_id, error, (Seq::empty(), ms))) == (ToolCardView {
            name,
            args: Seq::empty(),
            summary: trim(error),
            is_error: true,
            duration_ms: if ms > 0 {
                Some(ms)
            } else {
                None
            },
            raw_result: trim(error),
        }),
{
    reveal_strlit("Tool '");
    reveal_strlit("' error: ");
    reveal_strlit("'");
    reveal_strlit("error:");
    let header = "Tool '"@ + name + "' error: "@ + error;
    let content = error_message(name, call_id, error, (Seq::empty(), ms));
    let e = trim_end(error);
    lemma_trim_end_solid(error);
    lemma_trim_of_trim_end(error);
    let front = "Tool '"@ + name + "' error: "@;
    assert(header[0] == 'T');
    assert(trim_start(header) == header);
    let k = choose|k: int| 0 <= k < error.len() && !is_space(#[trigger] error[k]);
    lemma_trim_end_tail(front, error, k);
    let kept = front + e;
    assert(trim(header) == kept);
    let rest = seq![' ', 'e', 'r', 'r', 'o', 'r', ':', ' '] + e;
    let quoted = name + "'"@ + rest;
    assert(kept =~= "Tool '"@ + quoted);
    assert(kept.skip("Tool '"@.len() as int) =~= quoted);
    assert("Tool '"@.is_prefix_of(kept)) by {
        assert(kept.take("Tool '"@.len() as int) =~= "Tool '"@);
    }
    lemma_cut_at_fence(name, "'"@, rest);
    let solid = rest.drop_first();
    assert(solid[0] == 'e');
    assert(solid.last() == e.last());
    lemma_trim_solid(solid);
    assert(trim_start(solid) == solid);
    assert(rest[0] == ' ');
    assert(trim_start(rest) == solid);
    assert(trim(rest) == solid);
    assert("error:"@.is_prefix_of(solid)) by {
        assert(solid.take("error:"@.len() as int) =~= "error:"@);
    }
    let after = solid.skip("error:"@.len() as int);
    assert(after =~= seq![' '] + e);
    assert(after.drop_first() =~= e);
    assert(after[0] == ' ');
    assert(trim_start(after) == trim_start(e));
    assert(trim(after) == trim(error));
    assert(legacy_error(kept) == Some((name, trim(error))));
    lemma_error_parts(header, call_id, error, ms);
}

} // verus!

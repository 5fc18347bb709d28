//! What holds of the operations on texts.

use vstd::prelude::*;

use crate::pieces::{
    comma_list, fields, join, lemma_fields_nonempty, lines, splitn, trimmed_nonempty, truncated, words,
};
use crate::text::{
    find, is_space, lemma_find_from, occurs_at, rfind, rfind_to, rsplit_once, split_once, trim,
    trim_end, trim_start, without_prefix, without_suffix,
};

verus! {

proof fn lemma_trim_start(s: Seq<char>)
    ensures
        trim_start(s).len() <= s.len(),
        trim_start(s) == s.skip(s.len() - trim_start(s).len()),
        forall|i: int| 0 <= i < s.len() - trim_start(s).len() ==> is_space(#[trigger] s[i]),
        trim_start(s).len() > 0 ==> !is_space(trim_start(s)[0]),
    decreases s.len(),
{
    if s.len() > 0 && is_space(s[0]) {
        let t = s.drop_first();
        lemma_trim_start(t);
        let cut = s.len() - trim_start(s).len();
        assert(trim_start(s) =~= s.skip(cut));
        assert forall|i: int| 0 <= i < cut implies is_space(#[trigger] s[i]) by {
            if i > 0 {
                assert(t[i - 1] == s[i]);
            }
        }
    } else {
        assert(s.skip(0) =~= s);
    }
}

proof fn lemma_trim_end(s: Seq<char>)
    ensures
        trim_end(s).len() <= s.len(),
        trim_end(s) == s.take(trim_end(s).len() as int),
        forall|i: int| trim_end(s).len() <= i < s.len() ==> is_space(#[trigger] s[i]),
        trim_end(s).len() > 0 ==> !is_space(trim_end(s).last()),
    decreases s.len(),
{
    if s.len() > 0 && is_space(s.last()) {
        let t = s.drop_last();
        lemma_trim_end(t);
        let n = trim_end(s).len() as int;
        assert(trim_end(s) =~= s.take(n));
        assert forall|i: int| n <= i < s.len() implies is_space(#[trigger] s[i]) by {
            if i < s.len() - 1 {
                assert(t[i] == s[i]);
            }
        }
    } else {
        assert(s.take(s.len() as int) =~= s);
    }
}

/// Trimming takes away the white space at both ends and nothing else: what is left
/// is the part of the text in the middle, with no white space at its ends, and
/// empty only where the text is blank.
pub proof fn trimming_takes_only_the_ends(s: Seq<char>)
    ensures
        exists|a: int, b: int|
            #![trigger s.subrange(a, b)]
            0 <= a <= b <= s.len() && trim(s) == s.subrange(a, b) && (forall|i: int|
                0 <= i < a || b <= i < s.len() ==> is_space(#[trigger] s[i])),
        trim(s).len() > 0 ==> !is_space(trim(s)[0]) && !is_space(trim(s).last()),
{
    let t = trim_start(s);
    lemma_trim_start(s);
    lemma_trim_end(t);
    let a = s.len() - t.len();
    let b = a + trim(s).len();
    assert(trim(s) =~= s.subrange(a, b));
    assert forall|i: int| 0 <= i < a || b <= i < s.len() implies is_space(#[trigger] s[i]) by {
        if b <= i {
            assert(t[i - a] == s[i]);
        }
    }
    if trim(s).len() > 0 {
        assert(trim(s)[0] == t[0]);
    }
}

/// Trimming a trimmed text changes nothing.
pub proof fn trimming_twice_is_trimming_once(s: Seq<char>)
    ensures
        trim(trim(s)) == trim(s),
{
    let t = trim(s);
    trimming_takes_only_the_ends(s);
    assert(trim_start(t) == t);
    assert(trim_end(t) == t);
}

/// A text is cut at the first place where the separator stands, or at the last:
/// the parts and the separator between them make the text again, and the part
/// before (or behind) reaches as far as it can without the separator.
pub proof fn cuts_give_the_text_back(s: Seq<char>, p: Seq<char>)
    ensures
        match split_once(s, p) {
            Some((a, b)) => a + p + b == s && forall|i: int|
                0 <= i < a.len() ==> !(#[trigger] occurs_at(s, p, i)),
            None => forall|i: int| 0 <= i ==> !(#[trigger] occurs_at(s, p, i)),
        },
        match rsplit_once(s, p) {
            Some((a, b)) => a + p + b == s && forall|i: int|
                i > a.len() ==> !(#[trigger] occurs_at(s, p, i)),
            None => forall|i: int| 0 <= i ==> !(#[trigger] occurs_at(s, p, i)),
        },
{
    lemma_find_from(s, p, 0);
    if let Some((a, b)) = split_once(s, p) {
        let k = find(s, p)->Some_0;
        assert(s.subrange(k, k + p.len()) == p);
        assert(a + p + b =~= s);
    }
    lemma_rfind(s, p, s.len() - p.len());
    if let Some((a, b)) = rsplit_once(s, p) {
        let k = rfind(s, p)->Some_0;
        assert(s.subrange(k, k + p.len()) == p);
        assert(a + p + b =~= s);
    }
}

proof fn lemma_rfind(s: Seq<char>, p: Seq<char>, i: int)
    requires
        i <= s.len() - p.len(),
    ensures
        match rfind_to(s, p, i) {
            Some(k) => 0 <= k <= i && occurs_at(s, p, k) && forall|j: int|
                k < j <= i ==> !(#[trigger] occurs_at(s, p, j)),
            None => forall|j: int| 0 <= j <= i ==> !(#[trigger] occurs_at(s, p, j)),
        },
    decreases i + 1,
{
    if i >= 0 && !occurs_at(s, p, i) {
        lemma_rfind(s, p, i - 1);
    }
}

/// A prefix or a suffix that is cut off is what the text is longer by.
pub proof fn cut_ends_give_the_text_back(s: Seq<char>, p: Seq<char>)
    ensures
        without_prefix(s, p) matches Some(t) ==> s == p + t,
        without_suffix(s, p) matches Some(t) ==> s == t + p,
        forall|t: Seq<char>| s == #[trigger] (p + t) ==> without_prefix(s, p) == Some(t),
        forall|t: Seq<char>| s == #[trigger] (t + p) ==> without_suffix(s, p) == Some(t),
{
    if let Some(t) = without_prefix(s, p) {
        assert(s =~= p + t);
    }
    if let Some(t) = without_suffix(s, p) {
        assert(s =~= t + p);
    }
    assert forall|t: Seq<char>| s == #[trigger] (p + t) implies without_prefix(s, p) == Some(t) by {
        assert(p.is_prefix_of(s));
        assert(s.skip(p.len() as int) =~= t);
    }
    assert forall|t: Seq<char>| s == #[trigger] (t + p) implies without_suffix(s, p) == Some(t) by {
        assert(p.is_suffix_of(s));
        assert(s.take(s.len() - p.len()) =~= t);
    }
}

proof fn lemma_join_last(parts: Seq<Seq<char>>, sep: Seq<char>, x: Seq<char>)
    requires
        parts.len() > 0,
    ensures
        join(parts.push(x), sep) == join(parts, sep) + sep + x,
{
    assert(parts.push(x).drop_last() =~= parts);
}

/// The fields of a text, with the separator between them, are the text again, and
/// no field holds the separator.
pub proof fn fields_give_the_text_back(s: Seq<char>, c: char)
    ensures
        join(fields(s, c), seq![c]) == s,
        forall|i: int| 0 <= i < fields(s, c).len() ==> !(#[trigger] fields(s, c)[i]).contains(c),
    decreases s.len(),
{
    if s.len() > 0 {
        let t = s.drop_last();
        let before = fields(t, c);
        fields_give_the_text_back(t, c);
        lemma_fields_nonempty(t, c);
        let now = fields(s, c);
        if s.last() == c {
            lemma_join_last(before, seq![c], Seq::empty());
            assert(join(now, seq![c]) =~= s);
        } else {
            let init = before.drop_last();
            let x = before.last();
            assert(before =~= init.push(x));
            if init.len() > 0 {
                lemma_join_last(init, seq![c], x);
                lemma_join_last(init, seq![c], x.push(s.last()));
            }
            assert(join(now, seq![c]) =~= join(before, seq![c]).push(s.last()));
            assert(s =~= t.push(s.last()));
            assert(!before[before.len() - 1].contains(c));
            assert forall|i: int| 0 <= i < now.len() implies !(#[trigger] now[i]).contains(c) by {
                if i < init.len() {
                    assert(now[i] == before[i]);
                } else if now[i].contains(c) {
                    let m = choose|m: int| 0 <= m < now[i].len() && now[i][m] == c;
                    if m < x.len() {
                        assert(x[m] == c);
                    }
                }
            }
        }
    }
}

/// The pieces of a text that is split at most so often, with the separator between
/// them, are the text again; there are never more pieces than asked for.
pub proof fn pieces_give_the_text_back(s: Seq<char>, p: Seq<char>, n: nat)
    requires
        n >= 1,
    ensures
        join(splitn(s, p, n), p) == s,
        1 <= splitn(s, p, n).len() <= n,
    decreases n,
{
    if n > 1 {
        cuts_give_the_text_back(s, p);
        if let Some((a, b)) = split_once(s, p) {
            let rest = splitn(b, p, (n - 1) as nat);
            pieces_give_the_text_back(b, p, (n - 1) as nat);
            lemma_join_first(a, rest, p);
            assert(a + p + b == s);
        }
    }
}

proof fn lemma_join_first(x: Seq<char>, parts: Seq<Seq<char>>, sep: Seq<char>)
    requires
        parts.len() > 0,
    ensures
        join(seq![x] + parts, sep) == x + sep + join(parts, sep),
    decreases parts.len(),
{
    let all = seq![x] + parts;
    if parts.len() == 1 {
        assert(all.drop_last() =~= seq![x]);
        assert(join(seq![x], sep) == x);
        assert(all.last() == parts[0]);
    } else {
        let init = parts.drop_last();
        lemma_join_first(x, init, sep);
        assert(all.drop_last() =~= seq![x] + init);
        assert(all.last() == parts.last());
        assert(join(all, sep) =~= x + sep + join(parts, sep));
    }
}

/// The words of a text hold no white space, and none is empty; a text without
/// white space is one word, and a blank text has none.
pub proof fn words_are_words(s: Seq<char>)
    ensures
        forall|i: int| 0 <= i < words(s).len() ==> (#[trigger] words(s)[i]).len() > 0,
        forall|i: int, j: int|
            0 <= i < words(s).len() && 0 <= j < words(s)[i].len() ==> !is_space(
                #[trigger] words(s)[i][j],
            ),
        s.len() > 0 && (forall|i: int| 0 <= i < s.len() ==> !is_space(#[trigger] s[i]))
            ==> words(s) == seq![s],
        (forall|i: int| 0 <= i < s.len() ==> is_space(#[trigger] s[i])) ==> words(s).len() == 0,
    decreases s.len(),
{
    if s.len() > 0 {
        let t = s.drop_last();
        words_are_words(t);
        assert(forall|i: int| 0 <= i < t.len() ==> t[i] == s[i]);
        lemma_open_word(t);
        let before = words(t);
        let now = words(s);
        if !is_space(s.last()) && s.len() > 1 && !is_space(s[s.len() - 2]) {
            assert(before.len() > 0);
            assert forall|i: int, j: int|
                0 <= i < now.len() && 0 <= j < now[i].len() implies !is_space(
                #[trigger] now[i][j],
            ) by {
                if i < before.len() - 1 {
                    assert(now[i] == before[i]);
                    assert(!is_space(before[i][j]));
                } else if j < before.last().len() {
                    assert(!is_space(before[before.len() - 1][j]));
                }
            }
            assert(s =~= t.push(s.last()));
            if forall|i: int| 0 <= i < s.len() ==> !is_space(#[trigger] s[i]) {
                assert(before == seq![t]);
                assert(now =~= seq![s]);
            }
        } else if !is_space(s.last()) {
            assert forall|i: int, j: int|
                0 <= i < now.len() && 0 <= j < now[i].len() implies !is_space(
                #[trigger] now[i][j],
            ) by {
                if i < before.len() {
                    assert(now[i] == before[i]);
                    assert(!is_space(before[i][j]));
                }
            }
            if s.len() == 1 {
                assert(before.len() == 0);
                assert(s =~= seq![s[0]]);
                assert(now =~= seq![s]);
            } else {
                assert(is_space(s[s.len() - 2]));
            }
        }
    }
}

proof fn lemma_open_word(t: Seq<char>)
    ensures
        t.len() > 0 && !is_space(t.last()) ==> words(t).len() > 0,
{
}

/// A text that is cut short is the beginning of the text and an ellipsis; one that
/// fits stays as it is.
pub proof fn a_cut_text_begins_as_before(s: Seq<char>, n: int)
    requires
        n >= 1,
    ensures
        s.len() <= n ==> truncated(s, n) == s,
        s.len() > n ==> truncated(s, n).len() == n && truncated(s, n).last() == '…'
            && truncated(s, n).drop_last() == s.take(n - 1),
{
    if s.len() > n {
        assert(truncated(s, n).drop_last() =~= s.take(n - 1));
    }
}

/// A text without line breaks is one line; a line and its break, in front of a
/// text, is one more line.
pub proof fn a_line_more(line: Seq<char>, rest: Seq<char>)
    requires
        !line.contains('\n'),
        line.len() > 0 ==> line.last() != '\r',
    ensures
        line.len() > 0 ==> lines(line) == seq![line],
        lines(line.push('\n') + rest) == seq![line] + lines(rest),
        lines(line.push('\r').push('\n') + rest) == seq![line] + lines(rest),
        lines(Seq::<char>::empty()).len() == 0,
{
    crate::pieces::lemma_fields_single(line, '\n');
    crate::pieces::lemma_fields_split(line, '\n', rest);
    let with_cr = line.push('\r');
    assert(!with_cr.contains('\n')) by {
        if with_cr.contains('\n') {
            let m = choose|m: int| 0 <= m < with_cr.len() && with_cr[m] == '\n';
            assert(m < line.len());
            assert(line[m] == '\n');
        }
    }
    crate::pieces::lemma_fields_single(with_cr, '\n');
    crate::pieces::lemma_fields_split(with_cr, '\n', rest);
    lemma_fields_nonempty(rest, '\n');
    let parts = fields(rest, '\n');
    if line.len() > 0 {
        assert(lines(line) =~= seq![line]);
    }
    assert(with_cr.drop_last() =~= line);
    let a = seq![line] + parts;
    let b = seq![with_cr] + parts;
    assert(a.last() == parts.last() && b.last() == parts.last());
    assert(lines(line.push('\n') + rest) =~= seq![line] + lines(rest));
    assert(lines(with_cr.push('\n') + rest) =~= seq![line] + lines(rest));
    assert(fields(Seq::<char>::empty(), '\n') == seq![Seq::<char>::empty()]);
}

/// A comma-separated list has exactly the entries that stand between its commas,
/// without space at their ends and without blank ones.
pub proof fn a_list_has_what_stands_between_its_commas(s: Seq<char>, x: Seq<char>)
    ensures
        comma_list(s).contains(x) <==> x.len() > 0 && exists|i: int|
            0 <= i < fields(s, ',').len() && trim(#[trigger] fields(s, ',')[i]) == x,
{
    lemma_kept_entries(fields(s, ','), x);
}

proof fn lemma_kept_entries(parts: Seq<Seq<char>>, x: Seq<char>)
    ensures
        trimmed_nonempty(parts).contains(x) <==> x.len() > 0 && exists|i: int|
            0 <= i < parts.len() && trim(#[trigger] parts[i]) == x,
    decreases parts.len(),
{
    if parts.len() > 0 {
        let rest = parts.drop_last();
        lemma_kept_entries(rest, x);
        let before = trimmed_nonempty(rest);
        let now = trimmed_nonempty(parts);
        let last = trim(parts.last());
        assert(trim(parts[parts.len() - 1]) == last);
        if exists|i: int| 0 <= i < rest.len() && trim(#[trigger] rest[i]) == x {
            let i = choose|i: int| 0 <= i < rest.len() && trim(#[trigger] rest[i]) == x;
            assert(trim(parts[i]) == x);
        }
        if exists|i: int| 0 <= i < parts.len() && trim(#[trigger] parts[i]) == x {
            let i = choose|i: int| 0 <= i < parts.len() && trim(#[trigger] parts[i]) == x;
            if i < rest.len() {
                assert(trim(rest[i]) == x);
            }
        }
        if last.len() > 0 {
            assert(now[before.len() as int] == last);
            if before.contains(x) {
                let k = choose|k: int| 0 <= k < before.len() && before[k] == x;
                assert(now[k] == x);
            }
            if now.contains(x) && x != last {
                let k = choose|k: int| 0 <= k < now.len() && now[k] == x;
                assert(before[k] == x);
            }
        }
    }
}

} // verus!

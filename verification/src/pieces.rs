//! Texts cut into pieces and put together again.

use vstd::prelude::*;

use crate::text::{
    chars_of, cut_first, is_space, space, split_once, string_of, texts, trim, trimmed,
};

verus! {

// ---------------------------------------------------------------------------
// Fields between separators
// ---------------------------------------------------------------------------

/// The pieces of `s` between the separators `c`; there is one piece more than
/// there are separators.
pub open spec fn fields(s: Seq<char>, c: char) -> Seq<Seq<char>>
    decreases s.len(),
{
    if s.len() == 0 {
        seq![Seq::empty()]
    } else {
        let before = fields(s.drop_last(), c);
        if s.last() == c {
            before.push(Seq::empty())
        } else {
            before.drop_last().push(before.last().push(s.last()))
        }
    }
}

/// There is always at least one piece.
pub proof fn lemma_fields_nonempty(s: Seq<char>, c: char)
    ensures
        fields(s, c).len() >= 1,
    decreases s.len(),
{
    if s.len() > 0 {
        lemma_fields_nonempty(s.drop_last(), c);
    }
}

/// The pieces of `s` between the separators `c`.
pub fn split_fields(s: &str, c: char) -> (r: Vec<String>)
    ensures
        texts(r@) == fields(s@, c),
        r@.len() >= 1,
{
    let v = chars_of(s);
    let mut parts: Vec<String> = Vec::new();
    let mut cur = String::new();
    let mut i: usize = 0;
    assert(texts(parts@).push(cur@) =~= fields(s@.take(0), c));
    while i < v.len()
        invariant
            v@ == s@,
            i <= v@.len(),
            texts(parts@).push(cur@) == fields(s@.take(i as int), c),
        decreases v.len() - i,
    {
        let ghost before = fields(s@.take(i as int), c);
        assert(s@.take(i + 1).drop_last() =~= s@.take(i as int));
        assert(before.drop_last() =~= texts(parts@));
        if v[i] == c {
            let ghost old_parts = parts@;
            parts.push(cur);
            assert(texts(parts@) =~= texts(old_parts).push(parts@.last()@));
            cur = String::new();
        } else {
            cur.push(v[i]);
        }
        i += 1;
    }
    assert(s@.take(v@.len() as int) =~= s@);
    let ghost old_parts = parts@;
    parts.push(cur);
    assert(texts(parts@) =~= texts(old_parts).push(parts@.last()@));
    parts
}

/// Each piece trimmed, the empty ones left out.
pub open spec fn trimmed_nonempty(parts: Seq<Seq<char>>) -> Seq<Seq<char>>
    decreases parts.len(),
{
    if parts.len() == 0 {
        Seq::empty()
    } else {
        let before = trimmed_nonempty(parts.drop_last());
        if trim(parts.last()).len() == 0 {
            before
        } else {
            before.push(trim(parts.last()))
        }
    }
}

/// The entries of a comma separated list: trimmed, the empty ones left out.
pub open spec fn comma_list(s: Seq<char>) -> Seq<Seq<char>> {
    trimmed_nonempty(fields(s, ','))
}

/// The entries of a comma separated list: trimmed, the empty ones left out.
pub fn split_commas(s: &str) -> (r: Vec<String>)
    ensures
        texts(r@) == comma_list(s@),
{
    let parts = split_fields(s, ',');
    let mut r: Vec<String> = Vec::new();
    let mut i: usize = 0;
    assert(texts(r@) =~= trimmed_nonempty(texts(parts@).take(0)));
    while i < parts.len()
        invariant
            i <= parts@.len(),
            texts(r@) == trimmed_nonempty(texts(parts@).take(i as int)),
        decreases parts.len() - i,
    {
        assert(texts(parts@).take(i + 1).drop_last() =~= texts(parts@).take(i as int));
        let t = trimmed(parts[i].as_str());
        if !t.as_str().is_empty() {
            let ghost old_r = r@;
            r.push(t);
            assert(texts(r@) =~= texts(old_r).push(t@));
        }
        i += 1;
    }
    assert(texts(parts@).take(parts@.len() as int) =~= texts(parts@));
    r
}

/// At most `n` pieces of `s`, cut at its first separators `p`; the last piece
/// keeps the separators behind it.
pub open spec fn splitn(s: Seq<char>, p: Seq<char>, n: nat) -> Seq<Seq<char>>
    decreases n,
{
    if n <= 1 {
        seq![s]
    } else {
        match split_once(s, p) {
            Some(cut) => seq![cut.0] + splitn(cut.1, p, (n - 1) as nat),
            None => seq![s],
        }
    }
}

/// At most `n` pieces of `s`, cut at its first separators `p`.
pub fn split_at_most(s: &str, p: &str, n: usize) -> (r: Vec<String>)
    requires
        n >= 1,
    ensures
        texts(r@) == splitn(s@, p@, n as nat),
        1 <= r@.len() <= n,
{
    let mut r: Vec<String> = Vec::new();
    let mut rest = s.to_owned();
    let mut left: usize = n;
    while left > 1
        invariant
            1 <= left <= n,
            r@.len() + left == n,
            texts(r@) + splitn(rest@, p@, left as nat) == splitn(s@, p@, n as nat),
        decreases left,
    {
        match cut_first(rest.as_str(), p) {
            Some(cut) => {
                let ghost old_r = texts(r@);
                let ghost tail = splitn(cut.1@, p@, (left - 1) as nat);
                r.push(cut.0);
                assert(texts(r@) =~= old_r.push(cut.0@));
                assert(texts(r@) + tail =~= old_r + (seq![cut.0@] + tail));
                rest = cut.1;
                left -= 1;
            },
            None => {
                let ghost old_r = texts(r@);
                r.push(rest);
                assert(texts(r@) =~= old_r + seq![rest@]);
                return r;
            },
        }
    }
    let ghost old_r = texts(r@);
    r.push(rest);
    assert(texts(r@) =~= old_r + seq![rest@]);
    r
}

// ---------------------------------------------------------------------------
// Lines
// ---------------------------------------------------------------------------

/// A line without the carriage return that came before its line feed.
pub open spec fn without_cr(s: Seq<char>) -> Seq<char> {
    if s.len() > 0 && s.last() == '\r' {
        s.drop_last()
    } else {
        s
    }
}

/// The lines of a text. Each ends with a line feed, which may follow a
/// carriage return; at the end of the text the line feed is optional.
pub open spec fn lines(s: Seq<char>) -> Seq<Seq<char>> {
    let parts = fields(s, '\n');
    let ended = Seq::new((parts.len() - 1) as nat, |i: int| without_cr(parts[i]));
    if parts.last().len() == 0 {
        ended
    } else {
        ended.push(parts.last())
    }
}

fn cut_cr(s: String) -> (r: String)
    ensures
        r@ == without_cr(s@),
{
    let v = chars_of(s.as_str());
    if v.len() > 0 && v[v.len() - 1] == '\r' {
        assert(v@.subrange(0, v@.len() - 1) =~= s@.drop_last());
        string_of(&v, 0, v.len() - 1)
    } else {
        s
    }
}

/// The lines of a text.
pub fn split_lines(s: &str) -> (r: Vec<String>)
    ensures
        texts(r@) == lines(s@),
{
    let parts = split_fields(s, '\n');
    let n: usize = parts.len();
    let mut r: Vec<String> = Vec::new();
    let mut i: usize = 0;
    while i < n - 1
        invariant
            n == parts@.len(),
            1 <= n,
            i <= n - 1,
            r@.len() == i,
            forall|j: int| 0 <= j < i ==> (#[trigger] r@[j])@ == without_cr(texts(parts@)[j]),
        decreases n - 1 - i,
    {
        r.push(cut_cr(parts[i].clone()));
        i += 1;
    }
    let ghost ended = Seq::new((n - 1) as nat, |j: int| without_cr(texts(parts@)[j]));
    assert(texts(r@) =~= ended);
    if !parts[n - 1].as_str().is_empty() {
        let ghost old_r = r@;
        r.push(parts[n - 1].clone());
        assert(texts(r@) =~= texts(old_r).push(r@.last()@));
    }
    r
}

/// How many lines a text has.
pub fn count_lines(s: &str) -> (n: usize)
    ensures
        n == lines(s@).len(),
{
    let l = split_lines(s);
    assert(texts(l@).len() == l@.len());
    l.len()
}

// ---------------------------------------------------------------------------
// Words
// ---------------------------------------------------------------------------

/// The words of a text: the longest runs of characters without white space.
pub open spec fn words(s: Seq<char>) -> Seq<Seq<char>>
    decreases s.len(),
{
    if s.len() == 0 {
        Seq::empty()
    } else {
        let before = words(s.drop_last());
        if is_space(s.last()) {
            before
        } else if s.len() == 1 || is_space(s[s.len() - 2]) {
            before.push(seq![s.last()])
        } else {
            before.drop_last().push(before.last().push(s.last()))
        }
    }
}

/// The words of a text.
pub fn split_words(s: &str) -> (r: Vec<String>)
    ensures
        texts(r@) == words(s@),
{
    let v = chars_of(s);
    let mut parts: Vec<String> = Vec::new();
    let mut cur = String::new();
    let mut i: usize = 0;
    assert(texts(parts@) =~= words(s@.take(0)));
    while i < v.len()
        invariant
            v@ == s@,
            i <= v@.len(),
            cur@.len() == 0 <==> (i == 0 || is_space(s@[i - 1])),
            cur@.len() == 0 ==> texts(parts@) == words(s@.take(i as int)),
            cur@.len() > 0 ==> texts(parts@).push(cur@) == words(s@.take(i as int)),
        decreases v.len() - i,
    {
        let ghost before = words(s@.take(i as int));
        let ghost old_parts = parts@;
        assert(s@.take(i + 1).drop_last() =~= s@.take(i as int));
        if space(v[i]) {
            if !cur.as_str().is_empty() {
                parts.push(cur);
                assert(texts(parts@) =~= texts(old_parts).push(parts@.last()@));
                cur = String::new();
            }
        } else {
            let ghost old_cur = cur@;
            cur.push(v[i]);
            proof {
                if old_cur.len() == 0 {
                    assert(cur@ =~= seq![s@[i as int]]);
                } else {
                    assert(before.drop_last() =~= texts(parts@));
                }
            }
        }
        i += 1;
    }
    assert(s@.take(v@.len() as int) =~= s@);
    if !cur.as_str().is_empty() {
        let ghost old_parts = parts@;
        parts.push(cur);
        assert(texts(parts@) =~= texts(old_parts).push(parts@.last()@));
    }
    parts
}

// ---------------------------------------------------------------------------
// Joining
// ---------------------------------------------------------------------------

/// The pieces one behind the other, with `sep` between them.
pub open spec fn join(parts: Seq<Seq<char>>, sep: Seq<char>) -> Seq<char>
    decreases parts.len(),
{
    if parts.len() == 0 {
        Seq::empty()
    } else if parts.len() == 1 {
        parts[0]
    } else {
        join(parts.drop_last(), sep) + sep + parts.last()
    }
}

/// The pieces one behind the other, with `sep` between them.
pub fn joined(parts: &Vec<String>, sep: &str) -> (r: String)
    ensures
        r@ == join(texts(parts@), sep@),
{
    let mut r = String::new();
    let mut i: usize = 0;
    assert(r@ =~= join(texts(parts@).take(0), sep@));
    while i < parts.len()
        invariant
            i <= parts@.len(),
            r@ == join(texts(parts@).take(i as int), sep@),
        decreases parts.len() - i,
    {
        let ghost now = texts(parts@).take(i + 1);
        assert(now.drop_last() =~= texts(parts@).take(i as int));
        if i > 0 {
            r.append(sep);
        }
        r.append(parts[i].as_str());
        proof {
            if i == 0 {
                assert(r@ =~= now[0]);
            }
        }
        i += 1;
    }
    assert(texts(parts@).take(parts@.len() as int) =~= texts(parts@));
    r
}

// ---------------------------------------------------------------------------
// Joined lists read back
// ---------------------------------------------------------------------------

/// Cutting at a separator cuts the text into the fields before and behind it.
pub proof fn lemma_fields_split(a: Seq<char>, c: char, b: Seq<char>)
    ensures
        fields(a.push(c) + b, c) == fields(a, c) + fields(b, c),
    decreases b.len(),
{
    let s = a.push(c) + b;
    lemma_fields_nonempty(a, c);
    lemma_fields_nonempty(b, c);
    if b.len() == 0 {
        assert(s.drop_last() =~= a);
        assert(fields(b, c) =~= seq![Seq::<char>::empty()]);
        assert(fields(s, c) =~= fields(a, c) + fields(b, c));
    } else {
        let t = b.drop_last();
        lemma_fields_split(a, c, t);
        lemma_fields_nonempty(t, c);
        assert(s.drop_last() =~= a.push(c) + t);
        assert(s.last() == b.last());
        let before = fields(a, c) + fields(t, c);
        assert(before.last() == fields(t, c).last());
        assert(before.drop_last() =~= fields(a, c) + fields(t, c).drop_last());
        assert(fields(s, c) =~= fields(a, c) + fields(b, c));
    }
}

/// A text without separators is its own only field.
pub proof fn lemma_fields_single(s: Seq<char>, c: char)
    requires
        !s.contains(c),
    ensures
        fields(s, c) == seq![s],
    decreases s.len(),
{
    if s.len() > 0 {
        assert(s.contains(s.last()));
        assert forall|x: char| s.drop_last().contains(x) implies s.contains(x) by {
            let i = choose|i: int| 0 <= i < s.drop_last().len() && s.drop_last()[i] == x;
            assert(s[i] == x);
        }
        lemma_fields_single(s.drop_last(), c);
        assert(s.drop_last().push(s.last()) =~= s);
        assert(fields(s, c) =~= seq![s]);
    } else {
        assert(s =~= Seq::<char>::empty());
    }
}

/// Trimming and filtering work piece by piece.
pub proof fn lemma_trimmed_nonempty_concat(a: Seq<Seq<char>>, b: Seq<Seq<char>>)
    ensures
        trimmed_nonempty(a + b) == trimmed_nonempty(a) + trimmed_nonempty(b),
    decreases b.len(),
{
    if b.len() == 0 {
        assert(a + b =~= a);
        assert(trimmed_nonempty(a + b) =~= trimmed_nonempty(a) + trimmed_nonempty(b));
    } else {
        lemma_trimmed_nonempty_concat(a, b.drop_last());
        assert((a + b).drop_last() =~= a + b.drop_last());
        assert((a + b).last() == b.last());
        assert(trimmed_nonempty(a + b) =~= trimmed_nonempty(a) + trimmed_nonempty(b));
    }
}

/// One piece alone: its trimmed text, unless that is empty.
proof fn lemma_trimmed_nonempty_one(x: Seq<char>)
    ensures
        trimmed_nonempty(seq![x]) == if trim(x).len() == 0 {
            Seq::<Seq<char>>::empty()
        } else {
            seq![trim(x)]
        },
{
    reveal_with_fuel(trimmed_nonempty, 2);
    assert(seq![x].drop_last() =~= Seq::<Seq<char>>::empty());
    assert(trimmed_nonempty(seq![x]) =~= if trim(x).len() == 0 {
        Seq::<Seq<char>>::empty()
    } else {
        seq![trim(x)]
    });
}

/// Whether an entry survives being written into a comma separated list:
/// it is not empty, has no white space at its ends and holds no comma.
pub open spec fn list_entry(s: Seq<char>) -> bool {
    s.len() > 0 && trim(s) == s && !s.contains(',')
}

/// A list of entries joined with commas reads back as the same list.
pub proof fn comma_list_reads_back(parts: Seq<Seq<char>>)
    requires
        forall|i: int| 0 <= i < parts.len() ==> list_entry(#[trigger] parts[i]),
    ensures
        comma_list(join(parts, ", "@)) == parts,
    decreases parts.len(),
{
    reveal_strlit(", ");
    if parts.len() == 0 {
        let e = Seq::<char>::empty();
        assert(fields(e, ',') =~= seq![e]);
        lemma_trimmed_nonempty_one(e);
        assert(trim(e) =~= e);
        assert(join(parts, ", "@) =~= e);
        assert(comma_list(join(parts, ", "@)) =~= parts);
    } else if parts.len() == 1 {
        let x = parts[0];
        assert(list_entry(x));
        lemma_fields_single(x, ',');
        lemma_trimmed_nonempty_one(x);
        assert(comma_list(x) =~= parts);
    } else {
        let init = parts.drop_last();
        let x = parts.last();
        assert forall|i: int| 0 <= i < init.len() implies list_entry(#[trigger] init[i]) by {
            assert(init[i] == parts[i]);
        }
        comma_list_reads_back(init);
        let a = join(init, ", "@);
        let b = seq![' '] + x;
        assert(list_entry(parts[parts.len() - 1]));
        assert(a + ", "@ + x =~= a.push(',') + b);
        lemma_fields_split(a, ',', b);
        assert(!b.contains(',')) by {
            if b.contains(',') {
                let i = choose|i: int| 0 <= i < b.len() && b[i] == ',';
                assert(i > 0 && x[i - 1] == ',');
            }
        }
        lemma_fields_single(b, ',');
        lemma_trimmed_nonempty_concat(fields(a, ','), seq![b]);
        assert(b.drop_first() =~= x);
        assert(trim(b) == x);
        lemma_trimmed_nonempty_one(b);
        assert(trimmed_nonempty(seq![b]) =~= seq![x]);
        assert(init + seq![x] =~= parts);
    }
}

// ---------------------------------------------------------------------------
// Shortening
// ---------------------------------------------------------------------------

/// The first `n` characters of a text, or all of it where it is shorter.
pub open spec fn first_chars(s: Seq<char>, n: int) -> Seq<char> {
    if n < s.len() {
        s.take(n)
    } else {
        s
    }
}

/// The first `n` characters of a text, or all of it where it is shorter.
pub fn take_chars(s: &str, n: usize) -> (r: String)
    ensures
        r@ == first_chars(s@, n as int),
{
    let v = chars_of(s);
    if n < v.len() {
        assert(v@.subrange(0, n as int) =~= s@.take(n as int));
        string_of(&v, 0, n)
    } else {
        s.to_owned()
    }
}

/// How many characters a text has.
pub fn char_count(s: &str) -> (n: usize)
    ensures
        n == s@.len(),
{
    chars_of(s).len()
}

/// A text of at most `n` characters, the last of them an ellipsis where some
/// were cut.
pub open spec fn truncated(s: Seq<char>, n: int) -> Seq<char> {
    if s.len() <= n {
        s
    } else {
        s.take(if n > 0 { n - 1 } else { 0 }).push('…')
    }
}

/// Truncate a string to at most `n` chars, appending an ellipsis if cut.
pub fn truncate(s: &str, n: usize) -> (r: String)
    ensures
        r@ == truncated(s@, n as int),
{
    let v = chars_of(s);
    if v.len() <= n {
        s.to_owned()
    } else {
        let keep: usize = if n > 0 { n - 1 } else { 0 };
        let mut r = string_of(&v, 0, keep);
        assert(r@ =~= s@.take(keep as int));
        r.push('…');
        r
    }
}

/// A truncated text has at most `n` characters, except that a cut to nothing
/// still shows the ellipsis; a text that is short enough comes back unchanged.
pub proof fn truncated_is_bounded(s: Seq<char>, n: int)
    requires
        n >= 0,
    ensures
        truncated(s, n).len() <= if n > 0 { n } else { 1 },
        s.len() <= n ==> truncated(s, n) == s,
        s.len() > n ==> truncated(s, n).last() == '…',
{
}

} // verus!

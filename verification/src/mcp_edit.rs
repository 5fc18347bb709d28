//! The dialog in which an MCP server is added or edited, and the parsers of
//! its fields.

use vstd::prelude::*;

use crate::pieces::{
    comma_list, comma_list_reads_back, fields, join, joined, lemma_fields_single,
    lemma_fields_split, lines, list_entry, split_commas, split_lines, split_words, without_cr,
    words,
};
use crate::text::{
    begins_with, cut_first, is_space, opt_text, pair_texts, same_text, split_once, texts, trim,
    trimmed,
};

verus! {

// ---------------------------------------------------------------------------
// Servers
// ---------------------------------------------------------------------------

/// How a server is reached.
pub enum McpTransport {
    /// A child process.
    Stdio {
        command: String,
        args: Vec<String>,
        /// The environment, each name once.
        env: Vec<(String, String)>,
        working_dir: Option<String>,
    },
    /// Streamable HTTP.
    Http {
        url: String,
        /// The headers, each name once.
        headers: Vec<(String, String)>,
    },
}

/// What a transport says.
#[verifier::ext_equal]
pub enum TransportView {
    Stdio {
        command: Seq<char>,
        args: Seq<Seq<char>>,
        env: Seq<(Seq<char>, Seq<char>)>,
        working_dir: Option<Seq<char>>,
    },
    Http { url: Seq<char>, headers: Seq<(Seq<char>, Seq<char>)> },
}

impl View for McpTransport {
    type V = TransportView;

    open spec fn view(&self) -> TransportView {
        match *self {
            McpTransport::Stdio { command, args, env, working_dir } => TransportView::Stdio {
                command: command@,
                args: texts(args@),
                env: pair_texts(env@),
                working_dir: opt_text(working_dir),
            },
            McpTransport::Http { url, headers } => TransportView::Http {
                url: url@,
                headers: pair_texts(headers@),
            },
        }
    }
}

/// A configured server.
pub struct McpServerConfig {
    pub name: String,
    pub transport: McpTransport,
    pub enabled: bool,
    pub timeout_secs: u64,
    pub allowed_tools: Vec<String>,
}

/// What a server configuration says.
#[verifier::ext_equal]
pub struct ServerView {
    pub name: Seq<char>,
    pub transport: TransportView,
    pub enabled: bool,
    pub timeout_secs: u64,
    pub allowed_tools: Seq<Seq<char>>,
}

impl View for McpServerConfig {
    type V = ServerView;

    open spec fn view(&self) -> ServerView {
        ServerView {
            name: self.name@,
            transport: self.transport@,
            enabled: self.enabled,
            timeout_secs: self.timeout_secs,
            allowed_tools: texts(self.allowed_tools@),
        }
    }
}

/// What the servers of a list say.
pub open spec fn server_views(v: Seq<McpServerConfig>) -> Seq<ServerView> {
    Seq::new(v.len(), |i: int| v[i]@)
}

// ---------------------------------------------------------------------------
// Fields
// ---------------------------------------------------------------------------

/// The words of a text.
pub fn split_space_separated(s: &str) -> (r: Vec<String>)
    ensures
        texts(r@) == words(s@),
{
    split_words(s)
}

/// The name and the value that a line gives, cut at its first separator.
pub open spec fn line_pair(line: Seq<char>, sep: Seq<char>) -> Option<(Seq<char>, Seq<char>)> {
    match split_once(trim(line), sep) {
        Some(cut) => if trim(cut.0).len() == 0 {
            None
        } else {
            Some((trim(cut.0), trim(cut.1)))
        },
        None => None,
    }
}

/// The position of the first pair with this name, from `from` on.
pub open spec fn key_at(pairs: Seq<(Seq<char>, Seq<char>)>, key: Seq<char>, from: int) -> Option<
    int,
>
    decreases pairs.len() - from,
{
    if from < 0 || from >= pairs.len() {
        None
    } else if pairs[from].0 == key {
        Some(from)
    } else {
        key_at(pairs, key, from + 1)
    }
}

/// The pairs with one more; a name that is there gets the new value.
pub open spec fn with_pair(
    pairs: Seq<(Seq<char>, Seq<char>)>,
    pair: (Seq<char>, Seq<char>),
) -> Seq<(Seq<char>, Seq<char>)> {
    match key_at(pairs, pair.0, 0) {
        Some(i) => pairs.update(i, pair),
        None => pairs.push(pair),
    }
}

/// The pairs that some lines give.
pub open spec fn line_pairs(all: Seq<Seq<char>>, sep: Seq<char>) -> Seq<(Seq<char>, Seq<char>)>
    decreases all.len(),
{
    if all.len() == 0 {
        Seq::empty()
    } else {
        let before = line_pairs(all.drop_last(), sep);
        match line_pair(all.last(), sep) {
            Some(pair) => with_pair(before, pair),
            None => before,
        }
    }
}

fn find_key(pairs: &Vec<(String, String)>, key: &str) -> (r: Option<usize>)
    ensures
        match r {
            Some(i) => key_at(pair_texts(pairs@), key@, 0) == Some(i as int) && i < pairs@.len(),
            None => key_at(pair_texts(pairs@), key@, 0) is None,
        },
{
    let mut i: usize = 0;
    while i < pairs.len()
        invariant
            i <= pairs@.len(),
            key_at(pair_texts(pairs@), key@, 0) == key_at(pair_texts(pairs@), key@, i as int),
        decreases pairs.len() - i,
    {
        if same_text(pairs[i].0.as_str(), key) {
            return Some(i);
        }
        i += 1;
    }
    None
}

fn parse_pairs(s: &str, sep: &str) -> (r: Vec<(String, String)>)
    ensures
        pair_texts(r@) == line_pairs(lines(s@), sep@),
{
    let all = split_lines(s);
    let mut r: Vec<(String, String)> = Vec::new();
    let mut i: usize = 0;
    assert(pair_texts(r@) =~= line_pairs(texts(all@).take(0), sep@));
    while i < all.len()
        invariant
            i <= all@.len(),
            pair_texts(r@) == line_pairs(texts(all@).take(i as int), sep@),
        decreases all.len() - i,
    {
        let ghost before = pair_texts(r@);
        assert(texts(all@).take(i + 1).drop_last() =~= texts(all@).take(i as int));
        let line = trimmed(all[i].as_str());
        if let Some((k, v)) = cut_first(line.as_str(), sep) {
            let key = trimmed(k.as_str());
            let value = trimmed(v.as_str());
            if !key.as_str().is_empty() {
                let ghost pair = (key@, value@);
                match find_key(&r, key.as_str()) {
                    Some(j) => {
                        r.set(j, (key, value));
                        assert(pair_texts(r@) =~= before.update(j as int, pair));
                    },
                    None => {
                        r.push((key, value));
                        assert(pair_texts(r@) =~= before.push(pair));
                    },
                }
            }
        }
        i += 1;
    }
    assert(texts(all@).take(all@.len() as int) =~= texts(all@));
    r
}

/// The environment that lines `KEY=VALUE` give; the last value of a name
/// counts.
pub fn parse_env_lines(s: &str) -> (r: Vec<(String, String)>)
    ensures
        pair_texts(r@) == line_pairs(lines(s@), "="@),
{
    parse_pairs(s, "=")
}

/// The headers that lines `Key: value` give; the last value of a name counts.
pub fn parse_header_lines(s: &str) -> (r: Vec<(String, String)>)
    ensures
        pair_texts(r@) == line_pairs(lines(s@), ":"@),
{
    parse_pairs(s, ":")
}

/// The lines that show some pairs.
pub open spec fn shown_pairs(pairs: Seq<(Seq<char>, Seq<char>)>, mark: Seq<char>) -> Seq<
    Seq<char>,
> {
    Seq::new(pairs.len(), |i: int| pairs[i].0 + mark + pairs[i].1)
}

fn show_pairs(pairs: &Vec<(String, String)>, mark: &str) -> (r: String)
    ensures
        r@ == join(shown_pairs(pair_texts(pairs@), mark@), "\n"@),
{
    let mut all: Vec<String> = Vec::new();
    let mut i: usize = 0;
    while i < pairs.len()
        invariant
            i <= pairs@.len(),
            all@.len() == i,
            forall|k: int|
                0 <= k < i ==> (#[trigger] all@[k])@ == pairs@[k].0@ + mark@ + pairs@[k].1@,
        decreases pairs.len() - i,
    {
        let mut line = pairs[i].0.clone();
        line.append(mark);
        line.append(pairs[i].1.as_str());
        all.push(line);
        i += 1;
    }
    assert(texts(all@) =~= shown_pairs(pair_texts(pairs@), mark@));
    joined(&all, "\n")
}

// ---------------------------------------------------------------------------
// The dialog
// ---------------------------------------------------------------------------

/// The kind of transport that the dialog edits.
#[derive(Clone, Copy, Debug, PartialEq, Eq, Structural)]
pub enum TransportKind {
    Stdio,
    Http,
}

/// Editable add/edit dialog state.
pub struct ServerEditState {
    /// When editing, the original name (the name field is fixed).
    pub existing: Option<String>,
    pub name: String,
    pub transport_kind: TransportKind,
    pub command: String,
    pub args: String,
    pub env: String,
    pub working_dir: String,
    pub url: String,
    pub headers: String,
    pub enabled: bool,
    pub timeout_secs: u64,
    pub allowed_tools: String,
}

/// What the dialog holds.
#[verifier::ext_equal]
pub struct EditView {
    pub existing: Option<Seq<char>>,
    pub name: Seq<char>,
    pub transport_kind: TransportKind,
    pub command: Seq<char>,
    pub args: Seq<char>,
    pub env: Seq<char>,
    pub working_dir: Seq<char>,
    pub url: Seq<char>,
    pub headers: Seq<char>,
    pub enabled: bool,
    pub timeout_secs: u64,
    pub allowed_tools: Seq<char>,
}

impl View for ServerEditState {
    type V = EditView;

    open spec fn view(&self) -> EditView {
        EditView {
            existing: opt_text(self.existing),
            name: self.name@,
            transport_kind: self.transport_kind,
            command: self.command@,
            args: self.args@,
            env: self.env@,
            working_dir: self.working_dir@,
            url: self.url@,
            headers: self.headers@,
            enabled: self.enabled,
            timeout_secs: self.timeout_secs,
            allowed_tools: self.allowed_tools@,
        }
    }
}

/// The dialog for a new server.
pub open spec fn blank_edit() -> EditView {
    EditView {
        existing: None,
        name: Seq::empty(),
        transport_kind: TransportKind::Stdio,
        command: Seq::empty(),
        args: Seq::empty(),
        env: Seq::empty(),
        working_dir: Seq::empty(),
        url: Seq::empty(),
        headers: Seq::empty(),
        enabled: true,
        timeout_secs: 60,
        allowed_tools: Seq::empty(),
    }
}

/// The dialog that edits a server.
pub open spec fn edit_of(cfg: ServerView) -> EditView {
    let base = EditView {
        existing: Some(cfg.name),
        name: cfg.name,
        enabled: cfg.enabled,
        timeout_secs: cfg.timeout_secs,
        allowed_tools: join(cfg.allowed_tools, ", "@),
        ..blank_edit()
    };
    match cfg.transport {
        TransportView::Stdio { command, args, env, working_dir } => EditView {
            transport_kind: TransportKind::Stdio,
            command,
            args: join(args, " "@),
            env: join(shown_pairs(env, "="@), "\n"@),
            working_dir: match working_dir {
                Some(d) => d,
                None => Seq::empty(),
            },
            ..base
        },
        TransportView::Http { url, headers } => EditView {
            transport_kind: TransportKind::Http,
            url,
            headers: join(shown_pairs(headers, ": "@), "\n"@),
            ..base
        },
    }
}

impl EditView {
    /// The transport that the dialog describes: a child process needs a
    /// command, and a URL has to begin with `http`.
    pub open spec fn transport(self) -> Option<TransportView> {
        match self.transport_kind {
            TransportKind::Stdio => if trim(self.command).len() == 0 {
                None
            } else {
                Some(
                    TransportView::Stdio {
                        command: trim(self.command),
                        args: words(self.args),
                        env: line_pairs(lines(self.env), "="@),
                        working_dir: if trim(self.working_dir).len() == 0 {
                            None
                        } else {
                            Some(trim(self.working_dir))
                        },
                    },
                )
            },
            TransportKind::Http => if "http"@.is_prefix_of(trim(self.url)) {
                Some(
                    TransportView::Http {
                        url: trim(self.url),
                        headers: line_pairs(lines(self.headers), ":"@),
                    },
                )
            } else {
                None
            },
        }
    }

    /// The server that the dialog describes under the given name.
    pub open spec fn server(self, name: Seq<char>) -> Option<ServerView> {
        if name.len() == 0 {
            None
        } else {
            match self.transport() {
                Some(transport) => Some(
                    ServerView {
                        name,
                        transport,
                        enabled: self.enabled,
                        timeout_secs: if self.timeout_secs < 1 {
                            1
                        } else if self.timeout_secs > 600 {
                            600
                        } else {
                            self.timeout_secs
                        },
                        allowed_tools: comma_list(self.allowed_tools),
                    },
                ),
                None => None,
            }
        }
    }
}

/// What an optional server says.
pub open spec fn opt_server(s: Option<McpServerConfig>) -> Option<ServerView> {
    match s {
        Some(x) => Some(x@),
        None => None,
    }
}

impl ServerEditState {
    /// The dialog for a new server.
    pub fn new() -> (r: Self)
        ensures
            r@ == blank_edit(),
    {
        ServerEditState {
            existing: None,
            name: String::new(),
            transport_kind: TransportKind::Stdio,
            command: String::new(),
            args: String::new(),
            env: String::new(),
            working_dir: String::new(),
            url: String::new(),
            headers: String::new(),
            enabled: true,
            timeout_secs: 60,
            allowed_tools: String::new(),
        }
    }

    /// The dialog that edits a server.
    pub fn from_config(cfg: &McpServerConfig) -> (r: Self)
        ensures
            r@ == edit_of(cfg@),
    {
        let mut s = ServerEditState::new();
        s.existing = Some(cfg.name.clone());
        s.name = cfg.name.clone();
        s.enabled = cfg.enabled;
        s.timeout_secs = cfg.timeout_secs;
        s.allowed_tools = joined(&cfg.allowed_tools, ", ");
        match &cfg.transport {
            McpTransport::Stdio { command, args, env, working_dir } => {
                s.transport_kind = TransportKind::Stdio;
                s.command = command.clone();
                s.args = joined(args, " ");
                s.env = show_pairs(env, "=");
                s.working_dir = match working_dir {
                    Some(d) => d.clone(),
                    None => String::new(),
                };
            },
            McpTransport::Http { url, headers } => {
                s.transport_kind = TransportKind::Http;
                s.url = url.clone();
                s.headers = show_pairs(headers, ": ");
            },
        }
        assert(s@ =~= edit_of(cfg@));
        s
    }

    fn build_transport(&self) -> (r: Option<McpTransport>)
        ensures
            match r {
                Some(t) => self@.transport() == Some(t@),
                None => self@.transport() is None,
            },
    {
        match self.transport_kind {
            TransportKind::Stdio => {
                let command = trimmed(self.command.as_str());
                if command.as_str().is_empty() {
                    return None;
                }
                let dir = trimmed(self.working_dir.as_str());
                let working_dir = if dir.as_str().is_empty() {
                    None
                } else {
                    Some(dir)
                };
                Some(
                    McpTransport::Stdio {
                        command,
                        args: split_space_separated(self.args.as_str()),
                        env: parse_env_lines(self.env.as_str()),
                        working_dir,
                    },
                )
            },
            TransportKind::Http => {
                let url = trimmed(self.url.as_str());
                if !begins_with(url.as_str(), "http") {
                    return None;
                }
                Some(
                    McpTransport::Http {
                        url,
                        headers: parse_header_lines(self.headers.as_str()),
                    },
                )
            },
        }
    }

    /// Validate and build the configuration; `name` is the dialog's trimmed
    /// name with the characters replaced that a tool name cannot hold. `None`
    /// if invalid.
    pub fn build(&self, name: String) -> (r: Option<McpServerConfig>)
        ensures
            opt_server(r) == self@.server(name@),
    {
        if name.as_str().is_empty() {
            return None;
        }
        match self.build_transport() {
            Some(transport) => Some(
                McpServerConfig {
                    name,
                    transport,
                    enabled: self.enabled,
                    timeout_secs: if self.timeout_secs < 1 {
                        1
                    } else if self.timeout_secs > 600 {
                        600
                    } else {
                        self.timeout_secs
                    },
                    allowed_tools: split_commas(self.allowed_tools.as_str()),
                },
            ),
            None => None,
        }
    }

    /// Whether the dialog adds a server.
    pub fn is_new(&self) -> (r: bool)
        ensures
            r == (self@.existing is None),
    {
        self.existing.is_none()
    }
}

// ---------------------------------------------------------------------------
// Laws
// ---------------------------------------------------------------------------

/// Whether a text is a word: not empty and without white space.
pub open spec fn is_word(s: Seq<char>) -> bool {
    s.len() > 0 && forall|i: int| 0 <= i < s.len() ==> !is_space(#[trigger] s[i])
}

proof fn lemma_words_one(s: Seq<char>)
    requires
        is_word(s),
    ensures
        words(s) == seq![s],
    decreases s.len(),
{
    assert(!is_space(s[s.len() - 1]));
    if s.len() == 1 {
        assert(s.drop_last() =~= Seq::empty());
        assert(words(s.drop_last()) =~= Seq::empty());
        assert(seq![s.last()] =~= s);
        assert(words(s) =~= seq![s]);
    } else {
        let t = s.drop_last();
        assert forall|i: int| 0 <= i < t.len() implies !is_space(#[trigger] t[i]) by {
            assert(t[i] == s[i]);
        }
        lemma_words_one(t);
        assert(!is_space(s[s.len() - 2]));
        assert(t.push(s.last()) =~= s);
        assert(words(s) =~= seq![s]);
    }
}

proof fn lemma_words_next(a: Seq<char>, x: Seq<char>)
    requires
        is_word(x),
    ensures
        words(a + " "@ + x) == words(a).push(x),
    decreases x.len(),
{
    reveal_strlit(" ");
    let s = a + " "@ + x;
    assert(s.last() == x.last());
    assert(!is_space(x[x.len() - 1]));
    if x.len() == 1 {
        let b = a + " "@;
        assert(s.drop_last() =~= b);
        assert(b.drop_last() =~= a);
        assert(b.last() == ' ');
        assert(words(b) == words(a));
        assert(s[s.len() - 2] == ' ');
        assert(seq![s.last()] =~= x);
    } else {
        let t = x.drop_last();
        assert forall|i: int| 0 <= i < t.len() implies !is_space(#[trigger] t[i]) by {
            assert(t[i] == x[i]);
        }
        lemma_words_next(a, t);
        assert(s.drop_last() =~= a + " "@ + t);
        assert(s[s.len() - 2] == x[x.len() - 2]);
        assert(!is_space(x[x.len() - 2]));
        assert(t.push(x.last()) =~= x);
        assert(words(a).push(t).drop_last() =~= words(a));
    }
}

/// Words joined with blanks read back as the same words.
pub proof fn words_read_back(parts: Seq<Seq<char>>)
    requires
        forall|i: int| 0 <= i < parts.len() ==> is_word(#[trigger] parts[i]),
    ensures
        words(join(parts, " "@)) == parts,
    decreases parts.len(),
{
    if parts.len() == 0 {
        assert(words(join(parts, " "@)) =~= parts);
    } else if parts.len() == 1 {
        assert(is_word(parts[0]));
        lemma_words_one(parts[0]);
        assert(parts =~= seq![parts[0]]);
    } else {
        let init = parts.drop_last();
        assert forall|i: int| 0 <= i < init.len() implies is_word(#[trigger] init[i]) by {
            assert(init[i] == parts[i]);
        }
        words_read_back(init);
        assert(is_word(parts[parts.len() - 1]));
        lemma_words_next(join(init, " "@), parts.last());
        assert(init.push(parts.last()) =~= parts);
    }
}

/// Whether a text is one line: not empty, without a line feed, and without a
/// carriage return at its end.
pub open spec fn is_line(s: Seq<char>) -> bool {
    s.len() > 0 && !s.contains('\n') && s.last() != '\r'
}

proof fn lemma_fields_of_lines(parts: Seq<Seq<char>>)
    requires
        parts.len() > 0,
        forall|i: int| 0 <= i < parts.len() ==> is_line(#[trigger] parts[i]),
    ensures
        fields(join(parts, "\n"@), '\n') == parts,
    decreases parts.len(),
{
    reveal_strlit("\n");
    if parts.len() == 1 {
        assert(is_line(parts[0]));
        lemma_fields_single(parts[0], '\n');
        assert(parts =~= seq![parts[0]]);
    } else {
        let init = parts.drop_last();
        let x = parts.last();
        assert forall|i: int| 0 <= i < init.len() implies is_line(#[trigger] init[i]) by {
            assert(init[i] == parts[i]);
        }
        lemma_fields_of_lines(init);
        assert(is_line(parts[parts.len() - 1]));
        let a = join(init, "\n"@);
        assert(a + "\n"@ + x =~= a.push('\n') + x);
        lemma_fields_split(a, '\n', x);
        lemma_fields_single(x, '\n');
        assert(init + seq![x] =~= parts);
    }
}

/// Lines joined with line feeds read back as the same lines.
pub proof fn lines_read_back(parts: Seq<Seq<char>>)
    requires
        forall|i: int| 0 <= i < parts.len() ==> is_line(#[trigger] parts[i]),
    ensures
        lines(join(parts, "\n"@)) == parts,
{
    if parts.len() == 0 {
        let e = Seq::<char>::empty();
        assert(join(parts, "\n"@) =~= e);
        assert(fields(e, '\n') =~= seq![e]);
        assert(lines(e) =~= parts);
    } else {
        lemma_fields_of_lines(parts);
        assert(is_line(parts[parts.len() - 1]));
        let ended = Seq::new((parts.len() - 1) as nat, |i: int| without_cr(parts[i]));
        assert forall|i: int| 0 <= i < parts.len() - 1 implies ended[i] == parts[i] by {
            assert(is_line(parts[i]));
        }
        assert(lines(join(parts, "\n"@)) =~= parts);
    }
}

/// Whether a pair survives being shown on a line: the name is not empty and
/// holds no separator, neither holds a line feed, and neither has white space
/// at its ends.
pub open spec fn pair_ok(pair: (Seq<char>, Seq<char>), sep: char) -> bool {
    &&& pair.0.len() > 0
    &&& !is_space(pair.0[0])
    &&& !is_space(pair.0.last())
    &&& !pair.0.contains(sep)
    &&& !pair.0.contains('\n')
    &&& !pair.1.contains('\n')
    &&& pair.1.len() > 0 ==> !is_space(pair.1[0]) && !is_space(pair.1.last())
}

/// Whether no two pairs have the same name.
pub open spec fn distinct_keys(pairs: Seq<(Seq<char>, Seq<char>)>) -> bool {
    forall|i: int, j: int|
        0 <= i < j < pairs.len() ==> (#[trigger] pairs[i]).0 != (#[trigger] pairs[j]).0
}

proof fn lemma_key_absent(pairs: Seq<(Seq<char>, Seq<char>)>, key: Seq<char>, from: int)
    requires
        0 <= from,
        forall|i: int| 0 <= i < pairs.len() ==> (#[trigger] pairs[i]).0 != key,
    ensures
        key_at(pairs, key, from) is None,
    decreases pairs.len() - from,
{
    if from < pairs.len() {
        lemma_key_absent(pairs, key, from + 1);
    }
}

/// A pair shown on a line reads back. `mark` is the separator, which a blank
/// may follow.
proof fn lemma_pair_line(pair: (Seq<char>, Seq<char>), sep: char, mark: Seq<char>)
    requires
        pair_ok(pair, sep),
        !is_space(sep),
        sep != '\n',
        mark == seq![sep] || mark == seq![sep, ' '],
    ensures
        line_pair(pair.0 + mark + pair.1, seq![sep]) == Some(pair),
        is_line(pair.0 + mark + pair.1),
{
    let k = pair.0;
    let v = pair.1;
    let p = seq![sep];
    let line = k + mark + v;
    let n = k.len() as int;
    assert(line[0] == k[0]);
    // The trimmed line: a trailing blank of the mark goes where the value is
    // empty.
    let tail = if v.len() == 0 {
        Seq::<char>::empty()
    } else {
        mark.drop_first() + v
    };
    let t = k + p + tail;
    assert(trim_start_solid(line) && trim(line) == t) by {
        if v.len() == 0 && mark == seq![sep, ' '] {
            assert(line.drop_last() =~= t);
            assert(line.last() == ' ');
            assert(t.last() == sep);
            reveal_with_fuel(crate::text::trim_end, 2);
        } else if v.len() == 0 {
            assert(line =~= t);
            assert(line.last() == sep);
        } else {
            assert(line =~= t);
            assert(line.last() == v.last());
        }
    }
    assert(t.subrange(n, n + 1) =~= p);
    assert forall|j: int| 0 <= j < n implies !crate::text::occurs_at(t, p, j) by {
        if crate::text::occurs_at(t, p, j) {
            assert(t.subrange(j, j + 1)[0] == sep);
            assert(k[j] == sep);
        }
    }
    crate::text::lemma_find_is(t, p, 0, n);
    assert(t.take(n) =~= k);
    assert(t.skip(n + 1) =~= tail);
    assert(trim(k) == k);
    assert(trim(tail) == v) by {
        if v.len() > 0 && mark == seq![sep, ' '] {
            assert(tail =~= seq![' '] + v);
            assert(tail.drop_first() =~= v);
            assert(tail[0] == ' ');
            reveal_with_fuel(crate::text::trim_start, 2);
        } else if v.len() > 0 {
            assert(tail =~= v);
        } else {
            assert(tail =~= v);
        }
    }
    assert(!line.contains('\n')) by {
        if line.contains('\n') {
            let i = choose|i: int| 0 <= i < line.len() && line[i] == '\n';
            if i < n {
                assert(k[i] == '\n');
            } else if i >= n + mark.len() {
                assert(v[i - n - mark.len()] == '\n');
            } else {
                assert(mark[i - n] == '\n');
            }
        }
    }
    if v.len() > 0 {
        assert(line.last() == v.last());
    } else {
        assert(line.last() == mark.last());
    }
}

/// Whether a text begins without white space.
spec fn trim_start_solid(s: Seq<char>) -> bool {
    crate::text::trim_start(s) == s
}

/// Pairs shown line by line read back as the same pairs.
pub proof fn pairs_read_back(
    pairs: Seq<(Seq<char>, Seq<char>)>,
    sep: char,
    mark: Seq<char>,
)
    requires
        forall|i: int| 0 <= i < pairs.len() ==> pair_ok(#[trigger] pairs[i], sep),
        distinct_keys(pairs),
        !is_space(sep),
        sep != '\n',
        mark == seq![sep] || mark == seq![sep, ' '],
    ensures
        line_pairs(lines(join(shown_pairs(pairs, mark), "\n"@)), seq![sep]) == pairs,
{
    let all = shown_pairs(pairs, mark);
    assert forall|i: int| 0 <= i < all.len() implies is_line(#[trigger] all[i]) by {
        assert(pair_ok(pairs[i], sep));
        lemma_pair_line(pairs[i], sep, mark);
    }
    lines_read_back(all);
    lemma_line_pairs(pairs, sep, mark);
}

proof fn lemma_line_pairs(pairs: Seq<(Seq<char>, Seq<char>)>, sep: char, mark: Seq<char>)
    requires
        forall|i: int| 0 <= i < pairs.len() ==> pair_ok(#[trigger] pairs[i], sep),
        distinct_keys(pairs),
        !is_space(sep),
        sep != '\n',
        mark == seq![sep] || mark == seq![sep, ' '],
    ensures
        line_pairs(shown_pairs(pairs, mark), seq![sep]) == pairs,
    decreases pairs.len(),
{
    let all = shown_pairs(pairs, mark);
    if pairs.len() > 0 {
        let init = pairs.drop_last();
        let x = pairs.last();
        assert forall|i: int| 0 <= i < init.len() implies pair_ok(#[trigger] init[i], sep) by {
            assert(init[i] == pairs[i]);
        }
        assert(distinct_keys(init)) by {
            assert forall|i: int, j: int| 0 <= i < j < init.len() implies (
            #[trigger] init[i]).0 != (#[trigger] init[j]).0 by {
                assert(init[i] == pairs[i] && init[j] == pairs[j]);
            }
        }
        lemma_line_pairs(init, sep, mark);
        assert(all.drop_last() =~= shown_pairs(init, mark));
        assert(pair_ok(pairs[pairs.len() - 1], sep));
        lemma_pair_line(x, sep, mark);
        assert(all.last() == x.0 + mark + x.1);
        assert forall|i: int| 0 <= i < init.len() implies (#[trigger] init[i]).0 != x.0 by {
            assert(init[i] == pairs[i] && x == pairs[pairs.len() - 1]);
        }
        lemma_key_absent(init, x.0, 0);
        assert(init.push(x) =~= pairs);
    } else {
        assert(line_pairs(all, seq![sep]) =~= pairs);
    }
}

/// Whether a server is one that the dialog shows without loss: what it holds
/// is within the limits that the dialog keeps.
pub open spec fn server_ok(cfg: ServerView) -> bool {
    &&& cfg.name.len() > 0
    &&& 1 <= cfg.timeout_secs <= 600
    &&& forall|i: int|
        0 <= i < cfg.allowed_tools.len() ==> list_entry(#[trigger] cfg.allowed_tools[i])
    &&& match cfg.transport {
        TransportView::Stdio { command, args, env, working_dir } => {
            &&& command.len() > 0
            &&& trim(command) == command
            &&& forall|i: int| 0 <= i < args.len() ==> is_word(#[trigger] args[i])
            &&& forall|i: int| 0 <= i < env.len() ==> pair_ok(#[trigger] env[i], '=')
            &&& distinct_keys(env)
            &&& working_dir matches Some(d) ==> d.len() > 0 && trim(d) == d
        },
        TransportView::Http { url, headers } => {
            &&& "http"@.is_prefix_of(url)
            &&& trim(url) == url
            &&& forall|i: int| 0 <= i < headers.len() ==> pair_ok(#[trigger] headers[i], ':')
            &&& distinct_keys(headers)
        },
    }
}

/// Opening a server in the dialog and saving it unchanged describes the same
/// server.
pub proof fn an_untouched_edit_keeps_the_server(cfg: ServerView)
    requires
        server_ok(cfg),
    ensures
        edit_of(cfg).server(cfg.name) == Some(cfg),
{
    reveal_strlit("=");
    reveal_strlit(":");
    reveal_strlit(": ");
    comma_list_reads_back(cfg.allowed_tools);
    match cfg.transport {
        TransportView::Stdio { command, args, env, working_dir } => {
            words_read_back(args);
            assert("="@ =~= seq!['=']);
            pairs_read_back(env, '=', "="@);
            let e = Seq::<char>::empty();
            assert(trim(e) =~= e);
        },
        TransportView::Http { url, headers } => {
            assert(":"@ =~= seq![':']);
            assert(": "@ =~= seq![':', ' ']);
            pairs_read_back(headers, ':', ": "@);
        },
    }
}

proof fn lemma_key_at(pairs: Seq<(Seq<char>, Seq<char>)>, key: Seq<char>, from: int)
    requires
        0 <= from,
    ensures
        match key_at(pairs, key, from) {
            Some(i) => from <= i < pairs.len() && pairs[i].0 == key,
            None => forall|i: int| from <= i < pairs.len() ==> (#[trigger] pairs[i]).0 != key,
        },
    decreases pairs.len() - from,
{
    if from < pairs.len() && pairs[from].0 != key {
        lemma_key_at(pairs, key, from + 1);
    }
}

/// However often a name occurs among some lines, it occurs once among the pairs
/// that they give.
pub proof fn each_name_is_kept_once(all: Seq<Seq<char>>, sep: Seq<char>)
    ensures
        distinct_keys(line_pairs(all, sep)),
    decreases all.len(),
{
    if all.len() > 0 {
        each_name_is_kept_once(all.drop_last(), sep);
        let before = line_pairs(all.drop_last(), sep);
        if let Some(pair) = line_pair(all.last(), sep) {
            lemma_key_at(before, pair.0, 0);
        }
    }
}

} // verus!

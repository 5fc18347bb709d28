//! The status bar and the bottom bar.

use vstd::prelude::*;

use crate::chat_state::{AppStatus, ChatApp, ChatArea, ChatView, PromptProgress, StatusView};
use crate::numbers::{count_text, decimal, decimal_text};
use crate::pieces::{join, joined};
use crate::text::texts;
use crate::theme::{Rgba, Theme};

verus! {

// ---------------------------------------------------------------------------
// The status bar
// ---------------------------------------------------------------------------

/// What the status bar says of a status; an error is shown elsewhere.
pub open spec fn status_words(status: StatusView) -> Option<Seq<char>> {
    match status {
        StatusView::Stopped => Some("● Stopped"@),
        StatusView::Connecting => Some("● Connecting..."@),
        StatusView::Ready => Some("● Ready"@),
        StatusView::Generating => Some("● Generating..."@),
        StatusView::Error(_) => None,
    }
}

/// The text of the status, and its colour. With an error the bar stays empty.
pub fn status_text(status: &AppStatus, theme: &Theme) -> (r: Option<(&'static str, Rgba)>)
    ensures
        match r {
            Some(t) => status_words(status@) == Some(t.0@) && t.1 == (match status@ {
                StatusView::Stopped => theme.text_secondary,
                StatusView::Connecting => theme.warning,
                StatusView::Ready => theme.success,
                StatusView::Generating => theme.primary,
                StatusView::Error(_) => theme.error,
            }),
            None => status_words(status@) is None,
        },
{
    match status {
        AppStatus::Stopped => Some(("● Stopped", theme.text_secondary)),
        AppStatus::Connecting => Some(("● Connecting...", theme.warning)),
        AppStatus::Ready => Some(("● Ready", theme.success)),
        AppStatus::Generating => Some(("● Generating...", theme.primary)),
        AppStatus::Error(_) => None,
    }
}

/// How many tools are running, in words.
pub open spec fn tools_words(n: nat) -> Seq<char> {
    "🔧 "@ + decimal(n) + " tool"@ + (if n == 1 {
        ""@
    } else {
        "s"@
    }) + " running"@
}

/// The names of the running tools.
pub open spec fn tool_names(chat: ChatView) -> Seq<Seq<char>> {
    Seq::new(chat.active_tools.len(), |i: int| chat.active_tools[i].tool_name)
}

/// How many tools are running and, one per line, which; nothing where none is.
pub fn running_tools(chat: &ChatArea) -> (r: Option<(String, String)>)
    ensures
        match r {
            Some(t) => {
                &&& chat@.active_tools.len() > 0
                &&& t.0@ == tools_words(chat@.active_tools.len())
                &&& t.1@ == join(tool_names(chat@), "\n"@)
            },
            None => chat@.active_tools.len() == 0,
        },
{
    let n: usize = chat.active_tools.len();
    if n == 0 {
        return None;
    }
    let mut label = "🔧 ".to_owned();
    label.append(count_text(n).as_str());
    label.append(" tool");
    label.append(
        if n == 1 {
            ""
        } else {
            "s"
        },
    );
    label.append(" running");
    let mut names: Vec<String> = Vec::new();
    let mut i: usize = 0;
    while i < n
        invariant
            n == chat.active_tools@.len(),
            i <= n,
            texts(names@) =~= tool_names(chat@).take(i as int),
        decreases n - i,
    {
        let ghost before = texts(names@);
        names.push(chat.active_tools[i].tool_name.clone());
        assert(texts(names@) =~= before.push(tool_names(chat@)[i as int]));
        i += 1;
    }
    assert(tool_names(chat@).take(n as int) =~= tool_names(chat@));
    let hover = joined(&names, "\n");
    Some((label, hover))
}

/// The message count of a chat.
pub fn messages_label(chat: &ChatArea) -> (r: String)
    ensures
        r@ == "Messages: "@ + decimal(chat@.messages.len()),
{
    let mut r = "Messages: ".to_owned();
    r.append(count_text(chat.messages.len()).as_str());
    r
}

/// The number of memories.
pub fn memory_label(count: usize) -> (r: String)
    ensures
        r@ == "🧠 "@ + decimal(count as nat),
{
    let mut r = "🧠 ".to_owned();
    r.append(count_text(count).as_str());
    r
}

/// What the bar says of the memories on hover.
pub fn memory_hover(count: usize, project: &str, max_entries: usize, maintenance: bool) -> (r:
    String)
    ensures
        r@ == decimal(count as nat) + " active memories (project '"@ + project@ + "', max "@
            + decimal(max_entries as nat) + ")\nMaintenance: "@ + (if maintenance {
            "enabled"@
        } else {
            "disabled"@
        }),
{
    let mut r = count_text(count);
    r.append(" active memories (project '");
    r.append(project);
    r.append("', max ");
    r.append(count_text(max_entries).as_str());
    r.append(")\nMaintenance: ");
    r.append(
        if maintenance {
            "enabled"
        } else {
            "disabled"
        },
    );
    r
}

/// What the bar says of one MCP server on hover.
pub open spec fn server_words(name: Seq<char>, status: Seq<char>, enabled_tools: nat) -> Seq<
    char,
> {
    name + ": "@ + status + " ("@ + decimal(enabled_tools) + " enabled tools)"@
}

/// How many of the first `n` tools are enabled.
pub open spec fn enabled_among(tools: Seq<bool>, n: int) -> nat
    decreases n,
{
    if n <= 0 {
        0
    } else {
        enabled_among(tools, n - 1) + (if tools[n - 1] {
            1nat
        } else {
            0nat
        })
    }
}

/// What the bar says of one MCP server on hover: its name, its status in words,
/// and how many of its tools are enabled.
pub fn server_detail(name: &str, status: &str, tools_enabled: &Vec<bool>) -> (r: String)
    ensures
        r@ == server_words(
            name@,
            status@,
            enabled_among(tools_enabled@, tools_enabled@.len() as int),
        ),
{
    let mut count: usize = 0;
    let mut i: usize = 0;
    while i < tools_enabled.len()
        invariant
            i <= tools_enabled@.len(),
            count <= i,
            count == enabled_among(tools_enabled@, i as int),
        decreases tools_enabled.len() - i,
    {
        if tools_enabled[i] {
            count += 1;
        }
        i += 1;
    }
    let mut r = name.to_owned();
    r.append(": ");
    r.append(status);
    r.append(" (");
    r.append(count_text(count).as_str());
    r.append(" enabled tools)");
    r
}

/// How many MCP servers are connected, and the colour for it: all, none, or
/// some.
pub fn mcp_label(connected: usize, total: usize, theme: &Theme) -> (r: (String, Rgba))
    ensures
        r.0@ == "MCP "@ + decimal(connected as nat) + "/"@ + decimal(total as nat),
        r.1 == (if connected == total {
            theme.success
        } else if connected == 0 {
            theme.text_dim
        } else {
            theme.warning
        }),
{
    let mut label = "MCP ".to_owned();
    label.append(count_text(connected).as_str());
    label.append("/");
    label.append(count_text(total).as_str());
    let color = if connected == total {
        theme.success
    } else if connected == 0 {
        theme.text_dim
    } else {
        theme.warning
    };
    (label, color)
}

// ---------------------------------------------------------------------------
// The bottom bar
// ---------------------------------------------------------------------------

impl ChatApp {
    /// The effective n_ctx for trimming and for the gauge: what the connected
    /// server reports, and 0 while that is not known.
    pub fn get_effective_n_ctx(&self) -> (r: u32)
        ensures
            r == self@.remote_n_ctx,
    {
        self.remote_n_ctx
    }

    /// Whether the connected server has not reported its n_ctx yet.
    pub fn remote_props_unknown(&self) -> (r: bool)
        ensures
            r == (self@.remote_n_ctx == 0),
    {
        self.remote_n_ctx == 0
    }

    /// What the bottom bar says of the server. While its context window is
    /// unknown an ellipsis stands in its place.
    pub fn server_label(&self, n_gpu_layers: &str, threads: u32) -> (r: String)
        ensures
            r@ == "Ctx: "@ + (if self@.remote_n_ctx == 0 {
                "…"@
            } else {
                decimal(self@.remote_n_ctx as nat)
            }) + " | GPU: "@ + n_gpu_layers@ + " | Threads: "@ + decimal(threads as nat),
    {
        let mut r = "Ctx: ".to_owned();
        if self.remote_props_unknown() {
            r.append("…");
        } else {
            r.append(decimal_text(self.get_effective_n_ctx() as u64).as_str());
        }
        r.append(" | GPU: ");
        r.append(n_gpu_layers);
        r.append(" | Threads: ");
        r.append(decimal_text(threads as u64).as_str());
        r
    }
}

/// The token count of a chat.
pub fn tokens_label(chat: &ChatArea) -> (r: String)
    ensures
        r@ == "Tokens: "@ + decimal(chat@.token_count as nat),
{
    let mut r = "Tokens: ".to_owned();
    r.append(decimal_text(chat.token_count).as_str());
    r
}

/// How many of `n` tokens were not in the cache.
pub open spec fn beyond_cache(n: u64, cache: u64) -> nat {
    if n > cache {
        (n - cache) as nat
    } else {
        0
    }
}

impl PromptProgress {
    /// The tokens that were processed, and all that are to be processed, not
    /// counting cached ones.
    pub fn uncached(&self) -> (r: (u64, u64))
        ensures
            r.0 == beyond_cache(self.processed, self.cache),
            r.1 == beyond_cache(self.total, self.cache),
    {
        (self.processed.saturating_sub(self.cache), self.total.saturating_sub(self.cache))
    }

    /// What the bottom bar says of the progress, where `percent` is the share
    /// of uncached tokens that were processed, in words.
    pub fn label(&self, percent: &str) -> (r: String)
        ensures
            r@ == "PP "@ + percent@ + "% ("@ + decimal(beyond_cache(self.processed, self.cache))
                + "/"@ + decimal(beyond_cache(self.total, self.cache)) + ")"@,
    {
        let (done, total) = self.uncached();
        let mut r = "PP ".to_owned();
        r.append(percent);
        r.append("% (");
        r.append(decimal_text(done).as_str());
        r.append("/");
        r.append(decimal_text(total).as_str());
        r.append(")");
        r
    }

    /// What the bottom bar says of the progress on hover.
    pub fn hover(&self) -> (r: String)
        ensures
            r@ == "Prompt processing progress (llama.cpp)\n"@ + decimal(
                beyond_cache(self.processed, self.cache),
            ) + "/"@ + decimal(beyond_cache(self.total, self.cache))
                + " uncached tokens processed ("@ + decimal(self.cache as nat) + " cached, "@
                + decimal(self.total as nat) + " total)\nSpeed in the PP t/s readout beside it"@,
    {
        let (done, total) = self.uncached();
        let mut r = "Prompt processing progress (llama.cpp)\n".to_owned();
        r.append(decimal_text(done).as_str());
        r.append("/");
        r.append(decimal_text(total).as_str());
        r.append(" uncached tokens processed (");
        r.append(decimal_text(self.cache).as_str());
        r.append(" cached, ");
        r.append(decimal_text(self.total).as_str());
        r.append(" total)\nSpeed in the PP t/s readout beside it");
        r
    }
}

// ---------------------------------------------------------------------------
// Laws
// ---------------------------------------------------------------------------

/// Progress that the server reports in order (no more processed than there is)
/// is shown in order too, and all of a prompt that was processed is shown as
/// all.
pub proof fn shown_progress_is_in_order(p: PromptProgress)
    requires
        p.processed <= p.total,
    ensures
        beyond_cache(p.processed, p.cache) <= beyond_cache(p.total, p.cache),
        p.processed == p.total ==> beyond_cache(p.processed, p.cache) == beyond_cache(
            p.total,
            p.cache,
        ),
{
}

} // verus!

//! How messages, running tools and the streamed answer are shown.

use vstd::prelude::*;

use crate::chat_area::{duration_text, format_duration, icon_of, tool_icon};
use crate::chat_state::{ActiveTool, ChatApp, ChatView};
use crate::text::{opt_text, same_text};
use crate::theme::{Rgba, Theme};
use crate::tool_cards::ToolCardInfo;
use crate::types::{ChatMessage, MessageKind};

verus! {

/// The header row of a tool card.
pub struct CardHeader {
    pub chevron: &'static str,
    /// The icon and the name of the tool.
    pub title: String,
    pub title_color: Rgba,
    pub args: String,
    pub summary: String,
    pub summary_color: Rgba,
    pub duration: Option<String>,
}

/// The icon and the name of a tool.
pub open spec fn card_title(name: Seq<char>) -> Seq<char> {
    icon_of(name) + " "@ + name
}

fn title_of(name: &str) -> (r: String)
    ensures
        r@ == card_title(name@),
{
    let mut r = tool_icon(name).to_owned();
    r.append(" ");
    r.append(name);
    r
}

impl ToolCardInfo {
    /// The header row of the card.
    pub fn header(&self, is_expanded: bool, theme: &Theme) -> (r: CardHeader)
        ensures
            r.chevron@ == (if is_expanded {
                "▾"@
            } else {
                "▸"@
            }),
            r.title@ == card_title(self@.name),
            r.title_color == (if self@.is_error {
                theme.warning
            } else {
                theme.accent
            }),
            r.args@ == self@.args,
            r.summary@ == (if self@.is_error && self@.summary.len() > 0 {
                "✗ "@ + self@.summary
            } else {
                self@.summary
            }),
            r.summary_color == (if self@.is_error {
                theme.warning
            } else {
                theme.text_dim
            }),
            opt_text(r.duration) == (match self@.duration_ms {
                Some(ms) => Some("· "@ + duration_text(ms)),
                None => None,
            }),
    {
        CardHeader {
            chevron: if is_expanded {
                "▾"
            } else {
                "▸"
            },
            title: title_of(self.name.as_str()),
            title_color: if self.is_error {
                theme.warning
            } else {
                theme.accent
            },
            args: self.args.clone(),
            summary: if self.is_error && !self.summary.as_str().is_empty() {
                let mut s = "✗ ".to_owned();
                s.append(self.summary.as_str());
                s
            } else {
                self.summary.clone()
            },
            summary_color: if self.is_error {
                theme.warning
            } else {
                theme.text_dim
            },
            duration: match self.duration_ms {
                Some(ms) => {
                    let mut d = "· ".to_owned();
                    d.append(format_duration(ms).as_str());
                    Some(d)
                },
                None => None,
            },
        }
    }
}

impl ActiveTool {
    /// The header row of a running tool's card: its title, and for how long it
    /// has been running.
    pub fn header(&self, now_ms: u64) -> (r: (String, String))
        ensures
            r.0@ == card_title(self@.tool_name),
            r.1@ == "running · "@ + duration_text(
                if now_ms >= self@.started_ms {
                    (now_ms - self@.started_ms) as u64
                } else {
                    0
                },
            ),
    {
        let mut elapsed = "running · ".to_owned();
        elapsed.append(format_duration(now_ms.saturating_sub(self.started_ms)).as_str());
        (title_of(self.tool_name.as_str()), elapsed)
    }
}

/// White.
pub open spec fn white() -> Rgba {
    Rgba { r: 255, g: 255, b: 255, a: 255 }
}

/// The background of a message's bubble, and the colour of its text.
pub fn bubble_colors(message: &ChatMessage, theme: &Theme) -> (r: (Rgba, Rgba))
    ensures
        r.0 == (if message@.role == "user"@ {
            theme.user_bg
        } else if message@.kind == MessageKind::Tool {
            theme.tool_bg
        } else {
            theme.ai_bg
        }),
        r.1 == (if message@.role == "user"@ {
            white()
        } else {
            theme.text_primary
        }),
{
    if same_text(message.role.as_str(), "user") {
        (theme.user_bg, Rgba { r: 255, g: 255, b: 255, a: 255 })
    } else {
        match message.kind {
            MessageKind::Tool => (theme.tool_bg, theme.text_primary),
            _ => (theme.ai_bg, theme.text_primary),
        }
    }
}

/// The row of an answer that is being streamed.
pub struct StreamingLine {
    /// The thinking so far.
    pub thinking: Option<String>,
    /// The text so far.
    pub text: Option<String>,
    /// Whether dots stand for an answer of which nothing has come yet.
    pub dots: bool,
}

/// A text that is shown where it is not empty.
pub open spec fn shown_text(s: Seq<char>) -> Option<Seq<char>> {
    if s.len() > 0 {
        Some(s)
    } else {
        None
    }
}

fn show_text(s: &String) -> (r: Option<String>)
    ensures
        opt_text(r) == shown_text(s@),
{
    if s.as_str().is_empty() {
        None
    } else {
        Some(s.clone())
    }
}

/// What the chat area shows around the messages.
pub struct ChatFrame {
    /// The error of the last input.
    pub error: Option<String>,
    /// Whether the greeting of an empty chat stands in place of the messages.
    pub is_empty: bool,
    pub streaming: Option<StreamingLine>,
}

/// Whether a frame shows a chat.
pub open spec fn frames(f: ChatFrame, chat: ChatView) -> bool {
    &&& opt_text(f.error) == (match chat.pending_error {
        Some(e) => Some("⚠  "@ + e),
        None => None,
    })
    &&& f.is_empty == (chat.messages.len() == 0 && !chat.is_generating)
    &&& match f.streaming {
        Some(line) => {
            &&& chat.is_generating
            &&& opt_text(line.thinking) == shown_text(chat.current_thinking)
            &&& opt_text(line.text) == shown_text(chat.stream_buffer)
            &&& line.dots == (chat.current_thinking.len() == 0 && chat.stream_buffer.len() == 0)
        },
        None => !chat.is_generating,
    }
}

impl ChatApp {
    /// What the chat area shows around the messages of the selected session.
    pub fn chat_frame(&self) -> (r: ChatFrame)
        ensures
            match self@.selected() {
                Some(k) => frames(r, self@.sessions[k].chat),
                None => r.error is None && r.is_empty && r.streaming is None,
            },
    {
        match self.find_selected() {
            Some(k) => {
                let chat = &self.sessions[k].chat;
                let error = match &chat.pending_error {
                    Some(e) => {
                        let mut m = "⚠  ".to_owned();
                        m.append(e.as_str());
                        Some(m)
                    },
                    None => None,
                };
                let streaming = if chat.is_generating {
                    let thinking = show_text(&chat.current_thinking);
                    let text = show_text(&chat.stream_buffer);
                    let dots = thinking.is_none() && text.is_none();
                    Some(StreamingLine { thinking, text, dots })
                } else {
                    None
                };
                ChatFrame {
                    error,
                    is_empty: chat.messages.len() == 0 && !chat.is_generating,
                    streaming,
                }
            },
            None => ChatFrame { error: None, is_empty: true, streaming: None },
        }
    }
}

} // verus!

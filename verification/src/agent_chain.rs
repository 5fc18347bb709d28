//! The agent chain panel.

use vstd::prelude::*;
use vstd::utf8::{decode_utf8, encode_utf8, encode_utf8_decode_utf8, is_char_boundary};

use crate::numbers::{count_text, decimal};
use crate::text::opt_text;

verus! {

/// One agent that ran.
pub struct AgentChainEntry {
    pub agent_name: String,
    pub depth: usize,
    pub result: String,
    pub error: Option<String>,
}

/// The agents that ran, the one that runs, and whether the chain was cancelled.
pub struct AgentChainState {
    pub entries: Vec<AgentChainEntry>,
    pub current_agent: Option<String>,
    pub cancelled: bool,
}

impl AgentChainState {
    /// Whether there is no chain to show.
    pub fn is_idle(&self) -> (r: bool)
        ensures
            r == (self.entries@.len() == 0 && self.current_agent is None && !self.cancelled),
    {
        self.entries.len() == 0 && self.current_agent.is_none() && !self.cancelled
    }

    /// What is said of the running agent, and whether it was cancelled.
    pub fn running_label(&self) -> (r: Option<(String, bool)>)
        ensures
            match r {
                Some(t) => opt_text(self.current_agent) matches Some(agent) && t.0@
                    == "Running: "@ + agent && t.1 == self.cancelled,
                None => self.current_agent is None,
            },
    {
        match &self.current_agent {
            Some(agent) => {
                let mut label = "Running: ".to_owned();
                label.append(agent.as_str());
                Some((label, self.cancelled))
            },
            None => None,
        }
    }
}

/// How many bytes a text takes.
pub open spec fn byte_len(s: Seq<char>) -> usize {
    encode_utf8(s).len() as usize
}

/// The first `n` bytes of a text.
pub open spec fn first_bytes(s: Seq<char>, n: int) -> Seq<char> {
    decode_utf8(encode_utf8(s).subrange(0, n))
}

/// What an expanded entry shows.
pub enum Expanded {
    /// Why the agent failed.
    Failure(String),
    /// The beginning of what it gave.
    Preview(String),
}

impl AgentChainEntry {
    /// The icon, the name and the depth of the entry.
    pub fn line(&self) -> (r: (&'static str, String))
        ensures
            r.0@ == (if self.error is Some {
                "❌"@
            } else {
                "✅"@
            }),
            r.1@ == "depth="@ + decimal(self.depth as nat),
    {
        let icon = if self.error.is_some() {
            "❌"
        } else {
            "✅"
        };
        let mut depth = "depth=".to_owned();
        depth.append(count_text(self.depth).as_str());
        (icon, depth)
    }

    /// What the expanded entry shows: the error, or the result cut to its first
    /// 200 bytes.
    pub fn expanded(&self) -> (r: Expanded)
        requires
            byte_len(self.result@) > 200 ==> is_char_boundary(
                encode_utf8(self.result@),
                200,
            ),
        ensures
            match opt_text(self.error) {
                Some(e) => r matches Expanded::Failure(t) && t@ == "Error: "@ + e,
                None => r matches Expanded::Preview(t) && t@ == (if byte_len(self.result@) > 200 {
                    first_bytes(self.result@, 200) + "..."@
                } else {
                    self.result@
                }),
            },
    {
        let result = self.result.as_str();
        let preview = if result.len() > 200 {
            let (head, _tail) = result.split_at(200);
            proof {
                encode_utf8_decode_utf8(head@);
            }
            let mut p = head.to_owned();
            p.append("...");
            p
        } else {
            self.result.clone()
        };
        match &self.error {
            Some(e) => {
                let mut t = "Error: ".to_owned();
                t.append(e.as_str());
                Expanded::Failure(t)
            },
            None => Expanded::Preview(preview),
        }
    }
}

} // verus!

//! Decisions at startup: which session is opened, and which log lines are
//! dropped.

use vstd::prelude::*;

use crate::settings::{Config, ConfigView};
use crate::text::{begins_with, opt_text, same_text};

verus! {

/// Whether a log line is the expected noise of a paste: the clipboard of the
/// window library takes text only, and complains about every image. Other lines
/// of the same target are kept.
pub open spec fn paste_noise(target: Seq<char>, message: Option<Seq<char>>) -> bool {
    target == "egui_winit::clipboard"@ && (message matches Some(m)
        && "arboard paste error"@.is_prefix_of(m))
}

/// Whether a log line is the expected noise of a paste.
pub fn is_expected_paste_noise(target: &str, message: &Option<String>) -> (r: bool)
    ensures
        r == paste_noise(target@, opt_text(*message)),
{
    if !same_text(target, "egui_winit::clipboard") {
        return false;
    }
    match message {
        Some(m) => begins_with(m.as_str(), "arboard paste error"),
        None => false,
    }
}

/// The name of a session that is created at startup.
pub fn first_session_name() -> (r: &'static str)
    ensures
        r@ == "Untitled"@,
{
    "Untitled"
}

impl Config {
    /// Whether a session is to be created at startup: none is remembered, or
    /// the file of the remembered one is missing.
    pub fn needs_session(&self, session_exists: bool) -> (r: bool)
        ensures
            r == (self@.session_id is None || !session_exists),
    {
        self.session_id.is_none() || !session_exists
    }

    /// Remember the session that was created.
    pub fn remember_session(&mut self, id: String)
        ensures
            final(self)@ == (ConfigView { session_id: Some(id@), ..old(self)@ }),
    {
        self.session_id = Some(id);
    }

    /// The session that is opened at startup: the remembered one, where its
    /// file is there.
    pub fn session_to_open(&self, session_exists: bool) -> (r: Option<String>)
        ensures
            opt_text(r) == (if session_exists {
                self@.session_id
            } else {
                None
            }),
    {
        if session_exists {
            match &self.session_id {
                Some(id) => Some(id.clone()),
                None => None,
            }
        } else {
            None
        }
    }
}

} // verus!

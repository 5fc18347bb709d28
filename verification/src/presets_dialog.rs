//! The dialog for managing presets (create, select, load, delete).

use vstd::prelude::*;

use crate::text::{begins_with, opt_text};

verus! {

/// Which kind of preset is currently being created/edited.
#[derive(Clone, Copy, Debug, PartialEq, Eq, Structural)]
pub enum PresetType {
    Local,
    Remote,
}

/// A preset: a local or a remote server.
pub enum Preset {
    Local {
        name: String,
        server_path: String,
        model_path: String,
        port: u16,
        n_gpu_layers: i32,
        n_ctx: u32,
        threads: u32,
    },
    Remote { name: String, remote_url: String, remote_api_key: Option<String> },
}

/// What a preset says.
#[verifier::ext_equal]
pub enum PresetView {
    Local {
        name: Seq<char>,
        server_path: Seq<char>,
        model_path: Seq<char>,
        port: u16,
        n_gpu_layers: i32,
        n_ctx: u32,
        threads: u32,
    },
    Remote { name: Seq<char>, remote_url: Seq<char>, remote_api_key: Option<Seq<char>> },
}

impl View for Preset {
    type V = PresetView;

    open spec fn view(&self) -> PresetView {
        match *self {
            Preset::Local {
                name,
                server_path,
                model_path,
                port,
                n_gpu_layers,
                n_ctx,
                threads,
            } => PresetView::Local {
                name: name@,
                server_path: server_path@,
                model_path: model_path@,
                port,
                n_gpu_layers,
                n_ctx,
                threads,
            },
            Preset::Remote { name, remote_url, remote_api_key } => PresetView::Remote {
                name: name@,
                remote_url: remote_url@,
                remote_api_key: opt_text(remote_api_key),
            },
        }
    }
}

/// Dialog for managing presets.
pub struct PresetsDialog {
    /// Which preset is currently selected (by index), if any.
    pub selected_index: Option<usize>,
    /// Whether the "add new" form is open.
    pub show_add_form: bool,
    /// Type for the new preset being added.
    pub new_type: PresetType,
    /// Fields for the new preset.
    pub new_name: String,
    pub new_server_path: String,
    pub new_model_path: String,
    pub new_port: u16,
    pub new_n_gpu_layers: i32,
    pub new_n_ctx: u32,
    pub new_threads: u32,
    pub new_remote_url: String,
    pub new_remote_api_key: String,
    /// Error/success message to display.
    pub message: Option<String>,
}

/// What the dialog holds.
#[verifier::ext_equal]
pub struct PresetsView {
    pub selected_index: Option<usize>,
    pub show_add_form: bool,
    pub new_type: PresetType,
    pub new_name: Seq<char>,
    pub new_server_path: Seq<char>,
    pub new_model_path: Seq<char>,
    pub new_port: u16,
    pub new_n_gpu_layers: i32,
    pub new_n_ctx: u32,
    pub new_threads: u32,
    pub new_remote_url: Seq<char>,
    pub new_remote_api_key: Seq<char>,
    pub message: Option<Seq<char>>,
}

impl View for PresetsDialog {
    type V = PresetsView;

    open spec fn view(&self) -> PresetsView {
        PresetsView {
            selected_index: self.selected_index,
            show_add_form: self.show_add_form,
            new_type: self.new_type,
            new_name: self.new_name@,
            new_server_path: self.new_server_path@,
            new_model_path: self.new_model_path@,
            new_port: self.new_port,
            new_n_gpu_layers: self.new_n_gpu_layers,
            new_n_ctx: self.new_n_ctx,
            new_threads: self.new_threads,
            new_remote_url: self.new_remote_url@,
            new_remote_api_key: self.new_remote_api_key@,
            message: opt_text(self.message),
        }
    }
}

impl PresetsView {
    /// The dialog with an empty form.
    pub open spec fn cleared(self) -> PresetsView {
        PresetsView {
            new_type: PresetType::Local,
            new_name: Seq::empty(),
            new_server_path: Seq::empty(),
            new_model_path: Seq::empty(),
            new_port: 8080,
            new_n_gpu_layers: 99,
            new_n_ctx: 4096,
            new_threads: 8,
            new_remote_url: Seq::empty(),
            new_remote_api_key: Seq::empty(),
            ..self
        }
    }

    /// The preset that the form describes.
    pub open spec fn described(self) -> PresetView {
        match self.new_type {
            PresetType::Local => PresetView::Local {
                name: self.new_name,
                server_path: self.new_server_path,
                model_path: self.new_model_path,
                port: self.new_port,
                n_gpu_layers: self.new_n_gpu_layers,
                n_ctx: self.new_n_ctx,
                threads: self.new_threads,
            },
            PresetType::Remote => PresetView::Remote {
                name: self.new_name,
                remote_url: self.new_remote_url,
                remote_api_key: if self.new_remote_api_key.len() == 0 {
                    None
                } else {
                    Some(self.new_remote_api_key)
                },
            },
        }
    }
}

/// How loading a preset ended.
pub enum LoadOutcome {
    Loaded,
    /// The preset could not be applied.
    NotApplied(String),
    /// The configuration could not be written.
    NotSaved(String),
}

impl PresetsDialog {
    /// A dialog with nothing selected and an empty form.
    pub fn new() -> (r: Self)
        ensures
            r@ == r@.cleared(),
            r@.selected_index is None,
            !r@.show_add_form,
            r@.message is None,
    {
        PresetsDialog {
            selected_index: None,
            show_add_form: false,
            new_type: PresetType::Local,
            new_name: String::new(),
            new_server_path: String::new(),
            new_model_path: String::new(),
            new_port: 8080,
            new_n_gpu_layers: 99,
            new_n_ctx: 4096,
            new_threads: 8,
            new_remote_url: String::new(),
            new_remote_api_key: String::new(),
            message: None,
        }
    }

    /// Empty the form.
    pub fn clear_new_form(&mut self)
        ensures
            final(self)@ == old(self)@.cleared(),
    {
        self.new_name = String::new();
        self.new_server_path = String::new();
        self.new_model_path = String::new();
        self.new_port = 8080;
        self.new_n_gpu_layers = 99;
        self.new_n_ctx = 4096;
        self.new_threads = 8;
        self.new_remote_url = String::new();
        self.new_remote_api_key = String::new();
        self.new_type = PresetType::Local;
    }

    /// Open the form for a new preset.
    pub fn open_form(&mut self)
        ensures
            final(self)@ == (PresetsView {
                show_add_form: true,
                selected_index: None,
                ..old(self)@.cleared()
            }),
    {
        self.show_add_form = true;
        self.selected_index = None;
        self.clear_new_form();
    }

    /// Close the form.
    pub fn cancel_form(&mut self)
        ensures
            final(self)@ == (PresetsView { show_add_form: false, ..old(self)@ }),
    {
        self.show_add_form = false;
    }

    /// Click on a preset of the list: it is selected, or no longer selected
    /// where it was.
    pub fn click_preset(&mut self, i: usize)
        ensures
            final(self)@ == (PresetsView {
                selected_index: if old(self)@.selected_index == Some(i) {
                    None
                } else {
                    Some(i)
                },
                ..old(self)@
            }),
    {
        let selected = match self.selected_index {
            Some(k) => k == i,
            None => false,
        };
        self.selected_index = if selected {
            None
        } else {
            Some(i)
        };
    }

    /// The preset that the form describes, to be added to the store; without a
    /// name there is none and the message says so.
    pub fn add_preset(&mut self) -> (r: Option<Preset>)
        ensures
            old(self)@.new_name.len() == 0 ==> r is None && final(self)@ == (PresetsView {
                message: Some("Error: Name is required"@),
                ..old(self)@
            }),
            old(self)@.new_name.len() > 0 ==> {
                &&& final(self)@ == (PresetsView { message: None, ..old(self)@ })
                &&& r matches Some(p) && p@ == old(self)@.described()
            },
    {
        self.message = None;
        if self.new_name.as_str().is_empty() {
            self.message = Some("Error: Name is required".to_owned());
            return None;
        }
        match self.new_type {
            PresetType::Local => Some(
                Preset::Local {
                    name: self.new_name.clone(),
                    server_path: self.new_server_path.clone(),
                    model_path: self.new_model_path.clone(),
                    port: self.new_port,
                    n_gpu_layers: self.new_n_gpu_layers,
                    n_ctx: self.new_n_ctx,
                    threads: self.new_threads,
                },
            ),
            PresetType::Remote => {
                let key = if self.new_remote_api_key.as_str().is_empty() {
                    None
                } else {
                    Some(self.new_remote_api_key.clone())
                };
                Some(
                    Preset::Remote {
                        name: self.new_name.clone(),
                        remote_url: self.new_remote_url.clone(),
                        remote_api_key: key,
                    },
                )
            },
        }
    }

    /// Take in how adding the preset ended. An added preset closes and empties
    /// the form.
    pub fn finish_add(&mut self, outcome: &Result<(), String>)
        ensures
            final(self)@ == (match *outcome {
                Ok(_) => PresetsView {
                    message: Some("Added preset: "@ + old(self)@.new_name),
                    show_add_form: false,
                    ..old(self)@.cleared()
                },
                Err(e) => PresetsView { message: Some("Error: "@ + e@), ..old(self)@ },
            }),
    {
        match outcome {
            Ok(_) => {
                let mut m = "Added preset: ".to_owned();
                m.append(self.new_name.as_str());
                self.message = Some(m);
                self.show_add_form = false;
                self.clear_new_form();
            },
            Err(e) => {
                let mut m = "Error: ".to_owned();
                m.append(e.as_str());
                self.message = Some(m);
            },
        }
    }

    /// Take in how loading the preset `name` ended.
    pub fn finish_load(&mut self, name: &str, outcome: &LoadOutcome)
        ensures
            final(self)@ == (PresetsView {
                message: Some(
                    match *outcome {
                        LoadOutcome::Loaded => "Loaded preset: "@ + name@,
                        LoadOutcome::NotApplied(e) => "Error loading preset: "@ + e@,
                        LoadOutcome::NotSaved(e) => "Error saving config: "@ + e@,
                    },
                ),
                ..old(self)@
            }),
    {
        let m = match outcome {
            LoadOutcome::Loaded => {
                let mut m = "Loaded preset: ".to_owned();
                m.append(name);
                m
            },
            LoadOutcome::NotApplied(e) => {
                let mut m = "Error loading preset: ".to_owned();
                m.append(e.as_str());
                m
            },
            LoadOutcome::NotSaved(e) => {
                let mut m = "Error saving config: ".to_owned();
                m.append(e.as_str());
                m
            },
        };
        self.message = Some(m);
    }

    /// Take in how deleting the preset `name` ended.
    pub fn finish_delete(&mut self, name: &str, outcome: &Result<(), String>)
        ensures
            final(self)@ == (match *outcome {
                Ok(_) => PresetsView {
                    selected_index: None,
                    message: Some("Deleted preset: "@ + name@),
                    ..old(self)@
                },
                Err(e) => PresetsView {
                    message: Some("Error deleting preset: "@ + e@),
                    ..old(self)@
                },
            }),
    {
        match outcome {
            Ok(_) => {
                self.selected_index = None;
                let mut m = "Deleted preset: ".to_owned();
                m.append(name);
                self.message = Some(m);
            },
            Err(e) => {
                let mut m = "Error deleting preset: ".to_owned();
                m.append(e.as_str());
                self.message = Some(m);
            },
        }
    }

    /// Take in how writing the store ended.
    pub fn finish_store(&mut self, outcome: &Result<(), String>)
        ensures
            final(self)@ == (PresetsView {
                message: Some(
                    match *outcome {
                        Ok(_) => "Presets saved to disk"@,
                        Err(e) => "Error saving presets: "@ + e@,
                    },
                ),
                ..old(self)@
            }),
    {
        match outcome {
            Ok(_) => {
                self.message = Some("Presets saved to disk".to_owned());
            },
            Err(e) => {
                let mut m = "Error saving presets: ".to_owned();
                m.append(e.as_str());
                self.message = Some(m);
            },
        }
    }
}

/// The label of a preset in the list.
pub fn preset_label(name: &str, kind: &str) -> (r: String)
    ensures
        r@ == name@ + " ("@ + kind@ + ")"@,
{
    let mut r = name.to_owned();
    r.append(" (");
    r.append(kind);
    r.append(")");
    r
}

/// Whether the dialog's message reports an error.
pub fn is_error(message: &str) -> (r: bool)
    ensures
        r == "Error"@.is_prefix_of(message@),
{
    begins_with(message, "Error")
}

// ---------------------------------------------------------------------------
// Laws
// ---------------------------------------------------------------------------

/// An emptied form describes the same preset whatever was typed before, and
/// emptying it again changes nothing.
pub proof fn clearing_forgets_what_was_typed(a: PresetsView, b: PresetsView)
    ensures
        a.cleared().described() == b.cleared().described(),
        a.cleared().cleared() == a.cleared(),
{
}

} // verus!

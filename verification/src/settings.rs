//! The configuration, and the dialog that edits it.

use vstd::prelude::*;

use crate::text::{opt_text, same_text};
use crate::types::ReasoningEffort;

verus! {

/// Where the server runs.
#[derive(Clone, Copy, Debug, PartialEq, Eq, Structural)]
pub enum ConnectionType {
    Local,
    Remote,
}

/// The theme after a click on the theme button.
pub open spec fn toggled_theme(theme: Seq<char>) -> Seq<char> {
    if theme == "dark"@ {
        "light"@
    } else {
        "dark"@
    }
}

/// The configuration of the application.
pub struct Config {
    pub server_path: String,
    pub model_path: String,
    pub port: u16,
    pub n_gpu_layers: i32,
    pub n_ctx: u32,
    pub threads: u32,
    pub system_prompt: String,
    pub theme: String,
    pub connection_type: ConnectionType,
    pub remote_url: String,
    pub remote_api_key: Option<String>,
    pub encryption_enabled: bool,
    pub encryption_password: Option<String>,
    pub max_messages: usize,
    pub session_id: Option<String>,
    pub reasoning_effort: ReasoningEffort,
}

/// What a configuration says.
#[verifier::ext_equal]
pub struct ConfigView {
    pub server_path: Seq<char>,
    pub model_path: Seq<char>,
    pub port: u16,
    pub n_gpu_layers: i32,
    pub n_ctx: u32,
    pub threads: u32,
    pub system_prompt: Seq<char>,
    pub theme: Seq<char>,
    pub connection_type: ConnectionType,
    pub remote_url: Seq<char>,
    pub remote_api_key: Option<Seq<char>>,
    pub encryption_enabled: bool,
    pub encryption_password: Option<Seq<char>>,
    pub max_messages: usize,
    pub session_id: Option<Seq<char>>,
    pub reasoning_effort: ReasoningEffort,
}

impl View for Config {
    type V = ConfigView;

    open spec fn view(&self) -> ConfigView {
        ConfigView {
            server_path: self.server_path@,
            model_path: self.model_path@,
            port: self.port,
            n_gpu_layers: self.n_gpu_layers,
            n_ctx: self.n_ctx,
            threads: self.threads,
            system_prompt: self.system_prompt@,
            theme: self.theme@,
            connection_type: self.connection_type,
            remote_url: self.remote_url@,
            remote_api_key: opt_text(self.remote_api_key),
            encryption_enabled: self.encryption_enabled,
            encryption_password: opt_text(self.encryption_password),
            max_messages: self.max_messages,
            session_id: opt_text(self.session_id),
            reasoning_effort: self.reasoning_effort,
        }
    }
}

impl Config {
    /// Switch between the dark and the light theme; any other theme becomes
    /// the dark one.
    pub fn toggle_theme(&mut self)
        ensures
            final(self)@ == (ConfigView {
                theme: toggled_theme(old(self)@.theme),
                ..old(self)@
            }),
    {
        self.theme = if same_text(self.theme.as_str(), "dark") {
            "light".to_owned()
        } else {
            "dark".to_owned()
        };
    }

    /// Take over the effort that is selected in the interface before the
    /// configuration is written.
    pub fn before_save(&mut self, reasoning_effort: ReasoningEffort)
        ensures
            final(self)@ == (ConfigView { reasoning_effort, ..old(self)@ }),
    {
        self.reasoning_effort = reasoning_effort;
    }
}

/// The settings dialog.
pub struct SettingsDialog {
    pub server_path: String,
    pub model_path: String,
    pub port: u16,
    pub n_gpu_layers: i32,
    pub n_ctx: u32,
    pub threads: u32,
    pub system_prompt: String,
    pub theme: String,
    pub connection_type: String,
    pub remote_url: String,
    pub remote_api_key: String,
    pub encryption_enabled: bool,
    pub encryption_password: String,
    pub max_messages: usize,
    /// Set to signal the app to open the presets dialog.
    pub show_presets: bool,
}

/// What the dialog holds.
#[verifier::ext_equal]
pub struct SettingsView {
    pub server_path: Seq<char>,
    pub model_path: Seq<char>,
    pub port: u16,
    pub n_gpu_layers: i32,
    pub n_ctx: u32,
    pub threads: u32,
    pub system_prompt: Seq<char>,
    pub theme: Seq<char>,
    pub connection_type: Seq<char>,
    pub remote_url: Seq<char>,
    pub remote_api_key: Seq<char>,
    pub encryption_enabled: bool,
    pub encryption_password: Seq<char>,
    pub max_messages: usize,
    pub show_presets: bool,
}

impl View for SettingsDialog {
    type V = SettingsView;

    open spec fn view(&self) -> SettingsView {
        SettingsView {
            server_path: self.server_path@,
            model_path: self.model_path@,
            port: self.port,
            n_gpu_layers: self.n_gpu_layers,
            n_ctx: self.n_ctx,
            threads: self.threads,
            system_prompt: self.system_prompt@,
            theme: self.theme@,
            connection_type: self.connection_type@,
            remote_url: self.remote_url@,
            remote_api_key: self.remote_api_key@,
            encryption_enabled: self.encryption_enabled,
            encryption_password: self.encryption_password@,
            max_messages: self.max_messages,
            show_presets: self.show_presets,
        }
    }
}

/// The text of an optional secret.
pub open spec fn secret_text(s: Option<Seq<char>>) -> Seq<char> {
    match s {
        Some(t) => t,
        None => Seq::empty(),
    }
}

/// The secret that a text gives: none where it is empty.
pub open spec fn secret_of(s: Seq<char>) -> Option<Seq<char>> {
    if s.len() == 0 {
        None
    } else {
        Some(s)
    }
}

/// The dialog on a configuration.
pub open spec fn settings_of(c: ConfigView, show_presets: bool) -> SettingsView {
    SettingsView {
        server_path: c.server_path,
        model_path: c.model_path,
        port: c.port,
        n_gpu_layers: c.n_gpu_layers,
        n_ctx: c.n_ctx,
        threads: c.threads,
        system_prompt: c.system_prompt,
        theme: c.theme,
        connection_type: match c.connection_type {
            ConnectionType::Local => "local"@,
            ConnectionType::Remote => "remote"@,
        },
        remote_url: c.remote_url,
        remote_api_key: secret_text(c.remote_api_key),
        encryption_enabled: c.encryption_enabled,
        encryption_password: secret_text(c.encryption_password),
        max_messages: c.max_messages,
        show_presets,
    }
}

/// The configuration after the dialog was saved.
pub open spec fn settings_saved(d: SettingsView, c: ConfigView) -> ConfigView {
    ConfigView {
        server_path: d.server_path,
        model_path: d.model_path,
        port: d.port,
        n_gpu_layers: d.n_gpu_layers,
        n_ctx: d.n_ctx,
        threads: d.threads,
        system_prompt: d.system_prompt,
        theme: d.theme,
        max_messages: d.max_messages,
        connection_type: if d.connection_type == "remote"@ {
            ConnectionType::Remote
        } else {
            ConnectionType::Local
        },
        remote_url: d.remote_url,
        remote_api_key: secret_of(d.remote_api_key),
        encryption_enabled: d.encryption_enabled,
        encryption_password: secret_of(d.encryption_password),
        ..c
    }
}

fn copy_secret(s: &Option<String>) -> (r: String)
    ensures
        r@ == secret_text(opt_text(*s)),
{
    match s {
        Some(t) => t.clone(),
        None => String::new(),
    }
}

fn secret(s: &String) -> (r: Option<String>)
    ensures
        opt_text(r) == secret_of(s@),
{
    if s.as_str().is_empty() {
        None
    } else {
        Some(s.clone())
    }
}

impl SettingsDialog {
    /// The dialog on a configuration.
    pub fn new(config: &Config) -> (r: Self)
        ensures
            r@ == settings_of(config@, false),
    {
        SettingsDialog::new_with_presets_flag(config, false)
    }

    /// The dialog on a configuration, with the given presets signal.
    pub fn new_with_presets_flag(config: &Config, show_presets: bool) -> (r: Self)
        ensures
            r@ == settings_of(config@, show_presets),
    {
        SettingsDialog {
            server_path: config.server_path.clone(),
            model_path: config.model_path.clone(),
            port: config.port,
            n_gpu_layers: config.n_gpu_layers,
            n_ctx: config.n_ctx,
            threads: config.threads,
            system_prompt: config.system_prompt.clone(),
            theme: config.theme.clone(),
            connection_type: match config.connection_type {
                ConnectionType::Local => "local".to_owned(),
                ConnectionType::Remote => "remote".to_owned(),
            },
            remote_url: config.remote_url.clone(),
            remote_api_key: copy_secret(&config.remote_api_key),
            encryption_enabled: config.encryption_enabled,
            encryption_password: copy_secret(&config.encryption_password),
            max_messages: config.max_messages,
            show_presets,
        }
    }

    /// Whether the fields of a remote connection are shown.
    pub fn shows_remote_fields(&self) -> (r: bool)
        ensures
            r == (self@.connection_type == "remote"@),
    {
        same_text(self.connection_type.as_str(), "remote")
    }

    /// Write the dialog into the configuration. An empty key or password is
    /// none; a connection type that is not remote is local.
    pub fn save(&self, config: &mut Config)
        ensures
            final(config)@ == settings_saved(self@, old(config)@),
    {
        config.server_path = self.server_path.clone();
        config.model_path = self.model_path.clone();
        config.port = self.port;
        config.n_gpu_layers = self.n_gpu_layers;
        config.n_ctx = self.n_ctx;
        config.threads = self.threads;
        config.system_prompt = self.system_prompt.clone();
        config.theme = self.theme.clone();
        config.max_messages = self.max_messages;
        config.connection_type = if same_text(self.connection_type.as_str(), "remote") {
            ConnectionType::Remote
        } else {
            ConnectionType::Local
        };
        config.remote_url = self.remote_url.clone();
        config.remote_api_key = secret(&self.remote_api_key);
        config.encryption_enabled = self.encryption_enabled;
        config.encryption_password = secret(&self.encryption_password);
    }

    /// Throw the dialog's changes away.
    pub fn reset(&mut self, config: &Config)
        ensures
            final(self)@ == settings_of(config@, false),
    {
        *self = SettingsDialog::new(config);
    }
}

// ---------------------------------------------------------------------------
// Laws
// ---------------------------------------------------------------------------

/// What was saved is what a new dialog shows.
pub proof fn saved_settings_read_back(d: SettingsView, c: ConfigView)
    requires
        d.connection_type == "local"@ || d.connection_type == "remote"@,
    ensures
        settings_of(settings_saved(d, c), d.show_presets) == d,
{
    reveal_strlit("local");
    reveal_strlit("remote");
    assert("local"@.len() != "remote"@.len());
    if d.remote_api_key.len() == 0 {
        assert(d.remote_api_key =~= Seq::empty());
    }
    if d.encryption_password.len() == 0 {
        assert(d.encryption_password =~= Seq::empty());
    }
}

/// Saving an untouched dialog changes nothing in the configuration, where no
/// key or password in it is empty.
pub proof fn saving_untouched_settings_changes_nothing(c: ConfigView, show_presets: bool)
    requires
        c.remote_api_key matches Some(k) ==> k.len() > 0,
        c.encryption_password matches Some(p) ==> p.len() > 0,
    ensures
        settings_saved(settings_of(c, show_presets), c) == c,
{
    reveal_strlit("local");
    reveal_strlit("remote");
    assert("local"@.len() != "remote"@.len());
}

/// Toggling the theme twice gives back the dark and the light theme.
pub proof fn toggling_the_theme_twice_undoes(theme: Seq<char>)
    requires
        theme == "dark"@ || theme == "light"@,
    ensures
        toggled_theme(toggled_theme(theme)) == theme,
{
    reveal_strlit("dark");
    reveal_strlit("light");
    assert("dark"@.len() != "light"@.len());
}

} // verus!

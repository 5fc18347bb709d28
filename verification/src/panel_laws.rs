//! What the settings, the presets, the themes and the status line show and keep.

use vstd::prelude::*;

use crate::chat_state::{ChatView, StatusView};
use crate::numbers::{decimal, quotient_text};
use crate::presets_dialog::{PresetType, PresetView, PresetsView};
use crate::settings::{
    settings_of, settings_saved, toggled_theme, ConfigView, ConnectionType, SettingsView,
};
use crate::startup::paste_noise;
use crate::status::{
    beyond_cache, enabled_among, server_words, status_words, tool_names, tools_words,
};
use crate::theme::{dark_theme, light_theme, theme_name, theme_named, Rgba, Theme};
use crate::usage_panel::{
    after_read, call_words, fresh_panel, stamp_pattern, token_words, wanted, window_words,
    Granularity, LogRead, Range, UsageEntry, UsageView,
};

verus! {

// ---------------------------------------------------------------------------
// Settings
// ---------------------------------------------------------------------------

/// The settings form shows each setting as it is; a secret that is not set is shown
/// empty.
pub proof fn the_form_shows_the_settings(c: ConfigView, show_presets: bool)
    ensures
        ({
            let d = settings_of(c, show_presets);
            &&& d.server_path == c.server_path
            &&& d.model_path == c.model_path
            &&& d.port == c.port
            &&& d.n_gpu_layers == c.n_gpu_layers
            &&& d.n_ctx == c.n_ctx
            &&& d.threads == c.threads
            &&& d.system_prompt == c.system_prompt
            &&& d.theme == c.theme
            &&& c.connection_type == ConnectionType::Local ==> d.connection_type == "local"@
            &&& c.connection_type == ConnectionType::Remote ==> d.connection_type == "remote"@
            &&& d.remote_url == c.remote_url
            &&& c.remote_api_key matches Some(k) ==> d.remote_api_key == k
            &&& c.remote_api_key is None ==> d.remote_api_key.len() == 0
            &&& d.encryption_enabled == c.encryption_enabled
            &&& c.encryption_password matches Some(p) ==> d.encryption_password == p
            &&& c.encryption_password is None ==> d.encryption_password.len() == 0
            &&& d.max_messages == c.max_messages
            &&& d.show_presets == show_presets
        }),
{
}

/// Saving writes each field of the form into its setting; an empty secret is not set.
/// The session and the reasoning effort are no part of the form and stay.
pub proof fn saving_writes_the_form(d: SettingsView, c: ConfigView)
    ensures
        ({
            let after = settings_saved(d, c);
            &&& after.server_path == d.server_path
            &&& after.model_path == d.model_path
            &&& after.port == d.port
            &&& after.n_gpu_layers == d.n_gpu_layers
            &&& after.n_ctx == d.n_ctx
            &&& after.threads == d.threads
            &&& after.system_prompt == d.system_prompt
            &&& after.theme == d.theme
            &&& after.connection_type == ConnectionType::Remote <==> d.connection_type == "remote"@
            &&& after.remote_url == d.remote_url
            &&& d.remote_api_key.len() > 0 ==> after.remote_api_key == Some(d.remote_api_key)
            &&& d.remote_api_key.len() == 0 ==> after.remote_api_key is None
            &&& after.encryption_enabled == d.encryption_enabled
            &&& d.encryption_password.len() > 0 ==> after.encryption_password == Some(
                d.encryption_password,
            )
            &&& d.encryption_password.len() == 0 ==> after.encryption_password is None
            &&& after.max_messages == d.max_messages
            &&& after.session_id == c.session_id
            &&& after.reasoning_effort == c.reasoning_effort
        }),
{
}

/// The theme switch goes from the dark theme to the light one, and from any other to
/// the dark one.
pub proof fn the_theme_switch_goes_to_the_other(theme: Seq<char>)
    ensures
        toggled_theme("dark"@) == "light"@,
        toggled_theme("light"@) == "dark"@,
        theme != "dark"@ ==> toggled_theme(theme) == "dark"@,
{
    reveal_strlit("dark");
    reveal_strlit("light");
}

// ---------------------------------------------------------------------------
// Presets
// ---------------------------------------------------------------------------

/// A new preset holds what was typed for its kind; an empty key is none.
pub proof fn a_preset_holds_what_was_typed(p: PresetsView)
    ensures
        p.new_type == PresetType::Local ==> p.described() == (PresetView::Local {
            name: p.new_name,
            server_path: p.new_server_path,
            model_path: p.new_model_path,
            port: p.new_port,
            n_gpu_layers: p.new_n_gpu_layers,
            n_ctx: p.new_n_ctx,
            threads: p.new_threads,
        }),
        p.new_type == PresetType::Remote && p.new_remote_api_key.len() > 0 ==> p.described() == (
        PresetView::Remote {
            name: p.new_name,
            remote_url: p.new_remote_url,
            remote_api_key: Some(p.new_remote_api_key),
        }),
        p.new_type == PresetType::Remote && p.new_remote_api_key.len() == 0 ==> p.described() == (
        PresetView::Remote {
            name: p.new_name,
            remote_url: p.new_remote_url,
            remote_api_key: None,
        }),
{
}

/// An empty preset form describes a local server with its defaults; what is selected
/// and what is shown stay.
pub proof fn an_empty_preset_has_the_defaults(p: PresetsView)
    ensures
        p.cleared().described() == (PresetView::Local {
            name: Seq::empty(),
            server_path: Seq::empty(),
            model_path: Seq::empty(),
            port: 8080,
            n_gpu_layers: 99,
            n_ctx: 4096,
            threads: 8,
        }),
        p.cleared().new_remote_url.len() == 0,
        p.cleared().new_remote_api_key.len() == 0,
        p.cleared().selected_index == p.selected_index,
        p.cleared().show_add_form == p.show_add_form,
        p.cleared().message == p.message,
{
}

// ---------------------------------------------------------------------------
// Themes
// ---------------------------------------------------------------------------

/// Whether a color is darker than another in each of its parts.
pub open spec fn darker(a: Rgba, b: Rgba) -> bool {
    a.r < b.r && a.g < b.g && a.b < b.b
}

/// Whether a color covers what is behind it.
pub open spec fn covers(a: Rgba) -> bool {
    a.a == 255
}

/// Whether every color of a theme covers what is behind it, but for the hover.
pub open spec fn covers_all(t: Theme) -> bool {
    &&& covers(t.background) && covers(t.surface) && covers(t.surface_light) && covers(t.border)
    &&& covers(t.primary) && covers(t.text_primary) && covers(t.text_secondary)
    &&& covers(t.text_dim) && covers(t.success) && covers(t.warning) && covers(t.error)
    &&& covers(t.accent) && covers(t.selected_bg) && covers(t.panel_bg) && covers(t.user_bg)
    &&& covers(t.ai_bg) && covers(t.tool_bg) && covers(t.bubble_border) && covers(t.code_bg)
    &&& covers(t.code_border) && covers(t.code_text) && covers(t.divider) && covers(t.badge_bg)
    &&& covers(t.badge_text)
}

/// The dark theme has light text on dark surfaces, the light theme dark text on light
/// ones; text fades from the primary to the dim; the colors cover what is behind
/// them, and the hover is a veil of the text's brightness.
pub proof fn text_stands_out_in_both_themes()
    ensures
        ({
            let d = dark_theme();
            let l = light_theme();
            &&& covers_all(d) && covers_all(l)
            &&& darker(d.background, d.surface) && darker(d.surface, d.surface_light)
            &&& darker(d.surface_light, d.text_dim) && darker(d.text_dim, d.text_secondary)
            &&& darker(d.text_secondary, d.text_primary) && darker(d.code_bg, d.code_text)
            &&& darker(d.ai_bg, d.text_dim) && darker(d.badge_bg, d.badge_text)
            &&& darker(d.tool_bg, d.text_dim)
            &&& darker(l.text_primary, l.text_secondary) && darker(l.text_secondary, l.text_dim)
            &&& darker(l.text_dim, l.surface_light) && darker(l.surface_light, l.background)
            &&& darker(l.background, l.surface) && darker(l.code_text, l.code_bg)
            &&& darker(l.text_dim, l.ai_bg) && darker(l.badge_text, l.badge_bg)
            &&& darker(l.text_dim, l.tool_bg)
            &&& d.panel_bg == d.surface && l.panel_bg == l.surface
            &&& d.selected_bg == d.primary && l.selected_bg == l.primary
            &&& d.hover_bg == (Rgba { r: 255, g: 255, b: 255, a: 16 })
            &&& l.hover_bg == (Rgba { r: 0, g: 0, b: 0, a: 16 })
        }),
{
}

/// The light theme is found by its name, and the dark one by any other; each has the
/// name it is found by.
pub proof fn themes_are_found_by_name(name: Seq<char>)
    ensures
        theme_named(name).is_light <==> name == "light"@,
        theme_named(name) == light_theme() || theme_named(name) == dark_theme(),
        theme_name(light_theme()) == "light"@,
        theme_name(dark_theme()) == "dark"@,
{
}

// ---------------------------------------------------------------------------
// The status line
// ---------------------------------------------------------------------------

/// Each status has its words; an error is shown in full elsewhere.
pub proof fn each_status_has_its_words(e: Seq<char>)
    ensures
        status_words(StatusView::Stopped) == Some("● Stopped"@),
        status_words(StatusView::Connecting) == Some("● Connecting..."@),
        status_words(StatusView::Ready) == Some("● Ready"@),
        status_words(StatusView::Generating) == Some("● Generating..."@),
        status_words(StatusView::Error(e)) is None,
{
}

/// The running tools are counted and named, each of them.
pub proof fn the_running_tools_are_named(chat: ChatView, i: int)
    requires
        0 <= i < chat.active_tools.len(),
    ensures
        tool_names(chat).len() == chat.active_tools.len(),
        tool_names(chat)[i] == chat.active_tools[i].tool_name,
        tools_words(1) == "🔧 "@ + decimal(1) + " tool"@ + ""@ + " running"@,
        chat.active_tools.len() > 1 ==> tools_words(chat.active_tools.len()) == "🔧 "@ + decimal(
            chat.active_tools.len(),
        ) + " tool"@ + "s"@ + " running"@,
{
}

/// Exactly the enabled tools of a server are counted.
pub proof fn exactly_the_enabled_tools_are_counted(tools: Seq<bool>)
    ensures
        enabled_among(tools, tools.len() as int) == tools.filter(|on: bool| on).len(),
    decreases tools.len(),
{
    reveal(Seq::filter);
    if tools.len() > 0 {
        let rest = tools.drop_last();
        exactly_the_enabled_tools_are_counted(rest);
        lemma_enabled_prefix(tools, rest.len() as int);
        assert(tools.take(rest.len() as int) =~= rest);
    }
}

proof fn lemma_enabled_prefix(tools: Seq<bool>, n: int)
    requires
        0 <= n <= tools.len(),
    ensures
        enabled_among(tools, n) == enabled_among(tools.take(n), n),
    decreases n,
{
    if n > 0 {
        lemma_enabled_prefix(tools, n - 1);
        lemma_enabled_prefix(tools.take(n), n - 1);
        assert(tools.take(n).take(n - 1) =~= tools.take(n - 1));
        assert(tools.take(n)[n - 1] == tools[n - 1]);
    }
}

/// A server is shown with its name, its status and how many tools are enabled.
pub proof fn a_server_is_shown_with_its_tools(name: Seq<char>, status: Seq<char>, n: nat)
    ensures
        server_words(name, status, n) == name + ": "@ + status + " ("@ + decimal(n)
            + " enabled tools)"@,
{
}

/// What is shown of the prompt's progress is what the cache did not hold.
pub proof fn progress_leaves_out_the_cache(n: u64, cache: u64)
    ensures
        n >= cache ==> beyond_cache(n, cache) + cache == n,
        n < cache ==> beyond_cache(n, cache) == 0,
{
}

/// A log line is left out exactly if it comes from the clipboard and reports a failed
/// paste.
pub proof fn only_paste_errors_are_noise(target: Seq<char>, rest: Seq<char>)
    ensures
        paste_noise("egui_winit::clipboard"@, Some("arboard paste error"@ + rest)),
        target != "egui_winit::clipboard"@ ==> !paste_noise(
            target,
            Some("arboard paste error"@ + rest),
        ),
        !paste_noise(target, None),
        forall|m: Seq<char>|
            !"arboard paste error"@.is_prefix_of(m) ==> !#[trigger] paste_noise(target, Some(m)),
{
    assert("arboard paste error"@.is_prefix_of("arboard paste error"@ + rest));
}

// ---------------------------------------------------------------------------
// Usage
// ---------------------------------------------------------------------------

/// Each range of the usage panel has its window, and each granularity its stamp.
pub proof fn each_range_has_its_window()
    ensures
        window_words(Range::Hour) == "last 24 hours"@,
        window_words(Range::Day) == "last 30 days"@,
        window_words(Range::Week) == "last 12 weeks"@,
        stamp_pattern(Granularity::Hour) == "%Y-%m-%d %H:%M"@,
        stamp_pattern(Granularity::Day) == "%Y-%m-%d"@,
        stamp_pattern(Granularity::Week) == "%Y-%m-%d (Mon)"@,
{
}

/// A number of tokens is shown as it is up to 999, in thousands from there on, with a
/// decimal up to 9999, and in millions with a decimal from a million on.
pub proof fn tokens_are_shown_by_their_size(n: nat)
    ensures
        n < 1000 ==> token_words(n) == decimal(n),
        1000 <= n < 10_000 ==> token_words(n) == quotient_text(n, 1000, true) + "k"@,
        10_000 <= n < 1_000_000 ==> token_words(n) == quotient_text(n, 1000, false) + "k"@,
        n >= 1_000_000 ==> token_words(n) == quotient_text(n, 1_000_000, true) + "M"@,
        call_words(1) == decimal(1) + " call"@ + ""@,
        n != 1 ==> call_words(n) == decimal(n) + " call"@ + "s"@,
{
}

/// A new usage panel is hidden, shows days, and has the log still to read.
pub proof fn a_new_usage_panel_has_the_log_to_read(read: Seq<UsageEntry>)
    ensures
        ({
            let p = fresh_panel();
            let open = UsageView { show_panel: true, ..p };
            &&& !p.show_panel && p.range == Range::Day && p.entries.len() == 0
            &&& !p.loaded && p.dirty
            &&& wanted(p) == LogRead::Nothing
            &&& wanted(open) == LogRead::All
            &&& after_read(open, read) == (UsageView {
                entries: read,
                loaded: true,
                dirty: false,
                ..open
            })
        }),
{
}

/// An open panel that has read the log reads what was appended once there is
/// something, keeps what it has, and then reads nothing.
pub proof fn an_open_panel_reads_what_was_appended(p: UsageView, read: Seq<UsageEntry>)
    requires
        p.show_panel,
        p.loaded,
    ensures
        p.dirty ==> wanted(p) == LogRead::Appended && after_read(p, read) == (UsageView {
            entries: p.entries + read,
            dirty: false,
            ..p
        }),
        !p.dirty ==> wanted(p) == LogRead::Nothing && after_read(p, read) == p,
{
}

} // verus!

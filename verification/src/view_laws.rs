//! What is seen of each value: every part of it, under its own name.

use vstd::prelude::*;

use crate::agent_config::AgentConfigDialog;
use crate::agent_history::{history_views, HistoryEntry};
use crate::chat_area::DisplaySnapshot;
use crate::chat_state::{
    effect_views, opt_image, queue_views, session_views, tool_views, ActiveTool, AppStatus, ChatApp,
    ChatArea, ChatEffect, EffectView, PendingImage, PolicyView, QueuedMessage, SessionRuntime,
    StatusView, ToolPolicy,
};
use crate::improvements::{
    pending_agent_views, pending_views, proposal_views, suggestion_views, ImprovementSuggestion,
    ImprovementsPanel, NewAgentProposal, PendingImprovement, PendingNewAgent,
};
use crate::json::{trees, Json, JsonNumber, JsonTree};
use crate::mcp_edit::{
    opt_server, server_views, McpServerConfig, McpTransport, ServerEditState, TransportView,
};
use crate::mcp_panel::{opt_edit, opt_job, McpJob, McpPanel};
use crate::memory_panel::MemoryPanel;
use crate::messages::{save_view, FeedbackSave};
use crate::presets_dialog::{Preset, PresetView, PresetsDialog};
use crate::sessions_actions::{ActionView, FileRequest, PanelAction, RequestView};
use crate::sessions_panel::{stored_views, SessionsPanel, StoredSession};
use crate::settings::{Config, SettingsDialog};
use crate::text::{opt_text, pair_texts, texts};
use crate::tool_cards::ToolCardInfo;
use crate::tool_json::{opt_block, rows_view, KvRow, LineBlock, ShownResult, ToolResultView};
use crate::types::{
    agent_views, message_views, opt_shell, opt_texts, AgentConfig, ChatMessage, MemoryEntry,
    ShellConfig,
};
use crate::usage_panel::UsagePanel;

verus! {

/// A list of strings is seen as their texts, in their order.
pub proof fn strings_are_seen_as_texts(
    v: Seq<String>,
    pairs: Seq<(String, String)>,
    s: String,
    i: int,
)
    ensures
        texts(v).len() == v.len(),
        0 <= i < v.len() ==> texts(v)[i] == v[i]@,
        pair_texts(pairs).len() == pairs.len(),
        0 <= i < pairs.len() ==> pair_texts(pairs)[i] == (pairs[i].0@, pairs[i].1@),
        opt_text(Some(s)) == Some(s@),
        opt_text(None) is None,
{
}

// ---------------------------------------------------------------------------
// Messages, memories and profiles
// ---------------------------------------------------------------------------

/// Each part of a chat message is seen as what it is.
pub proof fn a_chat_message_is_seen_whole(x: ChatMessage)
    ensures
        x@.kind == x.kind,
        x@.role == x.role@,
        x@.content == x.content@,
        x@.timestamp == x.timestamp@,
        x@.image == opt_text(x.image),
{
}

/// Each part of a shell config is seen as what it is.
pub proof fn a_shell_config_is_seen_whole(x: ShellConfig)
    ensures
        x@.allowed_commands == texts(x.allowed_commands@),
        x@.shell_type == x.shell_type@,
        x@.shell_timeout_ms == x.shell_timeout_ms,
        x@.shell_enabled == x.shell_enabled,
        x@.working_dir == opt_text(x.working_dir),
{
}

/// Each part of an agent config is seen as what it is.
pub proof fn an_agent_config_is_seen_whole(x: AgentConfig)
    ensures
        x@.name == x.name@,
        x@.description == x.description@,
        x@.system_prompt == x.system_prompt@,
        x@.allowed_tools == texts(x.allowed_tools@),
        x@.enabled == x.enabled,
        x@.task_timeout_ms == x.task_timeout_ms,
        x@.shell_config == x.shell_config@,
        x@.agents_dir == x.agents_dir@,
        x@.agents_search_dirs == texts(x.agents_search_dirs@),
        x@.custom_prompts == pair_texts(x.custom_prompts@),
        x@.reasoning_effort == x.reasoning_effort,
        x@.trim_config == opt_text(x.trim_config),
        x@.handoff_enabled == x.handoff_enabled,
        x@.handoff_targets == texts(x.handoff_targets@),
        x@.restart_enabled == x.restart_enabled,
{
}

/// Each part of a memory entry is seen as what it is.
pub proof fn a_memory_entry_is_seen_whole(x: MemoryEntry)
    ensures
        x@.kind == x.kind,
        x@.content == x.content@,
        x@.source == x.source@,
        x@.tags == texts(x.tags@),
{
}

// ---------------------------------------------------------------------------
// The chat
// ---------------------------------------------------------------------------

/// Each part of an app status is seen as what it is.
pub proof fn an_app_status_is_seen_whole(x: AppStatus)
    ensures
        x@ == (match x {
            AppStatus::Stopped => StatusView::Stopped,
            AppStatus::Connecting => StatusView::Connecting,
            AppStatus::Ready => StatusView::Ready,
            AppStatus::Generating => StatusView::Generating,
            AppStatus::Error(e) => StatusView::Error(e@),
        }),
{
}

/// Each part of an active tool is seen as what it is.
pub proof fn an_active_tool_is_seen_whole(x: ActiveTool)
    ensures
        x@.tool_name == x.tool_name@,
        x@.call_id == x.call_id@,
        x@.args_preview == x.args_preview@,
        x@.started_ms == x.started_ms,
        x@.live_output == x.live_output@,
{
}

/// Each part of a pending image is seen as what it is.
pub proof fn a_pending_image_is_seen_whole(x: PendingImage)
    ensures
        x@.uri == x.uri@,
        x@.bytes == x.bytes@,
{
}

/// Each part of a tool policy is seen as what it is.
pub proof fn a_tool_policy_is_seen_whole(x: ToolPolicy)
    ensures
        x@ == (match x {
            ToolPolicy::Unrestricted => PolicyView::Unrestricted,
            ToolPolicy::Profile {
                allowed_tools,
                shell_config,
                agent_name,
                handoff_enabled,
                handoff_targets,
                restart_enabled,
                reasoning_effort,
                trim_config,
            } => PolicyView::Profile {
                allowed_tools: texts(allowed_tools@),
                shell_config: shell_config@,
                agent_name: agent_name@,
                handoff_enabled,
                handoff_targets: texts(handoff_targets@),
                restart_enabled,
                reasoning_effort,
                trim_config: opt_text(trim_config),
            },
        }),
{
}

/// Each part of a queued message is seen as what it is.
pub proof fn a_queued_message_is_seen_whole(x: QueuedMessage)
    ensures
        x@.text == x.text@,
        x@.image == opt_image(x.image),
        x@.agent_prompt == x.agent_prompt@,
        x@.tool_policy == x.tool_policy@,
{
}

/// Each part of a chat area is seen as what it is.
pub proof fn a_chat_area_is_seen_whole(x: ChatArea)
    ensures
        x@.messages == message_views(x.messages@),
        x@.input_text == x.input_text@,
        x@.stream_buffer == x.stream_buffer@,
        x@.current_thinking == x.current_thinking@,
        x@.is_generating == x.is_generating,
        x@.pending_error == opt_text(x.pending_error),
        x@.pending_image == opt_image(x.pending_image),
        x@.queued_messages == queue_views(x.queued_messages@),
        x@.active_tools == tool_views(x.active_tools@),
        x@.prompt_progress == x.prompt_progress,
        x@.token_count == x.token_count,
        x@.status == x.status@,
        x@.expanded_messages == x.expanded_messages@,
        x@.editing_message_index == x.editing_message_index,
        x@.editing_message_content == x.editing_message_content@,
        x@.message_ratings == x.message_ratings@,
        x@.feedback_comment_for == x.feedback_comment_for,
        x@.feedback_comment == x.feedback_comment@,
{
}

/// Each part of a session runtime is seen as what it is.
pub proof fn a_session_runtime_is_seen_whole(x: SessionRuntime)
    ensures
        x@.id == x.id@,
        x@.name == x.name@,
        x@.selected_agent == opt_text(x.selected_agent),
        x@.chat == x.chat@,
        x@.conversation == message_views(x.conversation@),
{
}

/// Each part of a chat app is seen as what it is.
pub proof fn the_chat_app_is_seen_whole(x: ChatApp)
    ensures
        x@.sessions == session_views(x.sessions@),
        x@.selected_session_id == opt_text(x.selected_session_id),
        x@.status == x.status@,
        x@.reasoning_effort == x.reasoning_effort,
        x@.remote_n_ctx == x.remote_n_ctx,
        x@.event_channel == x.event_channel,
        x@.usage_dirty == x.usage_dirty,
        x@.display_dirty == x.display_dirty,
        x@.improvements_panel == x.improvements_panel@,
{
}

/// Each part of a chat effect is seen as what it is.
pub proof fn a_chat_effect_is_seen_whole(x: ChatEffect)
    ensures
        x@ == (match x {
            ChatEffect::StreamChunk { session_id, content } => EffectView::StreamChunk {
                session_id: session_id@,
                content: content@,
            },
            ChatEffect::StreamThinkingChunk { session_id, content } =>
                EffectView::StreamThinkingChunk { session_id: session_id@, content: content@ },
            ChatEffect::CommitStream { session_id } => EffectView::CommitStream {
                session_id: session_id@,
            },
            ChatEffect::AppendMessage { session_id, role, content } => EffectView::AppendMessage {
                session_id: session_id@,
                role: role@,
                content: content@,
            },
            ChatEffect::PushMessage { session_id, kind, role, content } =>
                EffectView::PushMessage {
                session_id: session_id@,
                kind,
                role: role@,
                content: content@,
            },
            ChatEffect::UpdateLiveEstimates { session_id, n_ctx } =>
                EffectView::UpdateLiveEstimates { session_id: session_id@, n_ctx },
            ChatEffect::ShowPromptSpeed { session_id } => EffectView::ShowPromptSpeed {
                session_id: session_id@,
            },
            ChatEffect::ShowUsage { session_id, n_ctx } => EffectView::ShowUsage {
                session_id: session_id@,
                n_ctx,
            },
            ChatEffect::RefreshTokenGauge { session_id, n_ctx } => EffectView::RefreshTokenGauge {
                session_id: session_id@,
                n_ctx,
            },
            ChatEffect::SetSessionMeta { session_id } => EffectView::SetSessionMeta {
                session_id: session_id@,
            },
            ChatEffect::SaveSession { session_id } => EffectView::SaveSession {
                session_id: session_id@,
            },
            ChatEffect::CancelPipeline { session_id } => EffectView::CancelPipeline {
                session_id: session_id@,
            },
            ChatEffect::StartPipeline {
                session_id,
                text,
                agent_prompt,
                tool_policy,
                image_data_uri,
                n_ctx,
                reasoning_effort,
            } => EffectView::StartPipeline {
                session_id: session_id@,
                text: text@,
                agent_prompt: agent_prompt@,
                tool_policy: tool_policy@,
                image_data_uri: opt_text(image_data_uri),
                n_ctx,
                reasoning_effort,
            },
            ChatEffect::Notify { session_id, text, success } => EffectView::Notify {
                session_id: session_id@,
                text: text@,
                success,
            },
            ChatEffect::ReloadMcpServers => EffectView::ReloadMcpServers,
            ChatEffect::Restart { reason, exe_path } => EffectView::Restart {
                reason: reason@,
                exe_path: opt_text(exe_path),
            },
        }),
{
}

/// Each part of a display snapshot is seen as what it is.
pub proof fn a_display_snapshot_is_seen_whole(x: DisplaySnapshot)
    ensures
        x@.messages == message_views(x.messages@),
        x@.session == opt_text(x.session),
        x@.len == x.len,
{
}

/// Each part of an agent config dialog is seen as what it is.
pub proof fn an_agent_config_dialog_is_seen_whole(x: AgentConfigDialog)
    ensures
        x@.agents == agent_views(x.agents@),
        x@.selected_index == x.selected_index,
        x@.is_new == x.is_new,
        x@.name == x.name@,
        x@.description == x.description@,
        x@.system_prompt == x.system_prompt@,
        x@.enabled == x.enabled,
        x@.reasoning_effort == x.reasoning_effort,
        x@.shell_enabled == x.shell_enabled,
        x@.shell_type == x.shell_type@,
        x@.shell_timeout_ms == x.shell_timeout_ms,
        x@.shell_allowed_commands == x.shell_allowed_commands@,
        x@.handoff_enabled == x.handoff_enabled,
        x@.handoff_targets == x.handoff_targets@,
        x@.tool_checkboxes == x.tool_checkboxes@,
        x@.available_tools == texts(x.available_tools@),
        x@.allowed_tools == texts(x.allowed_tools@),
        x@.message == opt_text(x.message),
        x@.open == x.open,
{
}

/// Each part of a history entry is seen as what it is.
pub proof fn a_history_entry_is_seen_whole(x: HistoryEntry)
    ensures
        x@.dir == x.dir@,
        x@.path == x.path@,
        x@.ts == x.ts,
        x@.seq == x.seq,
{
}

// ---------------------------------------------------------------------------
// Suggestions
// ---------------------------------------------------------------------------

/// Each part of a new agent proposal is seen as what it is.
pub proof fn a_new_agent_proposal_is_seen_whole(x: NewAgentProposal)
    ensures
        x@.name == x.name@,
        x@.description == x.description@,
        x@.system_prompt == x.system_prompt@,
        x@.allowed_tools == texts(x.allowed_tools@),
{
}

/// Each part of an improvement suggestion is seen as what it is.
pub proof fn an_improvement_suggestion_is_seen_whole(x: ImprovementSuggestion)
    ensures
        x@.agent_name == x.agent_name@,
        x@.prompt_change == opt_text(x.prompt_change),
        x@.rationale == x.rationale@,
        x@.new_agents == proposal_views(x.new_agents@),
        x@.allowed_tools == opt_texts(x.allowed_tools),
        x@.reasoning_effort == x.reasoning_effort,
        x@.shell_config == opt_shell(x.shell_config),
        x@.handoff_targets == opt_texts(x.handoff_targets),
        x@.task_timeout_ms == x.task_timeout_ms,
        x@.evidence == texts(x.evidence@),
{
}

/// Each part of a pending new agent is seen as what it is.
pub proof fn a_pending_new_agent_is_seen_whole(x: PendingNewAgent)
    ensures
        x@.proposal == x.proposal@,
        x@.edited_system_prompt == x.edited_system_prompt@,
{
}

/// Each part of a pending improvement is seen as what it is.
pub proof fn a_pending_improvement_is_seen_whole(x: PendingImprovement)
    ensures
        x@.agent_name == x.agent_name@,
        x@.prompt_change == opt_text(x.prompt_change),
        x@.edited_prompt == opt_text(x.edited_prompt),
        x@.rationale == x.rationale@,
        x@.new_agents == pending_agent_views(x.new_agents@),
        x@.revert_armed == x.revert_armed,
        x@.allowed_tools == opt_texts(x.allowed_tools),
        x@.reasoning_effort == x.reasoning_effort,
        x@.shell_config == opt_shell(x.shell_config),
        x@.handoff_targets == opt_texts(x.handoff_targets),
        x@.task_timeout_ms == x.task_timeout_ms,
        x@.apply_prompt == x.apply_prompt,
        x@.apply_allowed_tools == x.apply_allowed_tools,
        x@.apply_reasoning_effort == x.apply_reasoning_effort,
        x@.apply_shell_config == x.apply_shell_config,
        x@.apply_handoff_targets == x.apply_handoff_targets,
        x@.apply_task_timeout == x.apply_task_timeout,
        x@.evidence == texts(x.evidence@),
{
}

/// Each part of an improvements panel is seen as what it is.
pub proof fn an_improvements_panel_is_seen_whole(x: ImprovementsPanel)
    ensures
        x@.pending == pending_views(x.pending@),
        x@.show_panel == x.show_panel,
        x@.message == opt_text(x.message),
{
}

// ---------------------------------------------------------------------------
// Tool servers
// ---------------------------------------------------------------------------

/// Each part of a mcp transport is seen as what it is.
pub proof fn a_mcp_transport_is_seen_whole(x: McpTransport)
    ensures
        x@ == (match x {
            McpTransport::Stdio { command, args, env, working_dir } => TransportView::Stdio {
                command: command@,
                args: texts(args@),
                env: pair_texts(env@),
                working_dir: opt_text(working_dir),
            },
            McpTransport::Http { url, headers } => TransportView::Http {
                url: url@,
                headers: pair_texts(headers@),
            },
        }),
{
}

/// Each part of a mcp server config is seen as what it is.
pub proof fn a_mcp_server_config_is_seen_whole(x: McpServerConfig)
    ensures
        x@.name == x.name@,
        x@.transport == x.transport@,
        x@.enabled == x.enabled,
        x@.timeout_secs == x.timeout_secs,
        x@.allowed_tools == texts(x.allowed_tools@),
{
}

/// Each part of a server edit state is seen as what it is.
pub proof fn a_server_edit_state_is_seen_whole(x: ServerEditState)
    ensures
        x@.existing == opt_text(x.existing),
        x@.name == x.name@,
        x@.transport_kind == x.transport_kind,
        x@.command == x.command@,
        x@.args == x.args@,
        x@.env == x.env@,
        x@.working_dir == x.working_dir@,
        x@.url == x.url@,
        x@.headers == x.headers@,
        x@.enabled == x.enabled,
        x@.timeout_secs == x.timeout_secs,
        x@.allowed_tools == x.allowed_tools@,
{
}

/// Each part of a mcp panel is seen as what it is.
pub proof fn a_mcp_panel_is_seen_whole(x: McpPanel)
    ensures
        x@.show_panel == x.show_panel,
        x@.job == opt_job(x.job),
        x@.editing == opt_edit(x.editing),
        x@.pending_delete == opt_text(x.pending_delete),
        x@.message == opt_text(x.message),
        x@.expanded == texts(x.expanded@),
{
}

// ---------------------------------------------------------------------------
// Panels
// ---------------------------------------------------------------------------

/// Each part of a memory panel is seen as what it is.
pub proof fn a_memory_panel_is_seen_whole(x: MemoryPanel)
    ensures
        x@.show_panel == x.show_panel,
        x@.search == x.search@,
        x@.selected_id == opt_text(x.selected_id),
        x@.edit_content == x.edit_content@,
        x@.edit_tags == x.edit_tags@,
        x@.scroll_to_editor == x.scroll_to_editor,
        x@.pending_delete == opt_text(x.pending_delete),
        x@.message == opt_text(x.message),
        x@.maintenance_report == opt_text(x.maintenance_report),
        x@.maintenance == x.maintenance,
{
}

/// Each part of a preset is seen as what it is.
pub proof fn a_preset_is_seen_whole(x: Preset)
    ensures
        x@ == (match x {
            Preset::Local {
                name,
                server_path,
                model_path,
                port,
                n_gpu_layers,
                n_ctx,
                threads,
            } => PresetView::Local {
                name: name@,
                server_path: server_path@,
                model_path: model_path@,
                port,
                n_gpu_layers,
                n_ctx,
                threads,
            },
            Preset::Remote { name, remote_url, remote_api_key } => PresetView::Remote {
                name: name@,
                remote_url: remote_url@,
                remote_api_key: opt_text(remote_api_key),
            },
        }),
{
}

/// Each part of a presets dialog is seen as what it is.
pub proof fn a_presets_dialog_is_seen_whole(x: PresetsDialog)
    ensures
        x@.selected_index == x.selected_index,
        x@.show_add_form == x.show_add_form,
        x@.new_type == x.new_type,
        x@.new_name == x.new_name@,
        x@.new_server_path == x.new_server_path@,
        x@.new_model_path == x.new_model_path@,
        x@.new_port == x.new_port,
        x@.new_n_gpu_layers == x.new_n_gpu_layers,
        x@.new_n_ctx == x.new_n_ctx,
        x@.new_threads == x.new_threads,
        x@.new_remote_url == x.new_remote_url@,
        x@.new_remote_api_key == x.new_remote_api_key@,
        x@.message == opt_text(x.message),
{
}

/// Each part of a panel action is seen as what it is.
pub proof fn a_panel_action_is_seen_whole(x: PanelAction)
    ensures
        x@ == (match x {
            PanelAction::Rename { id, new_name } => ActionView::Rename {
                id: id@,
                new_name: new_name@,
            },
            PanelAction::Create(name) => ActionView::Create(name@),
            PanelAction::Delete(id) => ActionView::Delete(id@),
            PanelAction::Export { session_id } => ActionView::Export { session_id: session_id@ },
            PanelAction::Import => ActionView::Import,
        }),
{
}

/// Each part of a file request is seen as what it is.
pub proof fn a_file_request_is_seen_whole(x: FileRequest)
    ensures
        x@ == (match x {
            FileRequest::Rename { dir, id, new_name } => RequestView::Rename {
                dir: dir@,
                id: id@,
                new_name: new_name@,
            },
            FileRequest::Create { dir, name } => RequestView::Create { dir: dir@, name: name@ },
            FileRequest::Delete { dir, id } => RequestView::Delete { dir: dir@, id: id@ },
            FileRequest::Export { dir, id, output_path } => RequestView::Export {
                dir: dir@,
                id: id@,
                output_path: output_path@,
            },
            FileRequest::Import { dir, input_path } => RequestView::Import {
                dir: dir@,
                input_path: input_path@,
            },
        }),
{
}

/// Each part of a stored session is seen as what it is.
pub proof fn a_stored_session_is_seen_whole(x: StoredSession)
    ensures
        x@.id == x.id@,
        x@.name == x.name@,
        x@.messages == Seq::new(
            x.messages@.len(),
            |i: int| (x.messages@[i].role@, x.messages@[i].content@),
        ),
        x@.updated_at == x.updated_at@,
{
}

/// Each part of a sessions panel is seen as what it is.
pub proof fn a_sessions_panel_is_seen_whole(x: SessionsPanel)
    ensures
        x@.sessions == stored_views(x.sessions@),
        x@.selected_id == opt_text(x.selected_id),
        x@.sessions_dir == x.sessions_dir@,
        x@.renaming == opt_text(x.renaming),
        x@.rename_input == x.rename_input@,
        x@.creating == x.creating,
        x@.new_name == x.new_name@,
        x@.pending_delete == (match x.pending_delete {
            Some(p) => Some((p.0@, p.1@, p.2@)),
            None => None,
        }),
        x@.notification == (match x.notification {
            Some(n) => Some((n.0@, n.1)),
            None => None,
        }),
        x@.notification_start == x.notification_start,
        x@.export_path == x.export_path@,
        x@.import_path == x.import_path@,
{
}

/// Each part of a config is seen as what it is.
pub proof fn a_config_is_seen_whole(x: Config)
    ensures
        x@.server_path == x.server_path@,
        x@.model_path == x.model_path@,
        x@.port == x.port,
        x@.n_gpu_layers == x.n_gpu_layers,
        x@.n_ctx == x.n_ctx,
        x@.threads == x.threads,
        x@.system_prompt == x.system_prompt@,
        x@.theme == x.theme@,
        x@.connection_type == x.connection_type,
        x@.remote_url == x.remote_url@,
        x@.remote_api_key == opt_text(x.remote_api_key),
        x@.encryption_enabled == x.encryption_enabled,
        x@.encryption_password == opt_text(x.encryption_password),
        x@.max_messages == x.max_messages,
        x@.session_id == opt_text(x.session_id),
        x@.reasoning_effort == x.reasoning_effort,
{
}

/// Each part of a settings dialog is seen as what it is.
pub proof fn a_settings_dialog_is_seen_whole(x: SettingsDialog)
    ensures
        x@.server_path == x.server_path@,
        x@.model_path == x.model_path@,
        x@.port == x.port,
        x@.n_gpu_layers == x.n_gpu_layers,
        x@.n_ctx == x.n_ctx,
        x@.threads == x.threads,
        x@.system_prompt == x.system_prompt@,
        x@.theme == x.theme@,
        x@.connection_type == x.connection_type@,
        x@.remote_url == x.remote_url@,
        x@.remote_api_key == x.remote_api_key@,
        x@.encryption_enabled == x.encryption_enabled,
        x@.encryption_password == x.encryption_password@,
        x@.max_messages == x.max_messages,
        x@.show_presets == x.show_presets,
{
}

// ---------------------------------------------------------------------------
// Tool results
// ---------------------------------------------------------------------------

/// Each part of a tool card info is seen as what it is.
pub proof fn a_tool_card_info_is_seen_whole(x: ToolCardInfo)
    ensures
        x@.name == x.name@,
        x@.args == x.args@,
        x@.summary == x.summary@,
        x@.is_error == x.is_error,
        x@.duration_ms == x.duration_ms,
        x@.raw_result == x.raw_result@,
{
}

/// Each part of a line block is seen as what it is.
pub proof fn a_line_block_is_seen_whole(x: LineBlock)
    ensures
        x@.lines == texts(x.lines@),
        x@.more == opt_text(x.more),
{
}

/// Each part of a kv row is seen as what it is.
pub proof fn a_kv_row_is_seen_whole(x: KvRow)
    ensures
        x@ == (opt_text(x.key), x.value@),
{
}

/// Each part of a tool result view is seen as what it is.
pub proof fn a_tool_result_view_is_seen_whole(x: ToolResultView)
    ensures
        x@ == (match x {
            ToolResultView::NoOutput => ShownResult::NoOutput,
            ToolResultView::Shell { exit_code, duration_ms, truncated, stdout, stderr } =>
                ShownResult::Shell {
                exit_code,
                duration_ms,
                truncated,
                stdout: opt_block(stdout),
                stderr: opt_block(stderr),
            },
            ToolResultView::Directory { path, entries } => ShownResult::Directory {
                path: path@,
                entries: opt_block(entries),
            },
            ToolResultView::File { path, content } => ShownResult::File {
                path: path@,
                content: opt_text(content),
            },
            ToolResultView::Written { path, note } => ShownResult::Written {
                path: path@,
                note: opt_text(note),
            },
            ToolResultView::PathFields { path, rows } => ShownResult::PathFields {
                path: path@,
                rows: rows_view(rows@),
            },
            ToolResultView::Calculation { expression, result } => ShownResult::Calculation {
                expression: expression@,
                result: result@,
            },
            ToolResultView::Fields { rows } => ShownResult::Fields { rows: rows_view(rows@) },
            ToolResultView::Plain { text } => ShownResult::Plain { text: text@ },
        }),
{
}

/// Each part of a usage panel is seen as what it is.
pub proof fn a_usage_panel_is_seen_whole(x: UsagePanel)
    ensures
        x@.show_panel == x.show_panel,
        x@.range == x.range,
        x@.entries == x.entries@,
        x@.dirty == x.dirty,
        x@.loaded == x.loaded,
{
}

// ---------------------------------------------------------------------------
// Lists and options
// ---------------------------------------------------------------------------

/// A list is seen element by element, in its order.
pub proof fn a_list_is_seen_element_by_element(
    messages: Seq<ChatMessage>,
    agents: Seq<AgentConfig>,
    tools: Seq<ActiveTool>,
    queue: Seq<QueuedMessage>,
    sessions: Seq<SessionRuntime>,
    effects: Seq<ChatEffect>,
    stored: Seq<StoredSession>,
    servers: Seq<McpServerConfig>,
    i: int,
)
    ensures
        message_views(messages).len() == messages.len(),
        0 <= i < messages.len() ==> message_views(messages)[i] == messages[i]@,
        agent_views(agents).len() == agents.len(),
        0 <= i < agents.len() ==> agent_views(agents)[i] == agents[i]@,
        tool_views(tools).len() == tools.len(),
        0 <= i < tools.len() ==> tool_views(tools)[i] == tools[i]@,
        queue_views(queue).len() == queue.len(),
        0 <= i < queue.len() ==> queue_views(queue)[i] == queue[i]@,
        session_views(sessions).len() == sessions.len(),
        0 <= i < sessions.len() ==> session_views(sessions)[i] == sessions[i]@,
        effect_views(effects).len() == effects.len(),
        0 <= i < effects.len() ==> effect_views(effects)[i] == effects[i]@,
        stored_views(stored).len() == stored.len(),
        0 <= i < stored.len() ==> stored_views(stored)[i] == stored[i]@,
        server_views(servers).len() == servers.len(),
        0 <= i < servers.len() ==> server_views(servers)[i] == servers[i]@,
{
}

/// So are the lists of the review and of a profile's history, and the rows of a result.
pub proof fn a_review_is_seen_entry_by_entry(
    proposals: Seq<NewAgentProposal>,
    suggestions: Seq<ImprovementSuggestion>,
    agents: Seq<PendingNewAgent>,
    pending: Seq<PendingImprovement>,
    history: Seq<HistoryEntry>,
    rows: Seq<KvRow>,
    i: int,
)
    ensures
        proposal_views(proposals).len() == proposals.len(),
        0 <= i < proposals.len() ==> proposal_views(proposals)[i] == proposals[i]@,
        suggestion_views(suggestions).len() == suggestions.len(),
        0 <= i < suggestions.len() ==> suggestion_views(suggestions)[i] == suggestions[i]@,
        pending_agent_views(agents).len() == agents.len(),
        0 <= i < agents.len() ==> pending_agent_views(agents)[i] == agents[i]@,
        pending_views(pending).len() == pending.len(),
        0 <= i < pending.len() ==> pending_views(pending)[i] == pending[i]@,
        history_views(history).len() == history.len(),
        0 <= i < history.len() ==> history_views(history)[i] == history[i]@,
        rows_view(rows).len() == rows.len(),
        0 <= i < rows.len() ==> rows_view(rows)[i] == rows[i]@,
{
}

/// What may be missing is seen where it is there, and is missing where it is not.
pub proof fn what_may_be_missing_is_seen(
    image: PendingImage,
    shell: ShellConfig,
    list: Vec<String>,
    block: LineBlock,
    server: McpServerConfig,
    edit: ServerEditState,
    job: McpJob,
    save: FeedbackSave,
)
    ensures
        opt_image(Some(image)) == Some(image@) && opt_image(None) is None,
        opt_shell(Some(shell)) == Some(shell@) && opt_shell(None) is None,
        opt_texts(Some(list)) == Some(texts(list@)) && opt_texts(None) is None,
        opt_block(Some(block)) == Some(block@) && opt_block(None) is None,
        opt_server(Some(server)) == Some(server@) && opt_server(None) is None,
        opt_edit(Some(edit)) == Some(edit@) && opt_edit(None) is None,
        opt_job(Some(job)) == Some(job.label@) && opt_job(None) is None,
        save_view(Some(save)) == Some((save.good, save.comment@)) && save_view(None) is None,
{
}

/// A JSON value is seen as the tree of its parts, each in its place and under its
/// name.
pub proof fn a_json_value_is_seen_as_a_tree(
    b: bool,
    n: JsonNumber,
    s: String,
    items: Vec<Json>,
    members: Vec<(String, Json)>,
    i: int,
)
    ensures
        Json::Null.tree() == JsonTree::Null,
        Json::Bool(b).tree() == JsonTree::Bool(b),
        Json::Number(n).tree() == (JsonTree::Number {
            text: n.text@,
            unsigned: n.unsigned,
            float_text: opt_text(n.float_text),
        }),
        Json::Text(s).tree() == JsonTree::Text(s@),
        Json::Array(items).tree() matches JsonTree::Array(v) && v.len() == items@.len() && (0 <= i
            < items@.len() ==> v[i] == items@[i].tree()),
        Json::Object(members).tree() matches JsonTree::Object(m) && m.len() == members@.len() && (0
            <= i < members@.len() ==> m[i] == (members@[i].0@, members@[i].1.tree())),
        trees(items@).len() == items@.len(),
        0 <= i < items@.len() ==> trees(items@)[i] == items@[i].tree(),
{
}

} // verus!

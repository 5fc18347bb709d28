//! The logic behind the WuffAgent desktop interface.

pub mod agent_chain;
pub mod agent_config;
pub mod agent_history;
pub mod agent_profile;
pub mod approvals;
pub mod bubbles;
pub mod card_laws;
pub mod chat_area;
pub mod chat_feedback;
pub mod chat_state;
pub mod clock;
pub mod edit_laws;
pub mod event_handler;
pub mod event_laws;
pub mod image_loader;
pub mod images;
pub mod improvements;
pub mod input;
pub mod input_bar;
pub mod json;
pub mod mcp_edit;
pub mod mcp_panel;
pub mod memory_panel;
pub mod messages;
pub mod number_laws;
pub mod numbers;
pub mod panel_laws;
pub mod paths;
pub mod pieces;
pub mod presets_dialog;
pub mod profile_laws;
pub mod result_laws;
pub mod review;
pub mod review_laws;
pub mod send_laws;
pub mod session_laws;
pub mod sessions_actions;
pub mod sessions_panel;
pub mod settings;
pub mod startup;
pub mod status;
pub mod stream_laws;
pub mod text;
pub mod text_laws;
pub mod theme;
pub mod tool_cards;
pub mod tool_json;
pub mod tool_server_laws;
pub mod types;
pub mod usage_panel;
pub mod view_laws;

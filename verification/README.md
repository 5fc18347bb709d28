# wuffagent-egui

The desktop interface of WuffAgent, an agent chat for local and remote language
models.

- `src/` is the library: the state of the chats and what every event, click and
  key does to it, the texts that the panels show, and the rules behind them. All
  of it is verified with Verus.
- `app/` is the window around it: drawing with egui, files, the clipboard, file
  dialogs and the log.
- `tests/` runs the library on concrete values.

Where to look in `src/`:

- `chat_state`, `input`, `input_bar`, `event_handler`, `messages`, `chat_area`,
  `bubbles`: sessions, the message queue, runs and what a chat shows; the laws
  of events are in `event_laws`.
- `tool_cards`, `tool_json`, `json`, `card_laws`: tool results and their cards.
- `agent_config`, `agent_history`, `agent_profile`: agent profiles and their
  snapshots.
- `improvements`, `approvals`, `review`, `chat_feedback`: suggestions for
  agents, what becomes of them, and ratings.
- `mcp_edit`, `mcp_panel`, `memory_panel`, `usage_panel`, `agent_chain`,
  `sessions_panel`, `sessions_actions`, `settings`, `presets_dialog`, `status`,
  `theme`, `startup`: the panels and dialogs.
- `images`, `image_loader`: pasted and shown images.
- `text`, `pieces`, `paths`, `numbers`, `clock`, `types`: what the others are
  built on.

# ai_gui

The core of a desktop chat agent, written in Verus: the library states what
each function returns in `requires`/`ensures` contracts and Verus proves them.

- `src/` is the verified library.
  - `agent.rs`: the agent's run as a state machine: the message pending to be
    sent, the model's answer, the tool round, and the record they leave in
    the session; knowledge augmentation and session titles.
  - `gemini.rs`, `agent_api.rs`: how conversations become requests for the
    Gemini API and for an external agent service, and how their replies
    become model responses.
  - `model.rs`, `settings.rs`, `config.rs`: the model registry, its settings
    schema and seeding, and the configuration with its legacy migration.
  - `session.rs`, `session_table.rs`, `store.rs`, `playbook.rs`,
    `commands.rs`: sessions in memory and on disk, playbooks and their
    prompts, and what the application's commands decide.
  - `tools/`: each tool's arguments, argument schema and answers (files,
    shell, SSH, HTTP, clipboard, choices, time, browser).
  - `text.rs`, `json.rs`, `encoding.rs`: strings, JSON values, Base64 and
    UTF-8, stated over `Seq<char>` views.
  - `laws.rs`: properties that span several functions.
- `tests/` runs the library on concrete values.
- `app/` is the Tauri application around it: commands, file and network
  I/O, Chrome, the clipboard, and the async loop that drives the agent.

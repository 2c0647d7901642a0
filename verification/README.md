# soldier_core

The decision logic of Soldier, a Discord bot that links Discord members to
their Roblox accounts and manages the Roblox accounts that rank group members,
written in Verus and verified.

## Layout

- `src/` — the verified library.
  - `text.rs`: decimal text, integer parsing, substring tests, trimming and
    joining, each with its specification; `parse_i64` undoes `i64_text`.
  - `emojis.rs`, `embeds.rs`, `components.rs`: the emoji markup, the embed
    catalogue and the message components, as plain values.
  - `helper.rs`: messages, the presets the reply helpers start from, and which
    response each kind of interaction gets.
  - `error.rs`: command errors, their texts, and what the error handler sends.
  - `flow.rs`, `model.rs`: the vocabulary of the command step functions.
  - `commands/`: `/verify`, `/accounts view`, `/accounts create`, `/setup`,
    `/ping` and `/eval` as step functions from state and event to next state
    and action, with laws about what each may do.
  - `migration/`: the schema migrations as plans of operations, and the rule
    that runs a plan.
- `app/` — the bot itself: Discord, database and Roblox calls, the poise
  commands that drive the step functions, and the conversions between the
  library's values and the builders of serenity and sea-query.
- `tests/` — tests of the library on concrete values.

# session_engine

The decision core of an agent runtime. A session takes commands from clients,
workers and the engine itself, and answers each with the events it comes to.
Putting the events into the session is the only way it changes.

The library is written in Verus: every function states what it returns, and
the proofs hold for every input.

## Layout

- `src/model.rs` — the mathematical value of a data type, and sequences of them
- `src/text.rs` — text as a sequence of characters
- `src/protocol/` — what goes over the wire: messages, results, agents, errors
- `src/session/state.rs`, `apply.rs` — a session, and what each event does to it
- `src/session/run.rs`, `run/` — what each command does
- `src/session/effects.rs`, `effects/` — tool calls, model calls, subagents,
  fetches, decisions and the end of a turn
- `src/session/schedule.rs`, `progress.rs` — what happens without being asked,
  and why that comes to an end
- `src/session/offers.rs`, `offers/` — the tools the engine offers, where a call
  goes, and what the engine answers itself
- `src/session/history.rs`, `history/` — a session is what its events say
- `src/session/laws.rs`, `offers/laws.rs` — what holds of sessions as a whole
- `app/` — reading and writing, the clock, the log

## Trust

Two outside crates are called from the library: `serde_json` for documents and
`rust_decimal` for costs. The contracts of those calls are stated next to them
in `src/protocol/json.rs`, and are not proved. `src/text.rs` states one more,
for `String::push`.

Instants are nanoseconds of the Unix epoch. Names of what a command starts
come from a seed the caller hands in, so that a command is a function of its
arguments.

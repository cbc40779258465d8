# charradissa

Charradissa is the Matrix relay of the Occitan agent stack: a Matrix
application service that hands room messages to the agents serving each room,
posts their replies, keeps the approval queue, offers a tool server through
which agents act in Matrix, and runs the Farcaster observers that look for
connections across projects and domains.

## Layout

- `src/` is the library, verified with Verus. It holds every decision the
  relay makes: how events are parsed and routed, which agent answers where,
  what each tool call does and how its result reads, how approvals are queued
  and resolved, how block-protocol markers are stripped, how the Farcasters
  buffer, budget and synthesize, and every URL, prompt and message the relay
  builds. Contracts state each function's result over its arguments; where a
  result rests on chance, the clock or an outside crate's work, they say so,
  and say what holds either way. The `law_*` proof functions state what holds
  across calls.
- `app/` is the program around the library: configuration and environment,
  the HTTP server and client, the homeserver and model requests, and the
  loops that run the library's state machines.
- `tests/` exercises the library on concrete values.

The calls the library makes into other crates (UUIDs, the clock, Markdown
rendering, base64, lower-casing, `String::push`, `serde_json::Value::clone`,
tokio's one-shot channels that carry an approval's answer) stand behind small
trusted wrappers whose contracts say what those crates document.

# agent

A small, production-shaped LLM agent as a service: **Mind + Brainstem** — cognition
and runtime are split. The `Brainstem` drives a perpetual task loop; the `ModelMind`
decides, and owns the token budget, the retries and the re-prompts. A tool failure or
a malformed model response is observed and fed back so that the model can correct
itself; it is never turned into a successful finish.

Both are state machines over plain values, verified with Verus. They never wait and
never call: they are told what happened and when, and say what to do next.

## Layout

- `src/` — the verified library
  - `budget`, `time` — renewable token budgets over fixed windows
  - `error`, `event`, `observation`, `action`, `memory` — the vocabulary
  - `json`, `text`, `queue` — JSON values as compact text, text helpers, queues
  - `tool` — the tool interface, the registry, and the calculator: a compiler from
    arithmetic expressions to stack programs, with its grammar
  - `provider` — requests and responses, the OpenAI-compatible wire format, a
    scripted fake
  - `mind` — perceptions, decisions, the model-backed mind, backoff, and `mind::laws`:
    what holds of every decision
  - `brainstem` — the drive loop's state machine, actuation, and `brainstem::laws`:
    what holds of every run
  - `planner` — plans from memory, by rule or by model
- `app/` — ordinary Rust around the library: tokio channels and timers, HTTP, serde,
  floating-point evaluation
- `tests/` — what the library does on concrete values

## What is trusted

Reading and writing JSON is `serde_json`'s work. Three wrappers in `json` make those
calls; what each claims stands in its doc comment. Everything else in `src/` is proved.

# codexus

`codexus` is the verified core of a Rust client for a local `codex
app-server`: the data model of the JSON-RPC traffic and the decisions the
runtime makes about it, each stated as a contract and proved with Verus.

## Layout

- `src/` is the library. Every function there is verified.
  - `json`, `text`, `ids`: the JSON document model, string helpers, and the
    canonical thread/turn/item ids found in messages.
  - `rpc`, `events`, `dispatch`, `approvals`, `io_policy`, `rpc_contract`:
    classification of JSON-RPC messages, typed notifications, server
    requests and their answers, timeouts, and contract checks whose errors
    name a payload's shape but never its values.
  - `prompt`, `prompt_phases`, `input`, `flow`, `thread_ops`,
    `request_wire`, `thread_views`, `policies`, `command_exec`: prompt runs
    (the order of their steps and hook phases, turn inputs, attachments,
    hook mutations, how a turn's end becomes a result or an error), thread
    and turn parameters and their wire forms, thread item decoding, sandbox
    and approval policies.
  - `hooks`, `plugin`, `shell_hook`, `tool_use`: hook registration and the
    meaning of each hook answer.
  - `session`, `state`, `supervisor`, `lifecycle`, `metrics`, `sink`,
    `limits`, `detached`, `compat`, `config`, `profile`: session close,
    pending server requests, supervision and restart backoff, teardown,
    counters, event-file flushing, configuration and version compatibility.
  - `time`, plus one string operation in `text` and one in `io_policy`,
    are the only trusted items: thin wrappers over `std` whose contracts
    Verus takes as given.
- `app/` holds what Verus does not check: the app-server process and its
  message loops, the supervisor and prompt-run loops that carry out the
  library's step functions, conversion to and from `serde_json`, serde and
  `Display` forms of core types, hook processes and the loops that call
  hooks, the event file, the clock, files on disk, and floating-point
  metrics.
- `tests/` runs the library on concrete values.

## Not covered

- The typed client layer: `Client`, `Session`, `ThreadHandle` and typed
  response models. `app/` offers the requests themselves on `Runtime`
  (`thread_start`, `thread_resume`, `thread_read`, `thread_archive`,
  `turn_interrupt`, `command_exec`, the prompt runs) and returns answers as
  JSON.
- `thread/list`, `thread/loaded/list`, `thread/fork`, `thread/rollback`,
  `skills/list`, `fs/watch` and `fs/unwatch`, and the other
  `command/exec/*` requests.
- The generated protocol layer: per-method codecs and validators, and the
  typed notifications they decode. Requests are checked only by the rules
  the library holds (method names, payload summaries).
- The projection of traffic into a bounded runtime state snapshot.

# codetether_agent — recursive analysis of large tool output, verified

The library routes large tool outputs into a recursive analysis loop, keeps
a small REPL over the content, and checks the structured answers that the
loop produces against deterministic oracles (regex search and tree-sitter
queries). Its logic is written in Verus and proved against its contracts.

Layout:

- `src/` — the verified library.
  - `text`, `json`, `pattern`, `assoc`: character-level text functions,
    JSON fields and regular expressions (the outside calls stand behind
    small trusted wrappers whose results are named).
  - `chunker`: content detection, chunking, budgeted selection and
    reassembly.
  - `repl`, `tools`, `templates`, `capability`: the REPL and its DSL, the
    analysis tools and their dispatch, query templates, tool capabilities.
  - `oracle`, `grep_oracle`, `ast`: answer classification and the grep and
    tree-sitter oracles.
  - `payload`, `validator`, `validation`: final payloads and their
    validation into golden, consensus, unverified or failed traces, with
    batch statistics.
  - `router`, `executor`, `analysis`, `external`, `storage`: routing
    decisions, truncation and fallbacks, the analysis loop's decisions as
    state machines, and the pure parts of trace storage.
- `tests/` — the library's tests.
- `app/` — host code: the model provider interface, the asynchronous loops
  that drive the state machines, serde forms of the library's values, and
  the files and uploads of oracle traces.

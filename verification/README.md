# nexus_chat

The state and the rules of a terminal chat client, verified with Verus: what the
screens show, what is sent to a model, what is stored, and how the background jobs
(streamed responses, research jobs, swarm turns, OCR, embeddings, compaction, memory)
proceed.

`src/` is the library. The state of the client, `app::App`, is made of the parts in
`state.rs`; most operations are methods on one part or functions over a few. What
the state alone cannot do comes back as a list of `effects::Effect`, in order. A write
that can fail goes first: the library says what is to be written (`writes.rs`, and beside
the operations), and what came of it is handed in as an argument. Longer background work is a
state machine that takes one event at a time and answers with what is to be done next
(`pipeline.rs` for research jobs, `roundtable.rs` for swarm turns).

| Modules | What they hold |
|---|---|
| `text`, `json`, `digest`, `keyed`, `ordering` | texts, JSON values, hashes, sets and maps, sorted and filtered lists |
| `store`, `ui`, `state`, `app`, `effects`, `events` | the data, the state and how it begins |
| `backends`, `models`, `picks`, `login`, `startup` | backends, the model catalog and picker, credentials, what is loaded at the start |
| `sessions`, `spaces`, `skills`, `files`, `images`, `clipboard`, `settings`, `client` | the popups, on their parts of the state and, in `client`, on all of it |
| `commands`, `modes`, `writes` | the commands, the modes, and what changes have written before they are made |
| `prompts`, `history`, `sending`, `stream`, `followup`, `compaction`, `memory`, `naming`, `chat`, `tools`, `provider` | the request lifecycle |
| `research`, `pipeline`, `searcher`, `research_start`, `research_job`, `research_updates`, `stages` | research jobs |
| `swarm`, `roundtable`, `swarm_session` | swarm turns |
| `pipeline_laws`, `roundtable_laws`, `settings_laws` | what holds across operations; other laws stand beside what they speak of |

`app/` is ordinary Rust around the library: the disk, the network, the clipboard and the
tasks in the background. `tests/` runs the library on concrete values.

# muqun_work

Durable records of work that is handed to coding agents: tasks, the attempts to carry them out, the
operations that reach the native side, results, reviews, uploads and delegation. The library decides;
the application around it reads, stores and sends.

## Layout

- `src/` is the library. Everything in it is verified.
  - `work/model.rs` holds the values, each with the model that contracts speak of;
    `work/encode.rs` their JSON text.
  - `work/store/` is the store. Each transaction has a function that says what becomes of a store
    (`*_outcome`), and the method that carries it out is proved to do just that.
  - `work/store/history.rs`, `growth.rs`, `lasting.rs`, `repeats.rs`, `allowance.rs`, `findings.rs`,
    `reconciling.rs`, `releases.rs`, `reopening.rs`, `listing.rs`, `freshness.rs`, `pausing.rs` and
    `reaching.rs` state what holds over many transactions: nothing that was recorded is lost, repeated
    requests change nothing, no allowance is exceeded, what was found stays found, reservations
    survive whatever is not known to have ended, opening a store again changes nothing, and the task
    list has one up-to-date row for every task. `reaching.rs` puts them together for every store that
    the operations reach from the empty one.
  - `work_authority.rs`, `work_actor.rs` and `work_delegation.rs` decide who may act.
  - `work_execution/`, `work_interrupt.rs` and `work_events.rs` run starts, deliveries,
    reconciliations, interruptions and the change stream step by step.
  - `work_artifacts.rs` and `work_inputs.rs` admit files and uploads.
  - `work_http.rs` holds the rules of the HTTP surface.
- `app/` keeps the store in SQLite, files on disk, and serves HTTP.
- `tests/` runs the library.

## What is taken on trust

Digests (`sha2`), identifiers (`uuid`), the JSON text of a string (`serde_json`) and the decoding of
UTF-8. Each stands behind one small function whose contract says what is assumed of it.

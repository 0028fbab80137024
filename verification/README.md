# helix_db

The decision core of a graph database over an object store, written in Verus and proved
against its contracts.

- `src/` is the verified library. `config`, `open`, `close`, `mode`, `sequence`, `runtime`,
  `lifecycle`, `cache` and `warm` decide how a handle opens, serves, warms and closes.
  `query_service` and `response` decide what a request is answered. `migrations` holds the
  durable migrations of the stored format: jobs and their stored form, batches, turns,
  readiness markers, legacy definitions, vector reservations, edges, injected failures and
  the verdicts on a migrated store.
- `app/` is the runtime around it: SlateDB storage, caches, tasks, serde forms and the loops
  that perform what the library decides.
- `tests/` runs the library with the crates it is linked against.

Functions whose names begin with `law_` state what holds of several functions together.
Outside crates are called behind functions marked `external_body`; the comment on each says
what its contract claims of the crate.

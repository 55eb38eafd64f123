# backend

The core of a file-storage web service, verified with Verus.

Each HTTP handler (upload, list, download, delete, rename and move of files;
create, list, get, rename and delete of folders) is a *flow*: a record of the
request's parameters and progress, and a step function that takes the outcome
of the last action and gives the next action (a database query or a
filesystem operation) or the reply. The step functions carry exact contracts,
and proof functions state what holds over whole requests: every action names
only the authenticated caller, every handler replies after a bounded number of
actions, an upload is accepted only within the caller's storage limit and
charges exactly the bytes it writes, a deletion removes only a file found
among the caller's and credits back its recorded size, and a folder is created
under a parent only after that parent was found among the caller's folders.

Laws across requests are stated over `src/handlers/store.rs`, a model of what
the database and the disk hold and of what each action does when it succeeds:
a file downloaded right after its upload gives back the uploaded bytes, a
deletion right after an upload restores the store, a second deletion finds
nothing, uploads and deletions keep each user's bytes in use equal to the sum
of their files' sizes, renames change only the name, listings hold exactly the
caller's rows, and a moved or created item appears in the listing of its new
place.

Layout:

- `src/models/` — records and request bodies (ids as `u128`, times as
  microseconds since the epoch).
- `src/protocol.rs` — actions, events, replies and statuses.
- `src/text.rs` — hexadecimal, UUID text, storage paths, download headers.
- `src/outside.rs` — the calls into `sha2`, `hex` and `uuid`.
- `src/handlers/` — the flows, the store model (`store.rs`) and the laws
  (`file_laws.rs`, `folder_laws.rs`).
- `app/` — the axum handlers that run the flows against PostgreSQL (sqlx) and
  the filesystem (tokio), and the serde/sqlx forms of the records.

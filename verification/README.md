# ownmeshd

The runtime of a device daemon: it takes requests of local and remote clients up,
judges them by policy, defers what needs a human decision, runs what is allowed
exactly once, and keeps sessions, reviews and transfers bound to who started them.

## Layout

- `src/` is the library. It decides; it does no I/O. Its logic is verified; what it
  takes on trust is listed below.
  - JSON and text: `json`, `codec`, `base64`, `text`, `textset`, `paths`, `ids`, `registry`
  - the journal of operations: `journal`, `journal_load`, `lifecycle`, `journal_laws`
  - requests: `params`, `principal`, `dispatch`, `runtime`, `error`
  - decisions: `gate`, `approvals`, `approve`, `control_plane`, `grants`, `admin`,
    `admin_requests`, `custody`
  - work: `exec`, `broker`, `review`, `review_flow`, `ops`, `workspace`, `transfer`,
    `live_output`
  - sessions: `sidecar`, `transition`
  - stored state: `state_files`
- `app/` is ordinary Rust around it: files, async plumbing, and traits that stand for
  the crates which run commands, host sessions and evaluate policy.
- `tests/` runs the library.

## How decisions and I/O meet

Where the daemon has to write before a change takes effect, the library returns the
change with what undoes it, the caller writes, and the outcome is settled in the
library. Work that alternates with decisions (an operation from receipt to answer, an
approval, a review, a recovery) is a state machine in the library; the caller performs
each step and reports what came of it.

## What is taken on trust

A few functions call code that Verus does not read. Their contracts are believed, and a
comment above each says what is claimed.

- `codec`: `serde_json` writes a value, reads an object and reads a list of texts. The
  texts and the parses are named, not spelled out.
- `json`: `serde_json::Value` is opaque. Two functions turn it into the library's `Json`
  and back.
- `ids`: `sha2` hashes, and `uuid` gives fresh hexadecimal digits.
- `workspace`: one function quotes a text as the standard library's debug format does.
- `text`: `String::push` of the standard library adds its character at the end.

Everything else in `src/` is proved. `app/` is not verified: it has to meet the
conditions of the functions that it calls.

## Laws

Laws that relate several functions are public proof functions named `law_...` beside
the functions that they speak of.

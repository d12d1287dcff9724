# rsmine

The application layer of an issue tracker: the rules for issues, their history,
attachments, categories, statuses, memberships and sign-in, written in Verus and
proved against their contracts.

## Layout

- `src/` — the verified library.
  - `domain.rs` — the records that the rules read: users, projects, issues,
    memberships, attachments, and the changes to store.
  - `dto/` — request bodies and their validation.
  - `use_cases/` — one module per use case. Each use case is a set of steps:
    checks that take what was looked up and refuse or accept, plans that say what
    to store, and builders of responses. Whatever must be looked up is named by a
    step (`needs_membership`, `status_to_look_up`, ...), so the decisions never
    wait on a store. Use cases that interleave lookups and checks have a
    `next_step` that, given what was looked up so far, names the next lookup,
    refuses, or lets the writes proceed; its contract is a `*_decision` spec that
    lists the checks in order (`use_cases/flow.rs`).
  - `text.rs`, `errors.rs` — text helpers and the application error.
  - `external.rs` — the calls into outside crates and `std` whose contracts are
    trusted: URL encoding, file extensions, a string from its characters.
- `tests/` — tests of the library on concrete values.
- `app/` — the asynchronous side: repository and service traits, request bodies
  with serde's derives, and the use cases run against the stores: each runner
  asks `next_step`, fetches what it names, and writes only after it proceeds. It also holds
  what carries floating-point hours (issue responses), which the library leaves out.

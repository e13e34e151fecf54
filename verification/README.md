# asset_core

The core of an asset hub: Resources (files) and Directories kept in a store, their content
kept in Blob storage, and the workflows that keep the two in step. Every rule of the core is a
Verus-verified function in `src/`; the I/O around it lives in `app/`.

## Layout

- `src/domain/`: identities, paths and storage keys, checksums, the Resource aggregate and its
  content.
- `src/directory/`: the Directory aggregate and the workflows that create, update, relocate,
  delete and materialize Directories.
- `src/resource/`: Resource commands and queries, content replacement, streamed uploads,
  deletion and relocation intents with their recovery, the media that preview actions return,
  and the synchronization of the store with what Blob storage holds.
- `src/action/`: plugin action definitions, the execution policy, and the validation and
  application of what an action returns.
- `src/authorization.rs`, `src/user.rs`: access rules, and the rules and workflows of user
  accounts.
- `src/asset.rs`: archive manifests of Directory trees.
- `src/idempotency.rs`: replay of requests by idempotency key.

Workflows that talk to storage are written as step functions: each takes the current phase
and the answer to the previous operation and returns the next phase and the next operation.
`app/` runs these loops against the real ports.

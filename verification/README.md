# cass_ffi

The verified core of the Swift-facing bridge to cass (coding-agent-search).

- `src/` — the library, verified with Verus: the error envelope
  (`error`), the value types (`types`), the engine lifecycle and search
  dispatch (`engine`), the open sequence (`opening`), data-directory layout
  and indexing options (`layout`), storage-worker replies (`storage`),
  index-run progress (`index_run`) and the message window of
  `expand_around` (`window`).
- `app/` — the UniFFI export, the tokio runtime, the storage worker thread
  and the calls into cass; it hands plain values to the library and follows
  the library's decisions.
- `tests/` — tests of the library.

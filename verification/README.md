# vme_fs

The file server that backs an enclave's file system with a directory tree of
the host. Every entry `x` of the tree has a companion file, `x` with the
extension `meta`, that holds the enclave's own metadata of `x`.

The library never touches the host itself. A request is served by a task
(`VmeFs::handle_request`) that asks for one host action at a time — whether a
path exists, its metadata, a read, a write, a listing, … — and decides from
each reply (`RequestTask::resume`) what to ask next, until it answers the
request. Each request's inodes are first resolved to host paths by a
depth-first walk of the tree; then a script of checks and changes runs, and
its last part makes the response.

Layout of `src/`:

- `abi.rs` — requests, responses, entries, host metadata, errors.
- `paths.rs` — joining paths and naming metadata files (through `std::path`).
- `flags.rs` — the synchronisation flags a write carries (through `nix`).
- `host.rs` — the host actions and replies.
- `entry.rs` — reading one entry: host metadata, then its metadata file.
- `search.rs` — the walk that finds the path of an inode.
- `script.rs`, `fs.rs` — the script of each request.
- `request.rs` — the task that resolves inodes and runs the script.
- `platform.rs` — the standalone platform.
- `laws.rs`, `sidecar.rs` — properties of every task, whatever the host
  replies: the response fits the request, each change to an entry comes with
  the same change to its metadata file, a script passes a step only when
  that step succeeded, each request runs the script of its own kind, and the
  inode walk is a depth-first search that answers on every finite tree.

`app/` performs the actions on the host with `std::fs` (and gives out the
notices the server asks for on the error stream or through `log`), holds the serde forms
of the messages, and waits on a standalone enclave.

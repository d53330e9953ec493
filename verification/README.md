# clip_sync

ClipSync keeps the clipboards of the computers on a local network in step: text,
images and files copied on one machine appear on the others. Devices find each
other by UDP broadcast on port 37020 and talk over WebSocket on port 37021.

This crate is the core of the program, written in Verus: the functions in `src/`
carry contracts that Verus proves.  The few calls into std and into the `base64`,
`uuid`, `image` and `serde_json` crates (in `codec.rs` and `text.rs`) sit in small functions whose
contracts are trusted rather than proved; each says which call it makes and what
its contract claims of it.

## Layout

- `src/` – the verified library.
  - `state.rs` – the data model and the clipboard history (newest first, at most 20).
  - `devices.rs` – the registry of discovered devices and their time-out.
  - `dedup.rs` – the window of message ids already handled.
  - `transfers.rs` – file batches to receive and to send.
  - `monitor.rs` – the clipboard monitor as a state machine, with its echo rules.
  - `protocol.rs` – message kinds, addresses, and where received files go.
  - `batch.rs` – the description of a batch of copied files and folders.
  - `sync.rs` – the program state and one step per event of discovery,
    transport and the window.
  - `commands.rs` – what the window's commands report; per-connection state.
  - `network.rs` – which interfaces take part and their broadcast addresses.
  - `logtime.rs` – log time stamps and log rotation.
  - `pasteboard.rs` – the scripts and output of the system clipboard tools.
  - `settings.rs` – the settings and the cache size.
  - `text.rs`, `codec.rs` – character helpers; hashing, Base64, UUIDs, image
    decoding and JSON fields through std and the `base64`, `uuid`, `image` and
    `serde_json` crates.
- `app/` – the desktop program around the library (Tauri window, sockets, file
  system, clipboard access). It performs the I/O that the library's steps ask for.
- `tests/` – tests of the library on concrete values.

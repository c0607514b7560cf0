# handshaker-core

The core of a HandShaker SSP client (the protocol Smartisan phones speak
over USB accessory mode and Wi-Fi), written in Verus.

- `src/` is the verified library: SSP framing and response reassembly,
  session ids and push routing, event classification, handshake checks,
  remote-file rules, media paging, the thumbnail cache plan, the photo-sync
  planner with its ledger, journal and crash recovery, USB accessory
  selection, mDNS device tables, and the wire-log format. Each public
  function states its result in `ensures`; the `law_*` proof functions state
  properties that span calls.
- `app/` is the unverified shell: libusb and mDNS I/O, ledger and journal
  files, EXIF reading (floating point), file digests, C byte buffers.
- `tests/` runs the library on concrete values.

Calls into outside crates sit behind small trusted wrappers whose
contracts are documented next to them: MD5 and SHA-256 (whole and
streamed, `src/digest.rs`), gzip and gunzip (`src/events.rs`), Rust's
`{:?}` form of a string (`src/thumbnails.rs`) and collecting characters
into a `String` (`src/text.rs`). The random UUID of a temporary download
name is drawn in `app/download_path.rs`, since drawing it can panic.

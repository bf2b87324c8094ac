# fingerprint_sdk

Verified core of a vendor-agnostic fingerprint scanner SDK for Node.js, with
its Windows IPC bridge and its self-updater.

- `src/` — the library, verified with Verus:
  - `protocol` — the messages exchanged with the 32-bit SecuGen bridge;
  - `bridge` — bounded line framing, the bridge's responses, and the wiping
    of biometric bytes after each round trip;
  - `sdk` — errors and their codes, the scanner slot behind the JavaScript
    API, vendor selection, and the decisions of the SecuGen, WBF and
    Neurotec backends (library search, quality gates, best-sample and
    best-match selection, error mapping);
  - `updater` — release selection, asset names, checksum and Ed25519
    signature checks, archive extraction limits, manifest checks, the order
    of an update's steps (the archive is extracted only once authenticated),
    the order in which files are replaced and restored, and what those moves
    do to the install directory;
  - `outside` — the calls into std and outside crates the library relies on,
    each with the contract it is trusted to meet.
- `tests/` — tests of the library.
- `app/` — the program around the library: JSON encoding, vendor SDK
  foreign functions, Node.js bindings, network and file-system work, and the
  command-line entry points.

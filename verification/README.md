# Handfast

Handfast connects an Android phone to a Linux desktop over the local network. It
speaks the KDE Connect wire protocol, so it pairs with the standard Android app.

The library under `src/` is verified with Verus: packets and framing, identities,
certificate pinning, pairing, plugins, file transfers, the local control plane and
the front-end's state machine. Each function's contract says what it returns or
changes; public proof functions named `law_...` state what holds across functions.

The program under `app/` is ordinary Rust around the library. It owns the sockets,
files, processes, the database and the window, and carries out what the library
decides.

* `handfast` runs the daemon (`--socket`, `--data-dir`, `--name`).
* `handfast gui` runs the desktop front-end.

Tests of the library are under `tests/`.

# ftnl-desktop

The verified core of the File Tunnel desktop app: a clipboard workspace, short-lived receive
tunnels, encrypted workspace snapshots, and an application-layer session over untrusted Bluetooth.

- `src/` is the library. Every function states in its contract what it returns or changes, over
  mathematical models, and Verus proves it. Where a clock or randomness decides, the contract says
  which of the values came from there, and a function that takes them as arguments is exact.
  - `workspace` is the pure clipboard reducer; `workspace::model` says what each command does, and
    `workspace::laws` what holds across commands.
  - `workspace_snapshot` seals, opens and strictly validates stored workspaces.
  - `secure_bluetooth` is the handshake (`hello`, `pairing`) and the frames (`session`).
  - `lifecycle` correlates worker operations with the picker's states.
  - `transfer` validates tunnels, files and file names, and holds session secrets.
  - `desktop` decides what the window does: `shell`, `clipboard`, `receive`, `worker`.
  - `crypto`, `formats`, `std_text` and `clock` hold the calls into other crates and the standard
    library. Their contracts are believed, not proved; each says what it claims.
- `tests/` runs the library with the real crates.
- `app/` is the program around it: the window, the clipboard, files, the network thread and JSON.
  The adapters to the service client, the logger, the tray and the picker widget are compiled with
  the `native-ui` feature.

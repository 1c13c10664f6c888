# unibox-core

The verified core of the Unibox desktop runtime, written in Verus.

Unibox runs a local Matrix homeserver (Tuwunel, or Synapse inside the
`UniboxRuntime` WSL distribution) and mautrix bridges on the user's machine.
This crate holds the decisions and text formats behind that runtime, each
with a contract that Verus proves:

- `net`: the remote-URL policy of connector client HTTP (public HTTPS only,
  no loopback, private, link-local or `.local` targets).
- `http_client`: the redirect-following state machine of client HTTP
  (URL checks, DNS pinning, credentials kept on their origin), header
  forwarding and grouping, Base64 bodies, and the request budget.
- `wsl`: `wsl.exe` listings, connector-manager commands and statuses of the
  WSL runtime.
- `config_yaml`: merging the configuration edits into a connector's YAML
  configuration, keeping everything else in it.
- `native`: the Tuwunel configuration, secrets, shared-secret registration,
  connector settings and configuration edits of the native runtime.
- `supervisor`: when to launch processes, how long to wait for them, log
  excerpts, and the steps that create the local Matrix account.
- `connector`: catalog lookups, provisioning targets, Telegram credentials
  and the retry policy of connector installation.
- `desktop`: preferences, automatic startup and tray behaviour.
- `output`, `text`: decoding command output and character-level helpers.

Calls into outside crates (url, base64, serde_json, serde_yaml, hmac/sha1, hex, rand,
reqwest's `Method` and `HeaderName`) sit behind small trusted wrappers whose
contracts are stated next to them.

`app/` is the ordinary Rust around the library: the health endpoint, file,
process and network I/O, the runtime managers that perform the actions the
library decides, and serde copies of the library's types.

Verify with `verus` on `src/lib.rs`; the tests under `tests/` exercise the
compiled library with the real outside crates.

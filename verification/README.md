# verge_ssh

SSH SOCKS tunnels for Clash Verge: each configured SSH server gets a local
SOCKS5 listener on `127.0.0.1:<local_port>` whose connections are forwarded
over the SSH session (like `ssh -D`), with a fixed 3-second reconnect after a
lost session and a final stop on user request.

## Layout

- `src/` — the library, verified with Verus. It holds the server
  configuration and its port rules, the tunnel registry and logs, the tunnel
  supervisor and the SOCKS5 handshake as state machines (event in, effects
  and next command out), the encrypted export bundle (Argon2id + AES-256-GCM
  + Base64), import and export of server lists, the command rules, the event
  channels and the core lifecycle decisions. Calls into `aes-gcm`, `argon2`,
  `base64`, `getrandom` and `chrono` stand behind small wrappers in
  `src/crypto.rs` and `src/logs.rs` whose contracts are trusted.
- `tests/` — tests of the library on concrete values.
- `app/` — the unverified application side: YAML files, the SSH sessions
  (`russh`), sockets and async tasks (`tokio`) that drive the library's state
  machines, HTTP download of import files (`reqwest`), JSON event payloads and
  the core manager glue (`backon`, `scopeguard`).

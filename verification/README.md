# wftpg

The decision logic of a small FTP/SFTP file server with a control daemon and a
desktop control panel, written in Verus and proved against its contracts.

## Layout

- `src/` — the verified library.
  - `packet`, `bytes`, `text`: SFTP packet fields, big-endian integers, text helpers.
  - `paths`, `resolver`, `utils`, `openat`: path components, confinement of client
    paths to a home directory (as a state machine that asks its caller about the
    file system), client-visible paths, user-name checks, `openat`-style opening plans.
  - `ftp/`: the FTP control connection — command lines, session settings, login,
    TLS negotiation, data connections, transfers and listings, and the steps of
    `RETR`, `STOR` and `STOU` between the caller's file and network work.
  - `sftp/`: the SFTP subsystem — framing of the channel, request dispatch, permission
    and quota checks, open handles, attributes and listings, extensions
    (`copy-file` as a state machine, hashes, `statvfs`, links), status codes,
    the order of checks for path requests, reads, writes and closes, authentication
    (the public-key and password logins in order), the listener's accept loop.
  - `rate_limit`, `speed_limiter`, `quota`: connection rate limiting, transfer speed
    limits, home-directory quotas.
  - `json`, `logs`, `facts`: JSON values as the log readers see them, reading the
    program and audit logs, file facts for MLST/MLSD.
  - `tls`: TLS settings and building a `rustls` server configuration.
  - `service`, `daemon`, `control`, `panel`: the systemd unit, the daemon's control
    decisions and replies, and texts of the control panel.
- `tests/` — tests of the library.
- `app/` — a command-line front end that runs the library against the local system
  (file reads, directory walks, `systemctl`, timed waits, downloads, uploads and
  `copy-file` with standard input and output as the data connection).

Outside crates used by the library are called from small functions whose contracts are
taken on trust and say what the crates' sources show: `rustls` and `rustls-pemfile` (TLS
configuration), `md-5`, `sha2` and `hex` (file hashes), `serde_json` (log lines),
`chrono` (time stamps). The front end reads the platform's `errno` values from `libc`.

# shmemo

Memoizes shell command executions: a command run through `shmemo` is
executed once, its stdout, stderr and exit code are recorded, and the same
command run again replays the recording.

The library under `src/` is verified with Verus:

- `digest` — the cache key: SHA-256 of the JSON encodings of the arguments
  and of the selected environment variables, as lowercase hex.
- `env` — the environment variables that take part in the key (a map).
- `cache` — the cache layout (`<digest>/meta.json`, `stdout`, `stderr`),
  paths, temporary directory names, the cleanup and commit decisions.
- `memo` — the stored metadata and its expiry.
- `time` — instants and spans, the system clock, and the RFC 3339 / human
  duration parsers (a TTL text is handed to the duration parser only where
  its digits cannot drive that parser's running total to `u64::MAX` seconds).
- `session` — the decisions of one run, as a state machine that asks its
  caller for each piece of outside work (file system, processes, clock,
  environment) and is told what happened.
- `executor`, `logger`, `error`, `text` — command display, validation and
  write-failure bookkeeping, log lines, errors, string helpers.

`app/` is the command-line program: argument parsing, the file system,
process spawning and logging, driving `session::Session`.

# aoe

A verified library for a daemon that runs coding agents as detached workers.

- The worker registry keeps one record per session on disk. Every change to a
  record happens under the session's generation lock, so that stale cleanup
  never removes the record of a worker that has replaced the one it was about.
  The operations are state machines: the library decides, its host locks, reads,
  writes and asks about processes.
- The restricted profile admits a fixed set of HTTP routes, shows only its own
  sessions, launches its agent with one exact command line, names sessions after
  their first prompt and imports threads from a canonical, authenticated catalog.

`src/` is verified with Verus. `app/` holds the file system, the clock, the
processes and the HTTP middleware around it. `tests/` runs the library, with the
host in memory.

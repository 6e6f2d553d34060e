# snitch

A cron job monitoring service: register a job with a cron schedule and a leeway
window, check in whenever it runs, and get a webhook alert when it misses a check-in.

`src/` is the library, with its contracts proved:

- `time` — instants (seconds and nanoseconds since the epoch), their order and
  distances, and the clock and RFC 3339 text through chrono.
- `schedule` — cron schedules through the `cron` crate: which expressions it accepts
  and when a schedule next fires.
- `ids` — job identifiers as UUIDs through the `uuid` crate.
- `job` — a job, how it ticks, advances and checks in, and when it counts as punctual.
- `scheduler` — the watched jobs, the jobs waiting to be stored, the alerts to send,
  and the timer of the scheduler's loop.
- `repository` — the stored form of a job and the conversions both ways.
- `service` — what to do about a missed check-in, and the record that keeps a missed
  run from being alerted twice.
- `api` — the answers of the HTTP API at each step of a request.
- `laws` — properties of the library as a whole, proved.

`app/` is the program around it: the HTTP server (Rocket), the SQLite store (microrm),
the webhook client (ureq), the threads and channels between them.

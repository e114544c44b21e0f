# hyperexecute

A small service that runs submitted Python, C++ and JavaScript code, either in
the server's own process or through workers that take jobs from Redis (or a
SQLite queue) and run them in Docker containers or as local processes.

- `src/` is the verified library (Verus): the languages and records, the plans
  for local and container runs, how each way a run can end becomes a result,
  the interactive streaming session, the database row encoding, the worker's
  job-taking decisions and the HTTP answers. Identifiers go through the `uuid`
  crate and creation times through `chrono`, behind small trusted wrappers.
- `app/` is the unverified shell around it: the axum server, the SQLite store,
  the Redis/Docker worker, process spawning, and the serde forms of the records.
  Run it with `server` (default) or `worker` as its first argument.
- `tests/` exercises the library on concrete values.

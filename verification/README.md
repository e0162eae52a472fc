# schedulinator

A scheduler of recurring HTTP tasks. Tasks are kept in a Redis sorted set
scored by the Unix time of their next run; an executor takes the due ones,
posts to their URL, retries a failed post with exponential back-off and
jitter as the task's retry policy says, and on a 200 answer stores the
task again under the next firing of its cron schedule.

- `src/` is the verified library (Verus): the retry-policy rules
  (`logic::task`), registration and execution decisions (`controllers`),
  the conversions between wire and model tasks (`adapters`), the reading
  of the cache server's replies and the SQL statement for a new task
  (`diplomat`). `cron_schedule`, `sql`, `text` and `randomness` hold the
  trusted wrappers around `cron`/`chrono`, `sql_builder` and std.
- `app/` is the program around it: the HTTP server, the connection pools,
  the Redis and Postgres I/O, JSON, and the executor loop.
- `tests/` runs the library on concrete values.

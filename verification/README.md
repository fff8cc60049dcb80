# xorc_notifications

Multi-tenant push notification services (APNs, FCM, web push and a generic
HTTP requester) that consume notification and configuration events from
Kafka and publish an answer for every request.

- `src/` is the library, verified with Verus: the per-tenant configuration
  tables of each service, the routing of Kafka messages, the payloads built
  for each push service, the answers published for every outcome, the
  connection caches and consumer supervisor of the APNs service, and the
  metrics bookkeeping. Public proof functions state the properties that span
  several operations (a configured application is sent with its key, a
  removed one is answered as unknown, a configuration touches its own
  application only, retries back off exponentially, cache entries are
  refreshed after their time to live, a restart round clears failures).
- `tests/` runs the library on concrete values.
- `app/` is the program around it: configuration files, Kafka clients, the
  calls to APNs, FCM, web push and HTTP servers, the Prometheus endpoint and
  the timers whose percentiles are computed in floating point. Events are
  carried as JSON objects with the fields of the library's event types.

Run a service with `CONFIG=./config/fcm.toml <binary> fcm` (or `apns2`,
`web_push`, `http_requester`).

# Market API Server

An HTTP service that stores key/value resources and files for authorised
clients, refreshes Discord OAuth tokens, and keeps market data fetched from a
GraphQL API.

- `src/` is the verified library (Verus): the routing table and its
  authentication rule, percent-decoding and trimming of path keys, what each
  endpoint asks of the database and how it answers, the model of the
  `resource_` and `file_` tables with the laws that hold of it, the answers to
  refused requests, the configuration read from environment variables, the
  rows the background service writes, and the per-language market data.
- `app/` is the program around it: warp, sqlx, reqwest, the environment and
  the background loop. It hands the library plain values and does what the
  library decides.
- `tests/` runs the library on concrete requests.

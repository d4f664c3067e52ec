# bosca_server

The decision-making core of the Bosca content server, written in Verus and
proved against its contracts: how find queries are turned into SQL with
numbered parameters, how permission checks are decided before and after the
grants are read, how workflow transitions change an item's state, how
configuration values are encrypted and cached, how uploads are split into
parts, which messages announce changes, and how OAuth2 clients are configured
from their settings.

Layout:

- `src/` — the verified library, one module per concern (`query`,
  `permissions`, `context`, `workflow`, `configurations`, `files`,
  `security_oauth2`, ...). Public proof functions named `law_*` state the
  properties that hold across calls.
- `tests/` — tests that run the library on concrete values.
- `app/` — the unverified edges: reading the environment, publishing to
  Redis, serialising messages with serde, sharing the caching manager
  between a request's handlers, and the loops that run the library's
  decisions against a store (`batches` for collection batches, `plans` for
  execution plans).

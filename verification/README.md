# lockbox

An API key service: it issues keys of the form
`{namespace}_{tag}_{short key}{long key}{checksum}` (the tag is optional), stores
only the SHA-512 hash of the long key, and answers introspection requests that check a
presented key against its tenant, its tag, its revocation, its expiry and its scope.

## Layout

- `src/` is the verified library (Verus). It holds the token format and its checksum,
  the introspection decision, each service operation as a state machine over store
  requests (`protocol`, `introspect`, `key_ops`, `namespace_ops`, `tag_ops`), the error
  mapping of the HTTP layer (`api`, `rejection`), request and query validation (`dto`,
  `query`), the conditions a key search puts on stored keys (`filters`), the database
  handle and its settings (`database`), telemetry settings
  (`telemetry`), the configuration (`config`) and the command-line decisions (`cli`).
- `app/` is the program around it: the command line, the HTTP server, and the
  database access that carries out the operations' store requests.
- `tests/` runs the library on concrete values.

# batchwise

The rules of a multi-tenant brewery management service, verified with Verus.

- `src/` is the verified library: pagination, sort and filter parsing, LIKE
  escaping, role-based route authorisation, configuration loading, the
  membership and feature caches, the sliding-window rate limiter, error
  values, and the domain rules of labels, the recipe library, members,
  packaging and procurement (what a patch changes, which state changes are
  allowed, when stock suffices, which SQL a list query runs). Brewing
  vocabularies, reference waters and label layout live under `src/pkg/`.
  Each public function states its result in its contract; the properties
  that span calls are public proof functions named `law_*`.
- `app/` is the server around it: axum middleware and error rendering, the
  Postgres pool and migrations, the shared Redis rate limit, the
  floating-point brewing physics, and PDF rendering of labels.
- `tests/` runs the library on concrete values.

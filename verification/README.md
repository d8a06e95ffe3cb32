# newsletter

The verified core of a newsletter service's admin and subscription endpoints.

- `src/` is the library, checked by Verus: idempotency keys and saved
  responses (`idempotency`), password checks and hashing (`authentication`,
  with the Argon2 calls in `hashing`), the replies and pages the handlers
  produce (`reply`), and the decisions of each handler (`routes`). Handlers
  that interleave database work with decisions are state machines: a step
  function takes the state and the outcome of the last action and returns
  the next state and action.
- `app/` is the actix-web service around it: extractors, SQL queries, the
  blocking thread pool, flash messages, and the loops that perform the
  library's actions.
- `tests/` exercises the library on concrete inputs.

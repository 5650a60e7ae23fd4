# restaurant

A restaurant order-management service (menu, orders, order items) with a
role-based API for administrators, waiters and cooks.

- `src/` is the verified library (Verus):
  - `text.rs`: splitting at the first occurrence of a character, decimal
    rendering of integers;
  - `error.rs`: the domain errors, their messages, status codes and error
    bodies;
  - `model.rs`: records and request/response bodies, role names;
  - `auth.rs`: Basic credentials in the `Authorization` header, the user
    lookup outcome, role grants;
  - `handler.rs`: each endpoint as a state machine (credentials, lookup,
    grant, the order's assigned waiter when a waiter changes an order, one
    database command, answer), with the access rules and their laws;
  - `config.rs`: the configuration, where it is read from, and how failures
    are reported.
- `app/` is the program around it: actix-web endpoints that drive the
  library's state machine, PostgreSQL through sqlx, configuration loading
  through the `config` crate, Prometheus metrics, and a start-up walk
  through an order's life.
- `tests/` exercises the library on concrete values.

# auth

A small account service: sign-up, login with a signed HS256 token, and a
"who am I" route behind a token check.

- `src/` is the verified library: the connection strings, the decimal text
  and parsing of integers, the JSON text of token claims, the token calls
  into `jsonwebtoken`, the decisions of the login, sign-up (a step function
  driven by database replies), "who am I" and the authentication layer.
- `app/` is the HTTP server around it: reading the settings file, the
  Postgres pool and queries, the axum routes and middleware, and the JSON
  shapes of requests and replies.
- `tests/` exercises the library on concrete values.

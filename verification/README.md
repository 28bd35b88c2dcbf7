# kratos_auth

An authentication service (registration, login, logout, recovery,
verification and settings) that delegates identity management to Ory Kratos.

- `src/` is the library, written in Verus. It holds what the service decides:
  the URLs it calls on Kratos (with `localhost` rewritten to `127.0.0.1`), the
  self-service flow protocol as a state machine (fetching a flow, following
  Kratos's redirect to an existing flow, reading the CSRF token, assembling
  the cookies), the payloads it submits, how each answer or refusal becomes a
  result or a `DomainError`, when a failed request is retried, and the
  conversions from API inputs to domain values. Every function carries a
  contract that Verus proves.
- `app/` is the program around it: configuration from the environment,
  reqwest for HTTP, async-graphql and actix-web for the API, tokio and
  tracing. It sends the requests the library asks for and hands the answers
  back as the library's values.
- `tests/` exercises the library on concrete values.

# usher

The backend of Usher, a ride-sharing service: customers sign up, log in and
ask for rides, drivers accept them, either side may delete a ride that is not
over, and both review completed rides.

- `src/` is the verified library (Verus). It holds every decision the server
  makes: how requests are checked, which database operation each one leads
  to, how outcomes become replies and status codes, how user and ride ids are
  read and written, and how token claims are written as JSON and signed.
  Each handler is a step function from an event (the request, then the
  outcome of a database operation) to an action (the next operation, or the
  reply).
- `app/` is the HTTP server around it: axum routes, bearer-token extraction,
  PostgreSQL through sqlx, JSON bodies through serde, logging and
  configuration from the environment (`JWT_SECRET`, `DATABASE_URL`).
- `tests/` exercises the library with the real outside crates linked.

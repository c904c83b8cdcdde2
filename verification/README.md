# verisure_exporter

The verified core of a Prometheus exporter for Verisure alarm systems.

- `src/verisure/` — the Verisure API client: the GraphQL requests
  (`queries`), a plain JSON model (`json`), what the API's answers mean
  (`reply`), and the client's decisions as a state machine (`client`):
  which endpoint to use, when to log in again, when to fail over.
- `src/metrics/` — the metric catalogue, label sets and gauge families
  (`registry`), and how a scrape's data becomes gauge values (`collector`).
- `src/server.rs` — routing and answers of the HTTP endpoints.
- `src/laws.rs` — properties that span several functions.
- `app/` — the program: command line, HTTP client and server, the scrape
  loop, and the floating-point gauges.

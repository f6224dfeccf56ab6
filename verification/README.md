# tllama

An Ollama-compatible HTTP front end for the T3 Chat backend: Ollama clients
talk to it on port 11434 as they would to Ollama, and their requests are
answered by T3 Chat models.

The repository holds two crates.

- `src/` is the `tllama` library, verified with Verus. It holds what the
  service decides and computes: the configuration rules (`config`), the
  replies of every Ollama endpoint (`handlers`), the route table (`routes`),
  the reading of the model catalogue out of the T3 Chat front end
  (`t3_scraper`, over the regular expressions of `pattern`), and the text
  helpers they share (`text`). The current time and random UUIDs come from
  `clock`.
- `app/` is the service around it: the axum server, the T3 Chat client, the
  SQLite status log, the environment, and the JSON forms of the library's
  records.

Tests of the library are under `tests/`.

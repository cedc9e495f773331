# mutsura_api

A multi-language blog API (posts, pages, categories, tags, users, JWT and
refresh-token authentication, static-site-generation endpoints) whose core
is verified with Verus.

## Layout

- `src/` — the verified library:
  - `object_id` — twelve-byte identifiers and their hexadecimal form;
  - `model`, `dto` — stored documents, transfer objects, pagination;
  - `mapper` — conversions between documents and transfer objects, per language;
  - `text` — plain-text excerpts of markdown bodies;
  - `query` — query parameters, post filters, the post list query plan,
    integer parameters;
  - `auth` — access-token claims, refresh tokens, password hashes, login;
  - `service` — the documents that create and update requests make, the
    answer to a page of posts, deletion statuses.
- `app/` — the HTTP server (axum), MongoDB access, JWT encoding, the
  command line, and serde copies of the library's types.
- `tests/` — tests of the library on concrete values.

# meilisearch_sdk

A client for MeiliSearch servers whose logic is verified with Verus.

- `src/` is the verified library: `client` plans the request of each
  operation (address, method, key, expected status) and decides what each
  answer means (`delete_index_if_exists`, `get_or_create`, `is_healthy`);
  `errors` reads the server's error descriptions; `indexes` holds index
  handles; `request` describes requests as plain values; `test_macro` decides
  what the `#[meilisearch_test]` attribute writes. `support` holds the few
  trusted specifications of std functions.
- `app/` sends the planned requests through a `Transport`, decodes JSON
  answers with serde, and rewrites tokens for `#[meilisearch_test]` with syn
  and quote.
- `tests/` runs the library on concrete values.

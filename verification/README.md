# fdb_node

The bookkeeping of a node service that records signed requests, binds tokens
to meta contracts and keeps versioned metadata in IPFS blocks.

- `src/` — the verified library:
  - `defaults` — status codes, request methods and key types;
  - `error` — the service's errors and their texts;
  - `records` — transactions, metadata records and meta-contract bindings;
  - `result` — the answer records of the lookups;
  - `send` — the checks of a signed request, step by step;
  - `binding` — binding a token to its meta contract;
  - `metadata_update` — storing the metadata a meta contract accepted;
  - `history` — walking back through the versions of a metadata record.
- `tests/` — tests of the library on concrete values.
- `app/` — the service module: the record store interface, the IPFS and
  crypto imports, and the request endpoints.

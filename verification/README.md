# bind9_rest

A REST API for the PTR records of BIND9 zones. Records live in PostgreSQL,
are pushed to the DNS server as TSIG-signed dynamic updates (RFC 2136), and a
background reconciler puts back any record that the server no longer has.

Routes:

- `GET /health`
- `GET /zones/{zone}/ptrs` - the records of a zone, by name
- `GET /zones/{zone}/ptrs/{name}` - one record (404 when absent)
- `PUT /zones/{zone}/ptrs/{name}` with `{"ptr_target": ..., "ttl": ...}` (TTL 300
  by default) - written to the database, then to the DNS server; a DNS
  failure undoes the database write and answers 502
- `DELETE /zones/{zone}/ptrs/{name}` - cleared on the DNS server, then removed
  from the database (404 when absent)

## Layout

- `src/` is the library, verified with Verus:
  - `text.rs` - prefix removal, last-occurrence search, decimal `u16` parsing,
    trailing-dot removal
  - `address.rs` - the DNS server's address and the parser of address strings,
    with the law that a written address reads back
  - `dns_proto.rs` - the calls into `hickory_proto` (names, TSIG signer, record
    sets, response-code texts), each with the contract that is trusted
  - `dns_client.rs` - the client, its errors, and the update and lookup
    exchanges as state machines
  - `db.rs` - the stored record and the SQL statements
  - `routes.rs` - bodies, error replies and the decisions of each route
  - `reconciler.rs` - a reconciler round as a state machine, with the law of a
    whole round
  - `config.rs` - the configuration
- `app/` is the program: configuration file, PostgreSQL (sqlx), DNS traffic
  (hickory-net), HTTP (axum), logging, and the loop of the reconciler. It
  performs the actions that the library's state machines return.
- `tests/` exercises the library on concrete values.

# canonical_store

The decision logic of a pluggable canonical-store layer, verified with Verus.
Each backend (Cassandra, ClickHouse, SQL Server, MySQL, MongoDB, Neo4j and the
SQL stores sharing a dialect) keeps its durability token, outbox sequence,
advisory lease, projection-task queue, saga recovery and admin-audit chain in
its own database. The round trips themselves are not in this crate: a store
runs them through its database driver and hands what came back to the
functions here, which decide what happens around them, with contracts:

- `token`, `mysql_token`: durability tokens, which store may wait on which
  token, and the polling decision of the wait loop.
- `ident`, `dsn`, `text`, `registry`: identifier guards, SQL literals, Keeper
  path components, DSN editing, string helpers, and the registry of open
  stores keyed case-insensitively by backend label and instance.
- `dialect`, `status`: placeholders, optional WHERE clauses, paging defaults,
  status texts and the per-status summary folds.
- `sequence`, `lease`, `audit`: outbox-sequence allocation by compare-and-set,
  the KeeperMap lease protocol, and the admin-audit chain: the paged
  verification (which row decides, the count and last hash it reports) and
  the compare-and-set that links an append to the chain head.
- `projection`, `saga`, `groups`, `selection`, `mysql_claim`: which tasks and
  sagas are claimed, in what order and how many, the MySQL claim statements, failure and re-compensation guards, scan counts
  and per-group tallies.
- `cells`, `decode`, `clock`: tolerant readers for JSON and CQL row cells,
  UUID and timestamp columns, and the wall clock.
- the per-backend store modules: table names, relation guards and token
  minting of each store.

`app/` holds the serde form of tokens, the conversion of JSON rows and the
async wait loop.

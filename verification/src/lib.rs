//! Verified core of a pluggable canonical-store layer: durability tokens,
//! identifier guards, SQL builders and the decision logic that the
//! per-backend stores run around their database round trips.
pub mod text;
pub mod token;
pub mod ident;
pub mod mysql_token;
pub mod status;
pub mod dialect;
pub mod clock;
pub mod cassandra;
pub mod clickhouse;
pub mod mssql;
pub mod mysql;
pub mod mongodb;
pub mod neo4j;
pub mod dsn;
pub mod selection;
pub mod lease;
pub mod sequence;
pub mod projection;
pub mod saga;
pub mod audit;
pub mod registry;
pub mod groups;
pub mod cells;
pub mod decode;
pub mod listing;
pub mod outbox;
pub mod mysql_claim;

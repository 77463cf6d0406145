//! Advisory-lease decisions. Every backend keeps rows of
//! `(lease_name, owner_id, expires_at)`; a lease may be taken when it is
//! absent, released (empty owner), expired, or already the caller's, and a
//! release only ever applies to the owner's own row. The ClickHouse store
//! takes these decisions in the library around its KeeperMap round trips;
//! the SQL/Cypher/Mongo stores read back the resulting owner.
use vstd::prelude::*;

use crate::text::{i64_to_decimal, int_decimal, push_char, str_eq};

verus! {

/// One lease row as read back from the lease table.
#[derive(Debug, Clone)]
pub struct KeeperLeaseRow {
    pub owner_id: String,
    pub expires_at: i64,
    pub token: String,
}

/// Owner of an optional row; a missing row reads as the empty owner.
pub open spec fn row_owner(r: Option<KeeperLeaseRow>) -> Seq<char> {
    match r {
        Some(x) => x.owner_id@,
        None => Seq::empty(),
    }
}

/// Expiry of an optional row; a missing row reads as `0`.
pub open spec fn row_expires(r: Option<KeeperLeaseRow>) -> i64 {
    match r {
        Some(x) => x.expires_at,
        None => 0,
    }
}

/// Token of an optional row; a missing row reads as the empty token.
pub open spec fn row_token(r: Option<KeeperLeaseRow>) -> Seq<char> {
    match r {
        Some(x) => x.token@,
        None => Seq::empty(),
    }
}

/// The row behind an optional reference.
pub open spec fn deref_row(r: Option<&KeeperLeaseRow>) -> Option<KeeperLeaseRow> {
    match r {
        Some(x) => Some(*x),
        None => None,
    }
}

/// The lease is free: no row, a release tombstone (empty owner), or an
/// expiry at or before `now`.
pub open spec fn lease_free_spec(current: Option<KeeperLeaseRow>, now: i64) -> bool {
    current is None || row_owner(current).len() == 0 || row_expires(current) <= now
}

/// `owner` may (re)claim the lease: it is free, or it is already `owner`'s.
pub open spec fn may_acquire_spec(current: Option<KeeperLeaseRow>, owner: Seq<char>, now: i64) -> bool {
    lease_free_spec(current, now) || row_owner(current) == owner
}

/// Whether `owner_id` may write the lease row, given the row read just
/// before (`None` when no row is visible).
pub fn keeper_may_acquire(current: Option<&KeeperLeaseRow>, owner_id: &str, now: i64) -> (r: bool)
    ensures
        r == may_acquire_spec(deref_row(current), owner_id@, now),
{
    match current {
        None => true,
        Some(row) => {
            let is_free = row.owner_id.as_str().unicode_len() == 0 || row.expires_at <= now;
            is_free || str_eq(row.owner_id.as_str(), owner_id)
        },
    }
}

/// Whether the confirming read shows the caller's own write: the row's
/// owner and token are the ones the caller wrote.
pub fn keeper_acquire_won(confirm: Option<&KeeperLeaseRow>, owner_id: &str, token: &str) -> (r: bool)
    ensures
        r == (row_owner(deref_row(confirm)) == owner_id@ && row_token(deref_row(confirm))
            == token@),
{
    match confirm {
        Some(row) => str_eq(row.owner_id.as_str(), owner_id) && str_eq(row.token.as_str(), token),
        None => {
            let r = owner_id.unicode_len() == 0 && token.unicode_len() == 0;
            proof {
                if owner_id@.len() == 0 {
                    assert(owner_id@ =~= Seq::<char>::empty());
                }
                if token@.len() == 0 {
                    assert(token@ =~= Seq::<char>::empty());
                }
            }
            r
        },
    }
}

/// Whether a release by `owner_id` applies: only the current owner may turn
/// the row into a free tombstone.
pub fn keeper_release_applies(current: Option<&KeeperLeaseRow>, owner_id: &str) -> (r: bool)
    ensures
        r == (row_owner(deref_row(current)) == owner_id@),
{
    match current {
        Some(row) => str_eq(row.owner_id.as_str(), owner_id),
        None => {
            let r = owner_id.unicode_len() == 0;
            proof {
                if owner_id@.len() == 0 {
                    assert(owner_id@ =~= Seq::<char>::empty());
                }
            }
            r
        },
    }
}

/// Expiry of a lease taken at `now` for `ttl_ms` milliseconds.
pub fn lease_expiry(now: i64, ttl_ms: u128) -> (r: i64)
    requires
        i64::MIN <= now + (ttl_ms as i64) <= i64::MAX,
    ensures
        r == now + (ttl_ms as i64),
{
    now + (ttl_ms as i64)
}

/// Token of a KeeperMap lease write: `<owner>:<now>:<nonce>`.
pub fn keeper_lease_token(owner_id: &str, now: i64, nonce: &str) -> (r: String)
    ensures
        r@ == owner_id@ + seq![':'] + int_decimal(now as int) + seq![':'] + nonce@,
{
    let mut t = String::from_str(owner_id);
    push_char(&mut t, ':');
    let mut t = t.concat(i64_to_decimal(now).as_str());
    push_char(&mut t, ':');
    t.concat(nonce)
}

/// Token of a release tombstone: `released:<now>:<nonce>`.
pub fn keeper_release_token(now: i64, nonce: &str) -> (r: String)
    ensures
        r@ == "released:"@ + int_decimal(now as int) + seq![':'] + nonce@,
{
    let mut t = String::from_str("released:").concat(i64_to_decimal(now).as_str());
    push_char(&mut t, ':');
    t.concat(nonce)
}

/// Whether the owner a conditional upsert left in the row (or returned) is
/// the caller: the outcome of the MERGE / upsert / Cypher acquires.
pub fn lease_owned_by(resulting_owner: Option<&str>, owner_id: &str) -> (r: bool)
    ensures
        r == (resulting_owner matches Some(o) && o@ == owner_id@),
{
    match resulting_owner {
        Some(o) => str_eq(o, owner_id),
        None => false,
    }
}

// ── Lightweight-transaction lease (CQL) ─────────────────────────────────────

/// The three conditional writes of a CQL acquire, tried in this order: a
/// fresh insert (applies when no row exists), a same-owner refresh
/// (applies when the caller holds the row), an expired takeover (applies
/// when the held lease has lapsed).
#[derive(Debug, Clone, Copy, PartialEq, Eq, Structural)]
pub enum CqlLeaseStep {
    Insert,
    Refresh,
    Takeover,
}

/// What an acquire does after one conditional write.
#[derive(Debug, Clone, Copy, PartialEq, Eq, Structural)]
pub enum CqlLeaseOutcome {
    /// The write applied: the caller holds the lease.
    Acquired,
    /// The last write did not apply: another owner holds a live lease.
    Denied,
    /// Try the next conditional write.
    Next(CqlLeaseStep),
}

pub open spec fn cql_lease_next_spec(step: CqlLeaseStep, applied: bool) -> CqlLeaseOutcome {
    if applied {
        CqlLeaseOutcome::Acquired
    } else {
        match step {
            CqlLeaseStep::Insert => CqlLeaseOutcome::Next(CqlLeaseStep::Refresh),
            CqlLeaseStep::Refresh => CqlLeaseOutcome::Next(CqlLeaseStep::Takeover),
            CqlLeaseStep::Takeover => CqlLeaseOutcome::Denied,
        }
    }
}

/// The acquire's move after `step` applied or not.
pub fn cql_lease_next(step: CqlLeaseStep, applied: bool) -> (r: CqlLeaseOutcome)
    ensures
        r == cql_lease_next_spec(step, applied),
{
    if applied {
        return CqlLeaseOutcome::Acquired;
    }
    match step {
        CqlLeaseStep::Insert => CqlLeaseOutcome::Next(CqlLeaseStep::Refresh),
        CqlLeaseStep::Refresh => CqlLeaseOutcome::Next(CqlLeaseStep::Takeover),
        CqlLeaseStep::Takeover => CqlLeaseOutcome::Denied,
    }
}

pub open spec fn cql_lease_sql_spec(step: CqlLeaseStep, table: Seq<char>) -> Seq<char> {
    match step {
        CqlLeaseStep::Insert => "INSERT INTO "@ + table
            + " (lease_name, owner_id, expires_at) VALUES (?, ?, ?) IF NOT EXISTS"@,
        CqlLeaseStep::Refresh => "UPDATE "@ + table
            + " SET owner_id = ?, expires_at = ? WHERE lease_name = ? IF owner_id = ?"@,
        CqlLeaseStep::Takeover => "UPDATE "@ + table
            + " SET owner_id = ?, expires_at = ? WHERE lease_name = ? IF expires_at <= ?"@,
    }
}

/// The CQL of one conditional write of the acquire.
pub fn cql_lease_sql(step: CqlLeaseStep, table: &str) -> (r: String)
    ensures
        r@ == cql_lease_sql_spec(step, table@),
{
    match step {
        CqlLeaseStep::Insert => String::from_str("INSERT INTO ").concat(table).concat(
            " (lease_name, owner_id, expires_at) VALUES (?, ?, ?) IF NOT EXISTS",
        ),
        CqlLeaseStep::Refresh => String::from_str("UPDATE ").concat(table).concat(
            " SET owner_id = ?, expires_at = ? WHERE lease_name = ? IF owner_id = ?",
        ),
        CqlLeaseStep::Takeover => String::from_str("UPDATE ").concat(table).concat(
            " SET owner_id = ?, expires_at = ? WHERE lease_name = ? IF expires_at <= ?",
        ),
    }
}

/// The owner-scoped release: deletes the row only for its holder, so a
/// release by anyone else does not apply.
pub fn cql_lease_release_sql(table: &str) -> (r: String)
    ensures
        r@ == "DELETE FROM "@ + table@ + " WHERE lease_name = ? IF owner_id = ?"@,
{
    String::from_str("DELETE FROM ").concat(table).concat(" WHERE lease_name = ? IF owner_id = ?")
}

/// Whether `step`'s condition holds on the lease row (`None`: no row;
/// otherwise its owner and expiry).
pub open spec fn cql_lease_applies(step: CqlLeaseStep, row: Option<(Seq<char>, i64)>, owner: Seq<char>, now: i64) -> bool {
    match step {
        CqlLeaseStep::Insert => row is None,
        CqlLeaseStep::Refresh => row matches Some(r) && r.0 == owner,
        CqlLeaseStep::Takeover => row matches Some(r) && r.1 <= now,
    }
}

/// The outcome of running the acquire from `step` against a row that no
/// other writer changes meanwhile.
pub open spec fn cql_acquire_from(step: CqlLeaseStep, row: Option<(Seq<char>, i64)>, owner: Seq<char>, now: i64) -> bool
    decreases (match step {
        CqlLeaseStep::Insert => 2int,
        CqlLeaseStep::Refresh => 1int,
        CqlLeaseStep::Takeover => 0int,
    }),
{
    match cql_lease_next_spec(step, cql_lease_applies(step, row, owner, now)) {
        CqlLeaseOutcome::Acquired => true,
        CqlLeaseOutcome::Denied => false,
        CqlLeaseOutcome::Next(next) => match step {
            CqlLeaseStep::Insert => cql_acquire_from(CqlLeaseStep::Refresh, row, owner, now),
            CqlLeaseStep::Refresh => cql_acquire_from(CqlLeaseStep::Takeover, row, owner, now),
            CqlLeaseStep::Takeover => false,
        },
    }
}

/// The three-step acquire grants exactly what the lease contract grants: a
/// lease with no row, the caller's own lease, or a lapsed one; a live lease
/// of another owner is denied.
pub proof fn lemma_cql_acquire_grants(row: Option<(Seq<char>, i64)>, owner: Seq<char>, now: i64)
    ensures
        cql_acquire_from(CqlLeaseStep::Insert, row, owner, now) == (row is None || (row matches Some(
            r,
        ) && (r.0 == owner || r.1 <= now))),
{
    reveal_with_fuel(cql_acquire_from, 3);
}

// ── Laws of the lease contract ──────────────────────────────────────────────

/// A lease nobody holds can be taken.
pub proof fn lemma_fresh_lease_is_acquired(owner: Seq<char>, now: i64)
    ensures
        may_acquire_spec(None, owner, now),
{
}

/// A live lease of another owner is denied.
pub proof fn lemma_live_foreign_lease_is_denied(row: KeeperLeaseRow, owner: Seq<char>, now: i64)
    requires
        row.owner_id@.len() > 0,
        row.owner_id@ != owner,
        row.expires_at > now,
    ensures
        !may_acquire_spec(Some(row), owner, now),
{
}

/// The holder may refresh its own lease, expired or not.
pub proof fn lemma_owner_refreshes(row: KeeperLeaseRow, now: i64)
    ensures
        may_acquire_spec(Some(row), row.owner_id@, now),
{
}

/// An expired lease (a zero-ttl one included) can be taken over by anyone.
pub proof fn lemma_expired_lease_is_taken_over(row: KeeperLeaseRow, owner: Seq<char>, now: i64)
    requires
        row.expires_at <= now,
    ensures
        may_acquire_spec(Some(row), owner, now),
{
}

/// A released lease (empty owner) can be taken by anyone.
pub proof fn lemma_released_lease_is_free(row: KeeperLeaseRow, owner: Seq<char>, now: i64)
    requires
        row.owner_id@.len() == 0,
    ensures
        may_acquire_spec(Some(row), owner, now),
{
}

/// A release by anyone but the holder is a no-op.
pub proof fn lemma_foreign_release_is_noop(row: KeeperLeaseRow, owner: Seq<char>)
    requires
        row.owner_id@ != owner,
    ensures
        row_owner(Some(row)) != owner,
{
}

/// One observable winner: a confirming read names at most one
/// (owner, token) pair, so two acquirers with different tokens cannot both
/// see their own write.
pub proof fn lemma_single_winner(
    confirm: Option<KeeperLeaseRow>,
    owner_a: Seq<char>,
    token_a: Seq<char>,
    owner_b: Seq<char>,
    token_b: Seq<char>,
)
    requires
        row_owner(confirm) == owner_a && row_token(confirm) == token_a,
        row_owner(confirm) == owner_b && row_token(confirm) == token_b,
    ensures
        owner_a == owner_b,
        token_a == token_b,
{
}

/// Two distinct non-empty owners can never both hold a live lease: while
/// one holds it unexpired, the other is denied.
pub proof fn lemma_mutual_exclusion(
    row: KeeperLeaseRow,
    holder: Seq<char>,
    other: Seq<char>,
    now: i64,
)
    requires
        row.owner_id@ == holder,
        holder.len() > 0,
        holder != other,
        row.expires_at > now,
    ensures
        may_acquire_spec(Some(row), holder, now),
        !may_acquire_spec(Some(row), other, now),
{
}

} // verus!

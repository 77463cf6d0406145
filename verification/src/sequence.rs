//! Outbox-sequence allocation for stores without a native sequence. The
//! Cassandra store allocates by compare-and-set on a counter row; the
//! ClickHouse store inserts a new counter version under a Keeper lease and
//! confirms it by re-reading. Both steps are decided here; the round trips
//! run in the application layer.
use vstd::prelude::*;

use crate::ident::{sql_lit, sql_lit_spec};
use crate::status::SystemStoreError;
use crate::text::{i64_to_decimal, int_decimal, u64_to_decimal, nat_decimal};

verus! {

/// Attempts the counter compare-and-set loop makes before giving up.
pub const OUTBOX_CAS_MAX_ATTEMPTS: u32 = 64;

/// The next move of the compare-and-set allocation, from the counter read.
#[derive(Debug, Clone, Copy, PartialEq, Eq)]
pub enum SeqAllocStep {
    /// No counter row yet: insert it at 1 if it still does not exist.
    Seed,
    /// Move the counter from `current` to `next` if it still reads `current`.
    Advance { current: i64, next: i64 },
}

/// The counter value a read stands for: an absent row is 0.
pub open spec fn counter_value(read: Option<i64>) -> int {
    match read {
        Some(c) => c as int,
        None => 0,
    }
}

pub open spec fn seq_step_spec(read: Option<i64>) -> SeqAllocStep {
    match read {
        None => SeqAllocStep::Seed,
        Some(c) => SeqAllocStep::Advance { current: c, next: (c + 1) as i64 },
    }
}

/// The sequence a step claims when its compare-and-set applies.
pub open spec fn step_target(step: SeqAllocStep) -> i64 {
    match step {
        SeqAllocStep::Seed => 1,
        SeqAllocStep::Advance { current: _, next } => next,
    }
}

/// Decide the compare-and-set to attempt from the counter read.
pub fn outbox_seq_step(read: Option<i64>) -> (s: SeqAllocStep)
    requires
        read matches Some(c) ==> c < i64::MAX,
    ensures
        s == seq_step_spec(read),
{
    match read {
        None => SeqAllocStep::Seed,
        Some(c) => SeqAllocStep::Advance { current: c, next: c + 1 },
    }
}

/// The allocated sequence when the compare-and-set applied, `None` when
/// another writer won the round and the loop must read again.
pub fn seq_cas_outcome(step: SeqAllocStep, applied: bool) -> (r: Option<i64>)
    ensures
        r == if applied {
            Some(step_target(step))
        } else {
            None
        },
{
    if !applied {
        return None;
    }
    match step {
        SeqAllocStep::Seed => Some(1),
        SeqAllocStep::Advance { current: _, next } => Some(next),
    }
}

/// Bound on the compare-and-set loop: attempt numbers past the cap are an
/// error naming the contended table.
pub fn cas_attempt_allowed(attempt: u32, seq_table: &str) -> (r: Result<(), String>)
    ensures
        r is Ok <==> attempt <= OUTBOX_CAS_MAX_ATTEMPTS,
        r matches Err(m) ==> m@ == "outbox seq CAS did not converge after "@ + nat_decimal(
            OUTBOX_CAS_MAX_ATTEMPTS as nat,
        ) + " attempts (contention on "@ + seq_table@ + ")"@,
{
    if attempt > OUTBOX_CAS_MAX_ATTEMPTS {
        return Err(
            String::from_str("outbox seq CAS did not converge after ").concat(
                u64_to_decimal(OUTBOX_CAS_MAX_ATTEMPTS as u64).as_str(),
            ).concat(" attempts (contention on ").concat(seq_table).concat(")"),
        );
    }
    Ok(())
}

/// Attempts the migration-ledger id and recovery-attempt compare-and-set
/// loops make before giving up.
pub const ROW_CAS_MAX_ATTEMPTS: u32 = 64;

/// Bound on a per-row compare-and-set loop of the CQL store: attempt
/// numbers past `max_attempts` are a `cassandra` I/O error naming the
/// operation and the counter that did not converge.
pub fn cql_cas_round(attempt: u32, max_attempts: u32, op: &str, counter: &str) -> (r: Result<
    (),
    SystemStoreError,
>)
    ensures
        r is Ok <==> attempt <= max_attempts,
        r matches Err(e) ==> e matches SystemStoreError::Io { backend: b, source } && b@
            == "cassandra"@ && source@ == op@ + ": "@ + counter@ + " CAS did not converge"@,
{
    if attempt > max_attempts {
        let detail = String::from_str(counter).concat(" CAS did not converge");
        return Err(crate::cassandra::cass_err(op, detail.as_str()));
    }
    Ok(())
}

/// The outbox high-water mark a counter read stands for.
pub fn counter_or_zero(read: Option<i64>) -> (r: i64)
    ensures
        r == counter_value(read),
{
    match read {
        Some(c) => c,
        None => 0,
    }
}

/// CQL reading the outbox counter row.
pub fn cql_counter_select(seq_table: &str) -> (r: String)
    ensures
        r@ == "SELECT seq FROM "@ + seq_table@ + " WHERE id = 'outbox'"@,
{
    String::from_str("SELECT seq FROM ").concat(seq_table).concat(" WHERE id = 'outbox'")
}

/// CQL seeding the outbox counter row when it does not exist.
pub fn cql_counter_seed(seq_table: &str) -> (r: String)
    ensures
        r@ == "INSERT INTO "@ + seq_table@ + " (id, seq) VALUES ('outbox', ?) IF NOT EXISTS"@,
{
    String::from_str("INSERT INTO ").concat(seq_table).concat(
        " (id, seq) VALUES ('outbox', ?) IF NOT EXISTS",
    )
}

/// CQL advancing the outbox counter only if it still holds the read value.
pub fn cql_counter_cas(seq_table: &str) -> (r: String)
    ensures
        r@ == "UPDATE "@ + seq_table@ + " SET seq = ? WHERE id = 'outbox' IF seq = ?"@,
{
    String::from_str("UPDATE ").concat(seq_table).concat(" SET seq = ? WHERE id = 'outbox' IF seq = ?")
}

// ── ClickHouse versioned counter ────────────────────────────────────────────

/// The counter value the ClickHouse store allocates after reading `current`.
pub fn clickhouse_next_seq(current: i64) -> (r: i64)
    requires
        current < i64::MAX,
    ensures
        r == current + 1,
{
    current + 1
}

/// SQL reading the latest counter version (`FINAL` collapses superseded
/// versions).
pub fn clickhouse_counter_select(counters: &str) -> (r: String)
    ensures
        r@ == "SELECT seq FROM "@ + counters@ + " FINAL WHERE id = "@ + sql_lit_spec(
            "outbox_seq"@,
        ),
{
    String::from_str("SELECT seq FROM ").concat(counters).concat(" FINAL WHERE id = ").concat(
        sql_lit("outbox_seq").as_str(),
    )
}

/// SQL inserting a new counter version; `version == seq`, so the highest
/// sequence is always the live version.
pub fn clickhouse_counter_insert(counters: &str, next: i64) -> (r: String)
    ensures
        r@ == "INSERT INTO "@ + counters@ + " (id, seq, version) VALUES ("@ + sql_lit_spec(
            "outbox_seq"@,
        ) + ", "@ + int_decimal(next as int) + ", "@ + int_decimal(next as int) + ")"@,
{
    let n = i64_to_decimal(next);
    String::from_str("INSERT INTO ").concat(counters).concat(" (id, seq, version) VALUES (").concat(
        sql_lit("outbox_seq").as_str(),
    ).concat(", ").concat(n.as_str()).concat(", ").concat(n.as_str()).concat(")")
}

/// Confirm an allocation by the re-read: a counter below the inserted value
/// means the allocation lost a race, and no sequence is handed out.
pub fn clickhouse_confirm_allocation(next: i64, confirmed: i64) -> (r: Result<i64, String>)
    ensures
        r is Ok <==> confirmed >= next,
        r matches Ok(v) ==> v == next,
        r matches Err(m) ==> m@ == "outbox seq allocation lost a race: inserted "@ + int_decimal(
            next as int,
        ) + ", re-read "@ + int_decimal(confirmed as int)
            + " (Keeper sequence lock invariant violated)"@,
{
    if confirmed < next {
        return Err(
            String::from_str("outbox seq allocation lost a race: inserted ").concat(
                i64_to_decimal(next).as_str(),
            ).concat(", re-read ").concat(i64_to_decimal(confirmed).as_str()).concat(
                " (Keeper sequence lock invariant violated)",
            ),
        );
    }
    Ok(next)
}

// ── Monotone per-row counters ───────────────────────────────────────────────

/// The next value of a saga's recovery-attempt counter.
pub fn next_recovery_attempt(current: i32) -> (r: i32)
    requires
        current < i32::MAX,
    ensures
        r == current + 1,
{
    current + 1
}

// ── Laws ────────────────────────────────────────────────────────────────────

/// Every successful allocation hands out the counter value it read plus
/// one (an absent counter counting as 0), so allocated sequences strictly
/// exceed the high-water mark the store reported before the enqueue.
pub proof fn lemma_allocation_exceeds_high_water(read: Option<i64>)
    requires
        read matches Some(c) ==> c < i64::MAX,
    ensures
        step_target(seq_step_spec(read)) == counter_value(read) + 1,
        step_target(seq_step_spec(read)) > counter_value(read),
{
}

/// Allocations from successive counter reads are strictly increasing:
/// when the later read is at least the earlier allocation, the later
/// allocation is larger.
pub proof fn lemma_allocations_increase(earlier: Option<i64>, later: Option<i64>)
    requires
        earlier matches Some(c) ==> c < i64::MAX,
        later matches Some(c) ==> c < i64::MAX,
        counter_value(later) >= step_target(seq_step_spec(earlier)),
    ensures
        step_target(seq_step_spec(later)) > step_target(seq_step_spec(earlier)),
{
}

/// The compare-and-set allocation loop, from round `k` on: round `k`
/// (attempt `k + 1`) reads the counter and tries its step; the first round
/// whose step applies allocates that step's target, and after the last
/// allowed attempt the loop gives up (`None`, the convergence error).
/// `rounds[k]` is what round `k` read and whether its write applied.
pub open spec fn cas_loop_spec(rounds: Seq<(Option<i64>, bool)>, k: nat) -> Option<i64>
    decreases OUTBOX_CAS_MAX_ATTEMPTS - k,
{
    if k >= OUTBOX_CAS_MAX_ATTEMPTS || k >= rounds.len() {
        None
    } else if rounds[k as int].1 {
        Some(step_target(seq_step_spec(rounds[k as int].0)))
    } else {
        cas_loop_spec(rounds, k + 1)
    }
}

/// The allocation loop hands out the counter its winning round read plus
/// one, after every earlier round lost; it gives up exactly when all the
/// allowed rounds lost. With a non-negative counter the sequence is
/// positive.
pub proof fn lemma_cas_loop_allocates_read_plus_one(rounds: Seq<(Option<i64>, bool)>, k: nat)
    requires
        rounds.len() >= OUTBOX_CAS_MAX_ATTEMPTS,
        forall|i: int|
            0 <= i < rounds.len() ==> ((#[trigger] rounds[i]).0 matches Some(c) ==> 0 <= c
                < i64::MAX),
    ensures
        cas_loop_spec(rounds, k) is None <==> forall|i: int|
            k <= i < OUTBOX_CAS_MAX_ATTEMPTS ==> !(#[trigger] rounds[i]).1,
        cas_loop_spec(rounds, k) matches Some(v) ==> exists|j: int|
            k <= j < OUTBOX_CAS_MAX_ATTEMPTS && (#[trigger] rounds[j]).1 && v == counter_value(
                rounds[j].0,
            ) + 1 && v > 0 && forall|i: int| k <= i < j ==> !(#[trigger] rounds[i]).1,
    decreases OUTBOX_CAS_MAX_ATTEMPTS - k,
{
    if k < OUTBOX_CAS_MAX_ATTEMPTS {
        let r = rounds[k as int];
        if r.1 {
            assert(k <= k as int && rounds[k as int].1);
        } else {
            lemma_cas_loop_allocates_read_plus_one(rounds, k + 1);
            if let Some(v) = cas_loop_spec(rounds, k) {
                let j = choose|j: int|
                    k + 1 <= j < OUTBOX_CAS_MAX_ATTEMPTS && (#[trigger] rounds[j]).1 && v
                        == counter_value(rounds[j].0) + 1 && v > 0 && forall|i: int|
                        k + 1 <= i < j ==> !(#[trigger] rounds[i]).1;
                assert forall|i: int| k <= i < j implies !(#[trigger] rounds[i]).1 by {}
            }
        }
    }
}

} // verus!

//! Durability tokens: which backend minted a token, the sequence-valued
//! tokens of the outbox-counter stores, and the decision step of the
//! wait-for-token polling loop.
use vstd::prelude::*;

use crate::text::{
    eq_ignore_ascii_case, eq_ignore_ascii_case_spec, i64_to_decimal, int_decimal,
    lemma_parse_i64_of_decimal, lower_code, parse_i64, parse_i64_spec,
};

verus! {

/// Backend-opaque token capturing the state of a canonical store at one
/// moment. `backend_label` names the backend that minted it, `value` is the
/// literal per-backend token.
#[derive(Debug, Clone)]
pub struct DurabilityToken {
    /// Backend label that minted this token (`"postgres"`, `"mysql"`, …).
    pub backend_label: String,
    /// Opaque per-backend value.
    pub value: String,
}

impl DurabilityToken {
    pub fn new(backend_label: &str, value: &str) -> (t: Self)
        ensures
            t.backend_label@ == backend_label@,
            t.value@ == value@,
    {
        DurabilityToken {
            backend_label: String::from_str(backend_label),
            value: String::from_str(value),
        }
    }

    /// Whether this token was minted by `backend_label` (ASCII
    /// case-insensitive).
    pub fn is_for(&self, backend_label: &str) -> (r: bool)
        ensures
            r == eq_ignore_ascii_case_spec(self.backend_label@, backend_label@),
    {
        eq_ignore_ascii_case(self.backend_label.as_str(), backend_label)
    }
}

/// The target sequence a store labelled `backend` reads from a token with
/// the given label and value: the value as a decimal `i64`, provided the
/// token is that backend's.
pub open spec fn seq_wait_target(backend: Seq<char>, label: Seq<char>, value: Seq<char>) -> Option<
    i64,
> {
    if eq_ignore_ascii_case_spec(label, backend) {
        parse_i64_spec(value)
    } else {
        None
    }
}

/// Message for a token minted by another backend.
pub open spec fn foreign_token_message(store: Seq<char>, label: Seq<char>) -> Seq<char> {
    store + " cannot wait on a '"@ + label + "' token"@
}

/// Fixed head of the message for a token whose value does not parse.
pub open spec fn malformed_token_head(backend: Seq<char>, value: Seq<char>) -> Seq<char> {
    "malformed "@ + backend + " durability token '"@ + value + "'"@
}

/// Durability token of a store whose progress is a sequence number: the
/// backend label and the sequence in decimal.
pub fn seq_durability_token(backend_label: &str, seq: i64) -> (t: DurabilityToken)
    ensures
        t.backend_label@ == backend_label@,
        t.value@ == int_decimal(seq as int),
{
    DurabilityToken { backend_label: String::from_str(backend_label), value: i64_to_decimal(seq) }
}

/// The validation half of `wait_for_token` for a sequence-valued store:
/// refuses a token minted by another backend, refuses a value that is not a
/// decimal `i64`, and otherwise returns the target sequence. `store` is the
/// store's type name used in the refusal message; with `detailed` the
/// malformed-value message ends in `": "` and the parse error text.
pub fn seq_wait_target_of(store: &str, backend_label: &str, token: &DurabilityToken, detailed: bool) -> (r: Result<i64, String>)
    ensures
        r is Ok <==> seq_wait_target(backend_label@, token.backend_label@, token.value@) is Some,
        r matches Ok(v) ==> seq_wait_target(backend_label@, token.backend_label@, token.value@)
            == Some(v),
        !eq_ignore_ascii_case_spec(token.backend_label@, backend_label@) ==> (r matches Err(m)
            && m@ == foreign_token_message(store@, token.backend_label@)),
        eq_ignore_ascii_case_spec(token.backend_label@, backend_label@) && parse_i64_spec(
            token.value@,
        ) is None ==> (r matches Err(m) && m@.len() >= malformed_token_head(
            backend_label@,
            token.value@,
        ).len() && m@.subrange(0, malformed_token_head(backend_label@, token.value@).len() as int)
            == malformed_token_head(backend_label@, token.value@) && (!detailed ==> m@
            == malformed_token_head(backend_label@, token.value@))),
{
    if !token.is_for(backend_label) {
        let m = String::from_str(store).concat(" cannot wait on a '").concat(
            token.backend_label.as_str(),
        ).concat("' token");
        return Err(m);
    }
    match parse_i64(token.value.as_str()) {
        Ok(v) => Ok(v),
        Err(detail) => {
            let head = String::from_str("malformed ").concat(backend_label).concat(
                " durability token '",
            ).concat(token.value.as_str()).concat("'");
            let ghost h = head@;
            if detailed {
                let m = head.concat(": ").concat(detail.as_str());
                assert(m@.subrange(0, h.len() as int) =~= h);
                Err(m)
            } else {
                assert(head@.subrange(0, h.len() as int) =~= h);
                Err(head)
            }
        },
    }
}

/// One decision of the wait-for-token polling loop.
#[derive(Debug, Clone, Copy, PartialEq, Eq)]
pub enum WaitStep {
    /// The store has reached the target: the wait returns `true`.
    Cleared,
    /// The timeout has elapsed first: the wait returns `false`.
    TimedOut,
    /// Sleep one poll interval and read the store again.
    Poll,
}

pub open spec fn wait_step_spec(current: i64, target: i64, elapsed_ms: u64, timeout_ms: u64) -> WaitStep {
    if current >= target {
        WaitStep::Cleared
    } else if elapsed_ms >= timeout_ms {
        WaitStep::TimedOut
    } else {
        WaitStep::Poll
    }
}

/// Decide the next move of the wait loop from the store's current sequence,
/// the target and the time spent so far. Reaching the target wins over the
/// timeout, as in the loop that checks progress before the clock.
pub fn wait_step(current: i64, target: i64, elapsed_ms: u64, timeout_ms: u64) -> (s: WaitStep)
    ensures
        s == wait_step_spec(current, target, elapsed_ms, timeout_ms),
{
    if current >= target {
        WaitStep::Cleared
    } else if elapsed_ms >= timeout_ms {
        WaitStep::TimedOut
    } else {
        WaitStep::Poll
    }
}

/// A token minted from a store's sequence names that sequence as the wait
/// target of the same backend, whatever the case of the label it is checked
/// against.
pub proof fn lemma_minted_token_targets_its_seq(backend: Seq<char>, seq: i64)
    ensures
        seq_wait_target(backend, backend, int_decimal(seq as int)) == Some(seq),
{
    lemma_parse_i64_of_decimal(seq);
}

/// A token is waited on only by the backend that minted it: for labels that
/// differ even under ASCII case folding there is no target.
pub proof fn lemma_foreign_token_has_no_target(backend: Seq<char>, label: Seq<char>, value: Seq<char>)
    requires
        !eq_ignore_ascii_case_spec(label, backend),
    ensures
        seq_wait_target(backend, label, value) is None,
{
}

/// Label matching is symmetric: a token for `a` is for `b` exactly when a
/// token for `b` is for `a`.
pub proof fn lemma_is_for_symmetric(a: Seq<char>, b: Seq<char>)
    ensures
        eq_ignore_ascii_case_spec(a, b) == eq_ignore_ascii_case_spec(b, a),
{
    if eq_ignore_ascii_case_spec(a, b) {
        assert forall|i: int| 0 <= i < b.len() implies lower_code(#[trigger] b[i]) == lower_code(
            a[i],
        ) by {
            assert(lower_code(a[i]) == lower_code(b[i]));
        }
    }
    if eq_ignore_ascii_case_spec(b, a) {
        assert forall|i: int| 0 <= i < a.len() implies lower_code(#[trigger] a[i]) == lower_code(
            b[i],
        ) by {
            assert(lower_code(b[i]) == lower_code(a[i]));
        }
    }
}

/// Once the store's sequence reaches the target the wait clears, and it
/// stays cleared for every later (never smaller) sequence and any clock.
pub proof fn lemma_wait_clears_monotonically(
    current: i64,
    later: i64,
    target: i64,
    elapsed_ms: u64,
    later_elapsed_ms: u64,
    timeout_ms: u64,
)
    requires
        wait_step_spec(current, target, elapsed_ms, timeout_ms) == WaitStep::Cleared,
        current <= later,
    ensures
        wait_step_spec(later, target, later_elapsed_ms, timeout_ms) == WaitStep::Cleared,
{
}

/// Waiting on a freshly minted token of the same store clears on the first
/// read when the store has not moved backwards.
pub proof fn lemma_own_token_clears_at_once(
    backend: Seq<char>,
    seq: i64,
    current: i64,
    elapsed_ms: u64,
    timeout_ms: u64,
)
    requires
        seq <= current,
    ensures
        seq_wait_target(backend, backend, int_decimal(seq as int)) == Some(seq),
        wait_step_spec(current, seq, elapsed_ms, timeout_ms) == WaitStep::Cleared,
{
    lemma_parse_i64_of_decimal(seq);
}

} // verus!

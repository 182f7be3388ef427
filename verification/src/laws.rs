//! What a run of calls on one generator guarantees.
//!
//! A run starts from some state and makes one call after the other; the
//! `k`-th call, counting from zero, finds the clock at `clock[k]` and draws
//! `draws[k]`. Calls that several threads make through a lock form such a
//! run too, in the order in which the lock admitted them.

use crate::generator::{issued, sequence_span, step, GenState};
use crate::layout::{lemma_fields_of_id_value, timestamp_of, timestamp_span};
use vstd::prelude::*;

verus! {

/// The state after the first `calls` calls of a run.
pub open spec fn state_after(s: GenState, clock: Seq<nat>, calls: nat) -> GenState
    decreases calls,
{
    if calls == 0 {
        s
    } else {
        step(state_after(s, clock, (calls - 1) as nat), clock[calls - 1])
    }
}

/// The timestamp given to the identifier of call `k`.
pub open spec fn timestamp_at(s: GenState, clock: Seq<nat>, k: nat) -> nat {
    state_after(s, clock, k + 1).last_timestamp
}

/// The identifier that call `k` returns.
pub open spec fn id_at(s: GenState, clock: Seq<nat>, draws: Seq<nat>, k: nat) -> nat {
    issued(state_after(s, clock, k), clock[k as int], draws[k as int])
}

/// Whether two timestamps lie in the same period of `2^40` milliseconds, so
/// that the 40 bits kept of them order as the timestamps do.
pub open spec fn same_period(t: nat, u: nat) -> bool {
    t / timestamp_span() == u / timestamp_span()
}

/// The stored timestamp never goes back, and every call moves it forward:
/// after `b - a` more calls it is at least `b - a` larger.
pub proof fn lemma_timestamp_moves_forward(s: GenState, clock: Seq<nat>, a: nat, b: nat)
    requires
        a <= b <= clock.len(),
    ensures
        state_after(s, clock, a).last_timestamp + (b - a) <= state_after(s, clock, b).last_timestamp,
    decreases b,
{
    if a < b {
        lemma_timestamp_moves_forward(s, clock, a, (b - 1) as nat);
    }
}

/// The call counter after `calls` calls is the starting value plus `calls`,
/// reduced to 16 bits.
pub proof fn lemma_sequence_counts_calls(s: GenState, clock: Seq<nat>, calls: nat)
    requires
        s.sequence < sequence_span(),
        calls <= clock.len(),
    ensures
        state_after(s, clock, calls).sequence == (s.sequence + calls) % sequence_span(),
    decreases calls,
{
    if calls > 0 {
        lemma_sequence_counts_calls(s, clock, (calls - 1) as nat);
    }
}

/// After exactly `2^16` calls the call counter is back at the value it
/// started from.
pub proof fn lemma_sequence_wraps_around(s: GenState, clock: Seq<nat>)
    requires
        s.sequence < sequence_span(),
        clock.len() >= sequence_span(),
    ensures
        state_after(s, clock, sequence_span()).sequence == s.sequence,
{
    lemma_sequence_counts_calls(s, clock, sequence_span());
}

/// The timestamp field of an identifier holds the low 40 bits of the
/// timestamp that its call was given.
pub proof fn lemma_timestamp_field(s: GenState, clock: Seq<nat>, draws: Seq<nat>, k: nat)
    requires
        k < clock.len() == draws.len(),
    ensures
        timestamp_of(id_at(s, clock, draws, k)) == timestamp_at(s, clock, k) % timestamp_span(),
{
    let t = step(state_after(s, clock, k), clock[k as int]);
    lemma_fields_of_id_value(t.last_timestamp, t.sequence, draws[k as int]);
}

/// Of two calls on one generator, the later one returns an identifier whose
/// timestamp field is not smaller, as long as both timestamps lie in the same
/// period of `2^40` milliseconds. If the calls differ, the field is larger.
pub proof fn lemma_timestamp_field_monotonic(
    s: GenState,
    clock: Seq<nat>,
    draws: Seq<nat>,
    a: nat,
    b: nat,
)
    requires
        a <= b < clock.len() == draws.len(),
        same_period(timestamp_at(s, clock, a), timestamp_at(s, clock, b)),
    ensures
        timestamp_of(id_at(s, clock, draws, a)) <= timestamp_of(id_at(s, clock, draws, b)),
        a < b ==> timestamp_of(id_at(s, clock, draws, a)) < timestamp_of(id_at(s, clock, draws, b)),
{
    lemma_timestamp_moves_forward(s, clock, a + 1, b + 1);
    lemma_timestamp_field(s, clock, draws, a);
    lemma_timestamp_field(s, clock, draws, b);
}

/// Two different calls on one generator return different identifiers, as
/// long as their timestamps are less than `2^40` milliseconds apart.
pub proof fn lemma_ids_distinct(s: GenState, clock: Seq<nat>, draws: Seq<nat>, a: nat, b: nat)
    requires
        a < b < clock.len() == draws.len(),
        timestamp_at(s, clock, b) - timestamp_at(s, clock, a) < timestamp_span(),
    ensures
        id_at(s, clock, draws, a) != id_at(s, clock, draws, b),
{
    lemma_timestamp_moves_forward(s, clock, a + 1, b + 1);
    lemma_timestamp_field(s, clock, draws, a);
    lemma_timestamp_field(s, clock, draws, b);
}

/// A run whose last timestamp is less than `2^40` milliseconds after its
/// first returns no identifier twice.
pub proof fn lemma_run_ids_distinct(s: GenState, clock: Seq<nat>, draws: Seq<nat>)
    requires
        clock.len() == draws.len(),
        clock.len() > 0 ==> timestamp_at(s, clock, (clock.len() - 1) as nat) - timestamp_at(
            s,
            clock,
            0,
        ) < timestamp_span(),
    ensures
        forall|a: nat, b: nat|
            a < b < clock.len() ==> #[trigger] id_at(s, clock, draws, a) != #[trigger] id_at(
                s,
                clock,
                draws,
                b,
            ),
{
    assert forall|a: nat, b: nat| a < b < clock.len() implies #[trigger] id_at(
        s,
        clock,
        draws,
        a,
    ) != #[trigger] id_at(s, clock, draws, b) by {
        lemma_timestamp_moves_forward(s, clock, 1, a + 1);
        lemma_timestamp_moves_forward(s, clock, b + 1, clock.len());
        lemma_ids_distinct(s, clock, draws, a, b);
    }
}

} // verus!

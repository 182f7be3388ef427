//! The generator and its state transition.

use crate::layout::{id_value, pack};
use crate::source::{random_u16, unix_timestamp};
use vstd::prelude::*;

verus! {

/// Number of values of the call counter, `2^16`.
pub open spec fn sequence_span() -> nat {
    0x1_0000
}

/// What a generator remembers between two calls.
pub struct GenState {
    /// The call counter, below `sequence_span()`.
    pub sequence: nat,
    /// The timestamp given to the latest identifier, in milliseconds since
    /// the Unix epoch; at construction, the time of construction.
    pub last_timestamp: nat,
}

impl GenState {
    /// Whether a generator can hold this state: the counter fits in 16 bits
    /// and the timestamp in 64.
    pub open spec fn representable(self) -> bool {
        self.sequence < sequence_span() && self.last_timestamp <= u64::MAX
    }
}

/// The state after one call made when the clock reads `now`.
///
/// The counter goes up by one and wraps. The timestamp follows the clock but
/// always moves forward by at least one, also when the clock stands still or
/// was set back.
pub open spec fn step(s: GenState, now: nat) -> GenState {
    GenState {
        sequence: (s.sequence + 1) % sequence_span(),
        last_timestamp: if now > s.last_timestamp + 1 {
            now
        } else {
            s.last_timestamp + 1
        },
    }
}

/// The identifier that a call returns when the clock reads `now` and the
/// random draw is `random`: the state after the call, packed with the draw.
pub open spec fn issued(s: GenState, now: nat, random: nat) -> nat {
    id_value(step(s, now).last_timestamp, step(s, now).sequence, random)
}

/// A source of identifiers of type `T`.
pub trait IdGen<T> {
    /// Whether the generator can issue one more identifier. A generator that
    /// says nothing else is always ready.
    open spec fn ready(&self) -> bool {
        true
    }

    /// Issues the next identifier.
    fn next(&mut self) -> (id: T)
        requires
            old(self).ready(),
    ;
}

/// Generator of 64-bit identifiers that are ordered by time.
///
/// A generator is a single mutable value without a lock of its own: whoever
/// shares one between threads puts it behind a lock, so that calls follow
/// each other one at a time.
pub struct J64IdGen {
    rand_seed_cnt: u16,
    timestamp_cnt: u64,
}

impl View for J64IdGen {
    type V = GenState;

    closed spec fn view(&self) -> GenState {
        GenState {
            sequence: self.rand_seed_cnt as nat,
            last_timestamp: self.timestamp_cnt as nat,
        }
    }
}

impl J64IdGen {
    /// A generator whose counter starts at a random value and whose timestamp
    /// is the current time.
    pub fn new() -> (generator: Self)
        ensures
            generator@.representable(),
    {
        Self::from_parts(random_u16(), unix_timestamp())
    }

    /// A generator in a given state.
    pub fn from_parts(sequence: u16, last_timestamp: u64) -> (generator: Self)
        ensures
            generator@ == (GenState {
                sequence: sequence as nat,
                last_timestamp: last_timestamp as nat,
            }),
    {
        J64IdGen { rand_seed_cnt: sequence, timestamp_cnt: last_timestamp }
    }

    /// The call counter.
    pub fn sequence(&self) -> (sequence: u16)
        ensures
            sequence == self@.sequence,
    {
        self.rand_seed_cnt
    }

    /// The timestamp given to the latest identifier.
    pub fn last_timestamp(&self) -> (last_timestamp: u64)
        ensures
            last_timestamp == self@.last_timestamp,
    {
        self.timestamp_cnt
    }

    /// The state of a generator always fits the machine types that hold it.
    pub proof fn lemma_representable(&self)
        ensures
            self@.representable(),
    {
    }

    /// Issues the identifier for a given clock reading and random draw.
    ///
    /// The timestamp has to be able to move forward: a generator whose
    /// timestamp has reached `u64::MAX` is exhausted.
    pub fn next_with(&mut self, now: u64, random: u16) -> (id: u64)
        requires
            old(self)@.last_timestamp < u64::MAX,
        ensures
            final(self)@ == step(old(self)@, now as nat),
            id == issued(old(self)@, now as nat, random as nat),
    {
        self.rand_seed_cnt = self.rand_seed_cnt.wrapping_add(1);
        let floor = self.timestamp_cnt + 1;
        self.timestamp_cnt = if now > floor { now } else { floor };
        pack(self.timestamp_cnt, self.rand_seed_cnt, random)
    }
}

impl IdGen<u64> for J64IdGen {
    open spec fn ready(&self) -> bool {
        self@.last_timestamp < u64::MAX
    }

    /// Reads the clock, draws sixteen random bits and issues the identifier
    /// that [`J64IdGen::next_with`] gives for them.
    fn next(&mut self) -> (id: u64)
        ensures
            exists|now: nat, random: nat|
                now <= u64::MAX && random <= u16::MAX
                && final(self)@ == step(old(self)@, now)
                && id == #[trigger] issued(old(self)@, now, random),
    {
        let now = unix_timestamp();
        let random = random_u16();
        self.next_with(now, random)
    }
}

} // verus!

use vstd::prelude::*;
use rand::Rng;

verus! {

/// A single six-sided die. Its face is always in `1..=6`: every
/// constructor draws from that range and `reroll` stays inside it.
#[derive(Clone, Copy, PartialEq, Eq, PartialOrd, Ord, Debug)]
pub struct Die {
    result: i32,
}

impl Die {
    #[verifier::type_invariant]
    spec fn inv(self) -> bool {
        1 <= self.result <= 6
    }

    /// The face this die currently shows.
    pub closed spec fn spec_result(self) -> int {
        self.result as int
    }

    /// Creates a new die with a random result between 1 and 6.
    pub fn new() -> (d: Die)
        ensures
            1 <= d.spec_result() <= 6,
    {
        Die { result: roll_d6() }
    }

    /// Creates a die showing the given face, so a caller that wants a
    /// deterministic roll (a replay, a test) can inject one.
    pub fn from_result(result: i32) -> (d: Die)
        requires
            1 <= result <= 6,
        ensures
            d.spec_result() == result,
    {
        Die { result }
    }

    /// Reads the current result.
    pub fn result(&self) -> (r: i32)
        ensures
            r as int == self.spec_result(),
            1 <= r <= 6,
    {
        proof {
            use_type_invariant(self);
        }
        self.result
    }

    /// Re-randomizes the result to a new value between 1 and 6.
    /// The new value is an independent draw; it may equal the old one.
    pub fn reroll(&mut self)
        ensures
            1 <= final(self).spec_result() <= 6,
    {
        *self = Die { result: roll_d6() };
    }
}

/// Relies on rand::Rng::gen_range on the non-empty range `1..=6`: the
/// sample always lies within the range, and the range is never empty,
/// so the call does not panic.
#[verifier::external_body]
fn roll_d6() -> (r: i32)
    ensures
        1 <= r <= 6,
{
    rand::thread_rng().gen_range(1..=6)
}

} // verus!

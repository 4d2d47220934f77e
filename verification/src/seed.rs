//! The place where one element, key or value crosses a cursor that does not
//! know its type: the seed goes in, the decoded value comes out.

use vstd::prelude::*;

verus! {

/// A seed of type `S` before it is used, the value of type `V` that it
/// produced after, and nothing once either has been taken.
pub enum Slot<S, V> {
    Seed(S),
    Value(V),
    Spent,
}

impl<S, V> Slot<S, V> {
    /// A slot that holds `seed`, ready for one use.
    pub fn new(seed: S) -> (slot: Self)
        ensures
            slot == Slot::<S, V>::Seed(seed),
    {
        Slot::Seed(seed)
    }

    /// Takes the seed out for its one use and leaves the slot spent. Where
    /// the slot holds no seed, it stays as it is and `None` comes back.
    pub fn take_seed(&mut self) -> (seed: Option<S>)
        ensures
            match *old(self) {
                Slot::Seed(s) => seed == Some(s) && *final(self) == Slot::<S, V>::Spent,
                _ => seed.is_none() && *final(self) == *old(self),
            },
    {
        let mut held = Slot::Spent;
        core::mem::swap(self, &mut held);
        match held {
            Slot::Seed(seed) => Some(seed),
            other => {
                *self = other;
                None
            },
        }
    }

    /// Puts the value that the seed produced into the slot.
    pub fn fill(&mut self, value: V)
        ensures
            *final(self) == Slot::<S, V>::Value(value),
    {
        *self = Slot::Value(value);
    }

    /// The value that the seed produced, or `None` where the slot holds none:
    /// a value can be taken only by who put the seed in, and only once.
    pub fn take(self) -> (value: Option<V>)
        ensures
            match self {
                Slot::Value(v) => value == Some(v),
                _ => value.is_none(),
            },
    {
        match self {
            Slot::Value(value) => Some(value),
            _ => None,
        }
    }
}

} // verus!

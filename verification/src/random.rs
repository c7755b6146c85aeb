//! A small seeded generator: a linear congruential sequence of 64-bit states.

use std::collections::hash_map::DefaultHasher;
use std::hash::Hash;
use std::hash::Hasher;
use vstd::prelude::*;
use vstd::std_specs::hash::DefaultHasherAdditionalSpecFns;

verus! {

/// Multiplier of the sequence.
pub const MULTIPLIER: u64 = 1664525;

/// Increment of the sequence.
pub const INCREMENT: u64 = 1013904223;

/// The state that follows `state`: `state * 1664525 + 1013904223` modulo 2^64.
pub open spec fn next_state(state: u64) -> u64 {
    ((state as int * 1664525 + 1013904223) % 0x1_0000_0000_0000_0000) as u64
}

/// The state reached from `state` after `steps` steps.
pub open spec fn state_after(state: u64, steps: nat) -> u64
    decreases steps,
{
    if steps == 0 {
        state
    } else {
        next_state(state_after(state, (steps - 1) as nat))
    }
}

/// How many states a shuffle of `len` items draws: one for each place but the first.
pub open spec fn draws_of_shuffle(len: nat) -> nat {
    if len == 0 {
        0
    } else {
        (len - 1) as nat
    }
}

/// What the `Hash` impl of `str` writes to a hasher for a text, as the
/// chunks of bytes that the hasher sees.
pub uninterp spec fn str_hash_writes(text: Seq<char>) -> Seq<Seq<u8>>;

/// Calls the `Hash` impl of `str` on a hasher. What it writes depends on
/// the text alone and is added to what the hasher has seen before.
#[verifier::external_body]
fn feed_str(hasher: &mut DefaultHasher, text: &str)
    ensures
        final(hasher)@ == old(hasher)@ + str_hash_writes(text@),
{
    text.hash(hasher)
}

/// Calls `swap` of slices on a vector: the items at `i` and `j` change
/// places and the others stay. Both indices must be in bounds.
#[verifier::external_body]
fn swap_items<T>(items: &mut Vec<T>, i: usize, j: usize)
    requires
        i < old(items)@.len(),
        j < old(items)@.len(),
    ensures
        final(items)@ == old(items)@.update(i as int, old(items)@[j as int]).update(
            j as int,
            old(items)@[i as int],
        ),
{
    items.swap(i, j)
}

/// The seed that a text gives: the default hasher's digest of the text.
pub open spec fn seed_of(text: Seq<char>) -> u64 {
    DefaultHasher::spec_finish(str_hash_writes(text))
}

/// A generator of pseudo-random states with a seed.
pub struct Rng {
    state: u64,
}

impl View for Rng {
    type V = u64;

    /// The current state.
    closed spec fn view(&self) -> u64 {
        self.state
    }
}

impl Rng {
    /// A generator that starts at `seed`.
    pub fn new(seed: u64) -> (rng: Self)
        ensures
            rng@ == seed,
    {
        Rng { state: seed }
    }

    /// A generator that starts at the digest of `seed`.
    pub fn from_string(seed: &str) -> (rng: Self)
        ensures
            rng@ == seed_of(seed@),
    {
        let mut hasher = DefaultHasher::new();
        feed_str(&mut hasher, seed);
        assert(hasher@ =~= str_hash_writes(seed@));
        Rng::new(hasher.finish())
    }

    /// The current state.
    pub fn state(&self) -> (state: u64)
        ensures
            state == self@,
    {
        self.state
    }

    /// Moves to the next state and returns it.
    pub fn advance(&mut self) -> (state: u64)
        ensures
            state == next_state(old(self)@),
            final(self)@ == state,
    {
        let product = self.state.wrapping_mul(MULTIPLIER);
        let state = product.wrapping_add(INCREMENT);
        assert(state == next_state(self.state)) by {
            lemma_step(self.state);
        }
        self.state = state;
        state
    }

    /// Chooses one of `items`. With no items nothing is drawn and nothing
    /// chosen. Otherwise the generator moves one step and `scale` turns the
    /// new state and the number of items into an index; the item there is
    /// chosen, and none where the index is past the end.
    pub fn one_of<T, S: Fn(u64, usize) -> usize>(&mut self, items: Vec<T>, scale: S) -> (chosen:
        Option<T>)
        requires
            forall|state: u64, bound: usize| #[trigger] call_requires(scale, (state, bound)),
        ensures
            items@.len() == 0 ==> chosen is None && final(self)@ == old(self)@,
            items@.len() > 0 ==> final(self)@ == next_state(old(self)@) && exists|index: usize|
                {
                    &&& #[trigger] call_ensures(scale, (final(self)@, items.len()), index)
                    &&& chosen == if index < items@.len() {
                        Some(items@[index as int])
                    } else {
                        None
                    }
                },
    {
        if items.len() == 0 {
            return None;
        }
        let state = self.advance();
        let index = scale(state, items.len());
        if index < items.len() {
            let mut rest = items;
            Some(rest.remove(index))
        } else {
            None
        }
    }

    /// Shuffles `vec`: from the last place down to the second, the item at
    /// place `i` changes places with the item at an index that `scale` draws
    /// below `i + 1` from the next state. `scale` must stay below its bound.
    pub fn shuffle<T, S: Fn(u64, usize) -> usize>(&mut self, vec: Vec<T>, scale: S) -> (shuffled:
        Vec<T>)
        requires
            forall|state: u64, bound: usize| #[trigger] call_requires(scale, (state, bound)),
            forall|state: u64, bound: usize, index: usize| #[trigger]
                call_ensures(scale, (state, bound), index) ==> index < bound,
        ensures
            shuffled@.len() == vec@.len(),
            shuffled@.to_multiset() == vec@.to_multiset(),
            final(self)@ == state_after(old(self)@, draws_of_shuffle(vec@.len())),
            vec@.len() <= 1 ==> shuffled@ == vec@,
    {
        let mut shuffled = vec;
        let len = shuffled.len();
        if len <= 1 {
            return shuffled;
        }
        let mut i: usize = len - 1;
        while i >= 1
            invariant
                len == vec@.len(),
                len >= 2,
                0 <= i < len,
                shuffled@.len() == len,
                shuffled@.to_multiset() == vec@.to_multiset(),
                self@ == state_after(old(self)@, (len - 1 - i) as nat),
                forall|state: u64, bound: usize| #[trigger] call_requires(scale, (state, bound)),
                forall|state: u64, bound: usize, index: usize| #[trigger]
                    call_ensures(scale, (state, bound), index) ==> index < bound,
            decreases i,
        {
            let state = self.advance();
            let j = scale(state, i + 1);
            proof {
                lemma_swap_keeps_items(shuffled@, i as int, j as int);
            }
            swap_items(&mut shuffled, i, j);
            i = i - 1;
        }
        shuffled
    }
}

/// Wrapping multiplication and addition compute the next state.
proof fn lemma_step(state: u64)
    ensures
        vstd::wrapping::u64_specs::wrapping_add(
            vstd::wrapping::u64_specs::wrapping_mul(state, MULTIPLIER),
            INCREMENT,
        ) == next_state(state),
{
    let product = state as int * 1664525;
    let wrapped = product % 0x1_0000_0000_0000_0000;
    assert(state as nat * MULTIPLIER as nat == product) by (nonlinear_arith)
        requires
            product == state as int * 1664525,
            MULTIPLIER == 1664525,
    ;
    assert(product >= 0) by (nonlinear_arith)
        requires
            product == state as int * 1664525,
            state >= 0,
    ;
    vstd::arithmetic::div_mod::lemma_add_mod_noop(product, 1013904223, 0x1_0000_0000_0000_0000);
    vstd::arithmetic::div_mod::lemma_small_mod(1013904223, 0x1_0000_0000_0000_0000);
}

/// Two items that change places leave the collection of items as it was.
pub proof fn lemma_swap_keeps_items<T>(items: Seq<T>, i: int, j: int)
    requires
        0 <= i < items.len(),
        0 <= j < items.len(),
    ensures
        items.update(i, items[j]).update(j, items[i]).to_multiset() == items.to_multiset(),
        items.update(i, items[j]).update(j, items[i]).len() == items.len(),
{
    if i == j {
        assert(items.update(i, items[j]).update(j, items[i]) =~= items);
    } else {
        let once = items.update(i, items[j]);
        let twice = once.update(j, items[i]);
        vstd::seq_lib::to_multiset_update(items, i, items[j]);
        vstd::seq_lib::to_multiset_update(once, j, items[i]);
        vstd::seq_lib::to_multiset_contains(items, items[i]);
        vstd::seq_lib::to_multiset_contains(items, items[j]);
        assert(items.contains(items[i]));
        assert(items.contains(items[j]));
        assert(once[j] == items[j]);
        assert(twice.to_multiset() =~= items.to_multiset());
    }
}

/// Two generators with the same seed go through the same states.
pub proof fn lemma_same_seed_same_states(a: Rng, b: Rng, steps: nat)
    requires
        a@ == b@,
    ensures
        state_after(a@, steps) == state_after(b@, steps),
{
}

} // verus!

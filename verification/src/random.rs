use vstd::prelude::*;
use std::collections::HashSet;
use vstd::std_specs::hash::spec_hash_keys_iter;
use vstd::std_specs::iter::IteratorSpec;

verus! {

broadcast use vstd::std_specs::hash::group_hash_axioms;

/// `2^128`: the `u128` arithmetic of the generator wraps around it.
pub open spec fn u128_modulus() -> int {
    0x1_0000_0000_0000_0000_0000_0000_0000_0000int
}

/// oorandom's `Rand64::DEFAULT_INC`.
pub open spec fn rand64_default_inc() -> int {
    0x2FE0E169_FFBD06E3_5BC307BD_4D2F814Fint
}

/// oorandom's `Rand64::MULTIPLIER`.
pub open spec fn rand64_multiplier() -> int {
    47026247687942121848144207491837523525int
}

/// The generator state `(state, increment)` that oorandom's `Rand64::new`
/// sets up from a seed: the increment is `DEFAULT_INC` shifted left once
/// with its low bit set; the state starts at 0, takes one step (to the
/// increment), gets the seed added, and takes one more step; a step maps
/// `s` to `s * MULTIPLIER + increment`, all modulo `2^128`.
pub open spec fn rand64_seeded(seed: u128) -> (u128, u128) {
    let inc = (rand64_default_inc() * 2 + 1) % u128_modulus();
    let seeded = (inc + seed) % u128_modulus();
    (((seeded * rand64_multiplier() + inc) % u128_modulus()) as u128, inc as u128)
}

/// What oorandom's `Rand64::rand_range(start..end)` gives from a generator
/// state: the state after the call and the value drawn.
pub uninterp spec fn rand64_range(state: (u128, u128), start: u64, end: u64) -> ((u128, u128), u64);

/// Calls `oorandom::Rand64::new(seed)` and hands back the generator's state.
/// Claimed: the state is `rand64_seeded(seed)`, the set-up that
/// `Rand64::new_inc` performs with the default increment.
#[verifier::external_body]
fn seeded_state(seed: u128) -> (st: (u128, u128))
    ensures
        st == rand64_seeded(seed),
{
    oorandom::Rand64::new(seed).state()
}

/// Calls `oorandom::Rand64::rand_range(start..end)` on a generator rebuilt
/// from `state` with `Rand64::from_state`, and hands back the new state and
/// the value.  Claimed: both are the ones named `rand64_range(state, start,
/// end)`; the value lies in `start..end` (the crate documents the range as
/// including `start` and excluding `end`; its computation adds to `start` a
/// value below `end - start`); the increment is left as it was (only the
/// state word steps).  Only generators with an odd increment, as
/// `Rand64::new` makes them, are admitted: with an even one the rejection
/// loop of `rand_range` can run forever.  The PCG step that picks the value
/// is not written out.
#[verifier::external_body]
fn draw_in_range(state: (u128, u128), start: u64, end: u64) -> (r: ((u128, u128), u64))
    requires
        start < end,
        state.1 % 2 == 1,
    ensures
        r == rand64_range(state, start, end),
        start <= r.1 < end,
        r.0.1 == state.1,
{
    let mut rng = oorandom::Rand64::from_state(state);
    let value = rng.rand_range(start..end);
    (rng.state(), value)
}

/// The most draws the search for three distinct winners makes.
pub const MAX_DRAWS: u64 = 0xffff_ffff_ffff_ffffu64;

/// Drawing from `0..n` until three distinct indices are held: `picked` is
/// the set of indices drawn so far, and at most `budget` more draws are
/// made.  `None` when the budget runs out first.
pub open spec fn draw_set(state: (u128, u128), n: u64, picked: Set<usize>, budget: nat) -> Option<Set<usize>>
    decreases budget,
{
    if picked.len() >= 3 {
        Some(picked)
    } else if budget == 0 {
        None
    } else {
        let (next, x) = rand64_range(state, 0, n);
        draw_set(next, n, picked.insert(x as usize), (budget - 1) as nat)
    }
}

/// Three distinct indices below `n`.
pub open spec fn distinct_below(picks: Seq<usize>, n: int) -> bool {
    &&& picks.len() == 3
    &&& forall|i: int| 0 <= i < 3 ==> picks[i] < n
    &&& forall|i: int, j: int| 0 <= i < j < 3 ==> picks[i] != picks[j]
}

/// `picks` lists the set `drawn` of indices below `n`, each once, in some
/// order.
pub open spec fn lists_drawn(picks: Seq<usize>, drawn: Set<usize>, n: int) -> bool {
    &&& distinct_below(picks, n)
    &&& picks.to_set() == drawn
}

/// The elements of a hash set, in the order the set gives them.
fn set_elements(s: &HashSet<usize>) -> (v: Vec<usize>)
    ensures
        v@.to_set() == s@,
        v@.no_duplicates(),
        v@.len() == s@.len(),
{
    let mut v: Vec<usize> = Vec::new();
    let ghost keys = spec_hash_keys_iter(s).remaining();
    for x in it: s.iter()
        invariant
            it.seq() == keys,
            v.len() == it.index(),
            forall|i: int| 0 <= i < v.len() ==> v@[i] == *keys[i],
    {
        v.push(*x);
    }
    assert(v@ =~= keys.map_values(|r: &usize| *r));
    assert(keys.unref() == keys.map_values(|r: &usize| *r));
    v
}

/// Seeds oorandom's `Rand64` with `seed` and draws from `0..n` into a hash
/// set until it holds three distinct indices; gives them in the order the
/// set lists them.  `None` if `MAX_DRAWS` draws did not yield three.
pub fn draw_winner_indices(seed: u128, n: u64) -> (r: Option<[usize; 3]>)
    requires
        0 < n <= usize::MAX,
    ensures
        match draw_set(rand64_seeded(seed), n, Set::empty(), MAX_DRAWS as nat) {
            Some(s) => r matches Some(w) && lists_drawn(w@, s, n as int),
            None => r is None,
        },
{
    let mut state = seeded_state(seed);
    let mut unique_numbers: HashSet<usize> = HashSet::new();
    let mut budget: u64 = MAX_DRAWS;
    while unique_numbers.len() < 3
        invariant
            0 < n <= usize::MAX,
            state.1 % 2 == 1,
            unique_numbers@.finite(),
            unique_numbers@.len() <= 3,
            forall|i: usize| #[trigger] unique_numbers@.contains(i) ==> i < n,
            draw_set(state, n, unique_numbers@, budget as nat) == draw_set(
                rand64_seeded(seed),
                n,
                Set::empty(),
                MAX_DRAWS as nat,
            ),
        decreases budget,
    {
        if budget == 0 {
            return None;
        }
        let (next, x) = draw_in_range(state, 0, n);
        let winner_index = x as usize;
        unique_numbers.insert(winner_index);
        state = next;
        budget = budget - 1;
    }
    let v = set_elements(&unique_numbers);
    let w: [usize; 3] = [v[0], v[1], v[2]];
    assert(w@ =~= v@);
    assert(forall|i: int| 0 <= i < 3 ==> unique_numbers@.contains(#[trigger] v@[i])) by {
        assert forall|i: int| 0 <= i < 3 implies unique_numbers@.contains(#[trigger] v@[i]) by {
            assert(v@.to_set().contains(v@[i]));
        }
    }
    Some(w)
}

} // verus!

use vstd::prelude::*;
use crate::gamemode::GorillaResult;
use crate::mods::{has_tick, mod_ticks, MOD_COUNT};

verus! {

/// Whether bit `i` of `x` is set.
pub open spec fn bit_set(x: u32, i: u32) -> bool {
    x & (1u32 << i) != 0
}

/// A mod that changes state between two frames: `enable` says whether it was
/// switched on (or off).
#[derive(Clone, Copy, Debug, PartialEq, Eq, Structural)]
pub struct ModTransition {
    pub index: u32,
    pub enable: bool,
}

/// The transitions among mods `0..n` from bitmask `prev` to bitmask `next`,
/// in increasing index order: one for each mod whose bit differs, switching
/// it to its bit in `next`.
pub open spec fn transitions_upto(prev: u32, next: u32, n: nat) -> Seq<ModTransition>
    decreases n,
{
    if n == 0 {
        Seq::empty()
    } else {
        let i = (n - 1) as u32;
        let rest = transitions_upto(prev, next, (n - 1) as nat);
        if bit_set(prev ^ next, i) {
            rest.push(ModTransition { index: i, enable: bit_set(next, i) })
        } else {
            rest
        }
    }
}

/// The mods among `0..n` that are on in `bitmask` and have per-frame work,
/// in increasing order.
pub open spec fn ticks_upto(bitmask: u32, n: nat) -> Seq<u32>
    decreases n,
{
    if n == 0 {
        Seq::empty()
    } else {
        let i = (n - 1) as u32;
        let rest = ticks_upto(bitmask, (n - 1) as nat);
        if bit_set(bitmask, i) && mod_ticks(i as int) {
            rest.push(i)
        } else {
            rest
        }
    }
}

/// Switching the same mod twice restores the saved set.
pub proof fn lemma_toggle_twice(enabled: u32, index: u32)
    requires
        index < 32,
    ensures
        (enabled ^ (1u32 << index)) ^ (1u32 << index) == enabled,
{
    assert((enabled ^ (1u32 << index)) ^ (1u32 << index) == enabled) by (bit_vector);
}

/// Switching mod `index` flips its bit and no other.
pub proof fn lemma_toggle_flips_one(enabled: u32, index: u32, j: u32)
    requires
        index < 32,
        j < 32,
    ensures
        bit_set(enabled ^ (1u32 << index), j) == (if j == index {
            !bit_set(enabled, j)
        } else {
            bit_set(enabled, j)
        }),
{
    assert(bit_set(enabled ^ (1u32 << index), j) == (if j == index {
        !bit_set(enabled, j)
    } else {
        bit_set(enabled, j)
    })) by (bit_vector)
        requires
            index < 32,
            j < 32,
    ;
}

/// Bit `i` of `a ^ b` is set exactly when the bits of `a` and `b` differ.
proof fn lemma_xor_bit(a: u32, b: u32, i: u32)
    requires
        i < 32,
    ensures
        bit_set(a ^ b, i) == (bit_set(a, i) != bit_set(b, i)),
{
    assert(bit_set(a ^ b, i) == (bit_set(a, i) != bit_set(b, i))) by (bit_vector)
        requires
            i < 32,
    ;
}

/// Between two frames, each of the first `n` mods is switched exactly when
/// its bit changed, once, to its new bit, and in increasing order.
pub proof fn lemma_transitions_exact(prev: u32, next: u32, n: nat)
    requires
        n <= 32,
    ensures
        forall|k: int|
            0 <= k < transitions_upto(prev, next, n).len() ==> {
                let t = #[trigger] transitions_upto(prev, next, n)[k];
                &&& t.index < n
                &&& bit_set(prev, t.index) != bit_set(next, t.index)
                &&& t.enable == bit_set(next, t.index)
            },
        forall|k: int, l: int|
            0 <= k < l < transitions_upto(prev, next, n).len() ==>
                #[trigger] transitions_upto(prev, next, n)[k].index
                    < #[trigger] transitions_upto(prev, next, n)[l].index,
        forall|i: u32|
            i < n && bit_set(prev, i) != bit_set(next, i) ==> exists|k: int|
                0 <= k < transitions_upto(prev, next, n).len()
                    && #[trigger] transitions_upto(prev, next, n)[k].index == i,
    decreases n,
{
    if n > 0 {
        let m = (n - 1) as nat;
        let i = m as u32;
        lemma_transitions_exact(prev, next, m);
        lemma_xor_bit(prev, next, i);
        let rest = transitions_upto(prev, next, m);
        let all = transitions_upto(prev, next, n);
        assert forall|j: u32|
            j < n && bit_set(prev, j) != bit_set(next, j) implies exists|k: int|
                0 <= k < all.len() && #[trigger] all[k].index == j by {
            if j < m {
                let k = choose|k: int| 0 <= k < rest.len() && #[trigger] rest[k].index == j;
                assert(all[k] == rest[k]);
            } else {
                assert(all[all.len() - 1].index == j);
            }
        }
    }
}

/// A frame that repeats the last bitmask switches nothing.
pub proof fn lemma_same_bitmask_no_transitions(b: u32, n: nat)
    requires
        n <= 32,
    ensures
        transitions_upto(b, b, n) == Seq::<ModTransition>::empty(),
    decreases n,
{
    if n > 0 {
        lemma_same_bitmask_no_transitions(b, (n - 1) as nat);
        lemma_xor_bit(b, b, (n - 1) as u32);
    }
}

/// Bit `i` of `x` is set exactly when `x`, shifted right by `i`, is odd.
pub proof fn lemma_bit_set_meaning(x: u32, i: u32)
    requires
        i < 32,
    ensures
        bit_set(x, i) <==> (x >> i) % 2 == 1,
{
    assert(bit_set(x, i) <==> (x >> i) % 2 == 1) by (bit_vector)
        requires
            i < 32,
    ;
}

/// The mods ticked under `b` are exactly those among 0..6 that are on in
/// `b` and have per-frame work (speed boost 0, fly 1 and bounce 5), each
/// once, in increasing order.
pub proof fn lemma_ticks_exact(b: u32)
    ensures
        forall|i: u32|
            i < 6 ==> (#[trigger] ticks_upto(b, 6).contains(i) <==> ((b >> i) % 2 == 1 && (i == 0
                || i == 1 || i == 5))),
        forall|k: int| 0 <= k < ticks_upto(b, 6).len() ==> #[trigger] ticks_upto(b, 6)[k] < 6,
        forall|k: int, l: int|
            0 <= k < l < ticks_upto(b, 6).len() ==> #[trigger] ticks_upto(b, 6)[k]
                < #[trigger] ticks_upto(b, 6)[l],
{
    lemma_ticks_upto(b, 6);
    assert forall|i: u32| i < 6 implies (ticks_upto(b, 6).contains(i) <==> ((b >> i) % 2 == 1
        && (i == 0 || i == 1 || i == 5))) by {
        lemma_bit_set_meaning(b, i);
    }
}

proof fn lemma_ticks_upto(b: u32, n: nat)
    requires
        n <= 32,
    ensures
        forall|i: u32|
            i < n ==> (#[trigger] ticks_upto(b, n).contains(i) <==> (bit_set(b, i) && mod_ticks(
                i as int,
            ))),
        forall|k: int| 0 <= k < ticks_upto(b, n).len() ==> #[trigger] ticks_upto(b, n)[k] < n,
        forall|k: int, l: int|
            0 <= k < l < ticks_upto(b, n).len() ==> #[trigger] ticks_upto(b, n)[k]
                < #[trigger] ticks_upto(b, n)[l],
    decreases n,
{
    if n > 0 {
        let m = (n - 1) as nat;
        let mi = m as u32;
        lemma_ticks_upto(b, m);
        let rest = ticks_upto(b, m);
        let all = ticks_upto(b, n);
        let pushed = bit_set(b, mi) && mod_ticks(mi as int);
        if pushed {
            assert(all == rest.push(mi));
        } else {
            assert(all == rest);
        }
        assert forall|i: u32| i < n implies (#[trigger] ticks_upto(b, n).contains(i) <==> (bit_set(
            b,
            i,
        ) && mod_ticks(i as int))) by {
            if i < m {
                assert(rest.contains(i) <==> (bit_set(b, i) && mod_ticks(i as int)));
                if rest.contains(i) {
                    let k = choose|k: int| 0 <= k < rest.len() && rest[k] == i;
                    assert(all[k] == i);
                    assert(all.contains(i));
                }
                if all.contains(i) {
                    let k = choose|k: int| 0 <= k < all.len() && all[k] == i;
                    if pushed && k == rest.len() {
                        assert(all[k] == mi);
                    } else {
                        assert(rest[k] == i);
                    }
                }
            } else {
                assert(i == mi);
                if pushed {
                    assert(all[all.len() - 1] == i);
                    assert(all.contains(i));
                } else if all.contains(i) {
                    let k = choose|k: int| 0 <= k < all.len() && all[k] == i;
                    assert(rest[k] < m);
                }
            }
        }
    }
}

/// The menu plugin's state: the saved set of mods that are on (a bitmask,
/// bit `i` for mod `i`), whether it was loaded, the bitmask seen on the last
/// frame, and whether the gorilla API is ready.
#[derive(Debug)]
pub struct MenuState {
    pub enabled: u32,
    pub loaded: bool,
    pub prev_enabled: u32,
    pub api_ready: bool,
}

impl MenuState {
    /// The state before anything is loaded: no mod on, API not ready.
    pub fn new() -> (s: MenuState)
        ensures
            s.enabled == 0,
            !s.loaded,
            s.prev_enabled == 0,
            !s.api_ready,
    {
        MenuState { enabled: 0, loaded: false, prev_enabled: 0, api_ready: false }
    }

    /// Takes the saved bitmask as the set of mods that are on.
    pub fn load(&mut self, saved_bitmask: u32)
        ensures
            final(self).enabled == saved_bitmask,
            final(self).loaded,
            final(self).prev_enabled == old(self).prev_enabled,
            final(self).api_ready == old(self).api_ready,
    {
        self.enabled = saved_bitmask;
        self.loaded = true;
    }

    /// Switches mod `index` over; the new `enabled` is what gets saved.
    pub fn toggle(&mut self, index: u32)
        requires
            index < 32,
        ensures
            final(self).enabled == old(self).enabled ^ (1u32 << index),
            final(self).loaded == old(self).loaded,
            final(self).prev_enabled == old(self).prev_enabled,
            final(self).api_ready == old(self).api_ready,
    {
        self.enabled = self.enabled ^ (1u32 << index);
    }

    /// Records the outcome of an attempt to initialise the gorilla API and
    /// says whether the frame may go on: the API is ready from the first
    /// attempt that succeeds or finds it already initialised.
    pub fn note_api_init(&mut self, result: GorillaResult) -> (ready: bool)
        ensures
            ready == final(self).api_ready,
            final(self).api_ready == (old(self).api_ready
                || result == GorillaResult::Success
                || result == GorillaResult::AlreadyInitialised),
            final(self).enabled == old(self).enabled,
            final(self).loaded == old(self).loaded,
            final(self).prev_enabled == old(self).prev_enabled,
    {
        if result.api_usable() {
            self.api_ready = true;
        }
        self.api_ready
    }

    /// Takes the bitmask of the current frame and returns the mods whose
    /// state changed since the last frame, with the direction of the change;
    /// the bitmask becomes the last one seen.
    pub fn apply_bitmask(&mut self, bitmask: u32) -> (ts: Vec<ModTransition>)
        ensures
            ts@ == transitions_upto(old(self).prev_enabled, bitmask, MOD_COUNT as nat),
            final(self).prev_enabled == bitmask,
            final(self).enabled == old(self).enabled,
            final(self).loaded == old(self).loaded,
            final(self).api_ready == old(self).api_ready,
    {
        let prev = self.prev_enabled;
        let changed = bitmask ^ prev;
        let mut ts: Vec<ModTransition> = Vec::new();
        let mut i: u32 = 0;
        while i < MOD_COUNT
            invariant
                i <= MOD_COUNT,
                changed == bitmask ^ prev,
                prev == old(self).prev_enabled,
                ts@ == transitions_upto(prev, bitmask, i as nat),
            decreases MOD_COUNT - i,
        {
            assert(changed == prev ^ bitmask) by (bit_vector)
                requires
                    changed == bitmask ^ prev,
            ;
            if changed & (1u32 << i) != 0 {
                ts.push(ModTransition { index: i, enable: bitmask & (1u32 << i) != 0 });
            }
            i = i + 1;
        }
        self.prev_enabled = bitmask;
        ts
    }
}

/// The mods to run per-frame work for under `bitmask`: those that are on and
/// have such work, in increasing order.
pub fn mods_to_tick(bitmask: u32) -> (v: Vec<u32>)
    ensures
        v@ == ticks_upto(bitmask, MOD_COUNT as nat),
        forall|i: u32|
            i < 6 ==> (#[trigger] v@.contains(i) <==> ((bitmask >> i) % 2 == 1 && (i == 0 || i
                == 1 || i == 5))),
        forall|k: int, l: int| 0 <= k < l < v@.len() ==> #[trigger] v@[k] < #[trigger] v@[l],
        forall|k: int| 0 <= k < v@.len() ==> #[trigger] v@[k] < 6,
{
    proof {
        lemma_ticks_exact(bitmask);
    }
    let mut v: Vec<u32> = Vec::new();
    let mut i: u32 = 0;
    while i < MOD_COUNT
        invariant
            i <= MOD_COUNT,
            v@ == ticks_upto(bitmask, i as nat),
        decreases MOD_COUNT - i,
    {
        if bitmask & (1u32 << i) != 0 && has_tick(i) {
            v.push(i);
        }
        i = i + 1;
    }
    v
}

} // verus!

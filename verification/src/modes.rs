//! The fixed circular ordering of ride modes and the arithmetic on it.
//!
//! The modes are ordered `glide`, `combat`, `ballistic`, and after the last
//! comes the first again. A mode change only ever moves forward through this
//! ordering, so the distance from one mode to another is the number of
//! forward steps between their positions, also where going backward would be
//! shorter.

use vstd::prelude::*;
use vstd::arithmetic::div_mod::*;
use crate::text::str_eq;

verus! {

/// The ride modes, in their circular order.
pub const MODES: [&'static str; 3] = ["glide", "combat", "ballistic"];

/// Number of ride modes in the ordering.
pub const MODE_COUNT: usize = 3;

/// The position of a mode name in the ordering, if it is a mode name.
pub open spec fn mode_index(name: Seq<char>) -> Option<int> {
    if name == "glide"@ {
        Some(0)
    } else if name == "combat"@ {
        Some(1)
    } else if name == "ballistic"@ {
        Some(2)
    } else {
        None
    }
}

/// The mode name at a position of the ordering.
pub open spec fn mode_name(index: int) -> Seq<char>
    recommends
        0 <= index < 3,
{
    if index == 0 {
        "glide"@
    } else if index == 1 {
        "combat"@
    } else {
        "ballistic"@
    }
}

/// Forward distance from position `current` to position `target` on a ring
/// of `n` positions.
pub open spec fn forward_steps(current: int, target: int, n: int) -> int {
    (target - current + n) % n
}

/// The three mode names differ from each other.
pub proof fn lemma_mode_names_distinct()
    ensures
        "glide"@ != "combat"@,
        "glide"@ != "ballistic"@,
        "combat"@ != "ballistic"@,
{
    reveal_strlit("glide");
    reveal_strlit("combat");
    reveal_strlit("ballistic");
    assert("glide"@.len() == 5);
    assert("combat"@.len() == 6);
    assert("ballistic"@.len() == 9);
}

/// A position names the mode whose index it is, and no other.
pub proof fn lemma_mode_index_of_name(index: int)
    requires
        0 <= index < 3,
    ensures
        mode_index(mode_name(index)) == Some(index),
{
    lemma_mode_names_distinct();
}

/// A name with an index is the name at that index.
pub proof fn lemma_mode_name_of_index(name: Seq<char>)
    requires
        mode_index(name) is Some,
    ensures
        0 <= mode_index(name)->0 < 3,
        mode_name(mode_index(name)->0) == name,
{
}

/// The forward distance lies on the ring, and advancing by it from
/// `current` arrives at `target`.
pub proof fn lemma_forward_steps_arrive(current: int, target: int, n: int)
    requires
        0 <= current < n,
        0 <= target < n,
    ensures
        0 <= forward_steps(current, target, n) < n,
        (current + forward_steps(current, target, n)) % n == target,
        forward_steps(current, target, n) == if target >= current {
            target - current
        } else {
            target - current + n
        },
{
    if target >= current {
        lemma_mod_add_multiples_vanish(target - current, n);
        lemma_small_mod((target - current) as nat, n as nat);
        lemma_small_mod(target as nat, n as nat);
    } else {
        lemma_small_mod((target - current + n) as nat, n as nat);
        lemma_mod_add_multiples_vanish(target, n);
        lemma_small_mod(target as nat, n as nat);
    }
}

/// No smaller number of forward steps leads from `current` to `target`.
pub proof fn lemma_forward_steps_least(current: int, target: int, n: int, k: int)
    requires
        0 <= current < n,
        0 <= target < n,
        0 <= k,
        (current + k) % n == target,
    ensures
        forward_steps(current, target, n) <= k,
{
    lemma_forward_steps_arrive(current, target, n);
    if k < forward_steps(current, target, n) {
        if current + k < n {
            lemma_small_mod((current + k) as nat, n as nat);
        } else {
            lemma_mod_add_multiples_vanish(current + k - n, n);
            lemma_small_mod((current + k - n) as nat, n as nat);
        }
    }
}

/// The distance is zero exactly from a position to itself.
pub proof fn lemma_forward_steps_zero(current: int, target: int, n: int)
    requires
        0 <= current < n,
        0 <= target < n,
    ensures
        forward_steps(current, target, n) == 0 <==> current == target,
{
    lemma_forward_steps_arrive(current, target, n);
}

/// Between two different positions, the way there and the way back make one
/// full round: the distance is not symmetric.
pub proof fn lemma_forward_steps_round_trip(current: int, target: int, n: int)
    requires
        0 <= current < n,
        0 <= target < n,
        current != target,
    ensures
        forward_steps(current, target, n) + forward_steps(target, current, n) == n,
{
    lemma_forward_steps_arrive(current, target, n);
    lemma_forward_steps_arrive(target, current, n);
}

/// The position of a name in the mode ordering, or `None` for a name that
/// is no mode.
pub fn index_of(name: &str) -> (found: Option<usize>)
    ensures
        match found {
            Some(index) => mode_index(name@) == Some(index as int),
            None => mode_index(name@) is None,
        },
{
    let mut i: usize = 0;
    while i < 3
        invariant
            i <= 3,
            forall|j: int| 0 <= j < i ==> mode_name(j) != name@,
        decreases 3 - i,
    {
        proof {
            lemma_mode_names_distinct();
        }
        if str_eq(MODES[i], name) {
            return Some(i);
        }
        i += 1;
    }
    assert(mode_name(0) != name@);
    assert(mode_name(1) != name@);
    assert(mode_name(2) != name@);
    None
}

/// Number of forward steps from `current` to `target` on a ring of `n`
/// positions: `(target - current + n) mod n`.
pub fn steps_between(current: usize, target: usize, n: usize) -> (steps: usize)
    requires
        current < n,
        target < n,
    ensures
        steps == forward_steps(current as int, target as int, n as int),
        steps < n,
        steps == 0 <==> current == target,
{
    proof {
        lemma_forward_steps_arrive(current as int, target as int, n as int);
    }
    if target >= current {
        target - current
    } else {
        n - current + target
    }
}

/// Number of forward steps from the mode at `current` to the mode at
/// `target` in the mode ordering.
pub fn mode_steps(current: usize, target: usize) -> (steps: usize)
    requires
        current < 3,
        target < 3,
    ensures
        steps == forward_steps(current as int, target as int, 3),
        steps < 3,
        steps == 0 <==> current == target,
{
    steps_between(current, target, MODE_COUNT)
}

} // verus!

use vstd::prelude::*;

verus! {

/// The source of incremental identifiers for UI elements.
///
/// Each call of [`get_id`] hands out the current value and moves the counter
/// on by one, wrapping around after `u32::MAX` as an atomic `fetch_add` does.
pub struct IdCounter {
    next: u32,
}

/// The identifier that follows `id`, wrapping after `u32::MAX`.
pub open spec fn next_id(id: u32) -> u32 {
    if id == u32::MAX { 0 } else { (id + 1) as u32 }
}

/// The identifier handed out by the `k`-th call on a counter that starts at `start`.
pub open spec fn nth_id(start: u32, k: nat) -> u32 {
    ((start + k) % 0x1_0000_0000) as u32
}

impl IdCounter {
    /// The value the next call of [`get_id`] hands out.
    pub closed spec fn peek(&self) -> u32 {
        self.next
    }

    /// A counter whose first identifier is 0.
    pub fn new() -> (c: Self)
        ensures
            c.peek() == 0,
    {
        IdCounter { next: 0 }
    }

    /// A counter whose first identifier is `start`.
    pub fn starting_at(start: u32) -> (c: Self)
        ensures
            c.peek() == start,
    {
        IdCounter { next: start }
    }

    /// The value the next call of [`get_id`] hands out.
    pub fn current(&self) -> (r: u32)
        ensures
            r == self.peek(),
    {
        self.next
    }
}

/// Create a new, incremental ID for UI elements.
pub fn get_id(counter: &mut IdCounter) -> (id: u32)
    ensures
        id == old(counter).peek(),
        final(counter).peek() == next_id(id),
{
    let out = counter.next;
    counter.next = if out == u32::MAX { 0 } else { out + 1 };
    out
}

/// Stepping a counter `k` times from `start` reaches `nth_id(start, k)`.
pub proof fn lemma_nth_id_step(start: u32, k: nat)
    ensures
        nth_id(start, k + 1) == next_id(nth_id(start, k)),
{
    let x: int = start + k;
    let a: int = x % 0x1_0000_0000;
    let q: int = x / 0x1_0000_0000;
    vstd::arithmetic::div_mod::lemma_fundamental_div_mod(x, 0x1_0000_0000);
    if a == 0xffff_ffff {
        vstd::arithmetic::div_mod::lemma_mod_multiples_basic(q + 1, 0x1_0000_0000);
        assert(x + 1 == (q + 1) * 0x1_0000_0000) by (nonlinear_arith)
            requires
                x == 0x1_0000_0000 * q + a,
                a == 0xffff_ffff,
        ;
    } else {
        vstd::arithmetic::div_mod::lemma_mod_add_multiples_vanish(a + 1, 0x1_0000_0000);
        vstd::arithmetic::div_mod::lemma_mod_multiples_vanish(q, a + 1, 0x1_0000_0000);
        assert(x + 1 == 0x1_0000_0000 * q + (a + 1));
        vstd::arithmetic::div_mod::lemma_small_mod((a + 1) as nat, 0x1_0000_0000);
    }
}

/// Identifiers are unique: among the first 2^32 identifiers a counter hands
/// out, no two are equal.
pub proof fn lemma_ids_distinct(start: u32, i: nat, j: nat)
    requires
        i < j < 0x1_0000_0000,
    ensures
        nth_id(start, i) != nth_id(start, j),
{
    assert((start + i) % 0x1_0000_0000 != (start + j) % 0x1_0000_0000) by (nonlinear_arith)
        requires
            i < j < 0x1_0000_0000,
            0 <= start < 0x1_0000_0000,
    ;
}

} // verus!

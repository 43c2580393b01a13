use vstd::prelude::*;

verus! {

/// The millisecond counter after `k` timer interrupts from `start`.
pub open spec fn counter_after_interrupts(start: u32, k: nat) -> int
    decreases k,
{
    if k == 0 {
        start as int
    } else {
        counter_after_interrupts(start, (k - 1) as nat) + 1
    }
}

proof fn lemma_counter_closed_form(start: u32, k: nat)
    ensures
        counter_after_interrupts(start, k) == start + k,
    decreases k,
{
    if k > 0 {
        lemma_counter_closed_form(start, (k - 1) as nat);
    }
}

/// After `k` interrupts from `millis_init` the counter reads `k`: the
/// milliseconds elapsed, one interrupt per millisecond; and it never
/// decreases.
pub proof fn lemma_counter_counts_interrupts(start: u32, k: nat, l: nat)
    ensures
        counter_after_interrupts(start, k) == start + k,
        counter_after_interrupts(0, k) == k,
        k <= l ==> counter_after_interrupts(start, k) <= counter_after_interrupts(start, l),
{
    lemma_counter_closed_form(start, k);
    lemma_counter_closed_form(0, k);
    lemma_counter_closed_form(start, l);
}

/// What the timer interrupt does each millisecond: advance the
/// millisecond counter by one.
pub fn count_millisecond(counter: &mut u32)
    requires
        *old(counter) < u32::MAX,
    ensures
        *final(counter) == *old(counter) + 1,
        *final(counter) == counter_after_interrupts(*old(counter), 1),
{
    let ghost start = *counter;
    assert(counter_after_interrupts(start, 0) == start);
    *counter = *counter + 1;
}

} // verus!

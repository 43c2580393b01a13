//! The wake-up schedule: a watchdog interrupt every ~8 s counts wake-ups,
//! and the main loop works once enough of them have passed.

use vstd::prelude::*;

verus! {

/// Sleep for ~1 minute
pub const WAKE_CYCLES: u8 = 8;

/// The wake-up count at power-on: `WAKE_CYCLES`, so that the first call to
/// `ready` does not wait.
pub const INITIAL_WDT_COUNT: u8 = WAKE_CYCLES;

/// What a call of `ready` does to the count, and what it returns.
pub open spec fn ready_step(count: u8) -> (u8, bool) {
    if count >= WAKE_CYCLES {
        (0, true)
    } else {
        (count, false)
    }
}

/// Returns true when the watchdog count has reached `WAKE_CYCLES`, and then
/// resets it.
pub fn ready(count: &mut u8) -> (r: bool)
    ensures
        r == (*old(count) >= WAKE_CYCLES),
        *final(count) == if r {
            0
        } else {
            *old(count)
        },
        (*final(count), r) == ready_step(*old(count)),
{
    if *count >= WAKE_CYCLES {
        *count = 0;
        true
    } else {
        false
    }
}

/// What the watchdog interrupt does to the wake-up count: add one, staying
/// at `u8::MAX` once there.
pub fn count_watchdog_wake(count: &mut u8)
    ensures
        *final(count) == if *old(count) < u8::MAX {
            *old(count) + 1
        } else {
            *old(count) as int
        },
        *final(count) == count_after_wakes(*old(count), 1),
{
    let value = *count;
    if value < u8::MAX {
        *count = value + 1;
    }
}

/// The wake-up count after `n` watchdog wake-ups from `count`.
pub open spec fn count_after_wakes(count: u8, n: nat) -> u8 {
    if count + n < u8::MAX {
        (count + n) as u8
    } else {
        u8::MAX
    }
}

/// Counting `n` watchdog wake-ups one by one gives `count_after_wakes`.
pub proof fn lemma_wakes_step(count: u8, n: nat)
    ensures
        count_after_wakes(count_after_wakes(count, n), 1) == count_after_wakes(count, n + 1),
{
}

/// Once `ready` has said yes, it says yes again exactly when at least
/// `WAKE_CYCLES` watchdog wake-ups have been counted since.
pub proof fn lemma_ready_after_wakes(n: nat)
    ensures
        (count_after_wakes(0, n) >= WAKE_CYCLES) == (n >= WAKE_CYCLES),
{
}

/// Runs a sequence of events from `count`: `true` is a watchdog wake-up,
/// `false` a call of `ready`. Gives the final count and what each call of
/// `ready` returned, in order.
pub open spec fn run_schedule(count: u8, events: Seq<bool>) -> (u8, Seq<bool>)
    decreases events.len(),
{
    if events.len() == 0 {
        (count, Seq::empty())
    } else {
        let (c, rs) = run_schedule(count, events.drop_last());
        if events.last() {
            (count_after_wakes(c, 1), rs)
        } else {
            (ready_step(c).0, rs.push(ready_step(c).1))
        }
    }
}

/// The number of watchdog wake-ups in a sequence of events.
pub open spec fn count_wakes(events: Seq<bool>) -> nat
    decreases events.len(),
{
    if events.len() == 0 {
        0
    } else {
        count_wakes(events.drop_last()) + if events.last() {
            1nat
        } else {
            0nat
        }
    }
}

/// No call of `ready` among `results` returned true.
pub open spec fn none_ready(results: Seq<bool>) -> bool {
    forall|i: int| 0 <= i < results.len() ==> !#[trigger] results[i]
}

/// After `ready` has returned true (the count is 0): every later call of
/// `ready` returns false until `WAKE_CYCLES` wake-ups have been counted;
/// while none returned true the count is the number of wake-ups (up to
/// `u8::MAX`); and once `WAKE_CYCLES` wake-ups are counted the next call
/// returns true.
pub proof fn lemma_schedule_after_ready(events: Seq<bool>)
    ensures
        count_wakes(events) < WAKE_CYCLES ==> none_ready(run_schedule(0, events).1),
        none_ready(run_schedule(0, events).1) ==> run_schedule(0, events).0 == count_after_wakes(
            0,
            count_wakes(events),
        ),
        none_ready(run_schedule(0, events).1) && count_wakes(events) >= WAKE_CYCLES
            ==> ready_step(run_schedule(0, events).0).1,
    decreases events.len(),
{
    if events.len() > 0 {
        let dl = events.drop_last();
        lemma_schedule_after_ready(dl);
        let c = run_schedule(0, dl).0;
        let rs = run_schedule(0, dl).1;
        let c2 = run_schedule(0, events).0;
        let rs2 = run_schedule(0, events).1;
        let w = count_wakes(dl);
        if events.last() {
            assert(count_wakes(events) == w + 1);
            assert(rs2 == rs);
            assert(c2 == count_after_wakes(c, 1));
            lemma_wakes_step(0, w);
        } else {
            assert(count_wakes(events) == w);
            let r = ready_step(c).1;
            assert(rs2 == rs.push(r));
            assert(c2 == ready_step(c).0);
            if none_ready(rs2) {
                assert forall|i: int| 0 <= i < rs.len() implies !#[trigger] rs[i] by {
                    assert(rs2[i] == rs[i]);
                }
                assert(!rs2[rs.len() as int]);
            }
            if w < WAKE_CYCLES {
                assert(none_ready(rs));
                assert(c == w);
                assert(!r);
                assert forall|i: int| 0 <= i < rs2.len() implies !#[trigger] rs2[i] by {
                    if i < rs.len() {
                        assert(rs2[i] == rs[i]);
                    }
                }
            }
        }
    }
}

} // verus!

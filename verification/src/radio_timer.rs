//! The transmitter's clock: a timer interrupt raises a flag, and the main
//! loop ticks the transmitter once per raised flag it sees.

use vstd::prelude::*;

verus! {

/// Returns true if at least 1 interrupt occurred since the last call:
/// reads the flag the timer interrupt raises, and clears it.
pub fn should_transmitter_tick(flag: &mut bool) -> (r: bool)
    ensures
        r == *old(flag),
        *final(flag) == false,
{
    let r = *flag;
    *flag = false;
    r
}

/// What the timer interrupt does: raise the flag.
pub fn raise_tick_flag(flag: &mut bool)
    ensures
        *final(flag) == true,
{
    *flag = true;
}

/// Runs a sequence of events from the flag `flag`: `true` is a timer
/// interrupt (`raise_tick_flag`), `false` a call of
/// `should_transmitter_tick`. Gives the final flag and, for each event,
/// what the call returned (`None` for an interrupt).
pub open spec fn run_ticks(flag: bool, events: Seq<bool>) -> (bool, Seq<Option<bool>>)
    decreases events.len(),
{
    if events.len() == 0 {
        (flag, Seq::empty())
    } else {
        let (f, rs) = run_ticks(flag, events.drop_last());
        if events.last() {
            (true, rs.push(None))
        } else {
            (false, rs.push(Some(f)))
        }
    }
}

/// Whether an interrupt came among the first `n` events after the last call
/// among them (or since the start).
pub open spec fn interrupt_since_last_call(events: Seq<bool>, n: int) -> bool {
    exists|j: int|
        0 <= j < n && #[trigger] events[j] && forall|k: int| j < k < n ==> #[trigger] events[k]
}

/// An interrupt came since the last call exactly when the latest event is
/// an interrupt.
proof fn lemma_since_is_latest(events: Seq<bool>, n: int)
    requires
        0 <= n <= events.len(),
    ensures
        interrupt_since_last_call(events, n) == (n > 0 && events[n - 1]),
{
    if n > 0 && events[n - 1] {
        assert(0 <= n - 1 < n && events[n - 1] && forall|k: int|
            n - 1 < k < n ==> #[trigger] events[k]);
    }
    if interrupt_since_last_call(events, n) {
        let j = choose|j: int|
            0 <= j < n && #[trigger] events[j] && forall|k: int| j < k < n ==> #[trigger] events[k];
        if j < n - 1 {
            assert(events[n - 1]);
        }
    }
}

proof fn lemma_run_ticks(events: Seq<bool>)
    ensures
        run_ticks(false, events).1.len() == events.len(),
        run_ticks(false, events).0 == (events.len() > 0 && events.last()),
        forall|i: int|
            0 <= i < events.len() && !events[i] ==> #[trigger] run_ticks(false, events).1[i]
                == Some(i > 0 && events[i - 1]),
    decreases events.len(),
{
    if events.len() > 0 {
        let dl = events.drop_last();
        lemma_run_ticks(dl);
        let rs = run_ticks(false, dl).1;
        assert forall|i: int|
            0 <= i < events.len() && !events[i] implies #[trigger] run_ticks(false, events).1[i]
            == Some(i > 0 && events[i - 1]) by {
            if i < dl.len() {
                assert(run_ticks(false, events).1[i] == rs[i]);
                assert(dl[i] == events[i]);
                if i > 0 {
                    assert(dl[i - 1] == events[i - 1]);
                }
            }
        }
    }
}

/// From a cleared flag, each call of `should_transmitter_tick` returns true
/// exactly when the timer interrupt came at least once since the previous
/// call (or since the start), and the flag left is that same fact.
pub proof fn lemma_tick_reports_interrupts(events: Seq<bool>)
    ensures
        run_ticks(false, events).1.len() == events.len(),
        run_ticks(false, events).0 == interrupt_since_last_call(events, events.len() as int),
        forall|i: int|
            0 <= i < events.len() && !events[i] ==> #[trigger] run_ticks(false, events).1[i]
                == Some(interrupt_since_last_call(events, i)),
{
    lemma_run_ticks(events);
    lemma_since_is_latest(events, events.len() as int);
    assert forall|i: int|
        0 <= i < events.len() && !events[i] implies #[trigger] run_ticks(false, events).1[i]
        == Some(interrupt_since_last_call(events, i)) by {
        lemma_since_is_latest(events, i);
    }
}

} // verus!

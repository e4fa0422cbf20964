//! The logical clock of a simulation, as a value.
//!
//! The clock counts ticks in a `u64`. It saturates: an advance that would
//! carry it past `u64::MAX` leaves it at `u64::MAX`. So it never runs
//! backwards, whatever it is advanced by.

use vstd::prelude::*;

verus! {

/// The clock that stood at `ticks`, after `delta` more ticks.
pub open spec fn clock_after(ticks: u64, delta: u64) -> u64 {
    if ticks + delta <= u64::MAX {
        (ticks + delta) as u64
    } else {
        u64::MAX
    }
}

/// The clock that stood at `ticks`, after it was advanced by each of `deltas`
/// in turn.
pub open spec fn clock_after_all(ticks: u64, deltas: Seq<u64>) -> u64
    decreases deltas.len(),
{
    if deltas.len() == 0 {
        ticks
    } else {
        clock_after(clock_after_all(ticks, deltas.drop_last()), deltas.last())
    }
}

/// Short of the limit, an advance adds its ticks to the clock exactly.
pub proof fn lemma_advance_adds(ticks: u64, delta: u64)
    requires
        ticks + delta <= u64::MAX,
    ensures
        clock_after(ticks, delta) == ticks + delta,
{
}

/// An advance never sets the clock back, and an advance by nothing leaves it
/// where it stood.
pub proof fn lemma_advance_never_decreases(ticks: u64, delta: u64)
    ensures
        clock_after(ticks, delta) >= ticks,
        clock_after(ticks, 0) == ticks,
{
}

/// Over any run of advances the clock is non-decreasing: what it shows after
/// the first `earlier` of them is at most what it shows after the first
/// `later` of them.
pub proof fn lemma_clock_is_monotonic(ticks: u64, deltas: Seq<u64>, earlier: int, later: int)
    requires
        0 <= earlier <= later <= deltas.len(),
    ensures
        clock_after_all(ticks, deltas.take(earlier)) <= clock_after_all(ticks, deltas.take(later)),
    decreases later - earlier,
{
    if earlier < later {
        lemma_clock_is_monotonic(ticks, deltas, earlier, later - 1);
        assert(deltas.take(later).drop_last() == deltas.take(later - 1));
    }
}

} // verus!

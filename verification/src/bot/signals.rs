//! The signals that animations surface while they play.
//!
//! An animation carries markers at authored moments. Each time playback
//! crosses one, the marker's number is queued; the controller takes the
//! whole queue once per tick.

use vstd::prelude::*;

verus! {

/// How many of the signals are `signal`.
pub open spec fn count_signal(signals: Seq<u64>, signal: u64) -> nat
    decreases signals.len(),
{
    if signals.len() == 0 {
        0
    } else {
        count_signal(signals.drop_last(), signal) + if signals.last() == signal {
            1nat
        } else {
            0nat
        }
    }
}

/// Counts the occurrences of one signal among those that an animation has
/// surfaced.
pub fn count_signals(signals: &Vec<u64>, signal: u64) -> (n: usize)
    ensures
        n == count_signal(signals@, signal),
        n <= signals@.len(),
{
    let mut n: usize = 0;
    let mut i: usize = 0;
    while i < signals.len()
        invariant
            i <= signals.len(),
            n == count_signal(signals@.take(i as int), signal),
            n <= i,
        decreases signals.len() - i,
    {
        assert(signals@.take(i + 1).drop_last() == signals@.take(i as int));
        if signals[i] == signal {
            n += 1;
        }
        i += 1;
    }
    assert(signals@.take(i as int) == signals@);
    n
}

} // verus!

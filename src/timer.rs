//! System timer: a free-running 64-bit microsecond counter kept by the
//! hardware in two 32-bit halves.
use vstd::prelude::*;
use crate::mmio::{fresh, Bank, Board, Event};

verus! {

/// Word index of the control/status register.
pub const TIMER_CS: usize = 0;

/// Word index of the low half of the counter.
pub const TIMER_CLO: usize = 1;

/// Word index of the high half of the counter.
pub const TIMER_CHI: usize = 2;

/// The 64-bit count formed from its two halves.
pub open spec fn counter(low: u32, high: u32) -> int {
    high as int * 0x1_0000_0000 + low as int
}

/// The accesses of one reading of the counter that loads `low` and then `high`.
pub open spec fn counter_events(low: u32, high: u32) -> Seq<Event> {
    seq![Event::Load(Bank::Timer, TIMER_CLO, low), Event::Load(Bank::Timer, TIMER_CHI, high)]
}

/// Whether `after` extends `before` by one reading of the counter, and
/// `r` is the count that reading gives.
pub open spec fn counter_read(before: Seq<Event>, after: Seq<Event>, r: u64) -> bool {
    &&& after == before + counter_events(fresh(before, after, 0), fresh(before, after, 1))
    &&& r == counter(fresh(before, after, 0), fresh(before, after, 1))
}

/// The system timer.
pub struct SystemTimer {}

impl SystemTimer {
    pub fn new() -> SystemTimer {
        SystemTimer {}
    }

    /// Elapsed microseconds: one load of the low half, then one of the high
    /// half, joined. Should the low half wrap between the two loads the
    /// result is off by 2^32; this is accepted, not corrected.
    pub fn read(&self, board: &mut Board) -> (r: u64)
        ensures
            counter_read(old(board).log(), final(board).log(), r),
    {
        let lower: u32 = board.load(Bank::Timer, TIMER_CLO);
        let higher: u32 = board.load(Bank::Timer, TIMER_CHI);
        let r = ((higher as u64) << 32u64) | (lower as u64);
        assert(r == higher as int * 0x1_0000_0000 + lower as int) by (bit_vector)
            requires
                r == ((higher as u64) << 32u64) | (lower as u64),
        ;
        assert(board.log() =~= old(board).log() + counter_events(lower, higher));
        r
    }
}

/// The current time in microseconds.
pub fn current_time(board: &mut Board) -> (r: u64)
    ensures
        counter_read(old(board).log(), final(board).log(), r),
{
    SystemTimer::new().read(board)
}

/// The current time in whole milliseconds.
pub fn current_time_ms(board: &mut Board) -> (r: u64)
    ensures
        final(board).log() == old(board).log() + counter_events(
            fresh(old(board).log(), final(board).log(), 0),
            fresh(old(board).log(), final(board).log(), 1),
        ),
        r == counter(
            fresh(old(board).log(), final(board).log(), 0),
            fresh(old(board).log(), final(board).log(), 1),
        ) / 1000,
{
    let us = current_time(board);
    us / 1000
}

/// Whether a busy wait of `duration` microseconds begun at `start` is over
/// at time `now`: at least `duration` microseconds separate the two readings.
/// A reading below `start` is never taken as the end of the wait.
pub fn sleep_elapsed(start: u64, now: u64, duration: u64) -> (r: bool)
    ensures
        r == (now >= start && now - start >= duration),
{
    now >= start && now - start >= duration
}

/// `millis` milliseconds in microseconds, saturated at `u64::MAX`.
pub fn millis_to_micros(millis: u64) -> (r: u64)
    ensures
        r == vstd::math::min(millis * 1000, u64::MAX as int),
{
    if millis > u64::MAX / 1000 {
        u64::MAX
    } else {
        millis * 1000
    }
}

} // verus!

//! Delay bounds: from a speed percentage to milliseconds, and the cells that
//! hold the current bounds for work and for vacation.
use crate::chance::uniform_between;
use crate::curve::{
    curve_drop, lemma_curve_monotonic, lemma_curve_range, rounded_log_drop, MAX_MILLISECONDS,
};
use rand::rngs::StdRng;
use vstd::prelude::*;

verus! {

/// The speed that both bounds start from.
pub const DEFAULT_PERCENT: u8 = 50;

/// The delay bound, in milliseconds, for a speed percentage: what is left of
/// the longest delay once the curve's rise at that speed is taken off, and at
/// least one millisecond. A speed below 1 counts as 1.
pub open spec fn delay_bound(percent: int) -> int {
    let left = MAX_MILLISECONDS - curve_drop(if percent < 1 { 1 } else { percent });
    if left < 1 {
        1
    } else {
        left
    }
}

/// Every delay bound lies between one millisecond and the longest delay.
pub proof fn lemma_delay_bound_in_range(percent: int)
    ensures
        1 <= delay_bound(percent) <= MAX_MILLISECONDS,
{
    lemma_curve_range(if percent < 1 { 1 } else { percent });
}

/// A higher speed never gives a longer delay bound.
pub proof fn lemma_delay_bound_monotonic(slower: int, faster: int)
    requires
        slower <= faster,
    ensures
        delay_bound(faster) <= delay_bound(slower),
{
    lemma_curve_monotonic(
        if slower < 1 { 1 } else { slower },
        if faster < 1 { 1 } else { faster },
    );
}

/// The slowest speed gives the longest delay, the fastest the shortest, and
/// the two differ.
pub proof fn lemma_delay_bound_ends()
    ensures
        delay_bound(1) == MAX_MILLISECONDS,
        delay_bound(100) == 1,
        delay_bound(100) < delay_bound(1),
{
}

/// A speed of zero is taken as a speed of one.
pub proof fn lemma_delay_bound_zero_clamped()
    ensures
        delay_bound(0) == delay_bound(1),
{
}

/// Converts a speed percentage into a delay bound in milliseconds.
pub fn percentile_to_ms_delay(percent: u8) -> (ms: u64)
    ensures
        ms == delay_bound(percent as int),
        1 <= ms <= MAX_MILLISECONDS,
{
    let clamped: u8 = if percent < 1 {
        1
    } else if percent > 100 {
        100
    } else {
        percent
    };
    proof {
        lemma_curve_range(percent as int);
    }
    let left: u64 = MAX_MILLISECONDS - rounded_log_drop(clamped);
    if left < 1 {
        1
    } else {
        left
    }
}

/// One delay bound, in milliseconds. It is never zero, so a delay can always
/// be drawn below it.
pub struct RateController {
    bound_ms: u64,
}

impl RateController {
    #[verifier::type_invariant]
    spec fn never_zero(self) -> bool {
        self.bound_ms >= 1
    }

    /// The bound that the cell holds.
    pub closed spec fn bound(self) -> int {
        self.bound_ms as int
    }

    /// A cell at the default speed.
    pub fn new() -> (cell: RateController)
        ensures
            cell.bound() == delay_bound(DEFAULT_PERCENT as int),
    {
        RateController { bound_ms: percentile_to_ms_delay(DEFAULT_PERCENT) }
    }

    /// A cell at the given speed.
    pub fn from_percent(percent: u8) -> (cell: RateController)
        ensures
            cell.bound() == delay_bound(percent as int),
    {
        RateController { bound_ms: percentile_to_ms_delay(percent) }
    }

    /// Reads the bound.
    pub fn get(&self) -> (ms: u64)
        ensures
            ms == self.bound(),
            ms >= 1,
    {
        proof {
            use_type_invariant(self);
        }
        self.bound_ms
    }

    /// Replaces the bound.
    pub fn set(&mut self, new_bound_ms: u64)
        requires
            new_bound_ms >= 1,
        ensures
            final(self).bound() == new_bound_ms,
    {
        self.bound_ms = new_bound_ms;
    }

    /// Replaces the bound by the one for the given speed.
    pub fn set_percent(&mut self, percent: u8)
        ensures
            final(self).bound() == delay_bound(percent as int),
    {
        self.bound_ms = percentile_to_ms_delay(percent);
    }

    /// Draws a delay below the bound.
    pub fn draw_delay(&self, rng: &mut StdRng) -> (ms: u64)
        ensures
            0 <= ms < self.bound(),
    {
        proof {
            use_type_invariant(self);
        }
        uniform_between(rng, 0, self.bound_ms)
    }
}

/// A pushed change of speeds. A field that the update did not carry is `None`.
#[derive(Clone, Copy, Debug)]
pub struct SpeedUpdate {
    pub work_speed: Option<u8>,
    pub vacation_speed: Option<u8>,
}

/// The two delay bounds that the agents share: one for work, one for
/// vacation.
pub struct RateState {
    pub work: RateController,
    pub vacation: RateController,
}

impl RateState {
    /// Both bounds at the default speed.
    pub fn new() -> (rates: RateState)
        ensures
            rates.work.bound() == delay_bound(DEFAULT_PERCENT as int),
            rates.vacation.bound() == delay_bound(DEFAULT_PERCENT as int),
    {
        RateState { work: RateController::new(), vacation: RateController::new() }
    }

    /// The bound on a work delay, in milliseconds.
    pub fn work_delay_bound_ms(&self) -> (ms: u64)
        ensures
            ms == self.work.bound(),
            ms >= 1,
    {
        self.work.get()
    }

    /// The bound on a vacation delay, in milliseconds.
    pub fn vacation_delay_bound_ms(&self) -> (ms: u64)
        ensures
            ms == self.vacation.bound(),
            ms >= 1,
    {
        self.vacation.get()
    }

    /// Takes over the speeds that an update carries: each one present sets
    /// its own bound, each one absent leaves its bound as it was.
    pub fn apply(&mut self, update: SpeedUpdate)
        ensures
            final(self).work.bound() == (match update.work_speed {
                Some(percent) => delay_bound(percent as int),
                None => old(self).work.bound(),
            }),
            final(self).vacation.bound() == (match update.vacation_speed {
                Some(percent) => delay_bound(percent as int),
                None => old(self).vacation.bound(),
            }),
    {
        if let Some(percent) = update.vacation_speed {
            self.vacation.set_percent(percent);
        }
        if let Some(percent) = update.work_speed {
            self.work.set_percent(percent);
        }
    }
}

} // verus!

//! Gait-phase tracking.
//!
//! The policy consumes a cyclic phase signal.  The tracker advances a
//! fractional step index once per control tick and reduces it modulo the
//! number of steps in one gait period.  The index is kept in thousandths
//! of a step, so a frequency factor of 1000 advances one step per tick.

use vstd::prelude::*;

verus! {

use vstd::arithmetic::div_mod::lemma_add_mod_noop;
use vstd::arithmetic::div_mod::lemma_add_mod_noop_right;
use vstd::arithmetic::div_mod::lemma_mod_bound;
use vstd::arithmetic::div_mod::lemma_small_mod;

/// Steps per gait period assumed when no timing metadata is available:
/// a half-second period at fifty ticks per second.
pub const DEFAULT_NB_STEPS_IN_PERIOD: usize = 25;

/// Frequency factor of the normal gait, in thousandths.
pub const NORMAL_FREQUENCY_MILLI: i64 = 1000;

/// Frequency factor of the sprint gait, in thousandths.
pub const SPRINT_FREQUENCY_MILLI: i64 = 1300;

/// One advance of the phase index: add the increment and wrap into
/// `[0, m)`.
pub open spec fn phase_step_spec(s: int, inc: int, m: int) -> int {
    (s + inc) % m
}

/// The phase index after `k` advances from `start`.
pub open spec fn iter_phase(start: int, inc: int, m: int, k: nat) -> int
    decreases k,
{
    if k == 0 {
        start
    } else {
        phase_step_spec(iter_phase(start, inc, m, (k - 1) as nat), inc, m)
    }
}

pub proof fn lemma_iter_phase_closed_form(start: int, inc: int, m: int, k: nat)
    requires
        m > 0,
        0 <= start < m,
    ensures
        iter_phase(start, inc, m, k) == (start + k * inc) % m,
    decreases k,
{
    if k == 0 {
        assert(k * inc == 0) by (nonlinear_arith)
            requires
                k == 0,
        ;
        lemma_small_mod(start as nat, m as nat);
    } else {
        let j = (k - 1) as nat;
        lemma_iter_phase_closed_form(start, inc, m, j);
        let x = start + j * inc;
        // ((x % m) + inc) % m == (x + inc) % m
        lemma_add_mod_noop_right(x % m, inc, m);
        lemma_add_mod_noop(x, inc, m);
        vstd::arithmetic::div_mod::lemma_mod_twice(x, m);
        assert(j * inc + inc == k * inc) by (nonlinear_arith)
            requires
                j == k - 1,
        ;
    }
}

/// Phase wrap: the index always stays in `[0, m)`, and when the total
/// advance over `k` ticks is a whole number of periods, the phase signal
/// is back exactly where it started.
pub proof fn lemma_phase_wrap(start: int, inc: int, m: int, k: nat)
    requires
        m > 0,
        0 <= start < m,
        (k * inc) % m == 0,
    ensures
        iter_phase(start, inc, m, k) == start,
{
    lemma_iter_phase_closed_form(start, inc, m, k);
    lemma_add_mod_noop_right(start, k * inc, m);
    lemma_small_mod(start as nat, m as nat);
}

/// Reference-motion phase tracker.
///
/// One continuous state variable, the fractional step index, advances by
/// the frequency factor plus a per-robot offset each tick and wraps
/// modulo the steps in one period.
pub struct PhaseTracker {
    /// Number of steps in one full gait period.
    pub nb_steps_in_period: usize,
    /// Current step index within the period, in thousandths of a step.
    pub step_index_milli: i64,
    /// Gait frequency factor in thousandths (1000 = normal gait).
    pub frequency_factor_milli: i64,
    /// Additive offset to the frequency factor, in thousandths.
    pub frequency_factor_offset_milli: i64,
}

impl PhaseTracker {
    /// Steps per period expressed in the index's thousandths.
    pub open spec fn period_milli(&self) -> int {
        1000 * self.nb_steps_in_period
    }

    /// The tracker's invariant: a positive, bounded period, the index
    /// reduced into it, and bounded tuning factors.
    pub open spec fn well_formed(&self) -> bool {
        &&& 1 <= self.nb_steps_in_period <= 1_000_000
        &&& 0 <= self.step_index_milli < self.period_milli()
        &&& -1_000_000_000 <= self.frequency_factor_milli <= 1_000_000_000
        &&& -1_000_000_000 <= self.frequency_factor_offset_milli <= 1_000_000_000
    }

    /// The per-tick increment of the step index, in thousandths.
    pub open spec fn increment(&self) -> int {
        self.frequency_factor_milli + self.frequency_factor_offset_milli
    }

    /// Current step index in thousandths of a step.
    pub open spec fn index_milli(&self) -> int {
        self.step_index_milli as int
    }

    /// Create a tracker at phase zero with the normal gait frequency.
    pub fn new(nb_steps_in_period: usize, frequency_factor_offset_milli: i64) -> (r: Self)
        requires
            1 <= nb_steps_in_period <= 1_000_000,
            -1_000_000_000 <= frequency_factor_offset_milli <= 1_000_000_000,
        ensures
            r.well_formed(),
            r.nb_steps_in_period == nb_steps_in_period,
            r.index_milli() == 0,
            r.frequency_factor_milli == NORMAL_FREQUENCY_MILLI,
            r.frequency_factor_offset_milli == frequency_factor_offset_milli,
    {
        PhaseTracker {
            nb_steps_in_period,
            step_index_milli: 0,
            frequency_factor_milli: NORMAL_FREQUENCY_MILLI,
            frequency_factor_offset_milli,
        }
    }

    /// Create a tracker with the default period settings.
    pub fn default_50hz() -> (r: Self)
        ensures
            r.well_formed(),
            r.nb_steps_in_period == DEFAULT_NB_STEPS_IN_PERIOD,
            r.index_milli() == 0,
            r.frequency_factor_milli == NORMAL_FREQUENCY_MILLI,
            r.frequency_factor_offset_milli == 0,
    {
        Self::new(DEFAULT_NB_STEPS_IN_PERIOD, 0)
    }

    /// Advance the phase by one tick and return the new step index in
    /// thousandths of a step.
    pub fn step(&mut self) -> (r: i64)
        requires
            old(self).well_formed(),
        ensures
            final(self).well_formed(),
            final(self).index_milli() == phase_step_spec(
                old(self).index_milli(),
                old(self).increment(),
                old(self).period_milli(),
            ),
            r == final(self).index_milli(),
            final(self).nb_steps_in_period == old(self).nb_steps_in_period,
            final(self).frequency_factor_milli == old(self).frequency_factor_milli,
            final(self).frequency_factor_offset_milli == old(
                self,
            ).frequency_factor_offset_milli,
    {
        let period: i64 = 1000 * (self.nb_steps_in_period as i64);
        let advanced: i64 = self.step_index_milli + self.frequency_factor_milli
            + self.frequency_factor_offset_milli;
        let wrapped: i64 = match advanced.checked_rem_euclid(period) {
            Some(w) => w,
            None => 0,  // unreachable: the period is positive
        };
        proof {
            lemma_mod_bound(advanced as int, period as int);
        }
        self.step_index_milli = wrapped;
        wrapped
    }

    /// Current step index in thousandths of a step, without advancing.
    pub fn current_phase(&self) -> (r: i64)
        ensures
            r == self.index_milli(),
    {
        self.step_index_milli
    }

    /// Reset the phase counter to zero.
    pub fn reset(&mut self)
        ensures
            final(self).index_milli() == 0,
            final(self).nb_steps_in_period == old(self).nb_steps_in_period,
            final(self).frequency_factor_milli == old(self).frequency_factor_milli,
            final(self).frequency_factor_offset_milli == old(
                self,
            ).frequency_factor_offset_milli,
    {
        self.step_index_milli = 0;
    }

    /// Switch between the sprint and the normal gait frequency without
    /// touching the step index, so the phase signal stays continuous.
    pub fn set_sprint(&mut self, sprint: bool)
        ensures
            final(self).frequency_factor_milli == if sprint {
                SPRINT_FREQUENCY_MILLI
            } else {
                NORMAL_FREQUENCY_MILLI
            },
            final(self).index_milli() == old(self).index_milli(),
            final(self).nb_steps_in_period == old(self).nb_steps_in_period,
            final(self).frequency_factor_offset_milli == old(
                self,
            ).frequency_factor_offset_milli,
    {
        self.frequency_factor_milli = if sprint {
            SPRINT_FREQUENCY_MILLI
        } else {
            NORMAL_FREQUENCY_MILLI
        };
    }

    /// Nudge the frequency-factor offset permanently, in thousandths.
    pub fn adjust_offset(&mut self, delta_milli: i64)
        requires
            -1_000_000_000 <= old(self).frequency_factor_offset_milli + delta_milli
                <= 1_000_000_000,
        ensures
            final(self).frequency_factor_offset_milli == old(self).frequency_factor_offset_milli
                + delta_milli,
            final(self).index_milli() == old(self).index_milli(),
            final(self).nb_steps_in_period == old(self).nb_steps_in_period,
            final(self).frequency_factor_milli == old(self).frequency_factor_milli,
    {
        self.frequency_factor_offset_milli = self.frequency_factor_offset_milli + delta_milli;
    }
}

/// Steps per gait period read from the reference-motion timing metadata.
///
/// The metadata file is consulted only for its presence; both with and
/// without it the default period is used, so a missing file is not an
/// error.  The caller reports whether the file was found.
pub fn load_period_from_pickle(file_found: bool) -> (r: usize)
    ensures
        r == DEFAULT_NB_STEPS_IN_PERIOD,
{
    let _ = file_found;
    DEFAULT_NB_STEPS_IN_PERIOD
}

} // verus!

//! Resource model: the stamina and exhaustion ledger consumed by every action.
//!
//! Stamina is measured in milli-points (one displayed point is 1000) and the
//! exhaustion recovery timer in milliseconds.  Regeneration rates are
//! milli-points per second.  The ledger keeps `current <= max` at all times,
//! and `exhausted` only holds while the recovery timer is still running.

use vstd::prelude::*;

verus! {

/// Full stamina bar at character spawn, in milli-points (100 points).
pub const DEFAULT_MAX_STAMINA: u32 = 100_000;

/// Stamina regained per second when resting, in milli-points.
pub const DEFAULT_REGEN_RATE: u32 = 30_000;

/// Stamina drained per second while sprinting, in milli-points.
pub const DEFAULT_DRAIN_RATE: u32 = 15_000;

/// How long exhaustion lasts once entered, in milliseconds.
pub const EXHAUSTION_RECOVERY_MS: u32 = 3_000;

/// Regeneration multiplier while exhausted, in per-mille.
pub const EXHAUSTED_REGEN_PERMILLE: u32 = 300;

/// Upper bound on the regeneration and drain rates; keeps the fixed-point
/// products of `regen_gain` inside `u64`.
pub const RATE_LIMIT: u32 = 1_000_000;

/// Upper bound on a single tick's delta time (one hour), for the same reason.
pub const MAX_TICK_MS: u32 = 3_600_000;

/// Stamina ledger of one character.
#[derive(Clone, Copy, Debug, PartialEq)]
pub struct Stamina {
    /// Current stamina, in milli-points.
    pub current: u32,
    /// Capacity of the bar, in milli-points.
    pub max: u32,
    /// Regeneration rate, in milli-points per second.
    pub regen_rate: u32,
    /// Sprint drain rate, in milli-points per second.
    pub drain_rate: u32,
    /// Whether the character is currently exhausted.
    pub exhausted: bool,
    /// Remaining exhaustion recovery time, in milliseconds.
    pub exhaustion_timer: u32,
}

impl Stamina {
    /// The ledger's invariant: the bar stays within its capacity, the rates
    /// stay inside the fixed-point range, and exhaustion always carries a
    /// running recovery timer.
    pub open spec fn wf(self) -> bool {
        &&& self.current <= self.max
        &&& self.regen_rate <= RATE_LIMIT
        &&& self.drain_rate <= RATE_LIMIT
        &&& self.exhausted ==> self.exhaustion_timer > 0
    }

    /// The low-water mark at or below which exhaustion sets in: a tenth of
    /// the bar.
    pub open spec fn low_water(self) -> int {
        self.max as int / 10
    }

    /// Result of arming exhaustion after a deduction: if the bar has fallen
    /// to the low-water mark and the character was not already exhausted,
    /// exhaustion begins and the recovery timer is set.
    pub open spec fn spec_arm_exhaustion(self) -> Stamina {
        if self.current <= self.low_water() && !self.exhausted {
            Stamina {
                current: self.current,
                max: self.max,
                regen_rate: self.regen_rate,
                drain_rate: self.drain_rate,
                exhausted: true,
                exhaustion_timer: EXHAUSTION_RECOVERY_MS,
            }
        } else {
            self
        }
    }

    /// Result of `try_spend` when the request is granted; the ledger is
    /// unchanged when it is not.
    pub open spec fn spec_spend(self, amount: u32) -> Stamina {
        if self.current >= amount {
            (Stamina {
                current: (self.current - amount) as u32,
                max: self.max,
                regen_rate: self.regen_rate,
                drain_rate: self.drain_rate,
                exhausted: self.exhausted,
                exhaustion_timer: self.exhaustion_timer,
            }).spec_arm_exhaustion()
        } else {
            self
        }
    }

    /// Result of `drain`: a saturating deduction, then exhaustion arming.
    pub open spec fn spec_drain(self, amount: u32) -> Stamina {
        let deducted = if self.current >= amount {
            (self.current - amount) as u32
        } else {
            0u32
        };
        (Stamina {
            current: deducted,
            max: self.max,
            regen_rate: self.regen_rate,
            drain_rate: self.drain_rate,
            exhausted: self.exhausted,
            exhaustion_timer: self.exhaustion_timer,
        }).spec_arm_exhaustion()
    }

    /// Stamina regained over `dt_ms` at a contextual scale (per-mille), with
    /// the exhausted multiplier applied on top.
    pub open spec fn regen_gain(self, dt_ms: u32, scale_permille: u32) -> int {
        let mult: int = if self.exhausted {
            EXHAUSTED_REGEN_PERMILLE as int
        } else {
            1000
        };
        self.regen_rate * dt_ms * scale_permille * mult / 1_000_000_000
    }

    /// Result of `regenerate`: the gain is added and clamped to the capacity.
    pub open spec fn spec_regenerate(self, dt_ms: u32, scale_permille: u32) -> Stamina {
        let raised = if self.current + self.regen_gain(dt_ms, scale_permille) >= self.max {
            self.max
        } else {
            (self.current + self.regen_gain(dt_ms, scale_permille)) as u32
        };
        Stamina {
            current: raised,
            max: self.max,
            regen_rate: self.regen_rate,
            drain_rate: self.drain_rate,
            exhausted: self.exhausted,
            exhaustion_timer: self.exhaustion_timer,
        }
    }

    /// Result of `tick_exhaustion`: the recovery timer counts down and
    /// exhaustion clears when it reaches zero.
    pub open spec fn spec_tick_exhaustion(self, dt_ms: u32) -> Stamina {
        let t = if self.exhaustion_timer >= dt_ms {
            (self.exhaustion_timer - dt_ms) as u32
        } else {
            0u32
        };
        Stamina {
            current: self.current,
            max: self.max,
            regen_rate: self.regen_rate,
            drain_rate: self.drain_rate,
            exhausted: self.exhausted && t > 0,
            exhaustion_timer: t,
        }
    }

    /// A fresh, full ledger with the default tuning.
    pub fn new() -> (s: Stamina)
        ensures
            s == (Stamina {
                current: DEFAULT_MAX_STAMINA,
                max: DEFAULT_MAX_STAMINA,
                regen_rate: DEFAULT_REGEN_RATE,
                drain_rate: DEFAULT_DRAIN_RATE,
                exhausted: false,
                exhaustion_timer: 0u32,
            }),
            s.wf(),
    {
        Stamina {
            current: DEFAULT_MAX_STAMINA,
            max: DEFAULT_MAX_STAMINA,
            regen_rate: DEFAULT_REGEN_RATE,
            drain_rate: DEFAULT_DRAIN_RATE,
            exhausted: false,
            exhaustion_timer: 0,
        }
    }

    /// Deducts `amount` and grants the request exactly when the bar holds at
    /// least that much; otherwise leaves the ledger untouched.  A deduction
    /// that lands at or below the low-water mark triggers exhaustion.
    pub fn try_spend(&mut self, amount: u32) -> (granted: bool)
        requires
            old(self).wf(),
        ensures
            granted == (old(self).current >= amount),
            *final(self) == old(self).spec_spend(amount),
            final(self).wf(),
    {
        if self.current >= amount {
            self.current = self.current - amount;
            self.arm_exhaustion();
            true
        } else {
            false
        }
    }

    /// Deducts up to `amount`, stopping at an empty bar; a landing at or
    /// below the low-water mark triggers exhaustion.  Used for continuous
    /// costs such as sprinting, which spec-wise always succeed.
    pub fn drain(&mut self, amount: u32)
        requires
            old(self).wf(),
        ensures
            *final(self) == old(self).spec_drain(amount),
            final(self).wf(),
    {
        if self.current >= amount {
            self.current = self.current - amount;
        } else {
            self.current = 0;
        }
        self.arm_exhaustion();
    }

    /// Adds the regeneration earned over `dt_ms` at the given contextual
    /// scale (1000 when resting, less while walking), slowed further while
    /// exhausted, and clamps to the capacity.
    pub fn regenerate(&mut self, dt_ms: u32, scale_permille: u32)
        requires
            old(self).wf(),
            dt_ms <= MAX_TICK_MS,
            scale_permille <= 1000,
        ensures
            *final(self) == old(self).spec_regenerate(dt_ms, scale_permille),
            final(self).wf(),
    {
        let mult: u64 = if self.exhausted {
            EXHAUSTED_REGEN_PERMILLE as u64
        } else {
            1000u64
        };
        assert((self.regen_rate as int) * (dt_ms as int) <= 3_600_000_000_000int)
            by (nonlinear_arith)
            requires
                self.regen_rate <= RATE_LIMIT,
                dt_ms <= MAX_TICK_MS,
        ;
        let a: u64 = (self.regen_rate as u64) * (dt_ms as u64);
        assert((a as int) * (scale_permille as int) <= 3_600_000_000_000_000int)
            by (nonlinear_arith)
            requires
                a <= 3_600_000_000_000u64,
                scale_permille <= 1000,
        ;
        let b: u64 = a * (scale_permille as u64);
        assert((b as int) * (mult as int) <= 3_600_000_000_000_000_000int) by (nonlinear_arith)
            requires
                b <= 3_600_000_000_000_000u64,
                mult <= 1000,
        ;
        let gain: u64 = b * mult / 1_000_000_000;
        let space: u32 = self.max - self.current;
        if gain >= space as u64 {
            self.current = self.max;
        } else {
            self.current = self.current + gain as u32;
        }
    }

    /// The filled fraction of the bar, in per-mille; zero for an empty
    /// capacity.
    pub fn percentage_permille(&self) -> (p: u32)
        requires
            self.wf(),
        ensures
            self.max == 0 ==> p == 0,
            self.max > 0 ==> p == self.current * 1000 / (self.max as int),
            p <= 1000,
    {
        if self.max == 0 {
            0
        } else {
            assert((self.current as int) * 1000 / (self.max as int) <= 1000) by (nonlinear_arith)
                requires
                    self.current <= self.max,
                    self.max > 0,
            ;
            let p64: u64 = (self.current as u64) * 1000 / (self.max as u64);
            p64 as u32
        }
    }

    /// Counts the exhaustion recovery timer down by `dt_ms`, clamping at
    /// zero, and clears the exhausted flag once the timer runs out.  Called
    /// once per tick regardless of what the character is doing.
    pub fn tick_exhaustion(&mut self, dt_ms: u32)
        requires
            old(self).wf(),
        ensures
            *final(self) == old(self).spec_tick_exhaustion(dt_ms),
            final(self).wf(),
    {
        if self.exhaustion_timer >= dt_ms {
            self.exhaustion_timer = self.exhaustion_timer - dt_ms;
        } else {
            self.exhaustion_timer = 0;
        }
        if self.exhaustion_timer == 0 {
            self.exhausted = false;
        }
    }

    /// Arms exhaustion after a deduction, as `spec_arm_exhaustion` states.
    fn arm_exhaustion(&mut self)
        ensures
            *final(self) == old(self).spec_arm_exhaustion(),
    {
        if self.current <= self.max / 10 && !self.exhausted {
            self.exhausted = true;
            self.exhaustion_timer = EXHAUSTION_RECOVERY_MS;
        }
    }
}

/// The stamina bar can never leave `0 <= current <= max`: every operation of
/// the ledger takes a well-formed state to a well-formed state, so the bound
/// holds after any sequence of `try_spend`, `drain`, `regenerate` and
/// `tick_exhaustion` calls.
pub proof fn lemma_stamina_bounds_preserved(s: Stamina, amount: u32, dt_ms: u32, scale: u32)
    requires
        s.wf(),
        scale <= 1000,
    ensures
        s.spec_spend(amount).wf(),
        s.spec_drain(amount).wf(),
        s.spec_regenerate(dt_ms, scale).wf(),
        s.spec_tick_exhaustion(dt_ms).wf(),
        0 <= s.spec_spend(amount).current <= s.max,
        0 <= s.spec_regenerate(dt_ms, scale).current <= s.max,
{
    assert(s.regen_gain(dt_ms, scale) >= 0) by {
        assert(s.regen_rate * dt_ms * scale >= 0) by (nonlinear_arith);
        assert(s.regen_rate * dt_ms * scale * 300 >= 0) by (nonlinear_arith)
            requires
                s.regen_rate * dt_ms * scale >= 0,
        ;
        assert(s.regen_rate * dt_ms * scale * 1000 >= 0) by (nonlinear_arith)
            requires
                s.regen_rate * dt_ms * scale >= 0,
        ;
    }
}

} // verus!

//! Animation state machine: the authoritative combat/movement state of one
//! character, with interruption, cancellation and combo-chaining rules.
//!
//! A transition attempt is decided in priority order: an interruptible state
//! accepts unconditionally; otherwise an armed cancellation window may admit
//! the target; otherwise an open combo window admits a follow-up attack;
//! otherwise the attempt is rejected and nothing changes.

use vstd::prelude::*;

use crate::state::{family_of, AttackDirection, CancelTargets, PlayerAnimationState, StateFamily};

verus! {

/// Length of a full combo chain: stages 0, 1 and 2.
pub const MAX_COMBO_CHAIN: u8 = 3;

/// How long the combo window stays open after an attack ends, in
/// milliseconds.
pub const COMBO_WINDOW_MS: u32 = 500;

/// How far into a swing the commitment point lies, in milliseconds; only
/// after it may the swing be cancelled.
pub const CANCEL_COMMIT_MS: u32 = 300;

/// Cancellation window paired with an in-flight attack: after the
/// commitment point the swing may be pre-empted by one of the permitted
/// target families.
#[derive(Clone, Copy, Debug, PartialEq, Eq, Structural)]
pub struct AnimationCancellation {
    /// Whether the commitment point has been passed.
    pub cancelable: bool,
    /// Time into the swing after which cancelling is allowed, in
    /// milliseconds.
    pub cancelable_after_time: u32,
    /// Time elapsed in the current swing, in milliseconds.
    pub current_time: u32,
    /// Priority of the current animation.
    pub priority: u8,
    /// Families this swing may be cancelled into once cancelable.
    pub can_cancel_into: CancelTargets,
}

impl AnimationCancellation {
    /// Whether this window admits a transition to `new`: it is armed, the
    /// swing has passed its commitment point, and the target's family is
    /// permitted.
    pub open spec fn spec_allows(self, new: PlayerAnimationState) -> bool {
        &&& self.cancelable
        &&& self.current_time >= self.cancelable_after_time
        &&& self.can_cancel_into.spec_contains(family_of(new))
    }

    /// The inert window: not cancelable, no time accumulated.
    pub open spec fn spec_inert() -> AnimationCancellation {
        AnimationCancellation {
            cancelable: false,
            cancelable_after_time: 0u32,
            current_time: 0u32,
            priority: 0u8,
            can_cancel_into: CancelTargets::spec_none(),
        }
    }

    /// A fresh, inert cancellation window.
    pub fn new_inert() -> (c: AnimationCancellation)
        ensures
            c == AnimationCancellation::spec_inert(),
    {
        AnimationCancellation {
            cancelable: false,
            cancelable_after_time: 0,
            current_time: 0,
            priority: 0,
            can_cancel_into: CancelTargets::none(),
        }
    }

    /// Resets the window to inert when a new attack begins: disarmed and
    /// with no time accumulated.
    pub fn reset(&mut self)
        ensures
            *final(self) == (AnimationCancellation {
                cancelable: false,
                current_time: 0u32,
                ..*old(self)
            }),
    {
        self.cancelable = false;
        self.current_time = 0;
    }

    /// Executable twin of `spec_allows`.
    pub fn allows(&self, new: PlayerAnimationState) -> (r: bool)
        ensures
            r == self.spec_allows(new),
    {
        self.cancelable && self.current_time >= self.cancelable_after_time
            && self.can_cancel_into.contains(crate::state::family(new))
    }
}

/// Whether an optional cancellation window admits a transition to `new`.
pub open spec fn cancel_opt_allows(
    c: Option<&AnimationCancellation>,
    new: PlayerAnimationState,
) -> bool {
    match c {
        Some(cc) => cc.spec_allows(new),
        None => false,
    }
}

/// Animation state machine of one character.
#[derive(Clone, Copy, Debug, PartialEq)]
pub struct AnimationStateMachine {
    /// The authoritative current discriminant.
    pub current_state: PlayerAnimationState,
    /// The discriminant before the last accepted transition.
    pub previous_state: Option<PlayerAnimationState>,
    /// Whether the current state may be pre-empted by any transition
    /// attempt.
    pub interruptible: bool,
    /// Time since the last plainly accepted transition, in milliseconds.
    pub transition_progress: u32,
    /// Stage reached by the current combo chain.
    pub combo_count: u8,
    /// Whether the combo window is open.
    pub combo_window_active: bool,
    /// Remaining combo-window time, in milliseconds.
    pub combo_window_timer: u32,
    /// Number of stages in a full chain; stages run up to this minus one.
    pub max_combo_chain: u8,
}

impl AnimationStateMachine {
    /// The machine's invariant: the combo count stays below the chain
    /// length, the chain has at least one stage, and the combo window is
    /// only ever open during an attack.
    pub open spec fn wf(self) -> bool {
        &&& self.combo_count < self.max_combo_chain
        &&& self.max_combo_chain >= 1
        &&& self.combo_window_active ==> self.current_state is Attacking
    }

    /// The combo stage of the current state; zero when not attacking.
    pub open spec fn spec_stage(self) -> u8 {
        match self.current_state {
            PlayerAnimationState::Attacking(stage, _) => stage,
            _ => 0u8,
        }
    }

    /// The stage a combo continuation advances to: one past the current
    /// stage, clamped to the final stage of the chain.
    pub open spec fn spec_next_stage(self) -> u8 {
        if self.spec_stage() + 1 < self.max_combo_chain {
            (self.spec_stage() + 1) as u8
        } else {
            (self.max_combo_chain - 1) as u8
        }
    }

    /// Whether the combo-continuation special case applies: the machine is
    /// mid-attack with an open combo window and the target is another
    /// attack.
    pub open spec fn spec_combo_continues(self, new: PlayerAnimationState) -> bool {
        &&& self.current_state is Attacking
        &&& self.combo_window_active
        &&& new is Attacking
    }

    /// Whether a transition attempt to `new` is accepted, in priority
    /// order: interruptible, then cancellation, then combo continuation.
    pub open spec fn spec_accepts(
        self,
        new: PlayerAnimationState,
        c: Option<&AnimationCancellation>,
    ) -> bool {
        ||| self.interruptible
        ||| cancel_opt_allows(c, new)
        ||| self.spec_combo_continues(new)
    }

    /// Bookkeeping of a plainly accepted transition (interruptible or
    /// cancellation path): the target becomes current, the elapsed time
    /// restarts, and leaving the attacking family closes the combo window,
    /// so a combo window is only ever open during an attack.
    pub open spec fn spec_plain_accept(self, new: PlayerAnimationState) -> AnimationStateMachine {
        AnimationStateMachine {
            current_state: new,
            previous_state: Some(self.current_state),
            interruptible: self.interruptible,
            transition_progress: 0u32,
            combo_count: self.combo_count,
            combo_window_active: self.combo_window_active && family_of(new)
                == StateFamily::AttackingFamily,
            combo_window_timer: self.combo_window_timer,
            max_combo_chain: self.max_combo_chain,
        }
    }

    /// Bookkeeping of a combo continuation: the stage advances by one
    /// (clamped to the final stage), the direction comes from the new
    /// input, the combo count records the new stage, and the window
    /// closes.
    pub open spec fn spec_combo_advance(self, new: PlayerAnimationState) -> AnimationStateMachine {
        let direction = match new {
            PlayerAnimationState::Attacking(_, d) => d,
            _ => AttackDirection::Forward,
        };
        AnimationStateMachine {
            current_state: PlayerAnimationState::Attacking(self.spec_next_stage(), direction),
            previous_state: Some(self.current_state),
            interruptible: self.interruptible,
            transition_progress: self.transition_progress,
            combo_count: self.spec_next_stage(),
            combo_window_active: false,
            combo_window_timer: self.combo_window_timer,
            max_combo_chain: self.max_combo_chain,
        }
    }

    /// The machine after an accepted transition, following the priority
    /// order of `spec_accepts`.
    pub open spec fn spec_transition(
        self,
        new: PlayerAnimationState,
        c: Option<&AnimationCancellation>,
    ) -> AnimationStateMachine {
        if self.interruptible {
            self.spec_plain_accept(new)
        } else if cancel_opt_allows(c, new) {
            self.spec_plain_accept(new)
        } else {
            self.spec_combo_advance(new)
        }
    }

    /// The machine after any transition attempt: changed as
    /// `spec_transition` states when accepted, untouched when rejected.
    pub open spec fn spec_try_result(
        self,
        new: PlayerAnimationState,
        c: Option<&AnimationCancellation>,
    ) -> AnimationStateMachine {
        if self.spec_accepts(new, c) {
            self.spec_transition(new, c)
        } else {
            self
        }
    }

    /// The machine after `update(dt_ms)`: the elapsed time grows; an open
    /// combo window counts down, and on expiry it closes and—only if the
    /// machine is currently interruptible—the combo count resets.  The
    /// reset is deferred while an uninterruptible attack is still playing
    /// so that chain progress is not discarded mid-swing.
    pub open spec fn spec_update(self, dt_ms: u32) -> AnimationStateMachine {
        let progress = if self.transition_progress + dt_ms <= u32::MAX {
            (self.transition_progress + dt_ms) as u32
        } else {
            u32::MAX
        };
        if self.combo_window_active {
            let t = if self.combo_window_timer >= dt_ms {
                (self.combo_window_timer - dt_ms) as u32
            } else {
                0u32
            };
            AnimationStateMachine {
                current_state: self.current_state,
                previous_state: self.previous_state,
                interruptible: self.interruptible,
                transition_progress: progress,
                combo_count: if t == 0 && self.interruptible {
                    0u8
                } else {
                    self.combo_count
                },
                combo_window_active: t > 0,
                combo_window_timer: t,
                max_combo_chain: self.max_combo_chain,
            }
        } else {
            AnimationStateMachine {
                current_state: self.current_state,
                previous_state: self.previous_state,
                interruptible: self.interruptible,
                transition_progress: progress,
                combo_count: self.combo_count,
                combo_window_active: false,
                combo_window_timer: self.combo_window_timer,
                max_combo_chain: self.max_combo_chain,
            }
        }
    }

    /// A fresh machine at character spawn: idle, interruptible, no combo.
    pub fn new() -> (m: AnimationStateMachine)
        ensures
            m == (AnimationStateMachine {
                current_state: PlayerAnimationState::Idling,
                previous_state: None::<PlayerAnimationState>,
                interruptible: true,
                transition_progress: 0u32,
                combo_count: 0u8,
                combo_window_active: false,
                combo_window_timer: 0u32,
                max_combo_chain: MAX_COMBO_CHAIN,
            }),
            m.wf(),
    {
        AnimationStateMachine {
            current_state: PlayerAnimationState::Idling,
            previous_state: None,
            interruptible: true,
            transition_progress: 0,
            combo_count: 0,
            combo_window_active: false,
            combo_window_timer: 0,
            max_combo_chain: MAX_COMBO_CHAIN,
        }
    }

    /// Attempts a transition to `new_state`, consulting the optional
    /// cancellation window, and reports whether it was accepted.  A
    /// rejected attempt mutates nothing.
    pub fn try_transition(
        &mut self,
        new_state: PlayerAnimationState,
        cancellation: Option<&AnimationCancellation>,
    ) -> (accepted: bool)
        requires
            old(self).wf(),
        ensures
            accepted == old(self).spec_accepts(new_state, cancellation),
            *final(self) == old(self).spec_try_result(new_state, cancellation),
            final(self).wf(),
    {
        if self.interruptible {
            self.previous_state = Some(self.current_state);
            self.current_state = new_state;
            self.transition_progress = 0;
            if !matches!(new_state, PlayerAnimationState::Attacking(_, _)) {
                self.combo_window_active = false;
            }
            return true;
        }
        if let Some(cancel_info) = cancellation {
            if cancel_info.allows(new_state) {
                self.previous_state = Some(self.current_state);
                self.current_state = new_state;
                self.transition_progress = 0;
                if !matches!(new_state, PlayerAnimationState::Attacking(_, _)) {
                    self.combo_window_active = false;
                }
                return true;
            }
        }
        if let PlayerAnimationState::Attacking(combo_stage, _) = self.current_state {
            if self.combo_window_active {
                if let PlayerAnimationState::Attacking(_, direction) = new_state {
                    let next_combo: u8 = if (combo_stage as u16) + 1 < (self.max_combo_chain
                        as u16) {
                        combo_stage + 1
                    } else {
                        self.max_combo_chain - 1
                    };
                    self.previous_state = Some(self.current_state);
                    self.current_state = PlayerAnimationState::Attacking(next_combo, direction);
                    self.combo_count = next_combo;
                    self.combo_window_active = false;
                    return true;
                }
            }
        }
        false
    }

    /// Opens the combo window for `window_duration_ms`.  Called right after
    /// an attack's active phase ends, while the machine is still in an
    /// attacking state.
    pub fn start_combo_window(&mut self, window_duration_ms: u32)
        requires
            old(self).wf(),
            old(self).current_state is Attacking,
        ensures
            *final(self) == (AnimationStateMachine {
                combo_window_active: true,
                combo_window_timer: window_duration_ms,
                ..*old(self)
            }),
            final(self).wf(),
    {
        self.combo_window_active = true;
        self.combo_window_timer = window_duration_ms;
    }

    /// Advances the machine's timers by one tick, as `spec_update` states.
    pub fn update(&mut self, dt_ms: u32)
        requires
            old(self).wf(),
        ensures
            *final(self) == old(self).spec_update(dt_ms),
            final(self).wf(),
    {
        if self.combo_window_active {
            if self.combo_window_timer >= dt_ms {
                self.combo_window_timer = self.combo_window_timer - dt_ms;
            } else {
                self.combo_window_timer = 0;
            }
            if self.combo_window_timer == 0 {
                self.combo_window_active = false;
                if self.interruptible {
                    self.combo_count = 0;
                }
            }
        }
        if self.transition_progress <= u32::MAX - dt_ms {
            self.transition_progress = self.transition_progress + dt_ms;
        } else {
            self.transition_progress = u32::MAX;
        }
    }

    /// Sets whether the current state may be pre-empted.
    pub fn set_interruptible(&mut self, interruptible: bool)
        ensures
            *final(self) == (AnimationStateMachine { interruptible, ..*old(self) }),
    {
        self.interruptible = interruptible;
    }

    /// Zeroes the combo count and closes the combo window.
    pub fn reset_combo(&mut self)
        requires
            old(self).wf(),
        ensures
            *final(self) == (AnimationStateMachine {
                combo_count: 0u8,
                combo_window_active: false,
                ..*old(self)
            }),
            final(self).wf(),
    {
        self.combo_count = 0;
        self.combo_window_active = false;
    }
}

/// Rejection is idempotent: an attempt that `spec_accepts` refuses leaves
/// the machine exactly as it was—current state, previous state and combo
/// count included—so repeating the same attempt with no mutation in between
/// is refused again and still changes nothing.
pub proof fn lemma_rejected_transition_idempotent(
    m: AnimationStateMachine,
    new: PlayerAnimationState,
    c: Option<&AnimationCancellation>,
)
    requires
        !m.spec_accepts(new, c),
    ensures
        m.spec_try_result(new, c) == m,
        !m.spec_try_result(new, c).spec_accepts(new, c),
        m.spec_try_result(new, c).spec_try_result(new, c) == m,
{
}

/// Combo monotonicity: when a transition is accepted through the
/// combo-continuation path alone and the combo count matches the current
/// stage with room left in the chain, the count advances by exactly one and
/// stays below the chain length.
pub proof fn lemma_combo_advance_increments(
    m: AnimationStateMachine,
    new: PlayerAnimationState,
    c: Option<&AnimationCancellation>,
)
    requires
        m.wf(),
        !m.interruptible,
        !cancel_opt_allows(c, new),
        m.spec_combo_continues(new),
        m.combo_count == m.spec_stage(),
        m.combo_count + 1 < m.max_combo_chain,
    ensures
        m.spec_accepts(new, c),
        m.spec_try_result(new, c).combo_count == m.combo_count + 1,
        m.spec_try_result(new, c).combo_count < m.max_combo_chain,
        !m.spec_try_result(new, c).combo_window_active,
{
}

/// Cancellation gating: with the machine uninterruptible and no combo
/// window open, a transition that can only go through the cancellation path
/// is refused—and mutates nothing—before the swing's commitment point, and
/// is accepted at or after it when the target's family is permitted.
pub proof fn lemma_cancellation_gating(
    m: AnimationStateMachine,
    new: PlayerAnimationState,
    c: AnimationCancellation,
)
    requires
        m.wf(),
        !m.interruptible,
        !m.combo_window_active,
    ensures
        c.current_time < c.cancelable_after_time ==> !m.spec_accepts(new, Some(&c))
            && m.spec_try_result(new, Some(&c)) == m,
        (c.cancelable && c.current_time >= c.cancelable_after_time
            && c.can_cancel_into.spec_contains(family_of(new))) ==> m.spec_accepts(
            new,
            Some(&c),
        ),
{
}

} // verus!

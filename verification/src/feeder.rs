//! Locomotion and action feeder: the per-tick decisions that turn raw input
//! and physics state into locomotion commands and discrete actions, gated by
//! stamina and the animation state machine.
//!
//! The feeder owns the in-flight attack countdown and the cancellation
//! window's clock.  Within one tick it runs in a fixed order: attack timers
//! and the state machine's clock first, then the stamina ledger, then the
//! locomotion command, then jump, dash and attack decisions.  The caller
//! performs the issued actions (they are returned as plain values) and hands
//! back next tick's physics state.

use vstd::prelude::*;

use crate::machine::{
    AnimationCancellation, AnimationStateMachine, CANCEL_COMMIT_MS, COMBO_WINDOW_MS,
};
use crate::stamina::{Stamina, MAX_TICK_MS};
use crate::state::{AttackDirection, CancelTargets, PlayerAnimationState};

verus! {

/// Base stamina cost of an attack, in milli-points.
pub const ATTACK_COST_BASE: u32 = 15_000;

/// Extra stamina cost per combo stage, in milli-points.
pub const ATTACK_COST_PER_STAGE: u32 = 5_000;

/// Swing duration of the opening attack, in milliseconds.
pub const ATTACK_DURATION_OPEN_MS: u32 = 1_000;

/// Swing duration of the second attack, in milliseconds.
pub const ATTACK_DURATION_MID_MS: u32 = 800;

/// Swing duration of the finisher, in milliseconds: later hits are faster.
pub const ATTACK_DURATION_FINISH_MS: u32 = 600;

/// Minimum stamina to issue a jump, in milli-points.
pub const JUMP_MIN_STAMINA: u32 = 10_000;

/// Stamina drained per tick while the jump key is fed, in milli-points.
pub const JUMP_TICK_COST: u32 = 1_000;

/// Requested jump height, in milli-units.
pub const JUMP_HEIGHT_MILLI: u32 = 3_000;

/// Minimum stamina to issue a dash, in milli-points.
pub const DASH_MIN_STAMINA: u32 = 10_000;

/// Stamina drained per tick while the dash key is fed, in milli-points.
pub const DASH_TICK_COST: u32 = 1_000;

/// Requested dash displacement, in milli-units.
pub const DASH_DISPLACEMENT_MILLI: u32 = 3_000;

/// Requested dash speed, in milli-units per second.
pub const DASH_SPEED_MILLI: u32 = 5_000;

/// Base locomotion speed, in milli-units per second.
pub const BASE_SPEED_MILLI: u32 = 4_000;

/// Speed modifier while sprinting, in per-mille.
pub const RUN_MODIFIER_PERMILLE: u32 = 2_000;

/// Speed modifier while exhausted, in per-mille.
pub const EXHAUSTED_MODIFIER_PERMILLE: u32 = 500;

/// Default speed modifier, in per-mille.
pub const WALK_MODIFIER_PERMILLE: u32 = 1_000;

/// Stamina above which the sprint modifier applies, in milli-points.
pub const RUN_MIN_STAMINA: u32 = 10_000;

/// Regeneration scale while walking, in per-mille of the resting rate.
pub const WALK_REGEN_PERMILLE: u32 = 200;

/// Float height handed to the physics controller, in milli-units.
pub const FLOAT_HEIGHT_MILLI: u32 = 100;

/// One tick's worth of input, as plain booleans.
#[derive(Clone, Copy, Debug, PartialEq, Eq, Structural)]
pub struct InputState {
    /// Movement keys currently held.
    pub forward: bool,
    pub backward: bool,
    pub left: bool,
    pub right: bool,
    /// Sprint modifier currently held.
    pub run_held: bool,
    /// Jump key currently held (fed every tick while held).
    pub jump_held: bool,
    /// Dash key currently held.
    pub dash_held: bool,
    /// Attack trigger edge: pressed this tick.
    pub attack_pressed: bool,
}

/// Desired movement as integer coefficients over the camera's horizontal
/// basis: the command is `forward_axis * camera_forward + right_axis *
/// camera_right`, each coefficient in -1..=1.
#[derive(Clone, Copy, Debug, PartialEq, Eq, Structural)]
pub struct MoveIntent {
    pub forward_axis: i8,
    pub right_axis: i8,
}

/// Where a dash is aimed.
#[derive(Clone, Copy, Debug, PartialEq, Eq, Structural)]
pub enum DashHeading {
    /// Along the current movement direction.
    MovementDirection,
    /// Along the camera's horizontal forward, used when standing still.
    CameraForward,
}

/// The per-tick locomotion command for the physics controller.  A zero
/// intent is a valid, explicit stand-still command; the basis is fed every
/// tick.  The facing is the negated movement direction (the character art
/// faces backward by convention), falling back to the negated camera
/// forward when standing still.
#[derive(Clone, Copy, Debug, PartialEq, Eq, Structural)]
pub struct LocomotionCommand {
    pub intent: MoveIntent,
    /// Desired horizontal speed, in milli-units per second.
    pub speed_milli: u32,
    /// Face opposite the movement direction; otherwise opposite the camera
    /// forward.
    pub face_opposite_movement: bool,
    /// Float height for the controller, in milli-units.
    pub float_height_milli: u32,
}

/// The discrete actions decided this tick, for the caller to perform.
#[derive(Clone, Copy, Debug, PartialEq, Eq, Structural)]
pub struct TickActions {
    /// Issue a jump of `JUMP_HEIGHT_MILLI`.
    pub jump: bool,
    /// Issue a dash of `DASH_DISPLACEMENT_MILLI` at `DASH_SPEED_MILLI`.
    pub dash: Option<DashHeading>,
    /// An attack transition was accepted this tick.
    pub attack_started: bool,
}

/// Per-character controller state: the resource ledger, the animation state
/// machine, the cancellation window, and the in-flight attack countdown.
#[derive(Clone, Copy, Debug, PartialEq)]
pub struct Player {
    pub stamina: Stamina,
    pub machine: AnimationStateMachine,
    pub cancellation: AnimationCancellation,
    /// Whether any movement key contributed last tick.
    pub is_moving: bool,
    /// Whether an attack swing is in flight.
    pub is_attacking: bool,
    /// Remaining time of the in-flight swing, in milliseconds.
    pub attack_timer: u32,
}

/// The attack direction chosen from the held movement keys: a single held
/// key picks its direction; none, or a conflicting set, defaults to a
/// forward attack.
pub open spec fn spec_attack_direction(f: bool, b: bool, l: bool, r: bool) -> AttackDirection {
    if f && !b && !l && !r {
        AttackDirection::Forward
    } else if b && !f && !l && !r {
        AttackDirection::Backward
    } else if l && !r && !f && !b {
        AttackDirection::Left
    } else if r && !l && !f && !b {
        AttackDirection::Right
    } else {
        AttackDirection::Forward
    }
}

/// Executable twin of `spec_attack_direction`.
pub fn determine_attack_direction(f: bool, b: bool, l: bool, r: bool) -> (d: AttackDirection)
    ensures
        d == spec_attack_direction(f, b, l, r),
{
    if f && !b && !l && !r {
        AttackDirection::Forward
    } else if b && !f && !l && !r {
        AttackDirection::Backward
    } else if l && !r && !f && !b {
        AttackDirection::Left
    } else if r && !l && !f && !b {
        AttackDirection::Right
    } else {
        AttackDirection::Forward
    }
}

/// One axis of movement intent: +1 for the positive key alone, -1 for the
/// negative key alone, 0 otherwise.
pub open spec fn spec_axis(pos: bool, neg: bool) -> i8 {
    if pos && !neg {
        1i8
    } else if neg && !pos {
        -1i8
    } else {
        0i8
    }
}

/// The movement intent of this tick's input.
pub open spec fn spec_move_intent(input: InputState) -> MoveIntent {
    MoveIntent {
        forward_axis: spec_axis(input.forward, input.backward),
        right_axis: spec_axis(input.right, input.left),
    }
}

/// Whether the intent commands any movement.
pub open spec fn spec_intent_moving(input: InputState) -> bool {
    spec_move_intent(input) != (MoveIntent { forward_axis: 0i8, right_axis: 0i8 })
}

/// The locomotion speed modifier, in per-mille: exhaustion halves the pace
/// and wins over sprinting; sprinting with stamina in reserve doubles it.
pub open spec fn spec_speed_modifier_permille(s: Stamina, run_held: bool) -> u32 {
    if s.exhausted {
        EXHAUSTED_MODIFIER_PERMILLE
    } else if run_held && s.current > RUN_MIN_STAMINA {
        RUN_MODIFIER_PERMILLE
    } else {
        WALK_MODIFIER_PERMILLE
    }
}

/// The locomotion command of this tick, fed to the physics controller
/// unconditionally.
pub open spec fn spec_locomotion_command(s: Stamina, input: InputState) -> LocomotionCommand {
    LocomotionCommand {
        intent: spec_move_intent(input),
        speed_milli: (BASE_SPEED_MILLI * spec_speed_modifier_permille(s, input.run_held)
            / 1000) as u32,
        face_opposite_movement: spec_intent_moving(input),
        float_height_milli: FLOAT_HEIGHT_MILLI,
    }
}

/// Executable twin of `spec_locomotion_command`.
pub fn locomotion_command(s: &Stamina, input: InputState) -> (cmd: LocomotionCommand)
    ensures
        cmd == spec_locomotion_command(*s, input),
{
    let forward_axis: i8 = if input.forward && !input.backward {
        1
    } else if input.backward && !input.forward {
        -1
    } else {
        0
    };
    let right_axis: i8 = if input.right && !input.left {
        1
    } else if input.left && !input.right {
        -1
    } else {
        0
    };
    let modifier: u32 = if s.exhausted {
        EXHAUSTED_MODIFIER_PERMILLE
    } else if input.run_held && s.current > RUN_MIN_STAMINA {
        RUN_MODIFIER_PERMILLE
    } else {
        WALK_MODIFIER_PERMILLE
    };
    LocomotionCommand {
        intent: MoveIntent { forward_axis, right_axis },
        speed_milli: BASE_SPEED_MILLI * modifier / 1000,
        face_opposite_movement: forward_axis != 0 || right_axis != 0,
        float_height_milli: FLOAT_HEIGHT_MILLI,
    }
}

/// Stamina drained over `dt_ms` of sprinting, in milli-points.
pub open spec fn spec_sprint_drain(s: Stamina, dt_ms: u32) -> int {
    s.drain_rate * dt_ms / 1000
}

/// The stamina ledger after one tick: the exhaustion timer always counts
/// down; then sprinting drains the bar, while walking regenerates it at a
/// fifth of the resting rate and resting regenerates it in full.
pub open spec fn spec_stamina_tick(s: Stamina, moving: bool, run_held: bool, dt_ms: u32) -> Stamina {
    let ticked = s.spec_tick_exhaustion(dt_ms);
    if moving && run_held && !ticked.exhausted {
        ticked.spec_drain(spec_sprint_drain(ticked, dt_ms) as u32)
    } else if moving {
        ticked.spec_regenerate(dt_ms, WALK_REGEN_PERMILLE)
    } else {
        ticked.spec_regenerate(dt_ms, 1000)
    }
}

/// Executable twin of `spec_stamina_tick`.
pub fn stamina_tick(s: &mut Stamina, moving: bool, run_held: bool, dt_ms: u32)
    requires
        old(s).wf(),
        dt_ms <= MAX_TICK_MS,
    ensures
        *final(s) == spec_stamina_tick(*old(s), moving, run_held, dt_ms),
        final(s).wf(),
{
    s.tick_exhaustion(dt_ms);
    if moving && run_held && !s.exhausted {
        assert((s.drain_rate as int) * (dt_ms as int) <= 3_600_000_000_000int)
            by (nonlinear_arith)
            requires
                s.drain_rate <= crate::stamina::RATE_LIMIT,
                dt_ms <= MAX_TICK_MS,
        ;
        let amount: u64 = (s.drain_rate as u64) * (dt_ms as u64) / 1000;
        s.drain(amount as u32);
    } else if moving {
        s.regenerate(dt_ms, WALK_REGEN_PERMILLE);
    } else {
        s.regenerate(dt_ms, 1000);
    }
}

/// Stamina cost of an attack at the given combo stage: the base cost plus a
/// per-stage increment.
pub open spec fn spec_attack_cost(stage: u8) -> u32 {
    (ATTACK_COST_BASE + stage * ATTACK_COST_PER_STAGE) as u32
}

/// Swing duration of an attack at the given combo stage; later hits finish
/// faster.
pub open spec fn spec_attack_duration_ms(stage: u8) -> u32 {
    if stage == 0 {
        ATTACK_DURATION_OPEN_MS
    } else if stage == 1 {
        ATTACK_DURATION_MID_MS
    } else {
        ATTACK_DURATION_FINISH_MS
    }
}

/// Executable twin of `spec_attack_duration_ms`.
pub fn attack_duration_ms(stage: u8) -> (d: u32)
    ensures
        d == spec_attack_duration_ms(stage),
{
    if stage == 0 {
        ATTACK_DURATION_OPEN_MS
    } else if stage == 1 {
        ATTACK_DURATION_MID_MS
    } else {
        ATTACK_DURATION_FINISH_MS
    }
}

impl Player {
    /// The controller state's invariant: its ledger and machine are
    /// well-formed.
    pub open spec fn wf(self) -> bool {
        &&& self.stamina.wf()
        &&& self.machine.wf()
    }

    /// A fresh character: full stamina, idle, no swing in flight.
    pub fn new() -> (p: Player)
        ensures
            p.stamina == (Stamina {
                current: crate::stamina::DEFAULT_MAX_STAMINA,
                max: crate::stamina::DEFAULT_MAX_STAMINA,
                regen_rate: crate::stamina::DEFAULT_REGEN_RATE,
                drain_rate: crate::stamina::DEFAULT_DRAIN_RATE,
                exhausted: false,
                exhaustion_timer: 0u32,
            }),
            p.machine == (AnimationStateMachine {
                current_state: PlayerAnimationState::Idling,
                previous_state: None::<PlayerAnimationState>,
                interruptible: true,
                transition_progress: 0u32,
                combo_count: 0u8,
                combo_window_active: false,
                combo_window_timer: 0u32,
                max_combo_chain: crate::machine::MAX_COMBO_CHAIN,
            }),
            p.cancellation == AnimationCancellation::spec_inert(),
            !p.is_moving,
            !p.is_attacking,
            p.attack_timer == 0,
            p.wf(),
    {
        Player {
            stamina: Stamina::new(),
            machine: AnimationStateMachine::new(),
            cancellation: AnimationCancellation::new_inert(),
            is_moving: false,
            is_attacking: false,
            attack_timer: 0,
        }
    }

    /// The cancellation window after one tick of an in-flight swing: its
    /// clock accumulates, and on first crossing the commitment point the
    /// window arms itself with the feint targets.
    pub open spec fn spec_cancellation_ticked(self, dt_ms: u32) -> AnimationCancellation {
        let ct = if self.cancellation.current_time + dt_ms <= u32::MAX {
            (self.cancellation.current_time + dt_ms) as u32
        } else {
            u32::MAX
        };
        if ct >= CANCEL_COMMIT_MS && !self.cancellation.cancelable {
            AnimationCancellation {
                cancelable: true,
                cancelable_after_time: CANCEL_COMMIT_MS,
                current_time: ct,
                priority: self.cancellation.priority,
                can_cancel_into: CancelTargets::spec_feint_targets(),
            }
        } else {
            AnimationCancellation { current_time: ct, ..self.cancellation }
        }
    }

    /// The controller state after the attack-timer phase of one tick.
    /// While a swing is in flight its countdown and the cancellation clock
    /// advance; when the countdown runs out the swing ends: the machine
    /// becomes interruptible again, the cancellation window goes inert,
    /// and—if the chain has stages left—the combo window opens, otherwise
    /// the combo resets.  The state machine's own clock always advances
    /// last.
    pub open spec fn spec_advance_attack(self, dt_ms: u32) -> Player {
        if self.is_attacking {
            let c1 = self.spec_cancellation_ticked(dt_ms);
            let t = if self.attack_timer >= dt_ms {
                (self.attack_timer - dt_ms) as u32
            } else {
                0u32
            };
            if t == 0 {
                let c2 = AnimationCancellation { cancelable: false, current_time: 0u32, ..c1 };
                let m1 = AnimationStateMachine { interruptible: true, ..self.machine };
                let m2 = if m1.current_state is Attacking && m1.spec_stage() + 1
                    < m1.max_combo_chain {
                    AnimationStateMachine {
                        combo_window_active: true,
                        combo_window_timer: COMBO_WINDOW_MS,
                        ..m1
                    }
                } else if m1.current_state is Attacking {
                    AnimationStateMachine {
                        combo_count: 0u8,
                        combo_window_active: false,
                        ..m1
                    }
                } else {
                    m1
                };
                Player {
                    stamina: self.stamina,
                    machine: m2.spec_update(dt_ms),
                    cancellation: c2,
                    is_moving: self.is_moving,
                    is_attacking: false,
                    attack_timer: 0u32,
                }
            } else {
                Player {
                    stamina: self.stamina,
                    machine: self.machine.spec_update(dt_ms),
                    cancellation: c1,
                    is_moving: self.is_moving,
                    is_attacking: true,
                    attack_timer: t,
                }
            }
        } else {
            Player {
                stamina: self.stamina,
                machine: self.machine.spec_update(dt_ms),
                cancellation: self.cancellation,
                is_moving: self.is_moving,
                is_attacking: false,
                attack_timer: self.attack_timer,
            }
        }
    }

    /// Advances the in-flight attack, the cancellation clock and the state
    /// machine's timers by one tick, as `spec_advance_attack` states.
    #[verifier::rlimit(60)]
    pub fn advance_attack_state(&mut self, dt_ms: u32)
        requires
            old(self).wf(),
        ensures
            *final(self) == old(self).spec_advance_attack(dt_ms),
            final(self).wf(),
    {
        if self.is_attacking {
            if self.cancellation.current_time <= u32::MAX - dt_ms {
                self.cancellation.current_time = self.cancellation.current_time + dt_ms;
            } else {
                self.cancellation.current_time = u32::MAX;
            }
            if self.cancellation.current_time >= CANCEL_COMMIT_MS && !self.cancellation.cancelable {
                self.cancellation.cancelable = true;
                self.cancellation.cancelable_after_time = CANCEL_COMMIT_MS;
                self.cancellation.can_cancel_into = CancelTargets::feint_targets();
            }
            if self.attack_timer >= dt_ms {
                self.attack_timer = self.attack_timer - dt_ms;
            } else {
                self.attack_timer = 0;
            }
            if self.attack_timer == 0 {
                self.is_attacking = false;
                self.machine.set_interruptible(true);
                self.cancellation.reset();
                if let PlayerAnimationState::Attacking(stage, _) = self.machine.current_state {
                    if (stage as u16) + 1 < (self.machine.max_combo_chain as u16) {
                        self.machine.start_combo_window(COMBO_WINDOW_MS);
                    } else {
                        self.machine.reset_combo();
                    }
                }
            }
        }
        self.machine.update(dt_ms);
    }

    /// Whether this tick's input may even attempt an attack: the trigger
    /// edge fired, the base cost is covered, the character is not
    /// exhausted, and either no swing is in flight or the combo window or
    /// an armed cancellation offers a way in.
    pub open spec fn spec_attack_eligible(self, input: InputState) -> bool {
        &&& input.attack_pressed
        &&& self.stamina.current >= ATTACK_COST_BASE
        &&& !self.stamina.exhausted
        &&& (!self.is_attacking || self.machine.combo_window_active || self.cancellation.cancelable)
    }

    /// The combo stage an attempted attack would start at: the next stage
    /// when continuing inside the combo window, stage zero otherwise.
    pub open spec fn spec_attack_stage(self) -> u8 {
        if self.machine.combo_window_active && self.machine.current_state is Attacking {
            self.machine.spec_next_stage()
        } else {
            0u8
        }
    }

    /// The state an attempted attack targets.
    pub open spec fn spec_attack_target(self, input: InputState) -> PlayerAnimationState {
        PlayerAnimationState::Attacking(
            self.spec_attack_stage(),
            spec_attack_direction(input.forward, input.backward, input.left, input.right),
        )
    }

    /// Whether this tick's attack attempt is accepted: it is eligible and
    /// the state machine admits the target.
    pub open spec fn spec_attack_accepted(self, input: InputState) -> bool {
        &&& self.spec_attack_eligible(input)
        &&& self.machine.spec_accepts(self.spec_attack_target(input), Some(&self.cancellation))
    }

    /// The controller state after a successful attack: the machine holds
    /// the new attacking state with the accepted stage recorded in the
    /// combo count, is no longer interruptible, and its combo window is
    /// closed; the stamina cost is drained; the cancellation window is
    /// reset for the new swing; and the swing countdown is armed, shorter
    /// for later stages.
    pub open spec fn spec_attack_result(self, input: InputState) -> Player {
        let stage = self.spec_attack_stage();
        let m1 = self.machine.spec_transition(
            self.spec_attack_target(input),
            Some(&self.cancellation),
        );
        Player {
            stamina: self.stamina.spec_drain(spec_attack_cost(stage)),
            machine: AnimationStateMachine {
                interruptible: false,
                combo_count: stage,
                combo_window_active: false,
                ..m1
            },
            cancellation: AnimationCancellation {
                cancelable: false,
                current_time: 0u32,
                ..self.cancellation
            },
            is_moving: self.is_moving,
            is_attacking: true,
            attack_timer: spec_attack_duration_ms(stage),
        }
    }

    /// The controller state after any attack attempt: changed as
    /// `spec_attack_result` states when accepted, untouched otherwise.
    pub open spec fn spec_try_attack(self, input: InputState) -> Player {
        if self.spec_attack_accepted(input) {
            self.spec_attack_result(input)
        } else {
            self
        }
    }

    /// Attempts an attack for this tick's input and reports whether one
    /// started.  A rejected attempt—insufficient stamina, exhaustion, no
    /// way into the state machine—mutates nothing.
    pub fn try_attack(&mut self, input: InputState) -> (started: bool)
        requires
            old(self).wf(),
        ensures
            started == old(self).spec_attack_accepted(input),
            *final(self) == old(self).spec_try_attack(input),
            final(self).wf(),
    {
        if !(input.attack_pressed && self.stamina.current >= ATTACK_COST_BASE
            && !self.stamina.exhausted) {
            return false;
        }
        if !(!self.is_attacking || self.machine.combo_window_active
            || self.cancellation.cancelable) {
            return false;
        }
        let direction = determine_attack_direction(
            input.forward,
            input.backward,
            input.left,
            input.right,
        );
        let stage: u8 = if self.machine.combo_window_active {
            if let PlayerAnimationState::Attacking(current_stage, _) = self.machine.current_state {
                if (current_stage as u16) + 1 < (self.machine.max_combo_chain as u16) {
                    current_stage + 1
                } else {
                    self.machine.max_combo_chain - 1
                }
            } else {
                0
            }
        } else {
            0
        };
        let target = PlayerAnimationState::Attacking(stage, direction);
        if self.machine.try_transition(target, Some(&self.cancellation)) {
            self.is_attacking = true;
            self.stamina.drain(ATTACK_COST_BASE + (stage as u32) * ATTACK_COST_PER_STAGE);
            self.machine.set_interruptible(false);
            self.machine.combo_count = stage;
            self.machine.combo_window_active = false;
            self.cancellation.reset();
            self.attack_timer = attack_duration_ms(stage);
            true
        } else {
            false
        }
    }

    /// Whether this tick issues a jump: the key is held, the character is
    /// grounded and not exhausted, and enough stamina is in reserve.  The
    /// jump is fed every tick the key is held; the physics controller is
    /// idempotent on redundant requests while airborne.
    pub open spec fn spec_jump_eligible(self, jump_held: bool, grounded: bool) -> bool {
        &&& jump_held
        &&& grounded
        &&& self.stamina.current >= JUMP_MIN_STAMINA
        &&& !self.stamina.exhausted
    }

    /// Decides this tick's jump and drains its per-tick cost when issued.
    pub fn feed_jump(&mut self, jump_held: bool, grounded: bool) -> (issued: bool)
        requires
            old(self).wf(),
        ensures
            issued == old(self).spec_jump_eligible(jump_held, grounded),
            issued ==> *final(self) == (Player {
                stamina: old(self).stamina.spec_spend(JUMP_TICK_COST),
                ..*old(self)
            }),
            !issued ==> *final(self) == *old(self),
            final(self).wf(),
    {
        if jump_held && grounded && self.stamina.current >= JUMP_MIN_STAMINA
            && !self.stamina.exhausted {
            let _granted = self.stamina.try_spend(JUMP_TICK_COST);
            true
        } else {
            false
        }
    }

    /// Whether this tick issues a dash: the key is held, the character is
    /// neither exhausted nor mid-attack, and enough stamina is in reserve.
    pub open spec fn spec_dash_eligible(self, dash_held: bool) -> bool {
        &&& dash_held
        &&& self.stamina.current >= DASH_MIN_STAMINA
        &&& !self.stamina.exhausted
        &&& !self.is_attacking
    }

    /// Decides this tick's dash, drains its per-tick cost when issued, and
    /// reports the heading: along the movement direction, or along the
    /// camera forward when standing still.
    pub fn feed_dash(&mut self, dash_held: bool, moving: bool) -> (heading: Option<DashHeading>)
        requires
            old(self).wf(),
        ensures
            heading is Some == old(self).spec_dash_eligible(dash_held),
            heading is Some ==> *final(self) == (Player {
                stamina: old(self).stamina.spec_spend(DASH_TICK_COST),
                ..*old(self)
            }),
            heading is None ==> *final(self) == *old(self),
            heading == (if old(self).spec_dash_eligible(dash_held) {
                if moving {
                    Some(DashHeading::MovementDirection)
                } else {
                    Some(DashHeading::CameraForward)
                }
            } else {
                None::<DashHeading>
            }),
            final(self).wf(),
    {
        if dash_held && self.stamina.current >= DASH_MIN_STAMINA && !self.stamina.exhausted
            && !self.is_attacking {
            let _granted = self.stamina.try_spend(DASH_TICK_COST);
            if moving {
                Some(DashHeading::MovementDirection)
            } else {
                Some(DashHeading::CameraForward)
            }
        } else {
            None
        }
    }

    /// The controller state after the timer and stamina phases of one
    /// tick.
    pub open spec fn spec_after_stamina(self, input: InputState, dt_ms: u32) -> Player {
        let moving = spec_intent_moving(input);
        let p1 = self.spec_advance_attack(dt_ms);
        Player {
            stamina: spec_stamina_tick(p1.stamina, moving, input.run_held, dt_ms),
            is_moving: moving,
            ..p1
        }
    }

    /// The controller state after the jump phase of one tick.
    pub open spec fn spec_after_jump(self, input: InputState, grounded: bool, dt_ms: u32) -> Player {
        let p2 = self.spec_after_stamina(input, dt_ms);
        if p2.spec_jump_eligible(input.jump_held, grounded) {
            Player { stamina: p2.stamina.spec_spend(JUMP_TICK_COST), ..p2 }
        } else {
            p2
        }
    }

    /// The controller state after the dash phase of one tick.
    pub open spec fn spec_after_dash(self, input: InputState, grounded: bool, dt_ms: u32) -> Player {
        let p3 = self.spec_after_jump(input, grounded, dt_ms);
        if p3.spec_dash_eligible(input.dash_held) {
            Player { stamina: p3.stamina.spec_spend(DASH_TICK_COST), ..p3 }
        } else {
            p3
        }
    }

    /// The controller state after a whole feeder tick, composing the
    /// phases in their fixed order: attack timers, stamina, jump, dash,
    /// attack.
    pub open spec fn spec_feeder_tick(self, input: InputState, grounded: bool, dt_ms: u32) -> Player {
        self.spec_after_dash(input, grounded, dt_ms).spec_try_attack(input)
    }

    /// Runs one full feeder tick: advances the attack and state-machine
    /// timers, updates the stamina ledger for the tick's movement, then
    /// decides jump, dash and attack.  Returns the issued actions; the
    /// locomotion command is computed afterwards from the settled ledger
    /// and fed to the physics controller unconditionally.
    pub fn feeder_tick(&mut self, input: InputState, grounded: bool, dt_ms: u32) -> (acts: TickActions)
        requires
            old(self).wf(),
            dt_ms <= MAX_TICK_MS,
        ensures
            *final(self) == old(self).spec_feeder_tick(input, grounded, dt_ms),
            final(self).wf(),
            acts.jump == old(self).spec_after_stamina(input, dt_ms).spec_jump_eligible(
                input.jump_held,
                grounded,
            ),
            (acts.dash is Some) == old(self).spec_after_jump(
                input,
                grounded,
                dt_ms,
            ).spec_dash_eligible(input.dash_held),
            acts.attack_started == old(self).spec_after_dash(
                input,
                grounded,
                dt_ms,
            ).spec_attack_accepted(input),
    {
        let moving = (input.forward != input.backward) || (input.left != input.right);
        assert(moving == spec_intent_moving(input));
        self.advance_attack_state(dt_ms);
        stamina_tick(&mut self.stamina, moving, input.run_held, dt_ms);
        self.is_moving = moving;
        let jump = self.feed_jump(input.jump_held, grounded);
        let dash = self.feed_dash(input.dash_held, moving);
        let attack_started = self.try_attack(input);
        TickActions { jump, dash, attack_started }
    }
}

} // verus!
